//! Resolution of per-output tables against the outputs that are active.

use vstd::prelude::*;
use vstd::string::StringExecFns;
use crate::name_map::NameMap;
use crate::text::texts_of;

verus! {

/// The reserved key whose value applies to every output without an entry of
/// its own.
pub const WILDCARD: &'static str = "*";

/// The characters of the wildcard key.
pub open spec fn wildcard() -> Seq<char> {
    "*"@
}

/// One display output as the compositor lists it.
pub struct SwayOutput {
    pub name: String,
    pub active: bool,
}

/// What came of asking the compositor for its outputs.
pub enum OutputListing {
    /// The query could not be started.
    Unavailable,
    /// The query ran and reported failure.
    Failed,
    /// The query answered with something that is not a list of outputs.
    /// Holds the parser's message.
    Malformed(String),
    /// The query answered with this list.
    Listed(Vec<SwayOutput>),
}

/// Why the active outputs are not known. Such a failure leaves no output
/// known and is a warning, not an error: the daemon goes on without
/// outputs.
#[derive(Debug)]
pub enum DetectionError {
    /// The query could not be started.
    Unavailable,
    /// The query ran and reported failure.
    Failed,
    /// The compositor's answer was not a list of outputs. Holds the
    /// parser's message.
    Malformed(String),
}

/// A detection failure, with the parser's message as characters.
pub enum DetectionErrorView {
    Unavailable,
    Failed,
    Malformed(Seq<char>),
}

impl View for DetectionError {
    type V = DetectionErrorView;

    open spec fn view(&self) -> DetectionErrorView {
        match self {
            DetectionError::Unavailable => DetectionErrorView::Unavailable,
            DetectionError::Failed => DetectionErrorView::Failed,
            DetectionError::Malformed(message) => DetectionErrorView::Malformed(message@),
        }
    }
}

/// The view of an optional detection failure.
pub open spec fn opt_failure(failure: Option<DetectionError>) -> Option<DetectionErrorView> {
    match failure {
        Some(e) => Some(e@),
        None => None,
    }
}

impl DetectionError {
    /// The failure in words. For a malformed answer these are the parser's.
    pub open spec fn spec_message(self) -> Seq<char> {
        match self {
            DetectionError::Unavailable => "Could not run swaymsg to detect outputs. Falling back to no outputs."@,
            DetectionError::Failed => "swaymsg returned non-zero status. Falling back to no outputs."@,
            DetectionError::Malformed(message) => message@,
        }
    }

    /// The failure in words.
    pub fn message(&self) -> (text: String)
        ensures
            text@ == self.spec_message(),
    {
        match self {
            DetectionError::Unavailable => String::from_str(
                "Could not run swaymsg to detect outputs. Falling back to no outputs.",
            ),
            DetectionError::Failed => String::from_str(
                "swaymsg returned non-zero status. Falling back to no outputs.",
            ),
            DetectionError::Malformed(message) => message.clone(),
        }
    }
}

/// The names of the outputs of `listed` that are active, in listing order.
pub open spec fn active_names(listed: Seq<SwayOutput>) -> Seq<Seq<char>>
    decreases listed.len(),
{
    if listed.len() == 0 {
        Seq::empty()
    } else if listed.last().active {
        active_names(listed.drop_last()).push(listed.last().name@)
    } else {
        active_names(listed.drop_last())
    }
}

/// The outputs that a listing makes known: the active ones of a list, and
/// none where the query did not run, failed or gave a malformed answer.
pub open spec fn listing_names(listing: OutputListing) -> Seq<Seq<char>> {
    match listing {
        OutputListing::Listed(listed) => active_names(listed@),
        _ => Seq::empty(),
    }
}

/// The failure that a listing stands for, if it stands for one.
pub open spec fn listing_failure(listing: OutputListing) -> Option<DetectionErrorView> {
    match listing {
        OutputListing::Unavailable => Some(DetectionErrorView::Unavailable),
        OutputListing::Failed => Some(DetectionErrorView::Failed),
        OutputListing::Malformed(message) => Some(DetectionErrorView::Malformed(message@)),
        OutputListing::Listed(_) => None,
    }
}

/// The value that applies to `output` in `table`: its own entry if it has
/// one, else the wildcard entry, else none.
pub open spec fn resolve_entry<T>(table: Map<Seq<char>, T>, output: Seq<char>) -> Option<T> {
    if table.contains_key(output) {
        Some(table[output])
    } else if table.contains_key(wildcard()) {
        Some(table[wildcard()])
    } else {
        None
    }
}

/// The outputs of `outputs` that `table` covers, each once, in the order of
/// their first occurrence.
pub open spec fn resolved_keys<T>(outputs: Seq<Seq<char>>, table: Map<Seq<char>, T>) -> Seq<
    Seq<char>,
>
    decreases outputs.len(),
{
    if outputs.len() == 0 {
        Seq::empty()
    } else {
        let before = resolved_keys(outputs.drop_last(), table);
        let output = outputs.last();
        if resolve_entry(table, output) is Some && !before.contains(output) {
            before.push(output)
        } else {
            before
        }
    }
}

/// The resolved outputs are those active outputs that the table covers, and
/// none of them is listed twice.
pub proof fn lemma_resolved_keys<T>(outputs: Seq<Seq<char>>, table: Map<Seq<char>, T>)
    ensures
        resolved_keys(outputs, table).no_duplicates(),
        forall|k: Seq<char>| #[trigger]
            resolved_keys(outputs, table).contains(k) <==> outputs.contains(k) && resolve_entry(
                table,
                k,
            ) is Some,
    decreases outputs.len(),
{
    if outputs.len() > 0 {
        let shorter = outputs.drop_last();
        let before = resolved_keys(shorter, table);
        let output = outputs.last();
        let now = resolved_keys(outputs, table);
        lemma_resolved_keys(shorter, table);
        assert forall|k: Seq<char>| #[trigger]
            now.contains(k) <==> outputs.contains(k) && resolve_entry(table, k) is Some by {
            if now.contains(k) {
                let j = now.index_of(k);
                if j < before.len() {
                    assert(before[j] == k);
                    assert(before.contains(k));
                    let i = shorter.index_of(k);
                    assert(outputs[i] == k);
                } else {
                    assert(outputs[outputs.len() - 1] == k);
                }
            }
            if outputs.contains(k) && resolve_entry(table, k) is Some {
                let i = outputs.index_of(k);
                if i < shorter.len() {
                    assert(shorter[i] == k);
                    assert(before.contains(k));
                    let j = before.index_of(k);
                    assert(now[j] == k);
                } else if before.contains(k) {
                    let j = before.index_of(k);
                    assert(now[j] == k);
                } else {
                    assert(now[before.len() as int] == k);
                }
            }
        }
    }
}

/// The outputs that are currently active, against which per-output tables
/// are resolved, and the failure that kept them from being known, if one
/// did.
pub struct OutputResolver {
    outputs: Vec<String>,
    failure: Option<DetectionError>,
}

impl OutputResolver {
    /// The names of the active outputs, in detection order.
    pub closed spec fn names(&self) -> Seq<Seq<char>> {
        texts_of(self.outputs@)
    }

    /// The failure that left the resolver without outputs, if one did.
    pub closed spec fn warned(&self) -> Option<DetectionErrorView> {
        opt_failure(self.failure)
    }

    /// A resolver for the given output names.
    pub fn from_outputs(outputs: Vec<String>) -> (resolver: Self)
        ensures
            resolver.names() == texts_of(outputs@),
            resolver.warned() is None,
    {
        OutputResolver { outputs, failure: None }
    }

    /// A resolver for the outputs that `listing` makes known. A query that
    /// did not run, failed or gave a malformed answer leaves no output
    /// known, and the resolver keeps the failure for a warning.
    pub fn from_listing(listing: &OutputListing) -> (resolver: Self)
        ensures
            resolver.names() == listing_names(*listing),
            resolver.warned() == listing_failure(*listing),
    {
        let names = match listing {
            OutputListing::Listed(listed) => active_output_names(listed),
            _ => Vec::new(),
        };
        proof {
            if !(listing is Listed) {
                assert(texts_of(names@) =~= Seq::<Seq<char>>::empty());
            }
        }
        OutputResolver { outputs: names, failure: detection_warning(listing) }
    }

    /// A resolver for the outputs that `listing` makes known. Detection
    /// itself never fails: a failure of the query leaves no output known
    /// and is kept with the resolver for a warning.
    pub fn detect(listing: &OutputListing) -> (detected: Result<Self, DetectionError>)
        ensures
            detected matches Ok(resolver) && resolver.names() == listing_names(*listing)
                && resolver.warned() == listing_failure(*listing),
    {
        Ok(OutputResolver::from_listing(listing))
    }

    /// The failure that left the resolver without outputs, if one did.
    pub fn warning(&self) -> (failure: Option<&DetectionError>)
        ensures
            match failure {
                Some(e) => self.warned() == Some(e@),
                None => self.warned() is None,
            },
    {
        match &self.failure {
            Some(e) => Some(e),
            None => None,
        }
    }

    /// The active outputs.
    pub fn outputs(&self) -> (outputs: &[String])
        ensures
            texts_of(outputs@) == self.names(),
            outputs@.len() == self.names().len(),
    {
        self.outputs.as_slice()
    }

    /// Resolves `map` against the active outputs: every active output that
    /// has an entry of its own gets a copy of it, every other active output
    /// gets a copy of the wildcard entry if there is one, and an output that
    /// neither covers is left out.
    pub fn resolve_map<T: Clone>(&self, map: &NameMap<T>) -> (resolved: NameMap<T>)
        ensures
            resolved.keys() == resolved_keys(self.names(), map@),
            forall|k: Seq<char>| #[trigger]
                resolved@.contains_key(k) <==> self.names().contains(k) && (map@.contains_key(k)
                    || map@.contains_key(wildcard())),
            forall|k: Seq<char>| #[trigger]
                resolved@.contains_key(k) ==> cloned(
                    resolve_entry(map@, k).unwrap(),
                    resolved@[k],
                ),
    {
        let mut result: NameMap<T> = NameMap::new();
        let mut i: usize = 0;
        while i < self.outputs.len()
            invariant
                i <= self.outputs.len(),
                result.keys() == resolved_keys(self.names().take(i as int), map@),
                forall|k: Seq<char>| #[trigger]
                    result@.contains_key(k) ==> cloned(
                        resolve_entry(map@, k).unwrap(),
                        result@[k],
                    ),
            decreases self.outputs.len() - i,
        {
            let output = &self.outputs[i];
            let ghost before = result;
            proof {
                assert(self.names().take(i as int + 1).drop_last() =~= self.names().take(i as int));
                assert(self.names().take(i as int + 1).last() == output@);
                before.lemma_keys_are_domain(output@);
            }
            match map.get(output.as_str()) {
                Some(value) => {
                    result.insert(output.clone(), value.clone());
                },
                None => {
                    match map.get(WILDCARD) {
                        Some(fallback) => {
                            result.insert(output.clone(), fallback.clone());
                        },
                        None => {},
                    }
                },
            }
            i = i + 1;
        }
        proof {
            assert(self.names().take(i as int) =~= self.names());
            lemma_resolved_keys(self.names(), map@);
            assert forall|k: Seq<char>| #[trigger]
                result@.contains_key(k) <==> self.names().contains(k) && (map@.contains_key(k)
                    || map@.contains_key(wildcard())) by {
                result.lemma_keys_are_domain(k);
            }
        }
        result
    }

    /// Resolves `map` against the active outputs as `resolve_map` does, with
    /// references to the entries of `map` in place of copies.
    pub fn resolve_refs<'a, T>(&self, map: &'a NameMap<T>) -> (resolved: NameMap<&'a T>)
        ensures
            resolved.keys() == resolved_keys(self.names(), map@),
            forall|k: Seq<char>| #[trigger]
                resolved@.contains_key(k) <==> self.names().contains(k) && (map@.contains_key(k)
                    || map@.contains_key(wildcard())),
            forall|k: Seq<char>| #[trigger]
                resolved@.contains_key(k) ==> Some(*resolved@[k]) == resolve_entry(map@, k),
    {
        let mut result: NameMap<&'a T> = NameMap::new();
        let mut i: usize = 0;
        while i < self.outputs.len()
            invariant
                i <= self.outputs.len(),
                result.keys() == resolved_keys(self.names().take(i as int), map@),
                forall|k: Seq<char>| #[trigger]
                    result@.contains_key(k) ==> Some(*result@[k]) == resolve_entry(map@, k),
            decreases self.outputs.len() - i,
        {
            let output = &self.outputs[i];
            let ghost before = result;
            proof {
                assert(self.names().take(i as int + 1).drop_last() =~= self.names().take(i as int));
                assert(self.names().take(i as int + 1).last() == output@);
                before.lemma_keys_are_domain(output@);
            }
            match map.get(output.as_str()) {
                Some(value) => {
                    result.insert(output.clone(), value);
                },
                None => {
                    match map.get(WILDCARD) {
                        Some(fallback) => {
                            result.insert(output.clone(), fallback);
                        },
                        None => {},
                    }
                },
            }
            i = i + 1;
        }
        proof {
            assert(self.names().take(i as int) =~= self.names());
            lemma_resolved_keys(self.names(), map@);
            assert forall|k: Seq<char>| #[trigger]
                result@.contains_key(k) <==> self.names().contains(k) && (map@.contains_key(k)
                    || map@.contains_key(wildcard())) by {
                result.lemma_keys_are_domain(k);
            }
        }
        result
    }
}

/// The value that applies to `output` in `map`: its own entry if it has one,
/// else the wildcard entry, else none.
pub fn resolve_in<'a, T>(map: &'a NameMap<T>, output: &str) -> (found: Option<&'a T>)
    ensures
        match found {
            Some(value) => resolve_entry(map@, output@) == Some(*value),
            None => resolve_entry(map@, output@) is None,
        },
{
    match map.get(output) {
        Some(value) => Some(value),
        None => map.get(WILDCARD),
    }
}

/// The names of the active outputs that `listing` makes known: none where
/// the query did not run, failed or gave a malformed answer. It never
/// fails.
pub fn detect_outputs(listing: &OutputListing) -> (detected: Result<Vec<String>, DetectionError>)
    ensures
        detected matches Ok(names) && texts_of(names@) == listing_names(*listing) && names@.len()
            == listing_names(*listing).len(),
{
    match listing {
        OutputListing::Listed(listed) => Ok(active_output_names(listed)),
        _ => {
            let names: Vec<String> = Vec::new();
            assert(texts_of(names@) =~= Seq::<Seq<char>>::empty());
            Ok(names)
        },
    }
}

/// The failure that `listing` stands for, if it stands for one: what to
/// warn of when the outputs are taken from it.
pub fn detection_warning(listing: &OutputListing) -> (failure: Option<DetectionError>)
    ensures
        opt_failure(failure) == listing_failure(*listing),
{
    match listing {
        OutputListing::Unavailable => Some(DetectionError::Unavailable),
        OutputListing::Failed => Some(DetectionError::Failed),
        OutputListing::Malformed(message) => Some(DetectionError::Malformed(message.clone())),
        OutputListing::Listed(_) => None,
    }
}

/// The names of the listed outputs that are active, in listing order.
pub fn active_output_names(listed: &Vec<SwayOutput>) -> (names: Vec<String>)
    ensures
        texts_of(names@) == active_names(listed@),
{
    let mut names: Vec<String> = Vec::new();
    let mut i: usize = 0;
    assert(listed@.take(0) =~= Seq::<SwayOutput>::empty());
    assert(texts_of(names@) =~= Seq::<Seq<char>>::empty());
    while i < listed.len()
        invariant
            i <= listed.len(),
            texts_of(names@) == active_names(listed@.take(i as int)),
        decreases listed.len() - i,
    {
        proof {
            assert(listed@.take(i as int + 1).drop_last() =~= listed@.take(i as int));
            assert(listed@.take(i as int + 1).last() == listed@[i as int]);
        }
        let ghost before = names@;
        if listed[i].active {
            names.push(listed[i].name.clone());
            assert(texts_of(names@) =~= texts_of(before).push(listed@[i as int].name@));
        }
        i = i + 1;
    }
    assert(listed@.take(i as int) =~= listed@);
    names
}

} // verus!
