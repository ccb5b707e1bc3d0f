use wallman::name_map::NameMap;
use wallman::outputs::resolver::{
    active_output_names, detect_outputs, detection_warning, resolve_in, DetectionError,
    OutputListing, SwayOutput,
};
use wallman::outputs::OutputResolver;

fn names(list: &[&str]) -> Vec<String> {
    list.iter().map(|s| s.to_string()).collect()
}

#[test]
fn test_resolve_exact_match() {
    let resolver = OutputResolver::from_outputs(vec!["HDMI-1".to_string(), "DP-1".to_string()]);

    let mut map = NameMap::new();
    map.insert("HDMI-1".to_string(), "a.png".to_string());
    map.insert("*".to_string(), "default.png".to_string());

    let resolved = resolver.resolve_map(&map);

    assert_eq!(resolved.get("HDMI-1"), Some(&"a.png".to_string()));
    assert_eq!(resolved.get("DP-1"), Some(&"default.png".to_string()));
}

#[test]
fn test_resolve_wildcard_only() {
    let resolver = OutputResolver::from_outputs(vec!["HDMI-1".to_string(), "DP-1".to_string()]);

    let mut map = NameMap::new();
    map.insert("*".to_string(), "default.png".to_string());

    let resolved = resolver.resolve_map(&map);

    assert_eq!(resolved.get("HDMI-1"), Some(&"default.png".to_string()));
    assert_eq!(resolved.get("DP-1"), Some(&"default.png".to_string()));
}

#[test]
fn test_resolve_missing_output_skipped() {
    let resolver = OutputResolver::from_outputs(vec!["HDMI-1".to_string()]);

    let map: NameMap<String> = NameMap::new();

    let resolved = resolver.resolve_map(&map);
    assert!(resolved.is_empty());
}

#[test]
fn test_parse_swaymsg_outputs() {
    let json = r#"[{"name": "HDMI-A-1","active": true},{"name": "DP-1","active": false}]"#;
    let value: serde_json::Value = serde_json::from_str(json).unwrap();
    let mut listed = Vec::new();
    for item in value.as_array().unwrap() {
        listed.push(SwayOutput {
            name: item.get("name").unwrap().as_str().unwrap().to_string(),
            active: item.get("active").unwrap().as_bool().unwrap(),
        });
    }
    let outputs = detect_outputs(&OutputListing::Listed(listed)).unwrap();
    assert_eq!(outputs, vec!["HDMI-A-1".to_string()]);
}

#[test]
fn resolve_includes_exactly_the_covered_active_outputs() {
    let resolver = OutputResolver::from_outputs(names(&["A", "B", "C"]));
    let mut map = NameMap::new();
    map.insert("B".to_string(), 2u32);
    map.insert("Z".to_string(), 26u32);
    let resolved = resolver.resolve_map(&map);
    assert_eq!(resolved.len(), 1);
    assert_eq!(resolved.get("B"), Some(&2));
    assert_eq!(resolved.get("A"), None);
    assert_eq!(resolved.get("C"), None);
    assert_eq!(resolved.get("Z"), None);
    assert!(!resolved.contains_key("*"));
}

#[test]
fn resolve_prefers_exact_entry_over_wildcard() {
    let resolver = OutputResolver::from_outputs(names(&["A", "B"]));
    let mut map = NameMap::new();
    map.insert("*".to_string(), 0u32);
    map.insert("A".to_string(), 1u32);
    let resolved = resolver.resolve_map(&map);
    assert_eq!(resolved.get("A"), Some(&1));
    assert_eq!(resolved.get("B"), Some(&0));
    assert_eq!(resolved.get("*"), None);
}

#[test]
fn resolve_keeps_detection_order_and_lists_an_output_once() {
    let resolver = OutputResolver::from_outputs(names(&["B", "A", "B", "C"]));
    let mut map = NameMap::new();
    map.insert("*".to_string(), 7u32);
    let resolved = resolver.resolve_map(&map);
    assert_eq!(resolved.len(), 3);
    assert_eq!(resolved.key_at(0), "B");
    assert_eq!(resolved.key_at(1), "A");
    assert_eq!(resolved.key_at(2), "C");
}

#[test]
fn resolve_refs_agrees_with_resolve_map() {
    let resolver = OutputResolver::from_outputs(names(&["A", "B", "C"]));
    let mut map = NameMap::new();
    map.insert("A".to_string(), "a".to_string());
    map.insert("*".to_string(), "w".to_string());
    let owned = resolver.resolve_map(&map);
    let borrowed = resolver.resolve_refs(&map);
    assert_eq!(owned.len(), borrowed.len());
    for i in 0..owned.len() {
        assert_eq!(owned.key_at(i), borrowed.key_at(i));
        assert_eq!(owned.value_at(i), *borrowed.value_at(i));
    }
}

#[test]
fn an_output_named_like_the_wildcard_is_an_exact_match() {
    let resolver = OutputResolver::from_outputs(names(&["*"]));
    let mut map = NameMap::new();
    map.insert("*".to_string(), 1u32);
    let resolved = resolver.resolve_map(&map);
    assert_eq!(resolved.get("*"), Some(&1));
}

#[test]
fn resolve_in_falls_back_to_the_wildcard() {
    let mut map = NameMap::new();
    map.insert("A".to_string(), 1u32);
    assert_eq!(resolve_in(&map, "A"), Some(&1));
    assert_eq!(resolve_in(&map, "B"), None);
    map.insert("*".to_string(), 9u32);
    assert_eq!(resolve_in(&map, "B"), Some(&9));
    assert_eq!(resolve_in(&map, "A"), Some(&1));
}

#[test]
fn outputs_are_handed_back_as_given() {
    let resolver = OutputResolver::from_outputs(names(&["X", "Y", "X"]));
    assert_eq!(resolver.outputs(), &names(&["X", "Y", "X"])[..]);
}

#[test]
fn a_query_that_did_not_run_or_failed_leaves_no_outputs() {
    assert_eq!(detect_outputs(&OutputListing::Unavailable).unwrap(), Vec::<String>::new());
    assert_eq!(detect_outputs(&OutputListing::Failed).unwrap(), Vec::<String>::new());
    let resolver = OutputResolver::detect(&OutputListing::Failed).unwrap();
    assert!(resolver.outputs().is_empty());
    assert!(matches!(resolver.warning(), Some(DetectionError::Failed)));
    let resolver = OutputResolver::detect(&OutputListing::Unavailable).unwrap();
    assert!(resolver.outputs().is_empty());
    assert!(matches!(resolver.warning(), Some(DetectionError::Unavailable)));
}

#[test]
fn a_malformed_answer_leaves_no_outputs_and_hands_out_the_parsers_message() {
    let listing = OutputListing::Malformed("expected value at line 1".to_string());
    assert_eq!(detect_outputs(&listing).unwrap(), Vec::<String>::new());
    let resolver = OutputResolver::detect(&listing).unwrap();
    assert!(resolver.outputs().is_empty());
    match resolver.warning() {
        Some(DetectionError::Malformed(message)) => assert_eq!(message, "expected value at line 1"),
        _ => panic!("the parser's message is kept for the warning"),
    }
    assert_eq!(resolver.warning().unwrap().message(), "expected value at line 1");
    let mut map = NameMap::new();
    map.insert("*".to_string(), 1u32);
    assert!(resolver.resolve_map(&map).is_empty());
}

#[test]
fn every_failed_detection_has_its_warning_and_a_list_has_none() {
    assert!(detection_warning(&OutputListing::Listed(Vec::new())).is_none());
    let listed = vec![SwayOutput { name: "A".to_string(), active: true }];
    let resolver = OutputResolver::from_listing(&OutputListing::Listed(listed));
    assert_eq!(resolver.outputs(), &names(&["A"])[..]);
    assert!(resolver.warning().is_none());
    assert!(OutputResolver::from_outputs(names(&["A"])).warning().is_none());
    assert_eq!(
        detection_warning(&OutputListing::Unavailable).unwrap().message(),
        "Could not run swaymsg to detect outputs. Falling back to no outputs."
    );
    assert_eq!(
        detection_warning(&OutputListing::Failed).unwrap().message(),
        "swaymsg returned non-zero status. Falling back to no outputs."
    );
    assert_eq!(detection_warning(&OutputListing::Malformed("m".to_string())).unwrap().message(), "m");
    let resolver = OutputResolver::from_listing(&OutputListing::Malformed("m".to_string()));
    assert!(resolver.outputs().is_empty());
    assert!(matches!(resolver.warning(), Some(DetectionError::Malformed(m)) if m == "m"));
}

#[test]
fn only_active_outputs_are_named_in_listing_order() {
    let listed = vec![
        SwayOutput { name: "C".to_string(), active: true },
        SwayOutput { name: "A".to_string(), active: false },
        SwayOutput { name: "B".to_string(), active: true },
    ];
    assert_eq!(active_output_names(&listed), names(&["C", "B"]));
    assert_eq!(active_output_names(&Vec::new()), Vec::<String>::new());
}
