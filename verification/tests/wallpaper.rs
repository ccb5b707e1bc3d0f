use wallman::config::FillMode;
use wallman::triggers::{OutputChange, TriggerResult};
use wallman::wallpaper::apply::apply;
use wallman::wallpaper::{kill_all, kill_for_output, register_process, ProcessTracker};

fn change(output: &str, image: &str) -> OutputChange {
    OutputChange { output: output.to_string(), image_path: image.to_string() }
}

#[test]
fn applying_replaces_the_renderer_of_an_output_and_leaves_others_alone() {
    let mut tracker = ProcessTracker::new();
    assert_eq!(register_process(&mut tracker, "A".to_string(), 11), None);
    let result = TriggerResult { changes: vec![change("A", "/a.png"), change("B", "/b.png")] };
    let mut session = apply(result);

    let first = session.next_command(&mut tracker).unwrap();
    assert_eq!(first.terminate, Some(11));
    assert_eq!(first.output, "A");
    assert_eq!(first.image_path, "/a.png");
    assert_eq!(first.fill_mode, FillMode::Fill);
    assert_eq!(tracker.process_of("A"), None);
    assert!(session.next_command(&mut tracker).is_none());
    assert_eq!(session.spawned(&mut tracker, Ok(21)), None);
    assert_eq!(tracker.process_of("A"), Some(21));

    let second = session.next_command(&mut tracker).unwrap();
    assert_eq!(second.terminate, None);
    assert_eq!(second.output, "B");
    assert_eq!(second.image_path, "/b.png");
    assert_eq!(tracker.process_of("A"), Some(21));
    session.spawned(&mut tracker, Ok(22));
    assert_eq!(tracker.process_of("A"), Some(21));
    assert_eq!(tracker.process_of("B"), Some(22));

    assert!(session.is_done());
    assert!(session.next_command(&mut tracker).is_none());
    assert!(session.finish().is_ok());
    assert_eq!(tracker.len(), 2);
}

#[test]
fn a_failed_start_does_not_keep_the_rest_from_being_applied() {
    let mut tracker = ProcessTracker::new();
    register_process(&mut tracker, "A".to_string(), 1);
    register_process(&mut tracker, "B".to_string(), 2);
    let result = TriggerResult {
        changes: vec![change("A", "/a.png"), change("B", "/b.png"), change("C", "/c.png")],
    };
    let mut session = apply(result);
    assert_eq!(session.next_command(&mut tracker).unwrap().terminate, Some(1));
    session.spawned(&mut tracker, Err("no renderer".to_string()));
    assert_eq!(tracker.process_of("A"), None);
    assert_eq!(session.next_command(&mut tracker).unwrap().terminate, Some(2));
    session.spawned(&mut tracker, Ok(5));
    assert_eq!(session.next_command(&mut tracker).unwrap().terminate, None);
    session.spawned(&mut tracker, Err("again".to_string()));
    assert!(session.is_done());
    let error = session.finish().unwrap_err();
    assert_eq!(error.output, "C");
    assert_eq!(error.message, "again");
    assert_eq!(tracker.process_of("B"), Some(5));
    assert_eq!(tracker.process_of("C"), None);
    assert_eq!(tracker.len(), 1);
}

#[test]
fn an_output_that_occurs_twice_in_a_batch_is_replaced_twice() {
    let mut tracker = ProcessTracker::new();
    let mut session = apply(TriggerResult { changes: vec![change("A", "/1.png"), change("A", "/2.png")] });
    assert_eq!(session.next_command(&mut tracker).unwrap().terminate, None);
    session.spawned(&mut tracker, Ok(7));
    let second = session.next_command(&mut tracker).unwrap();
    assert_eq!(second.terminate, Some(7));
    assert_eq!(second.image_path, "/2.png");
    session.spawned(&mut tracker, Ok(8));
    assert_eq!(tracker.process_of("A"), Some(8));
    assert_eq!(tracker.len(), 1);
}

#[test]
fn an_empty_batch_is_done_at_once() {
    let mut tracker = ProcessTracker::new();
    register_process(&mut tracker, "A".to_string(), 1);
    let mut session = apply(TriggerResult { changes: Vec::new() });
    assert!(session.is_done());
    assert!(session.next_command(&mut tracker).is_none());
    session.spawned(&mut tracker, Ok(99));
    assert_eq!(tracker.len(), 1);
    assert_eq!(tracker.process_of("A"), Some(1));
    assert!(session.finish().is_ok());
}

#[test]
fn a_start_that_was_not_asked_for_is_not_taken_in() {
    let mut tracker = ProcessTracker::new();
    let mut session = apply(TriggerResult { changes: vec![change("A", "/a.png")] });
    session.spawned(&mut tracker, Ok(5));
    assert_eq!(tracker.len(), 0);
    assert!(!session.is_done());
    assert_eq!(session.next_command(&mut tracker).unwrap().output, "A");
    session.spawned(&mut tracker, Ok(6));
    assert_eq!(tracker.process_of("A"), Some(6));
    assert!(session.is_done());
}

#[test]
fn kill_for_output_hands_back_only_that_outputs_process() {
    let mut tracker = ProcessTracker::new();
    register_process(&mut tracker, "A".to_string(), 1);
    register_process(&mut tracker, "B".to_string(), 2);
    assert_eq!(kill_for_output(&mut tracker, "C"), None);
    assert_eq!(kill_for_output(&mut tracker, "A"), Some(1));
    assert_eq!(kill_for_output(&mut tracker, "A"), None);
    assert_eq!(tracker.process_of("B"), Some(2));
    assert_eq!(tracker.len(), 1);
}

#[test]
fn registering_again_displaces_the_old_process() {
    let mut tracker = ProcessTracker::new();
    assert_eq!(register_process(&mut tracker, "A".to_string(), 1), None);
    assert_eq!(register_process(&mut tracker, "A".to_string(), 2), Some(1));
    assert_eq!(tracker.process_of("A"), Some(2));
    assert_eq!(tracker.len(), 1);
}

#[test]
fn kill_all_hands_back_every_process_and_empties_the_tracker() {
    let mut tracker = ProcessTracker::new();
    assert_eq!(kill_all(&mut tracker), Vec::<u32>::new());
    register_process(&mut tracker, "B".to_string(), 20);
    register_process(&mut tracker, "A".to_string(), 10);
    register_process(&mut tracker, "C".to_string(), 30);
    assert_eq!(kill_all(&mut tracker), vec![20, 10, 30]);
    assert_eq!(tracker.len(), 0);
    assert_eq!(tracker.process_of("A"), None);
}

#[test]
fn a_process_put_on_record_meanwhile_is_handed_out_when_the_new_one_starts() {
    let mut tracker = ProcessTracker::new();
    let mut session = apply(TriggerResult { changes: vec![change("A", "/a.png")] });
    assert_eq!(session.next_command(&mut tracker).unwrap().terminate, None);
    assert_eq!(register_process(&mut tracker, "A".to_string(), 3), None);
    assert_eq!(session.spawned(&mut tracker, Ok(4)), Some(3));
    assert_eq!(tracker.process_of("A"), Some(4));
    assert_eq!(tracker.len(), 1);
    assert_eq!(session.spawned(&mut tracker, Ok(5)), None);
    assert_eq!(tracker.process_of("A"), Some(4));
}

#[test]
fn a_failed_start_hands_out_no_process() {
    let mut tracker = ProcessTracker::new();
    let mut session = apply(TriggerResult { changes: vec![change("A", "/a.png")] });
    session.next_command(&mut tracker);
    assert_eq!(register_process(&mut tracker, "A".to_string(), 3), None);
    assert_eq!(session.spawned(&mut tracker, Err("no".to_string())), None);
    assert_eq!(tracker.process_of("A"), Some(3));
}
