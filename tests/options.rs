use kachaka_api::{LockOnEnd, StartCommandOptions};

#[test]
fn new_options_are_empty() {
    let options = StartCommandOptions::new();
    assert_eq!(options.title, "");
    assert_eq!(options.tts_on_success, "");
    assert!(!options.cancel_all);
    assert!(!options.deferrable);
    assert_eq!(options.lock_on_end, None);
}

#[test]
fn builders_set_each_field() {
    let options = StartCommandOptions::new()
        .title("Deliver")
        .tts_on_success("Done")
        .cancel_all(true)
        .deferrable(true)
        .lock_on_end(Some(LockOnEnd { duration_millis: 1500 }));
    assert_eq!(options.title, "Deliver");
    assert_eq!(options.tts_on_success, "Done");
    assert!(options.cancel_all);
    assert!(options.deferrable);
    assert_eq!(options.lock_on_end, Some(LockOnEnd { duration_millis: 1500 }));
}

#[test]
fn builders_leave_other_fields_alone() {
    let options = StartCommandOptions::new().cancel_all(true).title("A").cancel_all(false);
    assert_eq!(options.title, "A");
    assert!(!options.cancel_all);
    assert!(!options.deferrable);
    let defaulted = StartCommandOptions::default();
    assert_eq!(defaulted.title, "");
}
