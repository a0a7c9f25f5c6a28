use ralph::queue_lock::{
    chain_has_lock_held, clear_stale_queue_lock_for_resume, is_queue_lock_already_held_error,
};

#[test]
fn lock_held_detected_anywhere_in_chain() {
    let chain = vec![
        "run one failed".to_string(),
        "Queue lock already held at: /repo/.ralph/lock".to_string(),
    ];
    assert!(chain_has_lock_held(&chain));
    assert!(!chain_has_lock_held(&["queue lock already held".to_string()]));
}

#[test]
fn lock_held_error_through_anyhow_chain() {
    let err = anyhow::Error::msg("Queue lock already held at: /repo/.ralph/lock").context("acquire lock");
    assert!(is_queue_lock_already_held_error(&err));
    let other = anyhow::Error::msg("permission denied");
    assert!(!is_queue_lock_already_held_error(&other));
}

#[test]
fn resume_lock_cleanup_reports_only_other_errors() {
    assert!(clear_stale_queue_lock_for_resume(false, Some(vec!["boom".to_string()])).is_ok());
    assert!(clear_stale_queue_lock_for_resume(true, None).is_ok());
    assert!(clear_stale_queue_lock_for_resume(
        true,
        Some(vec!["Queue lock already held at: x".to_string()])
    )
    .is_ok());
    assert_eq!(
        clear_stale_queue_lock_for_resume(true, Some(vec!["boom".to_string()])),
        Err(vec!["boom".to_string()])
    );
}
