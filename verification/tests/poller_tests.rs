use zocli::json::to_json_text;
use zocli::poller::ResourceSubscriptionPoller;

#[test]
fn poller_reports_only_changed_digests() {
    let mut poller = ResourceSubscriptionPoller::new();
    poller.track("resource://zocli/account/a", 1);
    poller.track("resource://zocli/account/b", 2);
    let subs = vec![
        "resource://zocli/account/a".to_string(),
        "resource://zocli/account/b".to_string(),
        "resource://zocli/auth/c".to_string(),
    ];
    let notes = poller.collect_notifications(&subs, &vec![1, 5, 7]);
    assert_eq!(notes.len(), 1);
    assert_eq!(
        to_json_text(&notes[0]),
        "{\"jsonrpc\":\"2.0\",\"method\":\"notifications/resources/updated\",\"params\":{\"uri\":\"resource://zocli/account/b\"}}"
    );
    let again = poller.collect_notifications(&subs, &vec![1, 5, 8]);
    assert_eq!(again.len(), 1);
    let fewer = vec!["resource://zocli/auth/c".to_string()];
    assert!(poller.collect_notifications(&fewer, &vec![8]).is_empty());
    assert_eq!(poller.digests.len(), 1);
    poller.untrack("resource://zocli/auth/c");
    assert!(poller.digests.is_empty());
}
