use qbitbot::action::QbCommandAction;
use qbitbot::chat::{denial_message, ChatAction, QbChat};
use qbitbot::config::QbConfig;
use qbitbot::download::QDownloadAction;
use qbitbot::list::TorrentEntry;
use qbitbot::menu::MenuValue;
use qbitbot::retry::{RetryPolicy, RetryState, RetryStep};

const MAGNET_LINK: &str = "magnet:?xt=urn:btih:60A2A94625373B5ACAE66D4C693AE5F3417690C1&tr=http%3A%2F%2Fbt3.t-ru.org%2Fann%3Fmagnet&dn=Peter%20Bruce%2C%20Andrew%20Bruce%2C%20Peter%20Gedeck%20%2F%20Питер%20Брюс%2C%20Эндрю%20Брюс%2C%20Питер%20Гедек%20-%20Practical%20Statistics%20for%20Data%20Scientists%20%2F%20Практическая%20статистика%20для";

fn listed(hashes: &[&str]) -> Vec<TorrentEntry> {
    hashes
        .iter()
        .map(|h| TorrentEntry {
            hash: Some(h.to_string()),
            name: Some(format!("\"{}\"", h)),
            size: Some(0),
            progress: Some(0),
            eta: Some(8640000),
            completion_on: Some(-10800),
            state: Some("\"metaDL\"".to_string()),
        })
        .collect()
}

/// Runs an add's confirmation reads against a daemon whose list reads `after` each time.
fn confirm_add(before: &[&str], after: &[&str]) -> QDownloadAction {
    let before = QDownloadAction::get_hashes(&listed(before));
    let after = Some(listed(after));
    let mut download = QDownloadAction::new();
    let mut retry = RetryState::new(RetryPolicy::confirmation());
    while let RetryStep::RetryAfter(_) = download.confirm_step(&mut retry, &before, &after) {}
    download
}

#[test]
fn test_not_admin() {
    let conf = QbConfig::new(
        "http://localhost:8080".to_string(),
        "admin".to_string(),
        "adminadmin".to_string(),
        "Tester",
        "info".to_string(),
        "SECRET-REDACTED".to_string(),
    );
    assert!(!conf.is_admin("BadTester"));
    assert!(conf.is_admin("Tester"));
    assert_eq!(denial_message(), "You are not allowed to chat with me");
}

#[test]
fn test_complex_test_download() {
    let mut chat = QbChat::new(0);
    assert!(matches!(chat.select_goto("/download"), ChatAction::Show));
    let wants = "Send torrent link or attach torrent file

Buttons:

/back";
    assert_eq!(chat.render(), wants);

    match chat.select_goto(MAGNET_LINK) {
        ChatAction::AddLink(link) => assert_eq!(link, MAGNET_LINK),
        other => panic!("unexpected {:?}", other),
    }
    let added = confirm_add(&["A"], &["A", "60a2a946"]);
    assert_eq!(added.action_result_to_string(), "OK");
    assert_eq!(added.torrent_hash, "60a2a946");

    // item is already added: the daemon ignores it and no new hash shows up
    match chat.select_goto(MAGNET_LINK) {
        ChatAction::AddLink(link) => assert_eq!(link, MAGNET_LINK),
        other => panic!("unexpected {:?}", other),
    }
    let again = confirm_add(&["A", "60a2a946"], &["A", "60a2a946"]);
    assert_eq!(again.action_result_to_string(), "FAIL");
    assert_eq!(chat.get_menu_pos(), MenuValue::Download);
}
