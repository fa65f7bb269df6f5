use qbitbot::action::QbCommandAction;
use qbitbot::chat::{fit_message, parse_usize_from, denial_message};
use qbitbot::config::{parse_admins, QbConfig};
use qbitbot::download::{check_is_completed, CheckType, QDownloadAction, TorrentProperties};
use qbitbot::list::{
    classify_eta, humanize_eta, EtaLabel, ListError, MaindataReply, QListAction, QbListRecord,
    TorrentEntry,
};
use qbitbot::pause_resume::QPauseResumeAction;
use qbitbot::requests::MaindataResponse;
use qbitbot::retry::{RetryPolicy, RetryState, RetryStep};
use qbitbot::text::{contains_text, decimal_text, prefix_text};

fn entry(hash: &str) -> TorrentEntry {
    TorrentEntry {
        hash: Some(hash.to_string()),
        name: Some(format!("\"{}\"", hash)),
        size: Some(3 * 1048576 + 7),
        progress: Some(50),
        eta: Some(8640000),
        completion_on: Some(0),
        state: Some("\"pausedDL\"".to_string()),
    }
}

fn with_state(hash: &str, state: &str) -> TorrentEntry {
    let mut e = entry(hash);
    e.state = Some(format!("\"{}\"", state));
    e
}

fn policy() -> RetryPolicy {
    RetryPolicy { max_attempts: 3, delay_ms: 500 }
}

#[test]
fn eta_labels() {
    assert_eq!(humanize_eta(8640000, -10800).as_deref(), Some("waiting"));
    assert_eq!(humanize_eta(8640000, 0).as_deref(), Some("done"));
    assert_eq!(humanize_eta(-5, 0), None);
    assert_eq!(classify_eta(120, 0), Some(EtaLabel::At(120)));
    assert_eq!(classify_eta(8640000, -10800), Some(EtaLabel::Waiting));
}

#[test]
fn eta_in_two_minutes_is_a_local_time() {
    let expected = chrono::Local::now() + chrono::TimeDelta::try_seconds(120).unwrap();
    let label = humanize_eta(120, 0).unwrap();
    assert_eq!(label.len(), 19);
    let parsed = chrono::NaiveDateTime::parse_from_str(&label, "%Y-%m-%d %H:%M:%S").unwrap();
    let diff = (parsed - expected.naive_local()).num_seconds().abs();
    assert!(diff <= 5, "{} is {} s away from now + 120 s", label, diff);
}

#[test]
fn record_fields_and_line() {
    let rec = QbListRecord::parse_record(4, &entry("abc")).unwrap();
    assert_eq!(rec.num, 4);
    assert_eq!(rec.size, 3);
    assert_eq!(rec.progress, 50);
    assert_eq!(rec.get_hash(), "abc");
    assert_eq!(rec.get_name(), "abc");
    assert_eq!(rec.eta, "done");
    assert_eq!(
        rec.to_text(),
        "/torrent4<code> | abc                  |      3 Mb |  50% | done               </code>"
    );
}

#[test]
fn record_names_lose_quotes_and_tail() {
    assert_eq!(QbListRecord::parse_name("\"a\\\"b\""), "a\\b");
    assert_eq!(
        QbListRecord::parse_name("\"Practical Statistics for Data Scientists\""),
        "Practical Statistics"
    );
    assert_eq!(QbListRecord::parse_name("42"), "42");
}

#[test]
fn records_missing_fields_are_dropped() {
    let mut no_hash = entry("x");
    no_hash.hash = None;
    let mut no_name = entry("y");
    no_name.name = None;
    let mut no_size = entry("z");
    no_size.size = None;
    let mut no_progress = entry("w");
    no_progress.progress = None;
    let mut bad_eta = entry("v");
    bad_eta.eta = Some(-3);
    let items = vec![entry("a"), no_hash, no_name, entry("b"), no_size, no_progress, bad_eta];
    let records = QListAction::update_records(&items);
    assert_eq!(records.len(), 2);
    assert!(records.len() <= items.len());
    assert_eq!(records[0].num, 0);
    assert_eq!(records[1].num, 3);
    assert_eq!(records[1].get_hash(), "b");
    assert!(QbListRecord::parse_record(0, &items[1]).is_none());
}

#[test]
fn listing_text_and_empty_list() {
    let list = QListAction::new(&vec![entry("a"), entry("b")]);
    assert_eq!(
        list.action_result_to_string(),
        "/torrent0<code> | a                    |      3 Mb |  50% | done               </code>\n/torrent1<code> | b                    |      3 Mb |  50% | done               </code>"
    );
    assert_eq!(list.get_records().len(), 2);
    assert_eq!(list.get_record_by_num(1).unwrap().get_hash(), "b");
    assert!(list.get_record_by_num(2).is_none());
    let empty = QListAction::new(&vec![]);
    assert_eq!(empty.action_result_to_string(), "Failed to get Qbittorrent response");
}

#[test]
fn sync_without_change_fetches_nothing() {
    let mut list = QListAction::new(&vec![entry("a")]);
    assert_eq!(list.maindata_request(), MaindataResponse { rid: 0 });
    let reply = MaindataReply { rid: Some(7), full_update: Some(false) };
    assert!(!list.check_and_update(&reply));
    assert_eq!(list.maindata_request().rid, 7);
    assert!(!list.check_and_update(&reply));
    assert_eq!(list.maindata_request().rid, 7);
    assert_eq!(list.get_records().len(), 1);
    let absent = MaindataReply { rid: Some(8), full_update: None };
    assert!(!list.check_and_update(&absent));
}

#[test]
fn sync_with_change_or_bad_reply_fetches() {
    let mut list = QListAction::new(&vec![entry("a")]);
    let changed = MaindataReply { rid: Some(3), full_update: Some(true) };
    assert_eq!(list.check_has_changes(&changed), Ok(true));
    assert_eq!(list.maindata_request().rid, 3);
    let bad = MaindataReply { rid: None, full_update: Some(false) };
    assert_eq!(list.check_has_changes(&bad), Err(ListError::BadSyncReply));
    assert_eq!(list.maindata_request().rid, 3);
    assert!(list.check_and_update(&bad));
    assert_eq!(ListError::BadSyncReply.message(), "Failed to parse Qbittorrent response");
    list.update(&vec![entry("a"), entry("b"), entry("c")]);
    assert_eq!(list.get_records().len(), 3);
    assert_eq!(list.maindata_request().rid, 3);
    assert_eq!(MaindataResponse::default().rid, 0);
}

#[test]
fn add_confirmed_with_one_new_hash() {
    let before = QDownloadAction::get_hashes(&vec![entry("A"), entry("B")]);
    let mut action = QDownloadAction::new();
    let mut retry = RetryState::new(policy());
    let after = Some(vec![entry("A"), entry("B"), entry("C")]);
    assert_eq!(action.confirm_step(&mut retry, &before, &after), RetryStep::Finished);
    assert!(action.status);
    assert_eq!(action.torrent_hash, "C");
    assert_eq!(action.action_result_to_string(), "OK");
}

#[test]
fn add_with_two_new_hashes_exhausts_retries() {
    let before = QDownloadAction::get_hashes(&vec![entry("A"), entry("B")]);
    let mut action = QDownloadAction::new();
    let mut retry = RetryState::new(policy());
    let after = Some(vec![entry("A"), entry("B"), entry("C"), entry("D")]);
    let mut waits = 0;
    loop {
        match action.confirm_step(&mut retry, &before, &after) {
            RetryStep::RetryAfter(ms) => {
                assert_eq!(ms, 500);
                waits += 1;
            }
            RetryStep::GaveUp => break,
            RetryStep::Finished => panic!("confirmed an ambiguous add"),
        }
    }
    assert_eq!(waits, 3);
    assert!(!action.status);
    assert_eq!(action.action_result_to_string(), "FAIL");
}

#[test]
fn resubmitted_link_fails() {
    let listed = vec![entry("A"), entry("B"), entry("C")];
    let before = QDownloadAction::get_hashes(&listed);
    let mut action = QDownloadAction::new();
    let mut retry = RetryState::new(policy());
    let after = Some(listed.clone());
    while let RetryStep::RetryAfter(_) = action.confirm_step(&mut retry, &before, &after) {}
    assert_eq!(action.action_result_to_string(), "FAIL");
    assert!(!action.check_added(&before, &None));
}

#[test]
fn hashes_are_deduplicated() {
    let mut no_hash = entry("x");
    no_hash.hash = None;
    let hashes = QDownloadAction::get_hashes(&vec![entry("A"), entry("A"), no_hash, entry("B")]);
    assert_eq!(hashes, vec!["A".to_string(), "B".to_string()]);
}

#[test]
fn add_request_and_name_lookup() {
    let req = QDownloadAction::request("magnet:?xt=1");
    assert_eq!(req.urls, "magnet:?xt=1");
    assert_eq!(req.tags, "qbitbot");
    let list = QListAction::new(&vec![entry("A"), entry("B")]);
    assert_eq!(QDownloadAction::get_name(&list, "B").as_deref(), Some("B"));
    assert_eq!(QDownloadAction::get_name(&list, "Z"), None);
}

#[test]
fn completion_checks() {
    assert!(check_is_completed(&Some(TorrentProperties { completion_date: Some(1700000000) })));
    assert!(!check_is_completed(&Some(TorrentProperties { completion_date: Some(-1) })));
    assert!(!check_is_completed(&Some(TorrentProperties { completion_date: None })));
    assert!(!check_is_completed(&None));
    assert_eq!(CheckType::Completed("ubuntu".to_string()).message(), "ubuntu is done");
}

#[test]
fn pause_confirmed_by_state() {
    let action = QPauseResumeAction::new("pause");
    let read = Ok(vec![with_state("A", "downloading"), with_state("B", "pausedDL")]);
    assert_eq!(action.check_state(&read, "B"), Ok(()));
    assert_eq!(action.check_state(&read, "A"), Err("Failed to pause".to_string()));
    assert_eq!(action.check_state(&read, "Z"), Err("Failed to parse state".to_string()));
    let failed: Result<Vec<TorrentEntry>, String> = Err("Command failed".to_string());
    assert_eq!(action.check_state(&failed, "B"), Err("Command failed".to_string()));
    assert_eq!(action.endpoint(), "/torrents/pause");
    assert_eq!(QPauseResumeAction::request("B").hashes, "B");
}

#[test]
fn resume_confirmed_by_state() {
    let action = QPauseResumeAction::new("resume");
    assert_eq!(action.check("\"stalledUP\""), Ok(()));
    assert_eq!(action.check("\"pausedUP\""), Err("Failed to resume".to_string()));
    assert_eq!(action.check_resumed("uploading"), Ok(()));
    assert_eq!(action.check_paused("uploading"), Err("Failed to resume".to_string()));
    assert_eq!(action.endpoint(), "/torrents/resume");
}

#[test]
fn pause_never_reflected_retries_max_attempts() {
    for max_attempts in [0u32, 1, 3, 5] {
        let mut action = QPauseResumeAction::new("pause");
        let mut retry = RetryState::new(RetryPolicy { max_attempts, delay_ms: 500 });
        let read = Ok(vec![with_state("A", "downloading")]);
        let mut reads = 1;
        while let RetryStep::RetryAfter(_) = action.confirm_step(&mut retry, &read, "A") {
            reads += 1;
        }
        assert_eq!(reads, max_attempts + 1);
        assert_eq!(action.action_result_to_string(), "Failed to pause");
    }
}

#[test]
fn pause_reflected_on_second_read() {
    let mut action = QPauseResumeAction::new("pause");
    let mut retry = RetryState::new(policy());
    let first = Ok(vec![with_state("A", "downloading")]);
    let second = Ok(vec![with_state("A", "pausedDL")]);
    assert_eq!(action.confirm_step(&mut retry, &first, "A"), RetryStep::RetryAfter(500));
    assert_eq!(action.confirm_step(&mut retry, &second, "A"), RetryStep::Finished);
    assert_eq!(action.action_result_to_string(), "OK");
}

#[test]
fn unknown_id_fails_pause() {
    let list = QListAction::new(&vec![entry("A")]);
    let mut action = QPauseResumeAction::new("pause");
    assert_eq!(action.target_hash(&list, 0).as_deref(), Some("A"));
    assert_eq!(action.action_result_to_string(), "OK");
    assert_eq!(action.target_hash(&list, 1), None);
    assert_eq!(action.action_result_to_string(), "ID to hash conversion failed");
}

#[test]
fn retry_state_steps() {
    let mut retry = RetryState::new(RetryPolicy { max_attempts: 1, delay_ms: 1000 });
    assert_eq!(retry.record(false), RetryStep::RetryAfter(1000));
    assert_eq!(retry.retries_left, 0);
    assert_eq!(retry.record(true), RetryStep::Finished);
    assert_eq!(retry.record(false), RetryStep::GaveUp);
}

#[test]
fn text_helpers() {
    assert_eq!(decimal_text(0), "0");
    assert_eq!(decimal_text(1234567890), "1234567890");
    assert!(contains_text("\"pausedUP\"", "paused"));
    assert!(!contains_text("paus", "paused"));
    assert!(contains_text("abc", ""));
    assert_eq!(prefix_text("héllo", 2), "hé");
    let long: String = std::iter::repeat('x').take(5000).collect();
    assert_eq!(fit_message(&long).chars().count(), 4096);
    assert_eq!(fit_message("short"), "short");
    assert_eq!(denial_message(), "You are not allowed to chat with me");
}

#[test]
fn usize_parsing() {
    let cs: Vec<char> = "/torrent+12".chars().collect();
    assert_eq!(parse_usize_from(&cs, 8), Some(12));
    assert_eq!(parse_usize_from(&cs, 9), Some(12));
    assert_eq!(parse_usize_from(&cs, 11), None);
    let big: Vec<char> = "99999999999999999999".chars().collect();
    assert_eq!(parse_usize_from(&big, 0), None);
    let max: Vec<char> = usize::MAX.to_string().chars().collect();
    assert_eq!(parse_usize_from(&max, 0), Some(usize::MAX));
    let mixed: Vec<char> = "12a".chars().collect();
    assert_eq!(parse_usize_from(&mixed, 0), None);
    let minus: Vec<char> = "-1".chars().collect();
    assert_eq!(parse_usize_from(&minus, 0), None);
}

#[test]
fn admins_and_config() {
    assert_eq!(parse_admins("alice bob"), vec!["alice".to_string(), "bob".to_string()]);
    assert_eq!(parse_admins("a  b"), vec!["a".to_string(), "".to_string(), "b".to_string()]);
    assert_eq!(parse_admins(""), vec!["".to_string()]);
    let conf = QbConfig::new(
        "http://localhost:8080".to_string(),
        "admin".to_string(),
        "pw".to_string(),
        "alice bob",
        "info".to_string(),
        "token".to_string(),
    );
    assert!(conf.is_admin("bob"));
    assert!(!conf.is_admin("BadTester"));
}
