use qbitbot::chat::{ChatAction, QbChat};
use qbitbot::list::{QListAction, TorrentEntry};
use qbitbot::menu::{gen_help, MenuTree, MenuValue, QHelp};

fn entry(hash: &str, name: &str) -> TorrentEntry {
    TorrentEntry {
        hash: Some(hash.to_string()),
        name: Some(format!("\"{}\"", name)),
        size: Some(5 * 1048576),
        progress: Some(42),
        eta: Some(8640000),
        completion_on: Some(1),
        state: Some("\"downloading\"".to_string()),
    }
}

fn chat_with_records(n: usize) -> QbChat {
    let mut chat = QbChat::new(0);
    let items: Vec<TorrentEntry> = (0..n).map(|i| entry(&format!("h{}", i), &format!("t{}", i))).collect();
    chat.cached_list = Some(QListAction::new(&items));
    chat
}

fn is_show(a: &ChatAction) -> bool {
    matches!(a, ChatAction::Show)
}

#[test]
fn test_help() {
    let mut chat = QbChat::new(0);
    assert!(is_show(&chat.select_goto("/help")));
    let wants = "/download - Start downloading by link or attached file
/help - Show help for all commands
/list - List torrents
/main - Go to main menu

Buttons:

/back";
    assert_eq!(chat.render(), wants);
}

#[test]
fn help_listing_is_sorted_by_command() {
    let expected = "/download - Start downloading by link or attached file\n/help - Show help for all commands\n/list - List torrents\n/main - Go to main menu";
    assert_eq!(gen_help(), expected);
    assert_eq!(QHelp {}.action_result_to_string(), expected);
}

#[test]
fn test_menu_walk() {
    let mut chat = QbChat::new(0);
    assert_eq!(chat.get_menu_pos(), MenuValue::Main);
    chat.select_goto("/help");
    assert_eq!(chat.get_menu_pos(), MenuValue::Help);
    assert!(is_show(&chat.select_goto("qwer")));
    assert_eq!(chat.get_menu_pos(), MenuValue::Help);
    chat.select_goto("/list");
    assert_eq!(chat.get_menu_pos(), MenuValue::List);
    chat.select_goto("qwer");
    assert_eq!(chat.get_menu_pos(), MenuValue::List);
    chat.select_goto("/back");
    assert_eq!(chat.get_menu_pos(), MenuValue::Main);
}

#[test]
fn test_download() {
    let mut chat = QbChat::new(0);
    chat.select_goto("/download");
    assert_eq!(chat.get_menu_pos(), MenuValue::Download);
    assert_eq!(
        chat.render(),
        "Send torrent link or attach torrent file\n\nButtons:\n\n/back"
    );
    let link = "magnet:?xt=urn:btih:60A2A94625373B5ACAE66D4C693AE5F3417690C1";
    match chat.select_goto(link) {
        ChatAction::AddLink(l) => assert_eq!(l, link),
        other => panic!("unexpected {:?}", other),
    }
    assert_eq!(chat.get_menu_pos(), MenuValue::Download);
    match chat.select_goto("qwerty") {
        ChatAction::AddLink(l) => assert_eq!(l, "qwerty"),
        other => panic!("unexpected {:?}", other),
    }
    assert_eq!(chat.get_menu_pos(), MenuValue::Download);
}

#[test]
fn test_torrent_page() {
    let mut chat = chat_with_records(1);
    chat.select_goto("/download");
    chat.select_goto("/torrent0");
    assert_eq!(chat.get_menu_pos(), MenuValue::TorrentPage(0));
    match chat.select_goto("/pause") {
        ChatAction::PauseResume { action, id } => {
            assert_eq!(action, "pause");
            assert_eq!(id, 0);
        }
        other => panic!("unexpected {:?}", other),
    }
    assert_eq!(chat.get_menu_pos(), MenuValue::TorrentPage(0));
    match chat.select_goto("/resume") {
        ChatAction::PauseResume { action, id } => {
            assert_eq!(action, "resume");
            assert_eq!(id, 0);
        }
        other => panic!("unexpected {:?}", other),
    }
    assert!(is_show(&chat.select_goto("qwer")));
    assert_eq!(chat.get_menu_pos(), MenuValue::TorrentPage(0));
    chat.select_goto("/back");
    assert_eq!(chat.get_menu_pos(), MenuValue::List);
    chat.select_goto("/back");
    assert_eq!(chat.get_menu_pos(), MenuValue::Main);
}

#[test]
fn list_from_main_and_back() {
    let mut chat = QbChat::new(0);
    chat.select_goto("/list");
    assert_eq!(chat.get_menu_pos(), MenuValue::List);
    chat.select_goto("/back");
    assert_eq!(chat.get_menu_pos(), MenuValue::Main);
}

#[test]
fn back_from_main_stays() {
    let mut chat = QbChat::new(0);
    assert!(is_show(&chat.select_goto("/back")));
    assert_eq!(chat.get_menu_pos(), MenuValue::Main);
}

#[test]
fn torrent_two_from_any_state() {
    for start in ["/main", "/help", "/list", "/download", "/torrent7"] {
        let mut chat = chat_with_records(3);
        chat.select_goto(start);
        assert!(is_show(&chat.select_goto("/torrent2")));
        assert_eq!(chat.get_menu_pos(), MenuValue::TorrentPage(2));
        assert!(chat.render().starts_with("/torrent2<code> | t2"));
    }
}

#[test]
fn torrent_id_absent_from_list() {
    let mut chat = chat_with_records(3);
    chat.select_goto("/torrent99");
    assert_eq!(chat.get_menu_pos(), MenuValue::TorrentPage(99));
    assert_eq!(chat.do_cmd(), "there is no torrent with this id");
    assert_eq!(
        chat.render(),
        "there is no torrent with this id\n\nButtons:\n/pause\n/resume\n/back"
    );
}

#[test]
fn torrent_with_bad_id_stays() {
    let mut chat = QbChat::new(0);
    chat.select_goto("/help");
    assert!(is_show(&chat.select_goto("/torrentx")));
    assert_eq!(chat.get_menu_pos(), MenuValue::Help);
    chat.select_goto("/torrent");
    assert_eq!(chat.get_menu_pos(), MenuValue::Help);
    chat.select_goto("/torrent99999999999999999999999");
    assert_eq!(chat.get_menu_pos(), MenuValue::Help);
    chat.select_goto("/torrent+4");
    assert_eq!(chat.get_menu_pos(), MenuValue::TorrentPage(4));
}

#[test]
fn pause_outside_torrent_page_only_shows() {
    let mut chat = QbChat::new(0);
    assert!(is_show(&chat.select_goto("/pause")));
    assert_eq!(chat.get_menu_pos(), MenuValue::Main);
}

#[test]
fn main_page_lists_children() {
    let chat = QbChat::new(0);
    assert_eq!(
        chat.render(),
        "Main menu\n\nButtons:\n/help\n/list\n/download\n/back"
    );
    assert!(!chat.needs_list());
}

#[test]
fn commands_and_help_lines() {
    assert_eq!(MenuValue::Main.get_command(), "/main");
    assert_eq!(MenuValue::Help.get_command(), "/help");
    assert_eq!(MenuValue::List.get_command(), "/list");
    assert_eq!(MenuValue::Download.get_command(), "/download");
    assert_eq!(MenuValue::TorrentPage(3).get_command(), "/torrent");
    assert_eq!(MenuValue::Pause.get_command(), "/pause");
    assert_eq!(MenuValue::Resume.get_command(), "/resume");
    assert_eq!(MenuValue::List.get_help(), "List torrents");
    assert_eq!(MenuValue::Pause.get_help(), "");
    let cmds = MenuValue::generate_cmds();
    assert_eq!(cmds.len(), 4);
    assert_eq!(cmds[0], ("/main".to_string(), MenuValue::Main));
    assert_eq!(cmds[3], ("/download".to_string(), MenuValue::Download));
    assert_eq!(MenuValue::lookup_command("/list"), Some(MenuValue::List));
    assert_eq!(MenuValue::lookup_command("/lis"), None);
}

#[test]
fn menu_table_parents_and_children() {
    let t = MenuTree::from_value(MenuValue::TorrentPage(5));
    assert_eq!(t.parent, Some(MenuValue::List));
    assert_eq!(t.children, vec![MenuValue::Pause, MenuValue::Resume]);
    assert_eq!(t.print_children(), "/pause\n/resume");
    let h = MenuTree::from_value(MenuValue::Help);
    assert_eq!(h.parent, Some(MenuValue::Main));
    assert_eq!(h.print_children(), "");
    assert_eq!(h.show("x"), "x\n\nButtons:\n\n/back");
    assert_eq!(MenuTree::from_value(MenuValue::Main).parent, None);
}
