//! One conversation: where it stands in the menu, what a message does there, and the
//! page it shows.
use vstd::prelude::*;

use crate::action::QbCommandAction;
use crate::list::{listing_text, record_text, records_from, QListAction, QbListRecord, TorrentEntry};
use crate::menu::{
    children_of, help_listing, page, parent_of, sorted_command_texts, value_for, gen_help, MenuTree,
    MenuValue,
};
use crate::text::{
    chars_of, decimal, digit_char, occurs_at, owned, prefix, prefix_text, starts_with_chars,
};

verus! {

/// The longest message the chat transport accepts, in characters.
pub const MESSAGE_LIMIT: usize = 4096;

pub open spec fn is_digit(c: char) -> bool {
    '0' <= c && c <= '9'
}

pub open spec fn digit_value(c: char) -> int {
    (c as u32) - ('0' as u32)
}

/// The number written by a run of decimal digits.
pub open spec fn digits_value(s: Seq<char>) -> nat
    decreases s.len(),
{
    if s.len() == 0 {
        0
    } else {
        (digits_value(s.drop_last()) * 10 + digit_value(s.last())) as nat
    }
}

pub open spec fn all_digits(s: Seq<char>) -> bool {
    forall|i: int| 0 <= i < s.len() ==> is_digit(#[trigger] s[i])
}

/// What `usize`'s `from_str` accepts: an optional `+`, then one or more decimal digits
/// whose value fits.
pub open spec fn parse_usize(s: Seq<char>) -> Option<usize> {
    let digits = if s.len() > 0 && s[0] == '+' {
        s.drop_first()
    } else {
        s
    };
    if digits.len() > 0 && all_digits(digits) && digits_value(digits) <= usize::MAX {
        Some(digits_value(digits) as usize)
    } else {
        None
    }
}

/// The id typed after `/torrent`, if the rest is a number.
pub open spec fn torrent_id(text: Seq<char>) -> Option<usize> {
    parse_usize(text.subrange("/torrent"@.len() as int, text.len() as int))
}

/// The text asks for a torrent page.
pub open spec fn is_torrent_command(text: Seq<char>) -> bool {
    occurs_at(text, "/torrent"@, 0)
}

/// Where a message leads from position `v`.
pub open spec fn next_position(v: MenuValue, text: Seq<char>) -> MenuValue {
    if text == "/back"@ {
        match parent_of(v) {
            Some(p) => p,
            None => v,
        }
    } else if value_for(text) is Some {
        value_for(text)->0
    } else if is_torrent_command(text) {
        match torrent_id(text) {
            Some(id) => MenuValue::TorrentPage(id),
            None => v,
        }
    } else {
        v
    }
}

/// What a message does, as plain values.
pub enum StepView {
    /// Show the page of the new position.
    Show,
    /// Run this action (`pause` or `resume`) on the torrent with this id.
    PauseResume(Seq<char>, usize),
    /// Add the torrent at this link.
    Add(Seq<char>),
}

/// What a message does at position `v`.
pub open spec fn step_of(v: MenuValue, text: Seq<char>) -> StepView {
    if text == "/back"@ || value_for(text) is Some || is_torrent_command(text) {
        StepView::Show
    } else if (text == "/pause"@ || text == "/resume"@) && v is TorrentPage {
        StepView::PauseResume(text.drop_first(), v->TorrentPage_0)
    } else if v == MenuValue::Download {
        StepView::Add(text)
    } else {
        StepView::Show
    }
}

/// The records of a cache; none where nothing is cached.
pub open spec fn cached_records(list: Option<QListAction>) -> Seq<QbListRecord> {
    match list {
        Some(l) => l.records@,
        None => Seq::empty(),
    }
}

/// The content of a page, before the buttons.
pub open spec fn content_fits(v: MenuValue, list: Option<QListAction>, c: Seq<char>) -> bool {
    let records = cached_records(list);
    match v {
        MenuValue::Main => c == "Main menu"@,
        MenuValue::Help => c == help_listing(sorted_command_texts()),
        MenuValue::List => c == listing_text(records),
        MenuValue::Download => c == "Send torrent link or attach torrent file"@,
        MenuValue::TorrentPage(id) => if exists|k: int|
            0 <= k < records.len() && records[k].num == id {
            exists|k: int| 0 <= k < records.len() && records[k].num == id && c == record_text(records[k])
        } else {
            c == "there is no torrent with this id"@
        },
        _ => c.len() == 0,
    }
}

/// What the chat must do after a message.
#[derive(Debug)]
pub enum ChatAction {
    /// Show the page of the current position.
    Show,
    /// Run `action` (`pause` or `resume`) on the torrent with this id and send the outcome.
    PauseResume { action: String, id: usize },
    /// Add the torrent at this link and send the outcome.
    AddLink(String),
}

impl ChatAction {
    pub open spec fn view_step(&self) -> StepView {
        match self {
            ChatAction::Show => StepView::Show,
            ChatAction::PauseResume { action, id } => StepView::PauseResume(action@, *id),
            ChatAction::AddLink(l) => StepView::Add(l@),
        }
    }
}

pub proof fn lemma_digits_value_grows(s: Seq<char>, i: int)
    requires
        0 <= i <= s.len(),
        all_digits(s),
    ensures
        digits_value(s.subrange(0, i)) <= digits_value(s),
    decreases s.len(),
{
    if i < s.len() {
        assert(s.drop_last() =~= s.subrange(0, s.len() - 1));
        assert(s.subrange(0, i) =~= s.drop_last().subrange(0, i));
        lemma_digits_value_grows(s.drop_last(), i);
    } else {
        assert(s.subrange(0, i) =~= s);
    }
}

proof fn lemma_decimal_digits(n: nat)
    ensures
        all_digits(decimal(n)),
        digits_value(decimal(n)) == n,
        decimal(n).len() > 0,
    decreases n,
{
    let d = n % 10;
    assert(is_digit(digit_char(d as int)) && digit_value(digit_char(d as int)) == d) by {
        assert(0 <= d < 10);
    }
    if n < 10 {
        let s = decimal(n);
        assert(s.drop_last() =~= Seq::<char>::empty());
        assert(digits_value(s) == digits_value(s.drop_last()) * 10 + digit_value(s.last()));
        assert(s.last() == digit_char(d as int));
    } else {
        lemma_decimal_digits(n / 10);
        let s = decimal(n);
        assert(s.drop_last() =~= decimal(n / 10));
        assert(s.last() == digit_char(d as int));
        assert((n / 10) * 10 + n % 10 == n) by (nonlinear_arith);
        assert(digits_value(s) == digits_value(s.drop_last()) * 10 + digit_value(s.last()));
        assert forall|i: int| 0 <= i < s.len() implies is_digit(#[trigger] s[i]) by {
            if i < s.len() - 1 {
                assert(s[i] == decimal(n / 10)[i]);
            }
        }
    }
}

/// From every position, `/torrent` followed by an id in decimal opens that torrent's
/// page, and nothing else happens.
pub proof fn lemma_torrent_page_from_anywhere(v: MenuValue, id: usize)
    ensures
        next_position(v, "/torrent"@ + decimal(id as nat)) == MenuValue::TorrentPage(id),
        step_of(v, "/torrent"@ + decimal(id as nat)) == StepView::Show,
{
    reveal_strlit("/torrent");
    reveal_strlit("/back");
    reveal_strlit("/main");
    reveal_strlit("/help");
    reveal_strlit("/list");
    reveal_strlit("/download");
    let text = "/torrent"@ + decimal(id as nat);
    lemma_decimal_digits(id as nat);
    assert(text.len() > 8);
    assert(text[1] == 't');
    assert(text != "/back"@);
    assert(text != "/main"@);
    assert(text != "/help"@);
    assert(text != "/list"@);
    assert(text[1] != "/download"@[1]);
    assert(text != "/download"@);
    assert(text.subrange(0, 8) =~= "/torrent"@);
    assert(is_torrent_command(text));
    let rest = text.subrange(8, text.len() as int);
    assert(rest =~= decimal(id as nat));
    assert(rest[0] != '+');
}

/// A torrent page for an id past the end of the fetched list shows the absence notice.
pub proof fn lemma_id_past_list_has_no_torrent(
    items: Seq<TorrentEntry>,
    list: QListAction,
    id: usize,
    c: Seq<char>,
)
    requires
        records_from(items, list.records@),
        id >= items.len(),
        content_fits(MenuValue::TorrentPage(id), Some(list), c),
    ensures
        c == "there is no torrent with this id"@,
{
    assert(!exists|k: int| 0 <= k < list.records@.len() && list.records@[k].num == id);
}

fn digit_of(c: char) -> (r: usize)
    requires
        is_digit(c),
    ensures
        r == digit_value(c),
{
    (c as u32 - '0' as u32) as usize
}

/// The number written in `cs` from `start` on, read as `usize`'s `from_str` reads it.
pub fn parse_usize_from(cs: &Vec<char>, start: usize) -> (r: Option<usize>)
    requires
        start <= cs@.len(),
    ensures
        r == parse_usize(cs@.subrange(start as int, cs@.len() as int)),
{
    let ghost s = cs@.subrange(start as int, cs@.len() as int);
    let mut i = start;
    if i < cs.len() && cs[i] == '+' {
        i = i + 1;
    }
    let ghost digits = cs@.subrange(i as int, cs@.len() as int);
    assert(digits =~= if s.len() > 0 && s[0] == '+' { s.drop_first() } else { s });
    if i == cs.len() {
        return None;
    }
    let first = i;
    let mut value: usize = 0;
    while i < cs.len()
        invariant
            first <= i <= cs@.len(),
            s == cs@.subrange(start as int, cs@.len() as int),
            digits == (if s.len() > 0 && s[0] == '+' { s.drop_first() } else { s }),
            digits.len() > 0,
            digits == cs@.subrange(first as int, cs@.len() as int),
            all_digits(cs@.subrange(first as int, i as int)),
            value as nat == digits_value(cs@.subrange(first as int, i as int)),
        decreases cs@.len() - i,
    {
        let c = cs[i];
        if !('0' <= c && c <= '9') {
            assert(digits[i - first] == c);
            assert(!is_digit(digits[i - first]));
            assert(!all_digits(digits));
            return None;
        }
        let d = digit_of(c);
        proof {
            let next = cs@.subrange(first as int, i + 1);
            assert(next.drop_last() =~= cs@.subrange(first as int, i as int));
            assert(next.last() == c);
        }
        let shifted = value.checked_mul(10);
        let grown = match shifted {
            Some(m) => m.checked_add(d),
            None => None,
        };
        match grown {
            Some(v) => {
                value = v;
            },
            None => {
                proof {
                    let next = cs@.subrange(first as int, i + 1);
                    assert(digits_value(next) == value * 10 + d);
                    assert(digits_value(next) > usize::MAX);
                    if all_digits(digits) {
                        assert(next =~= digits.subrange(0, i + 1 - first));
                        lemma_digits_value_grows(digits, i + 1 - first);
                    }
                }
                return None;
            },
        }
        i = i + 1;
    }
    assert(cs@.subrange(first as int, i as int) =~= digits);
    Some(value)
}

/// The longest prefix of a message that the transport takes.
pub fn fit_message(text: &str) -> (r: String)
    ensures
        r@ == prefix(text@, MESSAGE_LIMIT as nat),
{
    prefix_text(text, MESSAGE_LIMIT)
}

/// The reply to someone who may not use the bot.
pub fn denial_message() -> (r: String)
    ensures
        r@ == "You are not allowed to chat with me"@,
{
    owned("You are not allowed to chat with me")
}

/// One conversation's menu position and its cached torrent list.
#[derive(Clone, Debug)]
pub struct QbChat {
    pub chat_id: i64,
    pub menu_pos: MenuTree,
    pub cached_list: Option<QListAction>,
}

impl QbChat {
    /// The menu position carries its table entry, and the cache keeps its records ordered.
    pub open spec fn wf(&self) -> bool {
        &&& self.menu_pos.parent == parent_of(self.menu_pos.value)
        &&& self.menu_pos.children@ == children_of(self.menu_pos.value)
        &&& (self.cached_list matches Some(l) ==> l.wf())
    }

    /// A conversation at the main menu, with nothing cached.
    pub fn new(chat_id: i64) -> (r: QbChat)
        ensures
            r.wf(),
            r.chat_id == chat_id,
            r.menu_pos.value == MenuValue::Main,
            r.cached_list is None,
    {
        QbChat { chat_id, menu_pos: MenuTree::from_value(MenuValue::Main), cached_list: None }
    }

    pub fn get_menu_pos(&self) -> (r: MenuValue)
        ensures
            r == self.menu_pos.value,
    {
        self.menu_pos.value
    }

    fn goto(&mut self, v: MenuValue)
        requires
            old(self).wf(),
        ensures
            final(self).wf(),
            final(self).menu_pos.value == v,
            final(self).chat_id == old(self).chat_id,
            final(self).cached_list == old(self).cached_list,
    {
        self.menu_pos = MenuTree::from_value(v);
    }

    /// Reads a message: moves to the position it leads to and says what is left to do.
    pub fn select_goto(&mut self, text: &str) -> (r: ChatAction)
        requires
            old(self).wf(),
        ensures
            final(self).wf(),
            final(self).menu_pos.value == next_position(old(self).menu_pos.value, text@),
            r.view_step() == step_of(old(self).menu_pos.value, text@),
            final(self).chat_id == old(self).chat_id,
            final(self).cached_list == old(self).cached_list,
    {
        let here = self.menu_pos.value;
        let t = owned(text);
        if t == owned("/back") {
            match self.menu_pos.parent {
                Some(p) => self.goto(p),
                None => self.goto(here),
            }
            return ChatAction::Show;
        }
        match MenuValue::lookup_command(text) {
            Some(v) => {
                self.goto(v);
                return ChatAction::Show;
            },
            None => {},
        }
        let cs = chars_of(text);
        let prefix_chars = chars_of("/torrent");
        if starts_with_chars(&cs, &prefix_chars) {
            match parse_usize_from(&cs, prefix_chars.len()) {
                Some(id) => self.goto(MenuValue::TorrentPage(id)),
                None => self.goto(here),
            }
            return ChatAction::Show;
        }
        let is_pause = t == owned("/pause");
        let is_resume = t == owned("/resume");
        match here {
            MenuValue::TorrentPage(id) => {
                if is_pause || is_resume {
                    let action = if is_pause {
                        owned("pause")
                    } else {
                        owned("resume")
                    };
                    proof {
                        reveal_strlit("/pause");
                        reveal_strlit("pause");
                        reveal_strlit("/resume");
                        reveal_strlit("resume");
                        assert(text@.drop_first() =~= action@);
                    }
                    return ChatAction::PauseResume { action, id };
                }
            },
            MenuValue::Download => {
                return ChatAction::AddLink(t);
            },
            _ => {},
        }
        ChatAction::Show
    }

    /// The page needs the torrent list brought up to date before it is shown.
    pub fn needs_list(&self) -> (r: bool)
        ensures
            r == (self.menu_pos.value == MenuValue::List || self.menu_pos.value is TorrentPage),
    {
        match self.menu_pos.value {
            MenuValue::List | MenuValue::TorrentPage(_) => true,
            _ => false,
        }
    }

    /// The content of the current position.
    pub fn do_cmd(&self) -> (r: String)
        requires
            self.wf(),
        ensures
            content_fits(self.menu_pos.value, self.cached_list, r@),
    {
        match self.menu_pos.value {
            MenuValue::Main => {
                let r = owned("Main menu");
                assert(content_fits(self.menu_pos.value, self.cached_list, r@));
                r
            },
            MenuValue::Help => {
                let r = gen_help();
                assert(content_fits(self.menu_pos.value, self.cached_list, r@));
                r
            },
            MenuValue::List => {
                let r = match &self.cached_list {
                    Some(l) => l.action_result_to_string(),
                    None => owned("Failed to get Qbittorrent response"),
                };
                assert(content_fits(self.menu_pos.value, self.cached_list, r@));
                r
            },
            MenuValue::Download => {
                let r = owned("Send torrent link or attach torrent file");
                assert(content_fits(self.menu_pos.value, self.cached_list, r@));
                r
            },
            MenuValue::TorrentPage(id) => {
                let found = match &self.cached_list {
                    Some(l) => l.get_record_by_num(id),
                    None => None,
                };
                let ghost records = cached_records(self.cached_list);
                match found {
                    Some(rec) => {
                        let r = rec.to_text();
                        proof {
                            let k = choose|k: int| 0 <= k < records.len() && records[k] == rec;
                            assert(records[k].num == id && r@ == record_text(records[k]));
                        }
                        r
                    },
                    None => owned("there is no torrent with this id"),
                }
            },
            _ => {
                let r = String::new();
                assert(content_fits(self.menu_pos.value, self.cached_list, r@));
                r
            },
        }
    }

    /// The page of the current position: content, buttons and the way back.
    pub fn render(&self) -> (r: String)
        requires
            self.wf(),
        ensures
            exists|c: Seq<char>| content_fits(self.menu_pos.value, self.cached_list, c) && r@ == page(
                self.menu_pos.value,
                c,
            ),
    {
        let content = self.do_cmd();
        self.menu_pos.show(content.as_str())
    }
}

} // verus!
