//! The menu of a conversation: its positions, the command that opens each,
//! and the static lookup table from a position to its parent and children.
use vstd::prelude::*;
use vstd::relations::{sorted_by, total_ordering};
use itertools::Itertools;

use crate::text::{join, join_texts, push_text};

verus! {

/// A position in the chat menu.
#[derive(Clone, Copy, Debug, PartialEq, Eq, Structural, PartialOrd, Ord)]
pub enum MenuValue {
    Main,
    Help,
    List,
    Download,
    TorrentPage(usize),
    Pause,
    Resume,
}

/// The command text that opens each position.
pub open spec fn command_of(v: MenuValue) -> Seq<char> {
    match v {
        MenuValue::Main => "/main"@,
        MenuValue::Help => "/help"@,
        MenuValue::List => "/list"@,
        MenuValue::Download => "/download"@,
        MenuValue::TorrentPage(_) => "/torrent"@,
        MenuValue::Pause => "/pause"@,
        MenuValue::Resume => "/resume"@,
    }
}

/// The help line shown for each position.
pub open spec fn help_of(v: MenuValue) -> Seq<char> {
    match v {
        MenuValue::Main => "Go to main menu"@,
        MenuValue::Help => "Show help for all commands"@,
        MenuValue::List => "List torrents"@,
        MenuValue::Download => "Start downloading by link or attached file"@,
        MenuValue::TorrentPage(_) => "Show torrent page"@,
        _ => ""@,
    }
}

/// The positions reachable by typing their command exactly, in table order.
pub open spec fn command_table() -> Seq<MenuValue> {
    seq![MenuValue::Main, MenuValue::Help, MenuValue::List, MenuValue::Download]
}

/// Where `/back` leads from each position.
pub open spec fn parent_of(v: MenuValue) -> Option<MenuValue> {
    match v {
        MenuValue::Main => None,
        MenuValue::Help | MenuValue::List | MenuValue::Download => Some(MenuValue::Main),
        MenuValue::TorrentPage(_) | MenuValue::Pause | MenuValue::Resume => Some(
            MenuValue::List,
        ),
    }
}

/// The buttons offered at each position.
pub open spec fn children_of(v: MenuValue) -> Seq<MenuValue> {
    match v {
        MenuValue::Main => seq![MenuValue::Help, MenuValue::List, MenuValue::Download],
        MenuValue::TorrentPage(_) => seq![MenuValue::Pause, MenuValue::Resume],
        _ => Seq::empty(),
    }
}

/// The place of each variant in the declaration order, which the derived `Ord` follows.
pub open spec fn rank(v: MenuValue) -> int {
    match v {
        MenuValue::Main => 0,
        MenuValue::Help => 1,
        MenuValue::List => 2,
        MenuValue::Download => 3,
        MenuValue::TorrentPage(_) => 4,
        MenuValue::Pause => 5,
        MenuValue::Resume => 6,
    }
}

/// The button block: the children's commands, one per line.
pub open spec fn buttons_of(v: MenuValue) -> Seq<char> {
    join(children_of(v).map_values(|c: MenuValue| command_of(c)), "\n"@)
}

/// A page: its content, then the buttons, then the way back.
pub open spec fn page(v: MenuValue, content: Seq<char>) -> Seq<char> {
    content + "\n\nButtons:\n"@ + buttons_of(v) + "\n/back"@
}

/// Each menu lists its children in ascending order, so the buttons come out sorted.
pub proof fn lemma_children_sorted(v: MenuValue)
    ensures
        forall|i: int, j: int|
            0 <= i < j < children_of(v).len() ==> rank(children_of(v)[i]) < rank(
                children_of(v)[j],
            ),
{
}

/// `a` comes before `b` or equals it, comparing characters by code point from the left.
pub open spec fn text_le(a: Seq<char>, b: Seq<char>) -> bool
    decreases a.len(),
{
    if a.len() == 0 {
        true
    } else if b.len() == 0 {
        false
    } else if a[0] != b[0] {
        (a[0] as int) < (b[0] as int)
    } else {
        text_le(a.drop_first(), b.drop_first())
    }
}

/// `cs` holds the commands of the table, in ascending text order.
pub open spec fn sorted_commands(cs: Seq<Seq<char>>) -> bool {
    &&& cs.to_multiset() == command_table().map_values(|v: MenuValue| command_of(v)).to_multiset()
    &&& forall|i: int, j: int| 0 <= i < j < cs.len() ==> text_le(cs[i], cs[j])
}

/// The table's commands in ascending text order.
pub open spec fn sorted_command_texts() -> Seq<Seq<char>> {
    seq!["/download"@, "/help"@, "/list"@, "/main"@]
}

proof fn lemma_text_le_reflexive(a: Seq<char>)
    ensures
        text_le(a, a),
    decreases a.len(),
{
    if a.len() > 0 {
        lemma_text_le_reflexive(a.drop_first());
    }
}

proof fn lemma_text_le_antisymmetric(a: Seq<char>, b: Seq<char>)
    requires
        text_le(a, b),
        text_le(b, a),
    ensures
        a == b,
    decreases a.len(),
{
    if a.len() == 0 {
        assert(a =~= b);
    } else {
        lemma_text_le_antisymmetric(a.drop_first(), b.drop_first());
        assert forall|i: int| 0 <= i < a.len() implies a[i] == b[i] by {
            if i > 0 {
                assert(a[i] == a.drop_first()[i - 1]);
                assert(b[i] == b.drop_first()[i - 1]);
            }
        }
        assert(a =~= b);
    }
}

proof fn lemma_text_le_transitive(a: Seq<char>, b: Seq<char>, c: Seq<char>)
    requires
        text_le(a, b),
        text_le(b, c),
    ensures
        text_le(a, c),
    decreases a.len(),
{
    if a.len() > 0 && a[0] == b[0] && b[0] == c[0] {
        lemma_text_le_transitive(a.drop_first(), b.drop_first(), c.drop_first());
    }
}

proof fn lemma_text_le_total(a: Seq<char>, b: Seq<char>)
    ensures
        text_le(a, b) || text_le(b, a),
    decreases a.len(),
{
    if a.len() > 0 && b.len() > 0 {
        if a[0] == b[0] {
            lemma_text_le_total(a.drop_first(), b.drop_first());
        } else {
            assert((a[0] as int) != (b[0] as int));
        }
    }
}

/// Comparing texts character by character is a total order.
proof fn lemma_text_order()
    ensures
        total_ordering(|a: Seq<char>, b: Seq<char>| text_le(a, b)),
{
    let leq = |a: Seq<char>, b: Seq<char>| text_le(a, b);
    assert forall|a: Seq<char>| #[trigger] leq(a, a) by {
        lemma_text_le_reflexive(a);
    }
    assert forall|a: Seq<char>, b: Seq<char>| #[trigger] leq(a, b) && #[trigger] leq(b, a) implies a
        == b by {
        lemma_text_le_antisymmetric(a, b);
    }
    assert forall|a: Seq<char>, b: Seq<char>, c: Seq<char>|
        #[trigger] leq(a, b) && #[trigger] leq(b, c) implies leq(a, c) by {
        lemma_text_le_transitive(a, b, c);
    }
    assert forall|a: Seq<char>, b: Seq<char>| #[trigger] leq(a, b) || #[trigger] leq(b, a) by {
        lemma_text_le_total(a, b);
    }
}

/// Two commands that share their first character and differ in the second.
proof fn lemma_le_at_second(a: Seq<char>, b: Seq<char>)
    requires
        a.len() > 1,
        b.len() > 1,
        a[0] == b[0],
        (a[1] as int) < (b[1] as int),
    ensures
        text_le(a, b),
{
    assert(a.drop_first()[0] == a[1]);
    assert(b.drop_first()[0] == b[1]);
    assert(text_le(a, b) == text_le(a.drop_first(), b.drop_first()));
}

/// The commands come out in exactly one order: `/download`, `/help`, `/list`, `/main`.
pub proof fn lemma_sorted_commands_unique(cs: Seq<Seq<char>>)
    requires
        sorted_commands(cs),
    ensures
        cs == sorted_command_texts(),
{
    broadcast use vstd::seq_lib::group_to_multiset_ensures;

    reveal_strlit("/download");
    reveal_strlit("/help");
    reveal_strlit("/list");
    reveal_strlit("/main");
    let leq = |a: Seq<char>, b: Seq<char>| text_le(a, b);
    let c = sorted_command_texts();
    let t = command_table().map_values(|v: MenuValue| command_of(v));
    lemma_le_at_second("/download"@, "/help"@);
    lemma_le_at_second("/download"@, "/list"@);
    lemma_le_at_second("/download"@, "/main"@);
    lemma_le_at_second("/help"@, "/list"@);
    lemma_le_at_second("/help"@, "/main"@);
    lemma_le_at_second("/list"@, "/main"@);
    assert(sorted_by(c, leq));
    assert(sorted_by(cs, leq)) by {
        assert forall|i: int, j: int| 0 <= i < j < cs.len() implies #[trigger] leq(cs[i], cs[j]) by {
        }
    }
    assert(t =~= Seq::empty().push("/main"@).push("/help"@).push("/list"@).push("/download"@));
    assert(c =~= Seq::empty().push("/download"@).push("/help"@).push("/list"@).push("/main"@));
    assert(t.to_multiset() =~= c.to_multiset());
    lemma_text_order();
    vstd::seq_lib::lemma_sorted_unique(cs, c, leq);
}

/// The table position whose command is `c`, if any.
pub open spec fn value_for(c: Seq<char>) -> Option<MenuValue> {
    if c == "/main"@ {
        Some(MenuValue::Main)
    } else if c == "/help"@ {
        Some(MenuValue::Help)
    } else if c == "/list"@ {
        Some(MenuValue::List)
    } else if c == "/download"@ {
        Some(MenuValue::Download)
    } else {
        None
    }
}

/// One help line: the command, a dash, and what it does.
pub open spec fn help_line(c: Seq<char>) -> Seq<char> {
    c + " - "@ + match value_for(c) {
        Some(v) => help_of(v),
        None => Seq::empty(),
    }
}

/// The help listing for commands taken in the order of `cs`.
pub open spec fn help_listing(cs: Seq<Seq<char>>) -> Seq<char> {
    join(cs.map_values(|c: Seq<char>| help_line(c)), "\n"@)
}

/// Relies on itertools' `sorted`: the same strings, in ascending order of `String`'s `Ord`,
/// which compares UTF-8 bytes and so characters by code point, from the left.
#[verifier::external_body]
fn sorted_texts(v: Vec<String>) -> (r: Vec<String>)
    ensures
        r@.map_values(|s: String| s@).to_multiset() == v@.map_values(|s: String| s@).to_multiset(),
        forall|i: int, j: int| 0 <= i < j < r@.len() ==> text_le(r@[i]@, r@[j]@),
{
    v.into_iter().sorted().collect()
}

impl MenuValue {
    /// The command that opens this position.
    pub fn get_command(&self) -> (r: &'static str)
        ensures
            r@ == command_of(*self),
    {
        match self {
            MenuValue::Main => "/main",
            MenuValue::Help => "/help",
            MenuValue::List => "/list",
            MenuValue::Download => "/download",
            MenuValue::TorrentPage(_) => "/torrent",
            MenuValue::Pause => "/pause",
            MenuValue::Resume => "/resume",
        }
    }

    /// The help line of this position.
    pub fn get_help(&self) -> (r: &'static str)
        ensures
            r@ == help_of(*self),
    {
        match self {
            MenuValue::Main => "Go to main menu",
            MenuValue::Help => "Show help for all commands",
            MenuValue::List => "List torrents",
            MenuValue::Download => "Start downloading by link or attached file",
            MenuValue::TorrentPage(_) => "Show torrent page",
            _ => "",
        }
    }

    /// The command table: each command with the position it opens.
    pub fn generate_cmds() -> (r: Vec<(String, MenuValue)>)
        ensures
            r@.len() == command_table().len(),
            forall|i: int|
                0 <= i < r@.len() ==> r@[i].1 == command_table()[i] && r@[i].0@ == command_of(
                    command_table()[i],
                ),
    {
        let table = [MenuValue::Main, MenuValue::Help, MenuValue::List, MenuValue::Download];
        let mut r: Vec<(String, MenuValue)> = Vec::new();
        let mut i: usize = 0;
        while i < 4
            invariant
                i <= 4,
                table@ == command_table(),
                r@.len() == i,
                forall|k: int|
                    0 <= k < i ==> r@[k].1 == command_table()[k] && r@[k].0@ == command_of(
                        command_table()[k],
                    ),
            decreases 4 - i,
        {
            let v = table[i];
            let cmd = crate::text::owned(v.get_command());
            r.push((cmd, v));
            i = i + 1;
        }
        r
    }

    /// The position that `text` opens when typed exactly, if it is a table command.
    pub fn lookup_command(text: &str) -> (r: Option<MenuValue>)
        ensures
            r == value_for(text@),
    {
        let cmds = Self::generate_cmds();
        let t = crate::text::owned(text);
        let mut i: usize = 0;
        while i < cmds.len()
            invariant
                i <= cmds@.len(),
                t@ == text@,
                cmds@.len() == command_table().len(),
                forall|k: int|
                    0 <= k < cmds@.len() ==> cmds@[k].1 == command_table()[k] && cmds@[k].0@
                        == command_of(command_table()[k]),
                forall|k: int| 0 <= k < i ==> text@ != command_of(command_table()[k]),
            decreases cmds@.len() - i,
        {
            if cmds[i].0 == t {
                return Some(cmds[i].1);
            }
            i = i + 1;
        }
        proof {
            assert(text@ != command_of(command_table()[0]));
            assert(text@ != command_of(command_table()[1]));
            assert(text@ != command_of(command_table()[2]));
            assert(text@ != command_of(command_table()[3]));
        }
        None
    }
}

/// A menu position with its parent and children, read off the lookup table.
#[derive(Clone, Debug)]
pub struct MenuTree {
    pub value: MenuValue,
    pub parent: Option<MenuValue>,
    pub children: Vec<MenuValue>,
}

impl MenuTree {
    /// The table entry of `value`.
    pub fn from_value(value: MenuValue) -> (r: MenuTree)
        ensures
            r.value == value,
            r.parent == parent_of(value),
            r.children@ == children_of(value),
    {
        match value {
            MenuValue::Main => MenuTree {
                value,
                parent: None,
                children: vec![MenuValue::Help, MenuValue::List, MenuValue::Download],
            },
            MenuValue::Help | MenuValue::List | MenuValue::Download => MenuTree {
                value,
                parent: Some(MenuValue::Main),
                children: Vec::new(),
            },
            MenuValue::TorrentPage(_) => MenuTree {
                value,
                parent: Some(MenuValue::List),
                children: vec![MenuValue::Pause, MenuValue::Resume],
            },
            MenuValue::Pause | MenuValue::Resume => MenuTree {
                value,
                parent: Some(MenuValue::List),
                children: Vec::new(),
            },
        }
    }

    /// The buttons of this position, one command per line.
    pub fn print_children(&self) -> (r: String)
        requires
            self.children@ == children_of(self.value),
        ensures
            r@ == buttons_of(self.value),
    {
        let mut lines: Vec<String> = Vec::new();
        let mut i: usize = 0;
        while i < self.children.len()
            invariant
                i <= self.children@.len(),
                lines@.len() == i,
                forall|k: int| 0 <= k < i ==> lines@[k]@ == command_of(self.children@[k]),
            decreases self.children@.len() - i,
        {
            lines.push(crate::text::owned(self.children[i].get_command()));
            i = i + 1;
        }
        let r = join_texts(&lines, "\n");
        assert(lines@.map_values(|l: String| l@) =~= children_of(self.value).map_values(
            |c: MenuValue| command_of(c),
        ));
        r
    }

    /// `content` framed as a page of this position: the buttons below it and the way back.
    pub fn show(&self, content: &str) -> (r: String)
        requires
            self.children@ == children_of(self.value),
        ensures
            r@ == page(self.value, content@),
    {
        let mut r = crate::text::owned(content);
        push_text(&mut r, "\n\nButtons:\n");
        let buttons = self.print_children();
        push_text(&mut r, buttons.as_str());
        push_text(&mut r, "\n/back");
        r
    }
}

/// The help listing: each table command with what it does, in ascending command order.
pub fn gen_help() -> (r: String)
    ensures
        r@ == help_listing(sorted_command_texts()),
{
    let table = MenuValue::generate_cmds();
    let mut cmds: Vec<String> = Vec::new();
    let mut i: usize = 0;
    while i < table.len()
        invariant
            i <= table@.len(),
            table@.len() == command_table().len(),
            forall|k: int|
                0 <= k < table@.len() ==> table@[k].1 == command_table()[k] && table@[k].0@
                    == command_of(command_table()[k]),
            cmds@.len() == i,
            forall|k: int| 0 <= k < i ==> cmds@[k]@ == command_of(command_table()[k]),
        decreases table@.len() - i,
    {
        cmds.push(table[i].0.clone());
        i = i + 1;
    }
    assert(cmds@.map_values(|s: String| s@) =~= command_table().map_values(
        |v: MenuValue| command_of(v),
    ));
    let sorted = sorted_texts(cmds);
    let ghost cs = sorted@.map_values(|s: String| s@);
    let mut lines: Vec<String> = Vec::new();
    let mut j: usize = 0;
    while j < sorted.len()
        invariant
            j <= sorted@.len(),
            cs == sorted@.map_values(|s: String| s@),
            lines@.len() == j,
            forall|k: int| 0 <= k < j ==> lines@[k]@ == help_line(cs[k]),
        decreases sorted@.len() - j,
    {
        let mut line = sorted[j].clone();
        push_text(&mut line, " - ");
        match MenuValue::lookup_command(sorted[j].as_str()) {
            Some(v) => push_text(&mut line, v.get_help()),
            None => {},
        }
        lines.push(line);
        j = j + 1;
    }
    let r = join_texts(&lines, "\n");
    assert(lines@.map_values(|l: String| l@) =~= cs.map_values(|c: Seq<char>| help_line(c)));
    proof {
        lemma_sorted_commands_unique(cs);
    }
    r
}

/// The help page.
#[derive(Clone, Copy, Debug)]
pub struct QHelp {}

impl QHelp {
    /// The help listing, commands in ascending order.
    pub fn action_result_to_string(&self) -> (r: String)
        ensures
            r@ == help_listing(sorted_command_texts()),
    {
        gen_help()
    }
}

} // verus!
