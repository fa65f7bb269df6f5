//! Settings of a running bot, and the question of who may talk to it.
use vstd::prelude::*;

use crate::download::texts_of;
use crate::text::{chars_of, push_char, owned};

verus! {

/// The pieces of `s` between single spaces, empty pieces included, as `str::split(' ')`
/// yields them.
pub open spec fn split_spaces(s: Seq<char>) -> Seq<Seq<char>>
    decreases s.len(),
{
    if s.len() == 0 {
        seq![Seq::empty()]
    } else {
        let head = split_spaces(s.drop_last());
        if s.last() == ' ' {
            head.push(Seq::empty())
        } else {
            head.update(head.len() - 1, head.last().push(s.last()))
        }
    }
}

proof fn lemma_split_nonempty(s: Seq<char>)
    ensures
        split_spaces(s).len() >= 1,
    decreases s.len(),
{
    if s.len() > 0 {
        lemma_split_nonempty(s.drop_last());
    }
}

/// The names in a space-separated list, as written.
pub fn parse_admins(line: &str) -> (r: Vec<String>)
    ensures
        texts_of(r@) == split_spaces(line@),
{
    let cs = chars_of(line);
    let mut done: Vec<String> = Vec::new();
    let mut cur = String::new();
    let mut i: usize = 0;
    while i < cs.len()
        invariant
            i <= cs@.len(),
            cs@ == line@,
            texts_of(done@).push(cur@) == split_spaces(cs@.subrange(0, i as int)),
        decreases cs@.len() - i,
    {
        let ghost before = cs@.subrange(0, i as int);
        proof {
            assert(cs@.subrange(0, i + 1).drop_last() =~= before);
            lemma_split_nonempty(before);
        }
        if cs[i] == ' ' {
            let piece = cur;
            done.push(piece);
            cur = String::new();
            assert(texts_of(done@).push(cur@) =~= split_spaces(cs@.subrange(0, i + 1)));
        } else {
            push_char(&mut cur, cs[i]);
            assert(texts_of(done@).push(cur@) =~= split_spaces(cs@.subrange(0, i + 1)));
        }
        i = i + 1;
    }
    assert(cs@.subrange(0, cs@.len() as int) =~= cs@);
    done.push(cur);
    assert(texts_of(done@) =~= split_spaces(line@));
    done
}

/// Where the daemon is, how to log in, who may use the bot, and the chat token.
#[derive(Clone, Debug)]
pub struct QbConfig {
    pub location: String,
    pub user: String,
    pub password: String,
    pub admins: Vec<String>,
    pub log_level: String,
    pub token: String,
}

impl QbConfig {
    /// Settings from their written values; the admins come as one space-separated line.
    pub fn new(
        location: String,
        user: String,
        password: String,
        admins_line: &str,
        log_level: String,
        token: String,
    ) -> (r: QbConfig)
        ensures
            r.location == location,
            r.user == user,
            r.password == password,
            texts_of(r.admins@) == split_spaces(admins_line@),
            r.log_level == log_level,
            r.token == token,
    {
        QbConfig { location, user, password, admins: parse_admins(admins_line), log_level, token }
    }

    /// Whether `username` is one of the admins.
    pub fn is_admin(&self, username: &str) -> (r: bool)
        ensures
            r == texts_of(self.admins@).contains(username@),
    {
        let wanted = owned(username);
        let mut i: usize = 0;
        while i < self.admins.len()
            invariant
                i <= self.admins@.len(),
                wanted@ == username@,
                forall|k: int| 0 <= k < i ==> self.admins@[k]@ != username@,
            decreases self.admins@.len() - i,
        {
            if self.admins[i] == wanted {
                assert(texts_of(self.admins@)[i as int] == username@);
                return true;
            }
            i = i + 1;
        }
        assert(forall|k: int| 0 <= k < self.admins@.len() ==> texts_of(self.admins@)[k] != username@);
        false
    }
}

} // verus!
