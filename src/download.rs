//! Confirming an add: the set of hashes before the request against the set after it,
//! and the completion check that ends the wait for a finished download.
use vstd::prelude::*;

use crate::action::QbCommandAction;
use crate::list::{QListAction, TorrentEntry};
use crate::requests::QDownload;
use crate::retry::{retry_step, RetryState, RetryStep};
use crate::text::{owned, push_text};

verus! {

/// The entry's hash is `h`.
pub open spec fn hash_is(e: TorrentEntry, h: Seq<char>) -> bool {
    e.hash matches Some(s) && s@ == h
}

/// The hashes present in a list.
pub open spec fn hashes_of(items: Seq<TorrentEntry>) -> Set<Seq<char>> {
    Set::new(|h: Seq<char>| exists|i: int| 0 <= i < items.len() && hash_is(items[i], h))
}

/// The texts of a sequence of strings.
pub open spec fn texts_of(v: Seq<String>) -> Seq<Seq<char>> {
    v.map_values(|s: String| s@)
}

/// The hashes among the first `n` entries of a list.
pub open spec fn hashes_upto(items: Seq<TorrentEntry>, n: int) -> Set<Seq<char>> {
    Set::new(|h: Seq<char>| exists|i: int| 0 <= i < n && hash_is(items[i], h))
}

/// The texts of a sequence of strings, as a set.
pub open spec fn text_set(v: Seq<String>) -> Set<Seq<char>> {
    texts_of(v).to_set()
}

/// The hashes of a read after the add; a failed read counts as an empty list.
pub open spec fn hashes_after(after: Option<Vec<TorrentEntry>>) -> Set<Seq<char>> {
    match after {
        Some(items) => hashes_of(items@),
        None => Set::empty(),
    }
}

/// The hashes that appeared since `before`.
pub open spec fn appeared(before: Seq<String>, after: Option<Vec<TorrentEntry>>) -> Set<Seq<char>> {
    hashes_after(after).difference(text_set(before))
}

/// Whether `h` is one of the texts of `v`.
fn contains_string(v: &Vec<String>, h: &String) -> (r: bool)
    ensures
        r == texts_of(v@).contains(h@),
{
    let ghost texts = texts_of(v@);
    let mut i: usize = 0;
    while i < v.len()
        invariant
            i <= v@.len(),
            texts == texts_of(v@),
            forall|k: int| 0 <= k < i ==> texts[k] != h@,
        decreases v@.len() - i,
    {
        if v[i] == *h {
            assert(texts[i as int] == h@);
            return true;
        }
        i = i + 1;
    }
    false
}

/// A finished add check: whether a new torrent was seen, and its hash.
#[derive(Debug)]
pub struct QDownloadAction {
    pub status: bool,
    pub torrent_hash: String,
}

impl QDownloadAction {
    /// An add that has not been confirmed.
    pub fn new() -> (r: QDownloadAction)
        ensures
            !r.status,
            r.torrent_hash@.len() == 0,
    {
        QDownloadAction { status: false, torrent_hash: String::new() }
    }

    /// The body of the add request: the link, tagged as this bot's.
    pub fn request(link: &str) -> (r: QDownload)
        ensures
            r.urls@ == link@,
            r.tags@ == crate::TAG_NAME@,
    {
        QDownload { urls: owned(link), tags: owned(crate::TAG_NAME) }
    }

    /// The distinct hashes of a list, in list order.
    pub fn get_hashes(items: &Vec<TorrentEntry>) -> (r: Vec<String>)
        ensures
            text_set(r@) == hashes_of(items@),
            texts_of(r@).no_duplicates(),
    {
        let mut r: Vec<String> = Vec::new();
        let mut i: usize = 0;
        assert(text_set(r@) =~= hashes_upto(items@, 0));
        while i < items.len()
            invariant
                i <= items@.len(),
                texts_of(r@).no_duplicates(),
                text_set(r@) == hashes_upto(items@, i as int),
            decreases items@.len() - i,
        {
            let ghost texts = texts_of(r@);
            match &items[i].hash {
                Some(h) => {
                    if !contains_string(&r, h) {
                        r.push(h.clone());
                        proof {
                            assert(texts_of(r@) =~= texts.push(h@));
                            texts.lemma_push_to_set_commute(h@);
                        }
                    }
                    assert(hashes_upto(items@, i + 1) =~= hashes_upto(items@, i as int).insert(h@));
                },
                None => {
                    assert(hashes_upto(items@, i + 1) =~= hashes_upto(items@, i as int));
                },
            }
            i = i + 1;
        }
        assert(hashes_upto(items@, items@.len() as int) =~= hashes_of(items@));
        r
    }

    /// One confirmation read: exactly one hash appeared since `before`. On success the
    /// hash is kept and the add counts as done; otherwise it does not, yet.
    pub fn check_added(&mut self, before: &Vec<String>, after: &Option<Vec<TorrentEntry>>) -> (r: bool)
        ensures
            r == (appeared(before@, *after).len() == 1),
            r ==> appeared(before@, *after) == set![final(self).torrent_hash@],
            !r ==> final(self).torrent_hash == old(self).torrent_hash,
            final(self).status == r,
    {
        let empty: Vec<TorrentEntry> = Vec::new();
        let items = match after {
            Some(v) => v,
            None => &empty,
        };
        let after_hashes = Self::get_hashes(items);
        let ghost all = texts_of(after_hashes@);
        let ghost gone = text_set(before@);
        let mut fresh: Vec<String> = Vec::new();
        let mut i: usize = 0;
        assert(text_set(fresh@) =~= all.subrange(0, 0).to_set().difference(gone));
        while i < after_hashes.len()
            invariant
                i <= after_hashes@.len(),
                all == texts_of(after_hashes@),
                all.no_duplicates(),
                gone == text_set(before@),
                texts_of(fresh@).no_duplicates(),
                text_set(fresh@) == all.subrange(0, i as int).to_set().difference(gone),
            decreases after_hashes@.len() - i,
        {
            let ghost texts = texts_of(fresh@);
            let ghost x = all[i as int];
            proof {
                assert(all.subrange(0, i + 1) =~= all.subrange(0, i as int).push(x));
                all.subrange(0, i as int).lemma_push_to_set_commute(x);
            }
            if !contains_string(before, &after_hashes[i]) {
                proof {
                    assert(!texts.contains(x)) by {
                        if texts.contains(x) {
                            assert(text_set(fresh@).contains(x));
                            let j = choose|j: int| 0 <= j < i && all.subrange(0, i as int)[j] == x;
                            assert(all[j] == all[i as int]);
                        }
                    }
                }
                fresh.push(after_hashes[i].clone());
                proof {
                    assert(texts_of(fresh@) =~= texts.push(x));
                    texts.lemma_push_to_set_commute(x);
                }
                assert(text_set(fresh@) =~= all.subrange(0, i + 1).to_set().difference(gone));
            } else {
                assert(text_set(fresh@) =~= all.subrange(0, i + 1).to_set().difference(gone));
            }
            i = i + 1;
        }
        proof {
            assert(all.subrange(0, all.len() as int) =~= all);
            assert(hashes_after(*after) == hashes_of(items@));
            assert(text_set(after_hashes@) == all.to_set());
            assert(text_set(fresh@) =~= appeared(before@, *after));
            texts_of(fresh@).unique_seq_to_set();
        }
        if fresh.len() == 1 {
            proof {
                assert(texts_of(fresh@).to_set() =~= set![fresh@[0]@]) by {
                    assert(texts_of(fresh@)[0] == fresh@[0]@);
                }
            }
            self.torrent_hash = fresh[0].clone();
            self.status = true;
            true
        } else {
            self.status = false;
            false
        }
    }

    /// One read of the confirmation run: checks the list and tells the retry budget.
    pub fn confirm_step(
        &mut self,
        retry: &mut RetryState,
        before: &Vec<String>,
        after: &Option<Vec<TorrentEntry>>,
    ) -> (r: RetryStep)
        ensures
            final(self).status == (appeared(before@, *after).len() == 1),
            final(self).status ==> appeared(before@, *after) == set![final(self).torrent_hash@],
            final(retry).policy == old(retry).policy,
            (final(retry).retries_left as nat, r) == retry_step(
                old(retry).retries_left as nat,
                old(retry).policy.delay_ms,
                final(self).status,
            ),
    {
        let ok = self.check_added(before, after);
        retry.record(ok)
    }

    /// The display name of the torrent with this hash in the cached list.
    pub fn get_name(list: &QListAction, hash: &str) -> (r: Option<String>)
        ensures
            r is Some <==> exists|k: int|
                0 <= k < list.records@.len() && list.records@[k].hash@ == hash@,
            r matches Some(n) ==> exists|k: int|
                0 <= k < list.records@.len() && list.records@[k].hash@ == hash@
                    && list.records@[k].name@ == n@,
    {
        match list.get_record_by_hash(hash) {
            Some(rec) => Some(rec.get_name()),
            None => None,
        }
    }
}

impl QbCommandAction for QDownloadAction {
    open spec fn result_text(&self) -> Seq<char> {
        if self.status {
            "OK"@
        } else {
            "FAIL"@
        }
    }

    fn action_result_to_string(&self) -> (r: String) {
        if self.status {
            owned("OK")
        } else {
            owned("FAIL")
        }
    }
}

/// What the daemon's detail call says of a torrent: when it finished, if it did.
#[derive(Clone, Copy, Debug, PartialEq, Eq, Structural)]
pub struct TorrentProperties {
    /// The `completion_date` field, absent where it was missing or not an integer.
    pub completion_date: Option<i64>,
}

/// Pause between two completion reads, in milliseconds.
pub const COMPLETION_POLL_MS: u64 = 1000;

/// The completion date the daemon reports while a torrent is still downloading.
pub const IN_PROGRESS: i64 = -1;

/// A detail read shows the torrent finished. A failed read does not.
pub open spec fn is_completed(props: Option<TorrentProperties>) -> bool {
    props matches Some(p) && p.completion_date matches Some(d) && d != IN_PROGRESS
}

/// Whether a detail read shows the torrent finished; anything else means "wait".
pub fn check_is_completed(props: &Option<TorrentProperties>) -> (r: bool)
    ensures
        r == is_completed(*props),
{
    match props {
        Some(p) => match p.completion_date {
            Some(d) => d != IN_PROGRESS,
            None => false,
        },
        None => false,
    }
}

/// A notification from a background check to the chat.
#[derive(Clone, Debug)]
pub enum CheckType {
    /// The torrent with this name finished downloading.
    Completed(String),
}

impl CheckType {
    /// The message the chat receives.
    pub fn message(&self) -> (r: String)
        ensures
            self matches CheckType::Completed(name) && r@ == name@ + " is done"@,
    {
        match self {
            CheckType::Completed(name) => {
                let mut s = name.clone();
                push_text(&mut s, " is done");
                s
            },
        }
    }
}

} // verus!
