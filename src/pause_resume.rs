//! Pause and resume share one implementation: the request names the action, and a
//! confirmation read checks the torrent's state for the word `paused`.
use vstd::prelude::*;

use crate::action::QbCommandAction;
use crate::download::hash_is;
use crate::list::{QListAction, TorrentEntry};
use crate::requests::QPause;
use crate::retry::{retry_step, RetryState, RetryStep};
use crate::text::{contains_seq, contains_text, owned, push_text};

verus! {

/// The state of the first entry with hash `h`: none where no entry has it, or that
/// entry carries no state.
pub open spec fn state_of(items: Seq<TorrentEntry>, h: Seq<char>) -> Option<Seq<char>>
    decreases items.len(),
{
    if items.len() == 0 {
        None
    } else if hash_is(items[0], h) {
        match items[0].state {
            Some(s) => Some(s@),
            None => None,
        }
    } else {
        state_of(items.drop_first(), h)
    }
}

/// The state matches what the action asked for: `paused` in it after a pause, not after
/// anything else.
pub open spec fn state_fits(action: Seq<char>, state: Seq<char>) -> bool {
    if action == "pause"@ {
        contains_seq(state, "paused"@)
    } else {
        !contains_seq(state, "paused"@)
    }
}

/// The outcome of a confirmation read, as the text reported on failure.
pub open spec fn check_outcome(
    action: Seq<char>,
    read: Result<Vec<TorrentEntry>, String>,
    h: Seq<char>,
) -> Result<(), Seq<char>> {
    match read {
        Err(e) => Err(e@),
        Ok(items) => match state_of(items@, h) {
            None => Err("Failed to parse state"@),
            Some(state) => if state_fits(action, state) {
                Ok(())
            } else {
                Err("Failed to "@ + action)
            },
        },
    }
}

/// A status seen as text: the error's, or none for success.
pub open spec fn status_view(st: Result<(), String>) -> Result<(), Seq<char>> {
    match st {
        Ok(_) => Ok(()),
        Err(e) => Err(e@),
    }
}

/// A pause or a resume of one torrent and how it ended.
#[derive(Debug)]
pub struct QPauseResumeAction {
    pub status: Result<(), String>,
    /// `pause` or `resume`.
    pub action: String,
}

impl QPauseResumeAction {
    /// An action named `pause` or `resume`, not yet run.
    pub fn new(action: &str) -> (r: QPauseResumeAction)
        ensures
            r.status is Ok,
            r.action@ == action@,
    {
        QPauseResumeAction { status: Ok(()), action: owned(action) }
    }

    fn failure(&self) -> (r: String)
        ensures
            r@ == "Failed to "@ + self.action@,
    {
        let mut s = owned("Failed to ");
        push_text(&mut s, self.action.as_str());
        s
    }

    /// Success when `paused` occurs in the state.
    pub fn check_paused(&self, state: &str) -> (r: Result<(), String>)
        ensures
            r is Ok <==> contains_seq(state@, "paused"@),
            r matches Err(e) ==> e@ == "Failed to "@ + self.action@,
    {
        if contains_text(state, "paused") {
            Ok(())
        } else {
            Err(self.failure())
        }
    }

    /// Success when `paused` does not occur in the state.
    pub fn check_resumed(&self, state: &str) -> (r: Result<(), String>)
        ensures
            r is Ok <==> !contains_seq(state@, "paused"@),
            r matches Err(e) ==> e@ == "Failed to "@ + self.action@,
    {
        if !contains_text(state, "paused") {
            Ok(())
        } else {
            Err(self.failure())
        }
    }

    /// Whether the state is the one this action asked for.
    pub fn check(&self, state: &str) -> (r: Result<(), String>)
        ensures
            r is Ok <==> state_fits(self.action@, state@),
            r matches Err(e) ==> e@ == "Failed to "@ + self.action@,
    {
        let pause = owned("pause");
        if self.action == pause {
            self.check_paused(state)
        } else {
            self.check_resumed(state)
        }
    }

    /// The daemon endpoint of this action.
    pub fn endpoint(&self) -> (r: String)
        ensures
            r@ == "/torrents/"@ + self.action@,
    {
        let mut s = owned("/torrents/");
        push_text(&mut s, self.action.as_str());
        s
    }

    /// The request body naming the torrent.
    pub fn request(hash: &str) -> (r: QPause)
        ensures
            r.hashes@ == hash@,
    {
        QPause { hashes: owned(hash) }
    }

    /// The hash of the torrent shown as `/torrent<id>` in the cached list. Without one
    /// the action ends here, failed.
    pub fn target_hash(&mut self, list: &QListAction, id: usize) -> (r: Option<String>)
        requires
            list.wf(),
        ensures
            r is Some <==> exists|k: int| 0 <= k < list.records@.len() && list.records@[k].num == id,
            r matches Some(h) ==> exists|k: int|
                0 <= k < list.records@.len() && list.records@[k].num == id
                    && list.records@[k].hash@ == h@,
            r is Some ==> final(self).status == old(self).status,
            r is None ==> status_view(final(self).status) == Err::<(), Seq<char>>(
                "ID to hash conversion failed"@,
            ),
            final(self).action == old(self).action,
    {
        match list.get_record_by_num(id) {
            Some(rec) => Some(rec.get_hash()),
            None => {
                self.status = Err(owned("ID to hash conversion failed"));
                None
            },
        }
    }

    /// One confirmation read: finds the torrent in a fresh list and checks its state.
    pub fn check_state(&self, read: &Result<Vec<TorrentEntry>, String>, hash: &str) -> (r: Result<(), String>)
        ensures
            status_view(r) == check_outcome(self.action@, *read, hash@),
    {
        match read {
            Err(e) => Err(e.clone()),
            Ok(items) => {
                let wanted = owned(hash);
                let mut i: usize = 0;
                assert(items@.subrange(0, items@.len() as int) =~= items@);
                while i < items.len()
                    invariant
                        i <= items@.len(),
                        wanted@ == hash@,
                        *read == Ok::<Vec<TorrentEntry>, String>(*items),
                        state_of(items@, hash@) == state_of(items@.subrange(i as int, items@.len() as int), hash@),
                    decreases items@.len() - i,
                {
                    let ghost rest = items@.subrange(i as int, items@.len() as int);
                    assert(rest.drop_first() =~= items@.subrange(i + 1, items@.len() as int));
                    assert(rest[0] == items@[i as int]);
                    let found = match &items[i].hash {
                        Some(h) => *h == wanted,
                        None => false,
                    };
                    if found {
                        assert(hash_is(rest[0], hash@));
                        return match &items[i].state {
                            None => {
                                assert(state_of(rest, hash@) == None::<Seq<char>>);
                                Err(owned("Failed to parse state"))
                            },
                            Some(state) => {
                                assert(state_of(rest, hash@) == Some(state@));
                                let r = self.check(state.as_str());
                                r
                            },
                        };
                    }
                    i = i + 1;
                }
                assert(items@.subrange(items@.len() as int, items@.len() as int).len() == 0);
                Err(owned("Failed to parse state"))
            },
        }
    }

    /// One read of the confirmation run: keeps its outcome as the status and tells the
    /// retry budget.
    pub fn confirm_step(
        &mut self,
        retry: &mut RetryState,
        read: &Result<Vec<TorrentEntry>, String>,
        hash: &str,
    ) -> (r: RetryStep)
        ensures
            status_view(final(self).status) == check_outcome(old(self).action@, *read, hash@),
            final(self).action == old(self).action,
            final(retry).policy == old(retry).policy,
            (final(retry).retries_left as nat, r) == retry_step(
                old(retry).retries_left as nat,
                old(retry).policy.delay_ms,
                final(self).status is Ok,
            ),
    {
        let outcome = self.check_state(read, hash);
        let ok = outcome.is_ok();
        self.status = outcome;
        retry.record(ok)
    }
}

impl QbCommandAction for QPauseResumeAction {
    open spec fn result_text(&self) -> Seq<char> {
        match self.status {
            Ok(_) => "OK"@,
            Err(e) => e@,
        }
    }

    fn action_result_to_string(&self) -> (r: String) {
        match &self.status {
            Ok(_) => owned("OK"),
            Err(e) => e.clone(),
        }
    }
}

} // verus!
