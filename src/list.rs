//! The cached torrent list: parsing the daemon's entries into records, and the
//! sync cursor that decides whether the cache must be fetched again.
use vstd::prelude::*;

use crate::action::QbCommandAction;
use crate::requests::MaindataResponse;
use crate::text::{
    chars_of, decimal, join, join_texts, owned, pad_left, pad_right, prefix, prefix_text, push_char,
    push_decimal, push_padded_left, push_padded_right, push_text,
};

verus! {

/// The daemon's ETA for a torrent whose end it cannot tell.
pub const ETA_UNKNOWN: i64 = 8640000;

/// The completion time the daemon reports for a torrent that has not finished.
pub const NEVER_COMPLETED: i64 = -10800;

/// Bytes in a mebibyte.
pub const MIB: u64 = 1048576;

/// Characters of a name that a listing keeps.
pub const NAME_WIDTH: usize = 20;

/// One element of the daemon's torrent list: the fields the bot reads, each absent
/// where the daemon left it out or gave it another type.
#[derive(Clone, Debug)]
pub struct TorrentEntry {
    /// The torrent's hash.
    pub hash: Option<String>,
    /// The `name` field written out as JSON text, quotes included.
    pub name: Option<String>,
    /// Size in bytes.
    pub size: Option<u64>,
    /// Whole percent done: the fraction times 100, rounded down.
    pub progress: Option<u64>,
    /// Seconds left, or the unknown sentinel.
    pub eta: Option<i64>,
    /// When the torrent finished, or the not-finished sentinel.
    pub completion_on: Option<i64>,
    /// The `state` field written out as JSON text.
    pub state: Option<String>,
}

/// How an ETA is shown.
#[derive(Clone, Copy, Debug, PartialEq, Eq, Structural)]
pub enum EtaLabel {
    /// Not started, or stalled before finishing.
    Waiting,
    /// Finished.
    Done,
    /// Expected this many seconds from now.
    At(i64),
}

/// The label of `(eta, completion_on)`; none for a negative ETA that is not the sentinel.
pub open spec fn eta_class(eta: i64, completion_on: i64) -> Option<EtaLabel> {
    if eta == ETA_UNKNOWN {
        if completion_on == NEVER_COMPLETED {
            Some(EtaLabel::Waiting)
        } else {
            Some(EtaLabel::Done)
        }
    } else if eta < 0 {
        None
    } else {
        Some(EtaLabel::At(eta))
    }
}

/// The fixed texts of the labels; a time to come has no fixed text.
pub open spec fn eta_text_fits(label: EtaLabel, t: Seq<char>) -> bool {
    match label {
        EtaLabel::Waiting => t == "waiting"@,
        EtaLabel::Done => t == "done"@,
        EtaLabel::At(_) => true,
    }
}

/// `s` with every double quote taken out.
pub open spec fn without_quotes(s: Seq<char>) -> Seq<char>
    decreases s.len(),
{
    if s.len() == 0 {
        Seq::empty()
    } else if s.last() == '"' {
        without_quotes(s.drop_last())
    } else {
        without_quotes(s.drop_last()).push(s.last())
    }
}

/// The listing name: quotes dropped, then the first characters kept.
pub open spec fn listing_name(name_json: Seq<char>) -> Seq<char> {
    prefix(without_quotes(name_json), NAME_WIDTH as nat)
}

/// The entry carries every field a record needs, and its ETA has a label.
pub open spec fn entry_parses(e: TorrentEntry) -> bool {
    &&& e.hash is Some
    &&& e.name is Some
    &&& e.size is Some
    &&& e.progress is Some
    &&& e.eta is Some
    &&& e.completion_on is Some
    &&& eta_class(e.eta->0, e.completion_on->0) is Some
}

/// The entry's ETA is a time to come, whose text the clock decides.
pub open spec fn entry_eta_is_time(e: TorrentEntry) -> bool {
    eta_class(e.eta->0, e.completion_on->0) matches Some(EtaLabel::At(_))
}

/// A torrent as listed in the chat.
#[derive(Debug)]
pub struct QbListRecord {
    /// Place of the entry in the daemon's list; valid until the next refresh.
    pub num: usize,
    pub name: String,
    /// Size in mebibytes.
    pub size: u64,
    /// Whole percent done.
    pub progress: u64,
    pub eta: String,
    pub hash: String,
}

/// `r` is the record of entry `e` at place `num`.
pub open spec fn record_of(num: int, e: TorrentEntry, r: QbListRecord) -> bool {
    &&& r.num == num
    &&& r.name@ == listing_name(e.name->0@)
    &&& r.size == e.size->0 / MIB
    &&& r.progress == e.progress->0
    &&& r.hash@ == e.hash->0@
    &&& eta_text_fits(eta_class(e.eta->0, e.completion_on->0)->0, r.eta@)
}

/// The line of a record in the listing.
pub open spec fn record_text(r: QbListRecord) -> Seq<char> {
    "/torrent"@ + decimal(r.num as nat) + "<code> | "@ + pad_right(r.name@, NAME_WIDTH as nat)
        + " | "@ + pad_left(decimal(r.size as nat), 6) + " Mb | "@ + pad_left(
        decimal(r.progress as nat),
        3,
    ) + "% | "@ + pad_right(r.eta@, 19) + "</code>"@
}

/// The records of a list, in order and each from the entry at its place: no record
/// lacks a hash, a name, a size or a progress, and there are no more records than entries.
pub open spec fn records_from(items: Seq<TorrentEntry>, records: Seq<QbListRecord>) -> bool {
    &&& records.len() <= items.len()
    &&& forall|k: int|
        0 <= k < records.len() ==> {
            &&& 0 <= #[trigger] records[k].num < items.len()
            &&& entry_parses(items[records[k].num as int])
            &&& record_of(records[k].num as int, items[records[k].num as int], records[k])
        }
    &&& forall|k: int, l: int| 0 <= k < l < records.len() ==> records[k].num < records[l].num
    &&& forall|i: int|
        0 <= i < items.len() && entry_parses(#[trigger] items[i]) && !entry_eta_is_time(items[i])
            ==> exists|k: int| 0 <= k < records.len() && records[k].num == i
}

/// Places strictly increase along the records.
pub open spec fn nums_increasing(records: Seq<QbListRecord>) -> bool {
    forall|k: int, l: int| 0 <= k < l < records.len() ==> records[k].num < records[l].num
}

/// Relies on chrono: the local wall-clock time `secs` seconds from now, written
/// `YYYY-MM-DD HH:MM:SS`; none where that time is beyond chrono's range.
#[verifier::external_body]
fn local_time_after(secs: i64) -> (r: Option<String>)
    requires
        secs >= 0,
{
    let delta = chrono::TimeDelta::try_seconds(secs)?;
    let at = chrono::Local::now().checked_add_signed(delta)?;
    Some(at.format("%Y-%m-%d %H:%M:%S").to_string())
}

/// The label of `(eta, completion_on)`.
pub fn classify_eta(eta: i64, completion_on: i64) -> (r: Option<EtaLabel>)
    ensures
        r == eta_class(eta, completion_on),
{
    if eta == ETA_UNKNOWN {
        if completion_on == NEVER_COMPLETED {
            Some(EtaLabel::Waiting)
        } else {
            Some(EtaLabel::Done)
        }
    } else if eta < 0 {
        None
    } else {
        Some(EtaLabel::At(eta))
    }
}

/// The ETA as shown: `waiting`, `done`, or the local time it points to.
pub fn humanize_eta(eta: i64, completion_on: i64) -> (r: Option<String>)
    ensures
        eta_class(eta, completion_on) is None ==> r is None,
        r matches Some(t) ==> eta_class(eta, completion_on) is Some && eta_text_fits(
            eta_class(eta, completion_on)->0,
            t@,
        ),
        eta_class(eta, completion_on) matches Some(l) && l != EtaLabel::At(eta) ==> r is Some,
{
    match classify_eta(eta, completion_on) {
        None => None,
        Some(EtaLabel::Waiting) => Some(owned("waiting")),
        Some(EtaLabel::Done) => Some(owned("done")),
        Some(EtaLabel::At(secs)) => local_time_after(secs),
    }
}

impl Clone for QbListRecord {
    fn clone(&self) -> (r: Self)
        ensures
            r == *self,
    {
        QbListRecord {
            num: self.num,
            name: self.name.clone(),
            size: self.size,
            progress: self.progress,
            eta: self.eta.clone(),
            hash: self.hash.clone(),
        }
    }
}

impl QbListRecord {
    /// The name as listed: quotes dropped, at most twenty characters.
    pub fn parse_name(name_json: &str) -> (r: String)
        ensures
            r@ == listing_name(name_json@),
    {
        let cs = chars_of(name_json);
        let mut kept = String::new();
        let mut i: usize = 0;
        while i < cs.len()
            invariant
                i <= cs@.len(),
                cs@ == name_json@,
                kept@ == without_quotes(cs@.subrange(0, i as int)),
            decreases cs@.len() - i,
        {
            assert(cs@.subrange(0, i + 1).drop_last() =~= cs@.subrange(0, i as int));
            if cs[i] != '"' {
                push_char(&mut kept, cs[i]);
            }
            i = i + 1;
        }
        assert(cs@.subrange(0, cs@.len() as int) =~= cs@);
        prefix_text(kept.as_str(), NAME_WIDTH)
    }

    /// The record of `item` at place `num`, if the entry has every field it needs.
    pub fn parse_record(num: usize, item: &TorrentEntry) -> (r: Option<QbListRecord>)
        ensures
            r matches Some(rec) ==> entry_parses(*item) && record_of(num as int, *item, rec),
            !entry_parses(*item) ==> r is None,
            entry_parses(*item) && !entry_eta_is_time(*item) ==> r is Some,
    {
        let name_json = match &item.name {
            Some(n) => n,
            None => return None,
        };
        let size = match item.size {
            Some(s) => s,
            None => return None,
        };
        let progress = match item.progress {
            Some(p) => p,
            None => return None,
        };
        let eta = match item.eta {
            Some(e) => e,
            None => return None,
        };
        let completion_on = match item.completion_on {
            Some(c) => c,
            None => return None,
        };
        let hash = match &item.hash {
            Some(h) => h,
            None => return None,
        };
        if classify_eta(eta, completion_on).is_none() {
            return None;
        }
        let eta_text = match humanize_eta(eta, completion_on) {
            Some(t) => t,
            None => return None,
        };
        Some(
            QbListRecord {
                num,
                name: Self::parse_name(name_json.as_str()),
                size: size / MIB,
                progress,
                eta: eta_text,
                hash: hash.clone(),
            },
        )
    }

    pub fn get_hash(&self) -> (r: String)
        ensures
            r@ == self.hash@,
    {
        self.hash.clone()
    }

    pub fn get_name(&self) -> (r: String)
        ensures
            r@ == self.name@,
    {
        self.name.clone()
    }

    /// The record's line in the listing.
    pub fn to_text(&self) -> (r: String)
        ensures
            r@ == record_text(*self),
    {
        let mut s = owned("/torrent");
        push_decimal(&mut s, self.num as u64);
        push_text(&mut s, "<code> | ");
        push_padded_right(&mut s, self.name.as_str(), NAME_WIDTH);
        push_text(&mut s, " | ");
        let size = crate::text::decimal_text(self.size);
        push_padded_left(&mut s, size.as_str(), 6);
        push_text(&mut s, " Mb | ");
        let progress = crate::text::decimal_text(self.progress);
        push_padded_left(&mut s, progress.as_str(), 3);
        push_text(&mut s, "% | ");
        push_padded_right(&mut s, self.eta.as_str(), 19);
        push_text(&mut s, "</code>");
        assert(s@ =~= record_text(*self));
        s
    }
}

/// What the daemon's sync call answered: the new cursor, and whether it says that the
/// whole state changed. Each is absent where the reply did not carry it with that type.
#[derive(Clone, Copy, Debug, PartialEq, Eq, Structural)]
pub struct MaindataReply {
    pub rid: Option<i64>,
    pub full_update: Option<bool>,
}

/// Why the cached list could not be brought up to date.
#[derive(Clone, Copy, Debug, PartialEq, Eq, Structural)]
pub enum ListError {
    /// The sync reply carried no cursor.
    BadSyncReply,
}

impl ListError {
    /// The message shown for the error.
    pub fn message(&self) -> (r: String)
        ensures
            r@ == "Failed to parse Qbittorrent response"@,
    {
        owned("Failed to parse Qbittorrent response")
    }
}

/// What a sync reply says: whether the state changed, or that it cannot be read.
pub open spec fn sync_result(reply: MaindataReply) -> Result<bool, ListError> {
    match reply.rid {
        None => Err(ListError::BadSyncReply),
        Some(_) => Ok(reply.full_update == Some(true)),
    }
}

/// A full fetch is due after this reply: it reports a change, or cannot be read.
pub open spec fn needs_fetch(reply: MaindataReply) -> bool {
    match sync_result(reply) {
        Ok(changed) => changed,
        Err(_) => true,
    }
}

/// The cursor kept after a reply: the reply's, or the old one where it carried none.
pub open spec fn next_cursor(rid: i64, reply: MaindataReply) -> i64 {
    match reply.rid {
        Some(r) => r,
        None => rid,
    }
}

/// The reply carries a cursor and does not report a change.
pub open spec fn reports_no_change(reply: MaindataReply) -> bool {
    reply.rid is Some && reply.full_update != Some(true)
}

/// Two syncs in a row that report no change ask for no fetch, and the second keeps the
/// cursor the first one stored.
pub proof fn lemma_unchanged_syncs_fetch_nothing(rid: i64, reply: MaindataReply)
    requires
        reports_no_change(reply),
    ensures
        !needs_fetch(reply),
        next_cursor(next_cursor(rid, reply), reply) == next_cursor(rid, reply),
{
}

/// The listing text: every record's line, or a failure note for an empty list.
pub open spec fn listing_text(records: Seq<QbListRecord>) -> Seq<char> {
    if records.len() > 0 {
        join(records.map_values(|r: QbListRecord| record_text(r)), "\n"@)
    } else {
        "Failed to get Qbittorrent response"@
    }
}

/// The cached torrent list and the daemon's sync cursor.
#[derive(Clone, Debug)]
pub struct QListAction {
    pub records: Vec<QbListRecord>,
    pub maindata_response: MaindataResponse,
}

impl QListAction {
    /// Records carry distinct places, in increasing order.
    pub open spec fn wf(&self) -> bool {
        nums_increasing(self.records@)
    }

    /// The records of the entries that parse, each numbered by its place in the list.
    pub fn update_records(items: &Vec<TorrentEntry>) -> (r: Vec<QbListRecord>)
        ensures
            records_from(items@, r@),
    {
        let mut records: Vec<QbListRecord> = Vec::new();
        let mut i: usize = 0;
        while i < items.len()
            invariant
                i <= items@.len(),
                records@.len() <= i,
                forall|k: int|
                    0 <= k < records@.len() ==> {
                        &&& 0 <= #[trigger] records@[k].num < i
                        &&& entry_parses(items@[records@[k].num as int])
                        &&& record_of(
                            records@[k].num as int,
                            items@[records@[k].num as int],
                            records@[k],
                        )
                    },
                forall|k: int, l: int|
                    0 <= k < l < records@.len() ==> records@[k].num < records@[l].num,
                forall|j: int|
                    0 <= j < i && entry_parses(#[trigger] items@[j]) && !entry_eta_is_time(
                        items@[j],
                    ) ==> exists|k: int| 0 <= k < records@.len() && records@[k].num == j,
            decreases items@.len() - i,
        {
            let ghost before = records@;
            let parsed = QbListRecord::parse_record(i, &items[i]);
            match parsed {
                Some(rec) => {
                    records.push(rec);
                    assert(records@[records@.len() - 1].num == i);
                },
                None => {},
            }
            assert forall|j: int|
                0 <= j < i + 1 && entry_parses(#[trigger] items@[j]) && !entry_eta_is_time(
                    items@[j],
                ) implies exists|k: int| 0 <= k < records@.len() && records@[k].num == j by {
                if j < i {
                    let k = choose|k: int| 0 <= k < before.len() && before[k].num == j;
                    assert(records@[k] == before[k]);
                } else {
                    assert(records@[records@.len() - 1].num == j);
                }
            }
            i = i + 1;
        }
        records
    }

    /// A cache filled from a full fetch, with the initial cursor.
    pub fn new(items: &Vec<TorrentEntry>) -> (r: QListAction)
        ensures
            records_from(items@, r.records@),
            r.maindata_response.rid == 0,
            r.wf(),
    {
        QListAction { records: Self::update_records(items), maindata_response: MaindataResponse { rid: 0 } }
    }

    /// Replaces the records with those of a full fetch; the cursor stays.
    pub fn update(&mut self, items: &Vec<TorrentEntry>)
        ensures
            records_from(items@, final(self).records@),
            final(self).maindata_response == old(self).maindata_response,
            final(self).wf(),
    {
        self.records = Self::update_records(items);
    }

    /// The body of the next sync call: the cursor last handed out.
    pub fn maindata_request(&self) -> (r: MaindataResponse)
        ensures
            r == self.maindata_response,
    {
        self.maindata_response
    }

    /// Reads a sync reply: stores its cursor and says whether the state changed.
    pub fn check_has_changes(&mut self, reply: &MaindataReply) -> (r: Result<bool, ListError>)
        ensures
            r == sync_result(*reply),
            final(self).maindata_response.rid == next_cursor(old(self).maindata_response.rid, *reply),
            final(self).records@ == old(self).records@,
    {
        match reply.rid {
            None => Err(ListError::BadSyncReply),
            Some(rid) => {
                self.maindata_response.rid = rid;
                Ok(
                    match reply.full_update {
                        Some(true) => true,
                        _ => false,
                    },
                )
            },
        }
    }

    /// Reads a sync reply and says whether a full fetch is due; the records are left as
    /// they are, so that an unchanged daemon costs no fetch.
    pub fn check_and_update(&mut self, reply: &MaindataReply) -> (r: bool)
        ensures
            r == needs_fetch(*reply),
            final(self).maindata_response.rid == next_cursor(old(self).maindata_response.rid, *reply),
            final(self).records@ == old(self).records@,
    {
        match self.check_has_changes(reply) {
            Err(_) => true,
            Ok(changed) => changed,
        }
    }

    /// The record at place `num`, if that entry parsed at the last refresh.
    pub fn get_record_by_num(&self, num: usize) -> (r: Option<QbListRecord>)
        requires
            self.wf(),
        ensures
            r is Some <==> exists|k: int| 0 <= k < self.records@.len() && self.records@[k].num == num,
            r matches Some(rec) ==> rec.num == num && exists|k: int|
                0 <= k < self.records@.len() && self.records@[k] == rec,
    {
        let mut i: usize = 0;
        while i < self.records.len()
            invariant
                i <= self.records@.len(),
                forall|k: int| 0 <= k < i ==> self.records@[k].num != num,
            decreases self.records@.len() - i,
        {
            if self.records[i].num == num {
                return Some(self.records[i].clone());
            }
            i = i + 1;
        }
        None
    }

    /// The first record with this hash, if any.
    pub fn get_record_by_hash(&self, hash: &str) -> (r: Option<QbListRecord>)
        ensures
            r is Some <==> exists|k: int| 0 <= k < self.records@.len() && self.records@[k].hash@ == hash@,
            r matches Some(rec) ==> rec.hash@ == hash@ && exists|k: int|
                0 <= k < self.records@.len() && self.records@[k] == rec,
    {
        let wanted = owned(hash);
        let mut i: usize = 0;
        while i < self.records.len()
            invariant
                i <= self.records@.len(),
                wanted@ == hash@,
                forall|k: int| 0 <= k < i ==> self.records@[k].hash@ != hash@,
            decreases self.records@.len() - i,
        {
            if self.records[i].hash == wanted {
                return Some(self.records[i].clone());
            }
            i = i + 1;
        }
        None
    }

    pub fn get_records(&self) -> (r: &Vec<QbListRecord>)
        ensures
            r@ == self.records@,
    {
        &self.records
    }
}

impl QbCommandAction for QListAction {
    open spec fn result_text(&self) -> Seq<char> {
        listing_text(self.records@)
    }

    fn action_result_to_string(&self) -> (r: String) {
        if self.records.len() == 0 {
            return owned("Failed to get Qbittorrent response");
        }
        let mut lines: Vec<String> = Vec::new();
        let mut i: usize = 0;
        while i < self.records.len()
            invariant
                i <= self.records@.len(),
                lines@.len() == i,
                forall|k: int| 0 <= k < i ==> lines@[k]@ == record_text(self.records@[k]),
            decreases self.records@.len() - i,
        {
            lines.push(self.records[i].to_text());
            i = i + 1;
        }
        let r = join_texts(&lines, "\n");
        assert(lines@.map_values(|l: String| l@) =~= self.records@.map_values(
            |rec: QbListRecord| record_text(rec),
        ));
        r
    }
}

} // verus!
