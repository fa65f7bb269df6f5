//! The form bodies of the daemon's endpoints, as plain values.
use vstd::prelude::*;

verus! {

/// Body of the login call.
#[derive(Clone, Debug)]
pub struct Login {
    pub username: String,
    pub password: String,
}

/// Body of the tag creation call.
#[derive(Clone, Debug)]
pub struct QTag {
    pub tags: String,
}

/// Body of the list call: the key the daemon sorts by.
#[derive(Clone, Debug)]
pub struct QbList {
    pub sort: String,
}

/// Body of the add call: the link and the tag to attach.
#[derive(Clone, Debug)]
pub struct QDownload {
    pub urls: String,
    pub tags: String,
}

/// Body of the single-torrent detail call.
#[derive(Clone, Debug)]
pub struct QGetProperties {
    pub hash: String,
}

/// Body of the pause call.
#[derive(Clone, Debug)]
pub struct QPause {
    pub hashes: String,
}

/// Body of the resume call.
#[derive(Clone, Debug)]
pub struct QResume {
    pub hashes: String,
}

/// Body of the sync call: the cursor the daemon last handed out.
#[derive(Clone, Copy, Debug, PartialEq, Eq, Structural)]
pub struct MaindataResponse {
    pub rid: i64,
}

impl Default for MaindataResponse {
    fn default() -> (r: Self)
        ensures
            r.rid == 0,
    {
        MaindataResponse { rid: 0 }
    }
}

} // verus!
