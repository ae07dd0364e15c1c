use vstd::prelude::*;
use crate::timefmt::{TIME_SECS_MAX, TIME_SECS_MIN};
use vstd::string::StrSliceExecFns;
use vstd::string::StringExecFnsIsAscii;

verus! {

/// Everything the pruning loop needs to know about one local branch, as plain
/// values: its name, the full hexadecimal id of its tip commit, the commit's
/// local wall-clock timestamp in seconds, and whether it is checked out.
pub struct BranchInfo {
    pub name: String,
    pub id: String,
    pub time_secs: i64,
    pub is_head: bool,
}

/// The number of hexadecimal characters in a full commit id.
pub const COMMIT_ID_LEN: usize = 40;

impl BranchInfo {
    /// A record is well formed when its commit id is a full 40-character
    /// ASCII string and its timestamp can be rendered as a calendar date.
    pub open spec fn wf(self) -> bool {
        &&& self.id@.len() == COMMIT_ID_LEN
        &&& vstd::utf8::is_ascii_chars(self.id@)
        &&& TIME_SECS_MIN <= self.time_secs <= TIME_SECS_MAX
    }

    /// Builds a well-formed record from raw backend values, or reports that
    /// they are unusable: the id must be a full ASCII commit id and the
    /// shifted timestamp must stay within the renderable range.
    pub fn new(name: String, id: String, seconds: i64, offset_minutes: i32, is_head: bool) -> (r: Option<
        BranchInfo,
    >)
        ensures
            r is Some <==> {
                &&& id@.len() == COMMIT_ID_LEN
                &&& vstd::utf8::is_ascii_chars(id@)
                &&& i64::MIN <= seconds + offset_minutes * 60 <= i64::MAX
                &&& TIME_SECS_MIN <= seconds + offset_minutes * 60 <= TIME_SECS_MAX
            },
            r matches Some(b) ==> {
                &&& b.wf()
                &&& b.name == name
                &&& b.id == id
                &&& b.time_secs == seconds + offset_minutes * 60
                &&& b.is_head == is_head
            },
    {
        if !id.is_ascii() || id.as_str().unicode_len() != COMMIT_ID_LEN {
            return None;
        }
        match local_timestamp(seconds, offset_minutes) {
            Some(t) => {
                if crate::timefmt::time_in_range(t) {
                    Some(BranchInfo { name, id, time_secs: t, is_head })
                } else {
                    None
                }
            },
            None => None,
        }
    }

    /// A copy equal to the original, field for field.
    pub fn duplicate(&self) -> (r: BranchInfo)
        ensures
            r == *self,
    {
        BranchInfo {
            name: self.name.clone(),
            id: self.id.clone(),
            time_secs: self.time_secs,
            is_head: self.is_head,
        }
    }
}

/// The local wall-clock timestamp of a commit: its recorded seconds since the
/// epoch shifted by its recorded UTC offset in minutes. `None` when the shift
/// overflows a signed 64-bit count of seconds.
pub fn local_timestamp(seconds: i64, offset_minutes: i32) -> (r: Option<i64>)
    ensures
        r is Some <==> i64::MIN <= seconds + offset_minutes * 60 <= i64::MAX,
        r matches Some(t) ==> t == seconds + offset_minutes * 60,
{
    let shift: i64 = (offset_minutes as i64) * 60;
    seconds.checked_add(shift)
}

} // verus!
