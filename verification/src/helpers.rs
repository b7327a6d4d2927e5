//! A compact identification of a change and patchset for log lines.
use vstd::prelude::*;
use vstd::string::*;
use vstd::utf8::*;

use crate::gerrit_stream_events::models::{Change, Patchset};
use crate::text::{decimal, decimal_string, has_prefix};

verus! {

/// `[change number/short change id|short commit sha/patchset number]`,
/// where the short forms are the first seven bytes.
pub struct LoggingEnricher<'a> {
    pub change_number: u64,
    pub change_id: &'a str,
    pub commit_sha: &'a str,
    pub patchset_number: u64,
}

/// `short` is the part of `full` that its first seven UTF-8 bytes encode.
pub open spec fn first_seven_bytes(full: Seq<char>, short: Seq<char>) -> bool {
    has_prefix(full, short) && encode_utf8(short).len() == 7
}

/// The first seven bytes of `s`, which must end on a character boundary.
fn first_seven(s: &str) -> (short: &str)
    requires
        is_char_boundary(encode_utf8(s@), 7),
    ensures
        first_seven_bytes(s@, short@),
{
    proof {
        broadcast use encode_utf8_valid_utf8, encode_utf8_decode_utf8;
    }
    let (short, rest) = s.split_at(7);
    proof {
        broadcast use encode_utf8_valid_utf8, encode_utf8_decode_utf8;
        let bytes = encode_utf8(s@);
        decode_utf8_split(bytes, 7);
        assert(decode_utf8(bytes.subrange(0, 7)) == short@);
        assert(decode_utf8(bytes.subrange(7, bytes.len() as int)) == rest@);
        assert(s@ == short@ + rest@);
        assert(s@.subrange(0, short@.len() as int) =~= short@);
    }
    short
}

/// How a [`LoggingEnricher`] is rendered.
pub open spec fn enricher_text(e: LoggingEnricher) -> Seq<char> {
    "["@ + decimal(e.change_number as nat) + "/"@ + e.change_id@ + "|"@ + e.commit_sha@ + "/"@
        + decimal(e.patchset_number as nat) + "]"@
}

impl<'a> LoggingEnricher<'a> {
    /// Identifies `change` and `patchset`. The change id and the revision are
    /// shortened to their first seven bytes, which must end on a character
    /// boundary.
    pub fn new(patchset: &'a Patchset, change: &'a Change) -> (e: Self)
        requires
            is_char_boundary(encode_utf8(change.id@), 7),
            is_char_boundary(encode_utf8(patchset.revision@), 7),
        ensures
            e.change_number == change.number,
            e.patchset_number == patchset.number,
            first_seven_bytes(change.id@, e.change_id@),
            first_seven_bytes(patchset.revision@, e.commit_sha@),
    {
        LoggingEnricher {
            change_number: change.number,
            change_id: first_seven(change.id.as_str()),
            commit_sha: first_seven(patchset.revision.as_str()),
            patchset_number: patchset.number,
        }
    }

    /// The rendering used in log lines.
    pub fn to_string(&self) -> (s: String)
        ensures
            s@ == enricher_text(*self),
    {
        let mut s = "[".to_owned();
        s.append(decimal_string(self.change_number).as_str());
        s.append("/");
        s.append(self.change_id);
        s.append("|");
        s.append(self.commit_sha);
        s.append("/");
        s.append(decimal_string(self.patchset_number).as_str());
        s.append("]");
        s
    }
}

} // verus!
