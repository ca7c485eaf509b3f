//! Decoding of the URL carried by a URL-open Apple Event.
use vstd::prelude::*;
use vstd::utf8::{decode_utf8, valid_utf8};

use crate::codes::URL_EVENT_CODE;

verus! {

/// What the decoder reads from an Apple Event record: its class, its id, and the
/// bytes of its direct parameter's string value (without the terminating NUL), or
/// `None` where that string pointer is null.
#[derive(Clone, Debug, PartialEq, Eq)]
pub struct AppleEventRecord {
    pub event_class: u32,
    pub event_id: u32,
    pub direct_param: Option<Vec<u8>>,
}

/// The text that a lossy UTF-8 decoding makes of a byte sequence.
pub uninterp spec fn lossy_utf8(b: Seq<u8>) -> Seq<char>;

/// Relies on `String::from_utf8_lossy`: a valid UTF-8 sequence decodes as it is,
/// any other one with replacement characters, and never fails.
#[verifier::external_body]
fn decode_lossy(b: &[u8]) -> (r: String)
    ensures
        r@ == lossy_utf8(b@),
        valid_utf8(b@) ==> r@ == decode_utf8(b@),
{
    String::from_utf8_lossy(b).into_owned()
}

/// Whether a class/id pair is the one of a URL-open event.
pub open spec fn is_url_event(event_class: u32, event_id: u32) -> bool {
    event_class == URL_EVENT_CODE && event_id == URL_EVENT_CODE
}

/// The URL that a record carries: none unless it is a URL-open event with a
/// non-null direct-parameter string, which is then decoded lossily.
pub open spec fn url_of(rec: AppleEventRecord) -> Option<Seq<char>> {
    if !is_url_event(rec.event_class, rec.event_id) {
        None
    } else {
        match rec.direct_param {
            None => None,
            Some(b) => Some(lossy_utf8(b@)),
        }
    }
}

/// Extracts the URL of a URL-open event, or nothing for any other record.
pub fn parse_url(rec: &AppleEventRecord) -> (r: Option<String>)
    ensures
        r.is_some() == url_of(*rec).is_some(),
        r.is_some() ==> r.unwrap()@ == url_of(*rec).unwrap(),
        is_url_event(rec.event_class, rec.event_id) && rec.direct_param.is_some() && valid_utf8(
            rec.direct_param.unwrap()@,
        ) ==> r.is_some() && r.unwrap()@ == decode_utf8(rec.direct_param.unwrap()@),
{
    if rec.event_class != URL_EVENT_CODE || rec.event_id != URL_EVENT_CODE {
        return None;
    }
    match &rec.direct_param {
        None => None,
        Some(b) => Some(decode_lossy(b.as_slice())),
    }
}

/// A record that is not a URL-open event yields no URL, whatever its payload.
pub proof fn lemma_filter(rec: AppleEventRecord)
    requires
        !is_url_event(rec.event_class, rec.event_id),
    ensures
        url_of(rec) is None,
{
}

/// A URL-open event whose direct-parameter string is null yields no URL.
pub proof fn lemma_null_string(rec: AppleEventRecord)
    requires
        is_url_event(rec.event_class, rec.event_id),
        rec.direct_param is None,
    ensures
        url_of(rec) is None,
{
}

} // verus!
