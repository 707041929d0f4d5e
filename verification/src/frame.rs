use vstd::prelude::*;

use crate::errors::SparkError;

verus! {

/// One inbound message, reduced to the plain values the reducer reads: the
/// application error code, the status (`0` opens a new assistant turn, `1`
/// continues it, anything else is treated as opening; `2` when the document
/// carries none), and the text fragment of the first choice, when there is
/// one.
pub struct Frame {
    pub code: i64,
    pub status: i64,
    pub content: Option<String>,
}

/// The text fragment a frame carries; empty when there is none.
pub open spec fn frame_frag(f: Frame) -> Seq<char> {
    match f.content {
        Some(s) => s@,
        None => Seq::empty(),
    }
}

/// Whether `s` is a well-formed protocol document: a JSON document whose
/// `header` is an object carrying an integer `code` and whose `status` field,
/// where present, is an integer. A function of the text alone, as
/// `serde_json::from_str` and `Value`'s accessors compute it.
pub uninterp spec fn doc_ok(s: Seq<char>) -> bool;

/// The application error code of a well-formed protocol document.
pub uninterp spec fn doc_code(s: Seq<char>) -> i64;

/// The status of a well-formed protocol document; `2` when the field is
/// absent.
pub uninterp spec fn doc_status(s: Seq<char>) -> i64;

/// The fragment of a well-formed protocol document, read under
/// `payload.choices.text[0].content`; empty when that path is missing or not
/// text.
pub uninterp spec fn doc_frag(s: Seq<char>) -> Seq<char>;

/// Relies on `serde_json`: `from_str::<Value>` to read the document and
/// `Value::get`, `as_i64`, `as_str` to walk it. `None` exactly on texts that
/// are not well-formed protocol documents; otherwise the code, the status
/// (`2` when absent) and the fragment (none when its path is missing or not
/// text; its `index` neighbour is never read).
#[verifier::external_body]
fn extract_frame(s: &str) -> (r: Option<Frame>)
    ensures
        r is Some <==> doc_ok(s@),
        r matches Some(f) ==> f.code == doc_code(s@) && f.status == doc_status(s@) && frame_frag(f)
            == doc_frag(s@),
{
    let doc = serde_json::from_str::<serde_json::Value>(s).ok()?;
    let header = doc.get("header")?;
    let code = header.get("code")?.as_i64()?;
    let status = match header.get("status") { Some(v) => v.as_i64()?, None => 2 };
    let content = doc
        .get("payload")
        .and_then(|p| p.get("choices"))
        .and_then(|c| c.get("text"))
        .and_then(|t| t.get(0))
        .and_then(|t0| t0.get("content"))
        .and_then(|cv| cv.as_str())
        .map(|cv| cv.to_owned());
    Some(Frame { code, status, content })
}

/// Reads one inbound document into a `Frame`.
///
/// Succeeds exactly on well-formed protocol documents, handing back their
/// code, status and fragment; everything else is a `ProtocolFrameError`.
pub fn parse_frame(s: &str) -> (r: Result<Frame, SparkError>)
    ensures
        r is Ok <==> doc_ok(s@),
        r matches Ok(f) ==> f.code == doc_code(s@) && f.status == doc_status(s@) && frame_frag(f)
            == doc_frag(s@),
        r matches Err(e) ==> e == SparkError::ProtocolFrameError,
{
    match extract_frame(s) {
        Some(f) => Ok(f),
        None => Err(SparkError::ProtocolFrameError),
    }
}

} // verus!
