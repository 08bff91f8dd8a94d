//! Interpretation of the server's answer: a non-success status becomes an
//! HTTP failure carrying the status and the raw body; a success body is
//! decoded as the two-level JSON envelope
//! `{ "data": { "checkpoints": [ { "time", "status_raw" }, ... ] } }`,
//! and any other shape is a decode failure.

use vstd::prelude::*;

use crate::data::ApiResponse;
use crate::data::Checkpoint;
use crate::data::TrackingData;
use crate::errors::TrackError;
use crate::json::json_as_array;
use crate::json::json_as_str;
use crate::json::json_get;
use crate::json::json_parse;
use crate::json::spec_json_doc;
use crate::json::spec_json_message;
use crate::json::spec_value_doc;
use crate::json::JsonDoc;
use crate::request::is_success_status;
use crate::request::spec_is_success;

verus! {

/// The (time, status_raw) pair of one element of the `checkpoints` array,
/// when the element is well formed: an object whose `time` and
/// `status_raw` members are both present and are strings.
pub open spec fn spec_checkpoint_pair(doc: JsonDoc) -> Option<(Seq<char>, Seq<char>)> {
    match doc {
        JsonDoc::Obj(m) => {
            if m.dom().contains("time"@) && m.dom().contains("status_raw"@) {
                match (m["time"@], m["status_raw"@]) {
                    (JsonDoc::Str(t), JsonDoc::Str(s)) => Some((t, s)),
                    _ => None,
                }
            } else {
                None
            }
        },
        _ => None,
    }
}

/// The pairs of a whole `checkpoints` array, in the array's order: Some
/// exactly when every element is a well-formed checkpoint.
pub open spec fn spec_checkpoint_pairs(elems: Seq<JsonDoc>) -> Option<
    Seq<(Seq<char>, Seq<char>)>,
> {
    if forall|i: int|
        0 <= i < elems.len() ==> (#[trigger] spec_checkpoint_pair(elems[i])) is Some {
        Some(Seq::new(elems.len(), |i: int| spec_checkpoint_pair(elems[i])->Some_0))
    } else {
        None
    }
}

/// The checkpoint pairs a response body decodes to: Some exactly when the
/// body is valid JSON shaped as an object whose `data` member is an
/// object whose `checkpoints` member is an array of well-formed
/// checkpoints; the pairs keep the array's order.
pub open spec fn spec_envelope(body: Seq<char>) -> Option<Seq<(Seq<char>, Seq<char>)>> {
    match spec_json_doc(body) {
        Some(JsonDoc::Obj(top)) => {
            if top.dom().contains("data"@) {
                match top["data"@] {
                    JsonDoc::Obj(data) => {
                        if data.dom().contains("checkpoints"@) {
                            match data["checkpoints"@] {
                                JsonDoc::Arr(elems) => spec_checkpoint_pairs(elems),
                                _ => None,
                            }
                        } else {
                            None
                        }
                    },
                    _ => None,
                }
            } else {
                None
            }
        },
        _ => None,
    }
}

/// The (time, status_raw) pairs carried by a checkpoint list.
pub open spec fn spec_pairs_of(cps: Seq<Checkpoint>) -> Seq<(Seq<char>, Seq<char>)> {
    cps.map_values(|cp: Checkpoint| (cp.time@, cp.status_raw@))
}

/// A checkpoint list carries one pair per checkpoint, in the same order,
/// and each pair is exactly that checkpoint's two fields.
pub proof fn lemma_pairs_of(cps: Seq<Checkpoint>)
    ensures
        spec_pairs_of(cps).len() == cps.len(),
        forall|i: int|
            0 <= i < cps.len() ==> #[trigger] spec_pairs_of(cps)[i] == (
                cps[i].time@,
                cps[i].status_raw@,
            ),
{
}

/// A parsed body whose top level is no object, or has no `data` member,
/// or whose `data` is no object or has no `checkpoints` member, decodes
/// to nothing.
pub proof fn lemma_missing_member_fails(body: Seq<char>)
    requires
        spec_json_doc(body) is Some,
        !({
            &&& spec_json_doc(body)->Some_0 matches JsonDoc::Obj(top)
            &&& top.dom().contains("data"@)
            &&& top["data"@] matches JsonDoc::Obj(data)
            &&& data.dom().contains("checkpoints"@)
        }),
    ensures
        spec_envelope(body) is None,
{
}

/// A body whose `checkpoints` member is the empty array decodes to the
/// empty checkpoint sequence.
pub proof fn lemma_empty_checkpoint_array(body: Seq<char>)
    requires
        spec_json_doc(body) is Some,
        ({
            &&& spec_json_doc(body)->Some_0 matches JsonDoc::Obj(top)
            &&& top.dom().contains("data"@)
            &&& top["data"@] matches JsonDoc::Obj(data)
            &&& data.dom().contains("checkpoints"@)
            &&& data["checkpoints"@] == JsonDoc::Arr(Seq::<JsonDoc>::empty())
        }),
    ensures
        spec_envelope(body) == Some(Seq::<(Seq<char>, Seq<char>)>::empty()),
{
    assert(spec_checkpoint_pairs(Seq::<JsonDoc>::empty()) matches Some(ps) && ps
        =~= Seq::<(Seq<char>, Seq<char>)>::empty());
}

/// Reads one checkpoint out of one element of the `checkpoints` array:
/// exactly the well-formed elements yield one, with its fields taken from
/// the element's `time` and `status_raw` members.
fn checkpoint_from_value(v: &serde_json::Value) -> (r: Option<Checkpoint>)
    ensures
        r is Some <==> spec_checkpoint_pair(spec_value_doc(*v)) is Some,
        r matches Some(cp) ==> spec_checkpoint_pair(spec_value_doc(*v)) == Some(
            (cp.time@, cp.status_raw@),
        ),
{
    let time = match json_get(v, "time") {
        Some(t) => t,
        None => {
            return None;
        },
    };
    let time = match json_as_str(time) {
        Some(s) => s,
        None => {
            return None;
        },
    };
    let status_raw = match json_get(v, "status_raw") {
        Some(s) => s,
        None => {
            return None;
        },
    };
    let status_raw = match json_as_str(status_raw) {
        Some(s) => s,
        None => {
            return None;
        },
    };
    Some(Checkpoint { time: time.to_owned(), status_raw: status_raw.to_owned() })
}

/// Reads the whole `checkpoints` array, in order: one checkpoint per
/// element exactly when every element is well formed, with the same pairs
/// in the same order.
fn checkpoints_from_values(items: &Vec<serde_json::Value>) -> (r: Option<Vec<Checkpoint>>)
    ensures
        ({
            let elems = items@.map_values(|e: serde_json::Value| spec_value_doc(e));
            &&& (r is Some <==> spec_checkpoint_pairs(elems) is Some)
            &&& (r matches Some(cps) ==> spec_checkpoint_pairs(elems) == Some(
                spec_pairs_of(cps@),
            ))
        }),
{
    let ghost elems = items@.map_values(|e: serde_json::Value| spec_value_doc(e));
    let mut cps: Vec<Checkpoint> = Vec::new();
    let mut i: usize = 0;
    while i < items.len()
        invariant
            i <= items@.len(),
            elems == items@.map_values(|e: serde_json::Value| spec_value_doc(e)),
            elems.len() == items@.len(),
            cps@.len() == i,
            forall|j: int| 0 <= j < i ==> (#[trigger] spec_checkpoint_pair(elems[j])) is Some,
            forall|j: int|
                0 <= j < i ==> spec_checkpoint_pair(#[trigger] elems[j]) == Some(
                    (cps@[j].time@, cps@[j].status_raw@),
                ),
        decreases items@.len() - i,
    {
        let cp = match checkpoint_from_value(&items[i]) {
            Some(cp) => cp,
            None => {
                proof {
                    assert(spec_checkpoint_pair(elems[i as int]) is None);
                    assert(!(forall|j: int|
                        0 <= j < elems.len() ==> (#[trigger] spec_checkpoint_pair(
                            elems[j],
                        )) is Some)) by {
                        assert(0 <= i < elems.len() && !(spec_checkpoint_pair(
                            elems[i as int],
                        ) is Some));
                    }
                }
                return None;
            },
        };
        cps.push(cp);
        i = i + 1;
    }
    proof {
        let ps = Seq::new(elems.len(), |j: int| spec_checkpoint_pair(elems[j])->Some_0);
        assert(ps =~= spec_pairs_of(cps@));
    }
    Some(cps)
}

/// Decodes a response body into the envelope: Ok exactly when the body is
/// valid JSON of the two-level envelope shape, and then the returned
/// checkpoints carry the body's (time, status_raw) pairs in the body's
/// order. Text that is not valid JSON fails with the parser's own
/// message; a shape failure names the first missing or ill-shaped part.
pub fn decode_response(body: &str) -> (r: Result<ApiResponse, String>)
    ensures
        r is Ok <==> spec_envelope(body@) is Some,
        r matches Ok(resp) ==> spec_envelope(body@) == Some(
            spec_pairs_of(resp.data.checkpoints@),
        ),
        spec_json_doc(body@) is None ==> (r matches Err(m) && m@ == spec_json_message(body@)),
{
    let parsed = match json_parse(body) {
        Ok(v) => v,
        Err(message) => {
            return Err(message);
        },
    };
    let data = match json_get(&parsed, "data") {
        Some(d) => d,
        None => {
            return Err("missing object field `data`".to_owned());
        },
    };
    let checkpoints = match json_get(data, "checkpoints") {
        Some(c) => c,
        None => {
            return Err("missing object field `checkpoints`".to_owned());
        },
    };
    let items = match json_as_array(checkpoints) {
        Some(a) => a,
        None => {
            return Err("field `checkpoints` is not an array".to_owned());
        },
    };
    match checkpoints_from_values(items) {
        Some(cps) => Ok(ApiResponse { data: TrackingData { checkpoints: cps } }),
        None => Err(
            "malformed checkpoint: expected string fields `time` and `status_raw`".to_owned(),
        ),
    }
}

/// Interprets one HTTP exchange, given the status code and the body text.
/// A status outside the success range fails as an HTTP error that carries
/// exactly that status and that body. A success status yields the decoded
/// envelope exactly when the body decodes, with the body's checkpoint
/// pairs in the body's order; a body the decoder refuses fails as a
/// decode error, carrying the JSON parser's own message when the body is
/// not valid JSON.
pub fn interpret_response(status: u16, body: String) -> (r: Result<ApiResponse, TrackError>)
    ensures
        !spec_is_success(status) ==> (r matches Err(e) && e matches TrackError::Http {
            status: s,
            body: b,
        } && s == status && b@ == body@),
        r is Ok <==> spec_is_success(status) && spec_envelope(body@) is Some,
        r matches Ok(resp) ==> spec_envelope(body@) == Some(
            spec_pairs_of(resp.data.checkpoints@),
        ),
        spec_is_success(status) ==> (r matches Err(e) ==> e is Decode),
        spec_is_success(status) && spec_json_doc(body@) is None ==> (r matches Err(e)
            && e matches TrackError::Decode { message } && message@ == spec_json_message(body@)),
{
    if !is_success_status(status) {
        return Err(TrackError::Http { status, body });
    }
    match decode_response(body.as_str()) {
        Ok(resp) => Ok(resp),
        Err(message) => Err(TrackError::Decode { message }),
    }
}

} // verus!
