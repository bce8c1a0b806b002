//! The request dispatcher: one request in, one response out.
//!
//! The dispatcher is the single serialized consumer of the request queue. A
//! get derives the read key, consults the store, and decodes whatever came
//! back. A put derives the write key from the signature, runs the signature
//! gate, and only on success serializes the entry and writes it — a failed
//! verification skips the store entirely, and a failed store write is
//! reported, never swallowed. The decision logic is split from the store
//! round-trip so a driver owning a remote store handle can run the same
//! steps: [`handle_put_request`] decides, [`complete_get`] and
//! [`complete_put`] turn store outcomes into responses, and
//! [`process_request`] composes them against an in-memory store.

use vstd::prelude::*;
use vstd::string::StringExecFns;
use crate::codec::{decode_spec, encode_spec, encode_entry, decode_entry, max_name_len};
use crate::crypto::{ecdsa_valid, message_spec, verify_put};
use crate::keys::{derive_read_key, derive_write_key, read_key_spec, write_key_spec};
use crate::messages::{
    DhtRequest, DhtResponse, DhtResponseView, EntryView, ErrorCode, GetRecordResponse,
    GetRecordResponseView, PutRecordRequest, PutRecordResponse, PutRecordResponseView,
};
use crate::store::MemStore;
use crate::channel::{push_bounded, Broadcaster, BoundedQueue};

verus! {

/// The error message attached to a put whose signature did not verify.
pub open spec fn invalid_sig_msg() -> Seq<char> {
    "Invalid signature"@
}

/// The error message attached to a get whose key holds no record.
pub open spec fn not_found_msg() -> Seq<char> {
    "Record not found"@
}

/// The error message attached to a get whose stored bytes do not decode.
pub open spec fn malformed_record_msg() -> Seq<char> {
    "Malformed record"@
}

/// Whether a put request passes the signature gate: its signature is valid
/// over the canonical message for its public key and its entry's name.
pub open spec fn put_authorized(req: PutRecordRequest) -> bool {
    ecdsa_valid(message_spec(req.public_key@, req.entry.name@), req.signature@, req.public_key@)
}

/// The store write a put with a verified signature must perform.
pub struct StorePut {
    pub key: String,
    pub value: String,
}

/// What the dispatcher decided for a put: either the request was rejected
/// for its signature and this is the response, or the store must be written.
pub enum PutStep {
    Reject(PutRecordResponse),
    Store(StorePut),
}

/// Runs the write path up to (but not including) the store call: derives the
/// write key, verifies the signature, and serializes the entry. A request
/// whose signature does not verify is rejected with the derived key and the
/// unauthenticated error, and causes no store write.
pub fn handle_put_request(req: &PutRecordRequest) -> (step: PutStep)
    requires
        req.entry.name@.len() < max_name_len(),
    ensures
        match step {
            PutStep::Reject(resp) => !put_authorized(*req) && resp@.key == Some(
                write_key_spec(req.signature@),
            ) && resp@.error == Some((ErrorCode::Unauthenticated, invalid_sig_msg())),
            PutStep::Store(sp) => put_authorized(*req) && sp.key@ == write_key_spec(
                req.signature@,
            ) && sp.value@ == encode_spec(req.entry.name@, req.entry.content@),
        },
{
    let key = derive_write_key(&req.signature);
    if !verify_put(&req.entry, &req.signature, &req.public_key) {
        PutStep::Reject(
            PutRecordResponse {
                key: Some(key),
                error: Some((ErrorCode::Unauthenticated, String::from_str("Invalid signature"))),
            },
        )
    } else {
        let value = encode_entry(&req.entry);
        PutStep::Store(StorePut { key, value })
    }
}

/// Turns the store's answer to a get into the response the caller sees: a
/// found record is decoded into an entry, a record that does not decode is
/// reported as malformed, and a store error is passed through.
pub fn complete_get(found: Result<String, String>) -> (resp: GetRecordResponse)
    ensures
        match found {
            Ok(v) => match decode_spec(v@) {
                Some(nc) => resp@.entry == Some(EntryView { name: nc.0, content: nc.1 })
                    && resp@.error is None,
                None => resp@.entry is None && resp@.error == Some(malformed_record_msg()),
            },
            Err(m) => resp@.entry is None && resp@.error == Some(m@),
        },
{
    match found {
        Ok(v) => match decode_entry(&v) {
            Some(entry) => GetRecordResponse { entry: Some(entry), error: None },
            None => GetRecordResponse {
                entry: None,
                error: Some(String::from_str("Malformed record")),
            },
        },
        Err(m) => GetRecordResponse { entry: None, error: Some(m) },
    }
}

/// Turns the store's answer to an admitted put into the response the caller
/// sees: the derived key is always reported, and a store failure is attached
/// as an error rather than dropped.
pub fn complete_put(key: String, outcome: Result<(), String>) -> (resp: PutRecordResponse)
    ensures
        resp@.key == Some(key@),
        match outcome {
            Ok(u) => resp@.error is None,
            Err(m) => resp@.error == Some((ErrorCode::Unknown, m@)),
        },
{
    match outcome {
        Ok(_) => PutRecordResponse { key: Some(key), error: None },
        Err(m) => PutRecordResponse { key: Some(key), error: Some((ErrorCode::Unknown, m)) },
    }
}

/// The store contents after the dispatcher has processed `req` against a
/// store holding `pre`: only an authorized put changes the store.
pub open spec fn post_store_spec(req: DhtRequest, pre: Map<Seq<char>, Seq<char>>) -> Map<
    Seq<char>,
    Seq<char>,
> {
    match req {
        DhtRequest::GetRecord(g) => pre,
        DhtRequest::PutRecord(p) => if put_authorized(p) {
            pre.insert(write_key_spec(p.signature@), encode_spec(p.entry.name@, p.entry.content@))
        } else {
            pre
        },
    }
}

/// The response the dispatcher emits for `req` against a store holding
/// `pre`.
pub open spec fn response_spec(req: DhtRequest, pre: Map<Seq<char>, Seq<char>>) -> DhtResponseView {
    match req {
        DhtRequest::GetRecord(g) => DhtResponseView::GetRecord(
            if pre.contains_key(read_key_spec(g.location@)) {
                match decode_spec(pre[read_key_spec(g.location@)]) {
                    Some(nc) => GetRecordResponseView {
                        entry: Some(EntryView { name: nc.0, content: nc.1 }),
                        error: None,
                    },
                    None => GetRecordResponseView {
                        entry: None,
                        error: Some(malformed_record_msg()),
                    },
                }
            } else {
                GetRecordResponseView { entry: None, error: Some(not_found_msg()) }
            },
        ),
        DhtRequest::PutRecord(p) => DhtResponseView::PutRecord(
            if put_authorized(p) {
                PutRecordResponseView { key: Some(write_key_spec(p.signature@)), error: None }
            } else {
                PutRecordResponseView {
                    key: Some(write_key_spec(p.signature@)),
                    error: Some((ErrorCode::Unauthenticated, invalid_sig_msg())),
                }
            },
        ),
    }
}

/// What a full dispatcher step promises: the store is left exactly as
/// [`post_store_spec`] says and the response is exactly what
/// [`response_spec`] says, both as functions of the request and of the store
/// contents before the step.
pub open spec fn step_spec(
    req: DhtRequest,
    pre: Map<Seq<char>, Seq<char>>,
    post: Map<Seq<char>, Seq<char>>,
    resp: DhtResponseView,
) -> bool {
    post == post_store_spec(req, pre) && resp == response_spec(req, pre)
}

/// Processes one request to completion against an in-memory store: exactly
/// the dispatcher's per-request step, with the store round-trip inlined.
pub fn process_request(req: DhtRequest, store: &mut MemStore) -> (resp: DhtResponse)
    requires
        req matches DhtRequest::PutRecord(p) ==> p.entry.name@.len() < max_name_len(),
    ensures
        step_spec(req, old(store)@, final(store)@, resp@),
{
    match req {
        DhtRequest::GetRecord(g) => {
            let key = derive_read_key(&g.location);
            let outcome: Result<String, String> = match store.get(&key) {
                Some(v) => Ok(v),
                None => Err(String::from_str("Record not found")),
            };
            DhtResponse::GetRecord(complete_get(outcome))
        },
        DhtRequest::PutRecord(p) => {
            match handle_put_request(&p) {
                PutStep::Reject(resp) => DhtResponse::PutRecord(resp),
                PutStep::Store(sp) => {
                    let key = sp.key.clone();
                    store.put(sp.key, sp.value);
                    DhtResponse::PutRecord(complete_put(key, Ok(())))
                },
            }
        },
    }
}

/// Whether every put sitting in `reqs` carries an entry name the record
/// format can frame.
pub open spec fn queue_names_bounded(reqs: Seq<DhtRequest>) -> bool {
    forall|i: int|
        0 <= i < reqs.len() ==> ((#[trigger] reqs[i]) matches DhtRequest::PutRecord(p)
            ==> p.entry.name@.len() < max_name_len())
}

/// One turn of the dispatcher loop: takes the oldest queued request, if any,
/// processes it to completion against the store, and broadcasts the response
/// to every subscriber. Returns whether a request was processed. Requests
/// are consumed in FIFO order and each produces exactly one published
/// response.
pub fn drain_step(
    queue: &mut BoundedQueue<DhtRequest>,
    store: &mut MemStore,
    broadcaster: &mut Broadcaster,
) -> (processed: bool)
    requires
        old(broadcaster).wf(),
        queue_names_bounded(old(queue).contents()),
    ensures
        final(broadcaster).wf(),
        final(queue).cap() == old(queue).cap(),
        final(broadcaster).cap() == old(broadcaster).cap(),
        final(broadcaster).buffers().len() == old(broadcaster).buffers().len(),
        processed == (old(queue).contents().len() > 0),
        !processed ==> final(queue).contents() == old(queue).contents()
            && final(store)@ == old(store)@
            && final(broadcaster).buffers() == old(broadcaster).buffers(),
        processed ==> final(queue).contents() == old(queue).contents().drop_first()
            && final(store)@ == post_store_spec(old(queue).contents()[0], old(store)@)
            && (forall|i: int|
            0 <= i < old(broadcaster).buffers().len() ==> #[trigger] final(broadcaster).buffers()[i]
                == push_bounded(
                old(broadcaster).buffers()[i],
                response_spec(old(queue).contents()[0], old(store)@),
                old(broadcaster).cap(),
            )),
{
    match queue.dequeue() {
        None => false,
        Some(req) => {
            let resp = process_request(req, store);
            broadcaster.publish(&resp);
            true
        },
    }
}

} // verus!
