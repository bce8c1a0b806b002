//! System-level guarantees of the coordination layer, stated over the
//! dispatcher's step relation and proved once and for all.

use vstd::prelude::*;
use crate::channel::push_bounded;
use crate::codec::{decode_spec, encode_spec, lemma_codec_round_trip, max_name_len};
use crate::dispatcher::{invalid_sig_msg, put_authorized, step_spec};
use crate::keys::{lemma_write_key_injective, write_key_spec};
use crate::messages::{
    DhtRequest, DhtResponseView, ErrorCode, GetRecordRequest, PutRecordRequest,
};

verus! {

/// A put whose signature does not verify changes nothing in the store and
/// is answered with the unauthenticated error: the write is refused before
/// the store is ever touched.
pub proof fn lemma_rejected_put_writes_nothing(
    p: PutRecordRequest,
    pre: Map<Seq<char>, Seq<char>>,
    post: Map<Seq<char>, Seq<char>>,
    resp: DhtResponseView,
)
    requires
        !put_authorized(p),
        step_spec(DhtRequest::PutRecord(p), pre, post, resp),
    ensures
        post == pre,
        (resp matches DhtResponseView::PutRecord(pr) && pr.key == Some(
            write_key_spec(p.signature@),
        ) && pr.error == Some((ErrorCode::Unauthenticated, invalid_sig_msg()))),
{
}

/// Put-then-get round trip: after an authorized put, a get addressed by the
/// write key derived from that same signature returns an entry equal to the
/// one that was stored.
pub proof fn lemma_put_then_get(
    p: PutRecordRequest,
    g: GetRecordRequest,
    m0: Map<Seq<char>, Seq<char>>,
    m1: Map<Seq<char>, Seq<char>>,
    m2: Map<Seq<char>, Seq<char>>,
    r1: DhtResponseView,
    r2: DhtResponseView,
)
    requires
        p.entry.name@.len() < max_name_len(),
        put_authorized(p),
        step_spec(DhtRequest::PutRecord(p), m0, m1, r1),
        g.location@ == write_key_spec(p.signature@),
        step_spec(DhtRequest::GetRecord(g), m1, m2, r2),
    ensures
        (r2 matches DhtResponseView::GetRecord(gr) && gr.entry == Some(p.entry@) && gr.error
            is None),
{
    lemma_codec_round_trip(p.entry.name@, p.entry.content@);
}

/// Idempotence: processing the same put twice in a row leaves the store as
/// the first put left it and answers both times with the same response.
pub proof fn lemma_put_idempotent(
    p: PutRecordRequest,
    m0: Map<Seq<char>, Seq<char>>,
    m1: Map<Seq<char>, Seq<char>>,
    m2: Map<Seq<char>, Seq<char>>,
    r1: DhtResponseView,
    r2: DhtResponseView,
)
    requires
        step_spec(DhtRequest::PutRecord(p), m0, m1, r1),
        step_spec(DhtRequest::PutRecord(p), m1, m2, r2),
    ensures
        m2 == m1,
        r2 == r1,
{
    if put_authorized(p) {
        let k = write_key_spec(p.signature@);
        let v = encode_spec(p.entry.name@, p.entry.content@);
        assert(m1.insert(k, v) =~= m1);
    }
}

/// Puts carrying distinct signatures land on distinct keys, and neither
/// write shadows the other: after both, each key still holds its own entry.
pub proof fn lemma_distinct_puts_coexist(
    p1: PutRecordRequest,
    p2: PutRecordRequest,
    m0: Map<Seq<char>, Seq<char>>,
    m1: Map<Seq<char>, Seq<char>>,
    m2: Map<Seq<char>, Seq<char>>,
    r1: DhtResponseView,
    r2: DhtResponseView,
)
    requires
        p1.entry.name@.len() < max_name_len(),
        p2.entry.name@.len() < max_name_len(),
        p1.signature@ != p2.signature@,
        put_authorized(p1),
        put_authorized(p2),
        step_spec(DhtRequest::PutRecord(p1), m0, m1, r1),
        step_spec(DhtRequest::PutRecord(p2), m1, m2, r2),
    ensures
        write_key_spec(p1.signature@) != write_key_spec(p2.signature@),
        decode_spec(m2[write_key_spec(p1.signature@)]) == Some(
            (p1.entry.name@, p1.entry.content@),
        ),
        decode_spec(m2[write_key_spec(p2.signature@)]) == Some(
            (p2.entry.name@, p2.entry.content@),
        ),
{
    lemma_write_key_injective(p1.signature@, p2.signature@);
    lemma_codec_round_trip(p1.entry.name@, p1.entry.content@);
    lemma_codec_round_trip(p2.entry.name@, p2.entry.content@);
}

/// Responses leave the dispatcher in the order their requests were
/// processed: two consecutive dispatcher turns append their two responses,
/// in that order, to every subscriber buffer that has room for both.
pub proof fn lemma_responses_in_request_order(
    buf: Seq<DhtResponseView>,
    r1: DhtResponseView,
    r2: DhtResponseView,
    cap: nat,
)
    requires
        buf.len() + 2 <= cap,
    ensures
        push_bounded(push_bounded(buf, r1, cap), r2, cap) == buf.push(r1).push(r2),
{
}

} // verus!
