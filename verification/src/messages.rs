//! The request and response types that cross the coordination layer.
//!
//! Requests are created by the RPC facade, travel through the bounded request
//! queue to the dispatcher, and are discarded once a response has been
//! produced. Responses are fanned out to every listener. Each type carries a
//! mathematical view so that contracts can speak of its contents as plain
//! sequences.

use vstd::prelude::*;

verus! {

/// An application-level record: a name plus an opaque payload. Immutable once
/// constructed; serialized to a byte string for storage.
pub struct Entry {
    pub name: String,
    pub content: String,
}

/// The mathematical contents of an [`Entry`].
pub struct EntryView {
    pub name: Seq<char>,
    pub content: Seq<char>,
}

impl View for Entry {
    type V = EntryView;

    open spec fn view(&self) -> EntryView {
        EntryView { name: self.name@, content: self.content@ }
    }
}

impl DeepView for Entry {
    type V = EntryView;

    open spec fn deep_view(&self) -> EntryView {
        self@
    }
}

impl Clone for Entry {
    fn clone(&self) -> (res: Self)
        ensures
            res@ == self@,
    {
        Entry { name: self.name.clone(), content: self.content.clone() }
    }
}

/// A request to read the record stored under a caller-chosen location.
/// Locations are not authenticated.
pub struct GetRecordRequest {
    pub location: String,
}

/// A request to store an entry, carrying the signature that authorizes the
/// write and the textual form of the public key that allegedly produced it.
pub struct PutRecordRequest {
    pub entry: Entry,
    pub signature: String,
    pub public_key: String,
}

/// A typed request as it sits in the dispatcher's queue.
pub enum DhtRequest {
    GetRecord(GetRecordRequest),
    PutRecord(PutRecordRequest),
}

/// The error class attached to a failed put.
#[derive(Clone, Copy, PartialEq, Eq, Structural, Debug)]
pub enum ErrorCode {
    /// The signature did not verify against the claimed public key.
    Unauthenticated,
    /// The underlying store reported a failure.
    Unknown,
}

/// The outcome of a get: exactly one of the two fields is populated.
pub struct GetRecordResponse {
    pub entry: Option<Entry>,
    pub error: Option<String>,
}

/// The mathematical contents of a [`GetRecordResponse`].
pub struct GetRecordResponseView {
    pub entry: Option<EntryView>,
    pub error: Option<Seq<char>>,
}

impl View for GetRecordResponse {
    type V = GetRecordResponseView;

    open spec fn view(&self) -> GetRecordResponseView {
        GetRecordResponseView { entry: self.entry.deep_view(), error: self.error.deep_view() }
    }
}

impl DeepView for GetRecordResponse {
    type V = GetRecordResponseView;

    open spec fn deep_view(&self) -> GetRecordResponseView {
        self@
    }
}

impl Clone for GetRecordResponse {
    fn clone(&self) -> (res: Self)
        ensures
            res@ == self@,
    {
        let entry = match &self.entry {
            Some(e) => Some(e.clone()),
            None => None,
        };
        let error = match &self.error {
            Some(m) => Some(m.clone()),
            None => None,
        };
        GetRecordResponse { entry, error }
    }
}

/// The outcome of a put: the derived write key, and the error if the write
/// was refused or the store failed.
pub struct PutRecordResponse {
    pub key: Option<String>,
    pub error: Option<(ErrorCode, String)>,
}

/// The mathematical contents of a [`PutRecordResponse`].
pub struct PutRecordResponseView {
    pub key: Option<Seq<char>>,
    pub error: Option<(ErrorCode, Seq<char>)>,
}

impl View for PutRecordResponse {
    type V = PutRecordResponseView;

    open spec fn view(&self) -> PutRecordResponseView {
        PutRecordResponseView {
            key: self.key.deep_view(),
            error: match self.error {
                Some((code, m)) => Some((code, m@)),
                None => None,
            },
        }
    }
}

impl DeepView for PutRecordResponse {
    type V = PutRecordResponseView;

    open spec fn deep_view(&self) -> PutRecordResponseView {
        self@
    }
}

impl Clone for PutRecordResponse {
    fn clone(&self) -> (res: Self)
        ensures
            res@ == self@,
    {
        let key = match &self.key {
            Some(k) => Some(k.clone()),
            None => None,
        };
        let error = match &self.error {
            Some((code, m)) => Some((*code, m.clone())),
            None => None,
        };
        PutRecordResponse { key, error }
    }
}

/// A typed response as the dispatcher emits it to the broadcaster.
pub enum DhtResponse {
    GetRecord(GetRecordResponse),
    PutRecord(PutRecordResponse),
}

/// The mathematical contents of a [`DhtResponse`].
pub enum DhtResponseView {
    GetRecord(GetRecordResponseView),
    PutRecord(PutRecordResponseView),
}

impl View for DhtResponse {
    type V = DhtResponseView;

    open spec fn view(&self) -> DhtResponseView {
        match self {
            DhtResponse::GetRecord(r) => DhtResponseView::GetRecord(r@),
            DhtResponse::PutRecord(r) => DhtResponseView::PutRecord(r@),
        }
    }
}

impl DeepView for DhtResponse {
    type V = DhtResponseView;

    open spec fn deep_view(&self) -> DhtResponseView {
        self@
    }
}

impl Clone for DhtResponse {
    fn clone(&self) -> (res: Self)
        ensures
            res@ == self@,
    {
        match self {
            DhtResponse::GetRecord(r) => DhtResponse::GetRecord(r.clone()),
            DhtResponse::PutRecord(r) => DhtResponse::PutRecord(r.clone()),
        }
    }
}

} // verus!
