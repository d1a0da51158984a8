//! The call channel: encoding requests into slots, decoding the single
//! response the engine owes each of them.
use vstd::prelude::*;

use crate::sys::constants::{Ty, TY_ERR};
use crate::sys::{
    error_from_parts, spec_view_of, utf8_lossy, view_of, BufView, BufferId, DataChanId, Error,
    ErrorCode, ErrorView, PeerConId, Slots, Span,
};

verus! {

/// A call the caller can issue, with its inputs.
///
/// Spans name caller memory that the engine reads only during the call.
#[derive(Clone, Copy, Debug, PartialEq, Eq, Structural)]
#[allow(inconsistent_fields)]
pub enum CallRequest {
    BufferAlloc { len: usize },
    BufferFree { id: BufferId },
    BufferAccess { id: BufferId },
    BufferReserve { id: BufferId, add: usize },
    BufferExtend { id: BufferId, data: Span },
    BufferRead { id: BufferId, want: usize },
    PeerConAlloc { config: Span },
    PeerConFree { id: PeerConId },
    PeerConCreateOffer { id: PeerConId, options: Option<Span> },
    PeerConCreateAnswer { id: PeerConId, options: Option<Span> },
    PeerConSetLocalDesc { id: PeerConId, desc: Span },
    PeerConSetRemDesc { id: PeerConId, desc: Span },
    PeerConAddIceCandidate { id: PeerConId, candidate: Span },
    PeerConCreateDataChan { id: PeerConId, config: Span },
    PeerConRemCert { id: PeerConId },
    DataChanFree { id: DataChanId },
    DataChanReadyState { id: DataChanId },
    DataChanSend { id: DataChanId, buffer_id: BufferId },
}

/// A span, or the `(0, 0)` pair that stands for an absent one.
pub open spec fn optional_span(s: Option<Span>) -> Span {
    match s {
        Some(s) => s,
        None => Span { addr: 0, len: 0 },
    }
}

impl CallRequest {
    /// The message type of this call.
    pub open spec fn spec_ty(self) -> Ty {
        match self {
            CallRequest::BufferAlloc { .. } => Ty::BufferAlloc,
            CallRequest::BufferFree { .. } => Ty::BufferFree,
            CallRequest::BufferAccess { .. } => Ty::BufferAccess,
            CallRequest::BufferReserve { .. } => Ty::BufferReserve,
            CallRequest::BufferExtend { .. } => Ty::BufferExtend,
            CallRequest::BufferRead { .. } => Ty::BufferRead,
            CallRequest::PeerConAlloc { .. } => Ty::PeerConAlloc,
            CallRequest::PeerConFree { .. } => Ty::PeerConFree,
            CallRequest::PeerConCreateOffer { .. } => Ty::PeerConCreateOffer,
            CallRequest::PeerConCreateAnswer { .. } => Ty::PeerConCreateAnswer,
            CallRequest::PeerConSetLocalDesc { .. } => Ty::PeerConSetLocalDesc,
            CallRequest::PeerConSetRemDesc { .. } => Ty::PeerConSetRemDesc,
            CallRequest::PeerConAddIceCandidate { .. } => Ty::PeerConAddIceCandidate,
            CallRequest::PeerConCreateDataChan { .. } => Ty::PeerConCreateDataChan,
            CallRequest::PeerConRemCert { .. } => Ty::PeerConRemCert,
            CallRequest::DataChanFree { .. } => Ty::DataChanFree,
            CallRequest::DataChanReadyState { .. } => Ty::DataChanReadyState,
            CallRequest::DataChanSend { .. } => Ty::DataChanSend,
        }
    }

    /// The slot tuple this call is sent as: its tag, then its inputs in
    /// the order the message type documents, unused slots zero.
    pub open spec fn spec_slots(self) -> Slots {
        let ty = self.spec_ty().spec_tag();
        match self {
            CallRequest::BufferAlloc { len } => Slots { ty, a: len, b: 0, c: 0, d: 0 },
            CallRequest::BufferFree { id } => Slots { ty, a: id, b: 0, c: 0, d: 0 },
            CallRequest::BufferAccess { id } => Slots { ty, a: id, b: 0, c: 0, d: 0 },
            CallRequest::BufferReserve { id, add } => Slots { ty, a: id, b: add, c: 0, d: 0 },
            CallRequest::BufferExtend { id, data } => Slots {
                ty,
                a: id,
                b: data.addr,
                c: data.len,
                d: 0,
            },
            CallRequest::BufferRead { id, want } => Slots { ty, a: id, b: want, c: 0, d: 0 },
            CallRequest::PeerConAlloc { config } => Slots {
                ty,
                a: config.addr,
                b: config.len,
                c: 0,
                d: 0,
            },
            CallRequest::PeerConFree { id } => Slots { ty, a: id, b: 0, c: 0, d: 0 },
            CallRequest::PeerConCreateOffer { id, options } => Slots {
                ty,
                a: id,
                b: optional_span(options).addr,
                c: optional_span(options).len,
                d: 0,
            },
            CallRequest::PeerConCreateAnswer { id, options } => Slots {
                ty,
                a: id,
                b: optional_span(options).addr,
                c: optional_span(options).len,
                d: 0,
            },
            CallRequest::PeerConSetLocalDesc { id, desc } => Slots {
                ty,
                a: id,
                b: desc.addr,
                c: desc.len,
                d: 0,
            },
            CallRequest::PeerConSetRemDesc { id, desc } => Slots {
                ty,
                a: id,
                b: desc.addr,
                c: desc.len,
                d: 0,
            },
            CallRequest::PeerConAddIceCandidate { id, candidate } => Slots {
                ty,
                a: id,
                b: candidate.addr,
                c: candidate.len,
                d: 0,
            },
            CallRequest::PeerConCreateDataChan { id, config } => Slots {
                ty,
                a: id,
                b: config.addr,
                c: config.len,
                d: 0,
            },
            CallRequest::PeerConRemCert { id } => Slots { ty, a: id, b: 0, c: 0, d: 0 },
            CallRequest::DataChanFree { id } => Slots { ty, a: id, b: 0, c: 0, d: 0 },
            CallRequest::DataChanReadyState { id } => Slots { ty, a: id, b: 0, c: 0, d: 0 },
            CallRequest::DataChanSend { id, buffer_id } => Slots {
                ty,
                a: id,
                b: buffer_id,
                c: 0,
                d: 0,
            },
        }
    }

    /// Frees are fire-and-forget: the engine sends no response to them.
    pub open spec fn spec_awaits_response(self) -> bool {
        match self {
            CallRequest::BufferFree { .. } | CallRequest::PeerConFree { .. }
            | CallRequest::DataChanFree { .. } => false,
            _ => true,
        }
    }

    /// The message type of this call.
    pub fn ty(&self) -> (r: Ty)
        ensures
            r == self.spec_ty(),
    {
        match self {
            CallRequest::BufferAlloc { .. } => Ty::BufferAlloc,
            CallRequest::BufferFree { .. } => Ty::BufferFree,
            CallRequest::BufferAccess { .. } => Ty::BufferAccess,
            CallRequest::BufferReserve { .. } => Ty::BufferReserve,
            CallRequest::BufferExtend { .. } => Ty::BufferExtend,
            CallRequest::BufferRead { .. } => Ty::BufferRead,
            CallRequest::PeerConAlloc { .. } => Ty::PeerConAlloc,
            CallRequest::PeerConFree { .. } => Ty::PeerConFree,
            CallRequest::PeerConCreateOffer { .. } => Ty::PeerConCreateOffer,
            CallRequest::PeerConCreateAnswer { .. } => Ty::PeerConCreateAnswer,
            CallRequest::PeerConSetLocalDesc { .. } => Ty::PeerConSetLocalDesc,
            CallRequest::PeerConSetRemDesc { .. } => Ty::PeerConSetRemDesc,
            CallRequest::PeerConAddIceCandidate { .. } => Ty::PeerConAddIceCandidate,
            CallRequest::PeerConCreateDataChan { .. } => Ty::PeerConCreateDataChan,
            CallRequest::PeerConRemCert { .. } => Ty::PeerConRemCert,
            CallRequest::DataChanFree { .. } => Ty::DataChanFree,
            CallRequest::DataChanReadyState { .. } => Ty::DataChanReadyState,
            CallRequest::DataChanSend { .. } => Ty::DataChanSend,
        }
    }

    /// Encodes this call as the slot tuple the engine receives.
    pub fn slots(&self) -> (r: Slots)
        ensures
            r == self.spec_slots(),
    {
        let ty = self.ty().tag();
        match *self {
            CallRequest::BufferAlloc { len } => Slots { ty, a: len, b: 0, c: 0, d: 0 },
            CallRequest::BufferFree { id } => Slots { ty, a: id, b: 0, c: 0, d: 0 },
            CallRequest::BufferAccess { id } => Slots { ty, a: id, b: 0, c: 0, d: 0 },
            CallRequest::BufferReserve { id, add } => Slots { ty, a: id, b: add, c: 0, d: 0 },
            CallRequest::BufferExtend { id, data } => Slots {
                ty,
                a: id,
                b: data.addr,
                c: data.len,
                d: 0,
            },
            CallRequest::BufferRead { id, want } => Slots { ty, a: id, b: want, c: 0, d: 0 },
            CallRequest::PeerConAlloc { config } => Slots {
                ty,
                a: config.addr,
                b: config.len,
                c: 0,
                d: 0,
            },
            CallRequest::PeerConFree { id } => Slots { ty, a: id, b: 0, c: 0, d: 0 },
            CallRequest::PeerConCreateOffer { id, options } => {
                let s = match options {
                    Some(s) => s,
                    None => Span { addr: 0, len: 0 },
                };
                Slots { ty, a: id, b: s.addr, c: s.len, d: 0 }
            },
            CallRequest::PeerConCreateAnswer { id, options } => {
                let s = match options {
                    Some(s) => s,
                    None => Span { addr: 0, len: 0 },
                };
                Slots { ty, a: id, b: s.addr, c: s.len, d: 0 }
            },
            CallRequest::PeerConSetLocalDesc { id, desc } => Slots {
                ty,
                a: id,
                b: desc.addr,
                c: desc.len,
                d: 0,
            },
            CallRequest::PeerConSetRemDesc { id, desc } => Slots {
                ty,
                a: id,
                b: desc.addr,
                c: desc.len,
                d: 0,
            },
            CallRequest::PeerConAddIceCandidate { id, candidate } => Slots {
                ty,
                a: id,
                b: candidate.addr,
                c: candidate.len,
                d: 0,
            },
            CallRequest::PeerConCreateDataChan { id, config } => Slots {
                ty,
                a: id,
                b: config.addr,
                c: config.len,
                d: 0,
            },
            CallRequest::PeerConRemCert { id } => Slots { ty, a: id, b: 0, c: 0, d: 0 },
            CallRequest::DataChanFree { id } => Slots { ty, a: id, b: 0, c: 0, d: 0 },
            CallRequest::DataChanReadyState { id } => Slots { ty, a: id, b: 0, c: 0, d: 0 },
            CallRequest::DataChanSend { id, buffer_id } => Slots {
                ty,
                a: id,
                b: buffer_id,
                c: 0,
                d: 0,
            },
        }
    }

    /// Whether the engine answers this call; frees are fire-and-forget.
    pub fn awaits_response(&self) -> (r: bool)
        ensures
            r == self.spec_awaits_response(),
    {
        match self {
            CallRequest::BufferFree { .. } | CallRequest::PeerConFree { .. }
            | CallRequest::DataChanFree { .. } => false,
            _ => true,
        }
    }
}

/// A break of the boundary's handshake contract. None of these can be
/// recovered from.
#[derive(Clone, Copy, Debug, PartialEq, Eq, Structural)]
pub enum Violation {
    /// The engine returned from a call without responding.
    NoResponse,
    /// The engine responded to one call more than once.
    RepeatedResponse,
    /// The engine handed a null address with a non-zero length.
    NullView,
}

/// A decoded response, before any engine memory is copied out of it.
///
/// Views are valid only inside the response callback.
#[derive(Clone, Copy, Debug, PartialEq, Eq, Structural)]
pub enum CallResponse {
    /// The engine reported a failure; its message is still in engine memory.
    Failed { code: ErrorCode, message: BufView },
    /// The call succeeded and has no outputs.
    Done,
    /// An id or a state word.
    Value(usize),
    /// A buffer id and a view of the buffer's memory.
    Buffer { id: BufferId, data: BufView },
    /// A view of engine bytes: a read, an sdp text or a certificate.
    Data(BufView),
}

/// The view at `(addr, len)`, or the violation of a null address.
pub open spec fn view_or_violation(addr: usize, len: usize) -> Result<BufView, Violation> {
    match spec_view_of(addr, len) {
        Some(v) => Ok(v),
        None => Err(Violation::NullView),
    }
}

/// What the response tuple `s` to the call `req` means.
///
/// An error tag means failure whatever the call; otherwise the call type
/// alone says which slots are outputs.
pub open spec fn spec_decode_response(req: CallRequest, s: Slots) -> Result<
    CallResponse,
    Violation,
> {
    if s.ty == TY_ERR {
        match view_or_violation(s.b, s.c) {
            Ok(v) => Ok(CallResponse::Failed { code: s.a, message: v }),
            Err(e) => Err(e),
        }
    } else {
        match req {
            CallRequest::BufferAlloc { .. } | CallRequest::BufferAccess { .. } => match view_or_violation(s.b, s.c) {
                Ok(v) => Ok(CallResponse::Buffer { id: s.a, data: v }),
                Err(e) => Err(e),
            },
            CallRequest::BufferRead { .. } | CallRequest::PeerConCreateOffer { .. }
            | CallRequest::PeerConCreateAnswer { .. } | CallRequest::PeerConRemCert { .. } => match view_or_violation(s.a, s.b) {
                Ok(v) => Ok(CallResponse::Data(v)),
                Err(e) => Err(e),
            },
            CallRequest::PeerConAlloc { .. } | CallRequest::PeerConCreateDataChan { .. }
            | CallRequest::DataChanReadyState { .. } => Ok(CallResponse::Value(s.a)),
            _ => Ok(CallResponse::Done),
        }
    }
}

fn decode_view(addr: usize, len: usize) -> (r: Result<BufView, Violation>)
    ensures
        r == view_or_violation(addr, len),
{
    match view_of(addr, len) {
        Some(v) => Ok(v),
        None => Err(Violation::NullView),
    }
}

/// Decodes the response tuple the engine delivered for `req`. Must run
/// inside the response callback, since views die when it returns.
pub fn decode_response(req: &CallRequest, s: Slots) -> (r: Result<CallResponse, Violation>)
    ensures
        r == spec_decode_response(*req, s),
{
    if s.ty == TY_ERR {
        match decode_view(s.b, s.c) {
            Ok(v) => Ok(CallResponse::Failed { code: s.a, message: v }),
            Err(e) => Err(e),
        }
    } else {
        match req {
            CallRequest::BufferAlloc { .. } | CallRequest::BufferAccess { .. } => match decode_view(s.b, s.c) {
                Ok(v) => Ok(CallResponse::Buffer { id: s.a, data: v }),
                Err(e) => Err(e),
            },
            CallRequest::BufferRead { .. } | CallRequest::PeerConCreateOffer { .. }
            | CallRequest::PeerConCreateAnswer { .. } | CallRequest::PeerConRemCert { .. } => match decode_view(s.a, s.b) {
                Ok(v) => Ok(CallResponse::Data(v)),
                Err(e) => Err(e),
            },
            CallRequest::PeerConAlloc { .. } | CallRequest::PeerConCreateDataChan { .. }
            | CallRequest::DataChanReadyState { .. } => Ok(CallResponse::Value(s.a)),
            _ => Ok(CallResponse::Done),
        }
    }
}

/// The caller's result for a decoded response, given the message bytes
/// copied out of it.
pub open spec fn spec_settle(resp: CallResponse, message: Seq<u8>) -> Result<
    CallResponse,
    ErrorView,
> {
    match resp {
        CallResponse::Failed { code, .. } => Err(ErrorView { code, message: utf8_lossy(message) }),
        _ => Ok(resp),
    }
}

/// Maps a decoded response to the caller's result: a failure becomes a
/// typed error built from the message bytes copied out of the engine,
/// anything else passes through. `message` is ignored unless `resp` failed.
pub fn settle(resp: CallResponse, message: &[u8]) -> (r: Result<CallResponse, Error>)
    ensures
        match r {
            Ok(x) => spec_settle(resp, message@) == Ok::<CallResponse, ErrorView>(x),
            Err(e) => spec_settle(resp, message@) == Err::<CallResponse, ErrorView>(e@),
        },
{
    match resp {
        CallResponse::Failed { code, .. } => Err(error_from_parts(code, message)),
        _ => Ok(resp),
    }
}

/// A failure the engine reports in response to any call reaches the caller
/// as a typed error with the engine's code and message.
pub proof fn lemma_failure_reaches_caller(req: CallRequest, s: Slots, message: Seq<u8>)
    requires
        s.ty == TY_ERR,
        spec_view_of(s.b, s.c) is Some,
    ensures
        spec_decode_response(req, s) matches Ok(resp) && spec_settle(resp, message) == Err::<
            CallResponse,
            ErrorView,
        >(ErrorView { code: s.a, message: utf8_lossy(message) }),
{
}

/// Collects the response to one call and enforces that the engine gives
/// exactly one.
pub struct ResponseCell<R> {
    response: Option<R>,
    repeated: bool,
}

impl<R> View for ResponseCell<R> {
    /// The first response delivered, and whether another one followed.
    type V = (Option<R>, bool);

    closed spec fn view(&self) -> (Option<R>, bool) {
        (self.response, self.repeated)
    }
}

/// How a call ends, given what its response cell saw.
pub open spec fn spec_finish<R>(v: (Option<R>, bool)) -> Result<R, Violation> {
    match v.0 {
        None => Err(Violation::NoResponse),
        Some(r) => if v.1 {
            Err(Violation::RepeatedResponse)
        } else {
            Ok(r)
        },
    }
}

/// What a response cell saw after one more delivery of `r`.
pub open spec fn spec_deliver<R>(v: (Option<R>, bool), r: R) -> (Option<R>, bool) {
    match v.0 {
        None => (Some(r), v.1),
        Some(first) => (Some(first), true),
    }
}

/// A call ends with its response exactly when the engine delivered one
/// response: none, or a second one, is a violation.
pub proof fn lemma_exactly_once<R>(first: R, second: R)
    ensures
        spec_finish::<R>((None, false)) == Err::<R, Violation>(Violation::NoResponse),
        spec_finish(spec_deliver((None, false), first)) == Ok::<R, Violation>(first),
        spec_finish(spec_deliver(spec_deliver((None, false), first), second)) == Err::<R, Violation>(
            Violation::RepeatedResponse,
        ),
{
}

impl<R> ResponseCell<R> {
    /// A cell that has seen no response.
    pub fn new() -> (r: Self)
        ensures
            r@ == (None::<R>, false),
    {
        ResponseCell { response: None, repeated: false }
    }

    /// Records one delivery of a response. The first one is kept; any later
    /// one is dropped and marks the call as broken.
    pub fn deliver(&mut self, r: R)
        ensures
            final(self)@ == spec_deliver(old(self)@, r),
    {
        if self.response.is_none() {
            self.response = Some(r);
        } else {
            self.repeated = true;
        }
    }

    /// Ends the call: the response if exactly one came, else the violation.
    pub fn finish(self) -> (r: Result<R, Violation>)
        ensures
            r == spec_finish(self@),
    {
        match self.response {
            None => Err(Violation::NoResponse),
            Some(r) => if self.repeated {
                Err(Violation::RepeatedResponse)
            } else {
                Ok(r)
            },
        }
    }
}

} // verus!
