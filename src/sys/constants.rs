//! Call / response / event message type tags.
use vstd::prelude::*;

verus! {

/// Every message type that crosses the boundary.
///
/// Calls flow from the caller to the engine, events from the engine to the
/// caller. The two tag spaces are disjoint, except for `Error`, which either
/// direction uses to report a failure.
#[derive(Clone, Copy, Debug, PartialEq, Eq, Structural)]
pub enum Ty {
    /// A failure reported by the engine.
    /// - contexts: Event, Response
    /// - slot_a: error code, slot_b: utf8 text ptr, slot_c: utf8 text len
    Error,
    /// Create a buffer in engine memory.
    /// - call slot_a: buffer size
    /// - response slot_a: buffer id, slot_b: ptr, slot_c: len
    BufferAlloc,
    /// Release a buffer; fire-and-forget.
    /// - call slot_a: buffer id
    BufferFree,
    /// Access an existing buffer.
    /// - call slot_a: buffer id
    /// - response slot_a: buffer id, slot_b: ptr, slot_c: len
    BufferAccess,
    /// Reserve additional capacity in a buffer.
    /// - call slot_a: buffer id, slot_b: additional bytes
    BufferReserve,
    /// Append bytes to a buffer.
    /// - call slot_a: buffer id, slot_b: bytes ptr, slot_c: bytes len
    BufferExtend,
    /// Consume up to a number of bytes from a buffer.
    /// - call slot_a: buffer id, slot_b: wanted length
    /// - response slot_a: ptr, slot_b: len
    BufferRead,
    /// Open a peer connection.
    /// - call slot_a: utf8 json config ptr, slot_b: len
    /// - response slot_a: peer_con id
    PeerConAlloc,
    /// Close and release a peer connection; fire-and-forget.
    /// - call slot_a: peer_con id
    PeerConFree,
    /// Create an offer.
    /// - call slot_a: peer_con id, slot_b/slot_c: optional utf8 json ptr/len
    /// - response slot_a: utf8 sdp ptr, slot_b: len
    PeerConCreateOffer,
    /// Create an answer.
    /// - call slot_a: peer_con id, slot_b/slot_c: optional utf8 json ptr/len
    /// - response slot_a: utf8 sdp ptr, slot_b: len
    PeerConCreateAnswer,
    /// Set the local description.
    /// - call slot_a: peer_con id, slot_b: utf8 json ptr, slot_c: len
    PeerConSetLocalDesc,
    /// Set the remote description.
    /// - call slot_a: peer_con id, slot_b: utf8 json ptr, slot_c: len
    PeerConSetRemDesc,
    /// Add a remote ICE candidate.
    /// - call slot_a: peer_con id, slot_b: utf8 json ptr, slot_c: len
    PeerConAddIceCandidate,
    /// Create a data channel.
    /// - call slot_a: peer_con id, slot_b: utf8 json ptr, slot_c: len
    /// - response slot_a: data_chan id
    PeerConCreateDataChan,
    /// Fetch the remote certificate.
    /// - call slot_a: peer_con id
    /// - response slot_a: cert ptr, slot_b: len
    PeerConRemCert,
    /// A local ICE candidate was discovered.
    /// - event slot_a: peer_con id, slot_b: utf8 json ptr, slot_c: len
    PeerConICECandidate,
    /// The connection state changed.
    /// - event slot_a: peer_con id, slot_b: state
    PeerConStateChange,
    /// The remote side opened a data channel.
    /// - event slot_a: peer_con id, slot_b: data_chan id
    PeerConDataChan,
    /// Release a data channel; fire-and-forget.
    /// - call slot_a: data_chan id
    DataChanFree,
    /// Query the ready state of a data channel.
    /// - call slot_a: data_chan id
    /// - response slot_a: state
    DataChanReadyState,
    /// Send the contents of a buffer on a data channel.
    /// - call slot_a: data_chan id, slot_b: buffer id
    DataChanSend,
    /// A data channel closed.
    /// - event slot_a: data_chan id
    DataChanClose,
    /// A data channel opened.
    /// - event slot_a: data_chan id
    DataChanOpen,
    /// A message arrived on a data channel.
    /// - event slot_a: data_chan id, slot_b: buffer id
    DataChanMessage,
}

pub const TY_ERR: usize = 0xffff;
pub const TY_BUFFER_ALLOC: usize = 0x8001;
pub const TY_BUFFER_FREE: usize = 0x8002;
pub const TY_BUFFER_ACCESS: usize = 0x8003;
pub const TY_BUFFER_RESERVE: usize = 0x8004;
pub const TY_BUFFER_EXTEND: usize = 0x8005;
pub const TY_BUFFER_READ: usize = 0x8006;
pub const TY_PEER_CON_ALLOC: usize = 0x9001;
pub const TY_PEER_CON_FREE: usize = 0x9002;
pub const TY_PEER_CON_CREATE_OFFER: usize = 0x9003;
pub const TY_PEER_CON_CREATE_ANSWER: usize = 0x9004;
pub const TY_PEER_CON_SET_LOCAL_DESC: usize = 0x9005;
pub const TY_PEER_CON_SET_REM_DESC: usize = 0x9006;
pub const TY_PEER_CON_ADD_ICE_CANDIDATE: usize = 0x9007;
pub const TY_PEER_CON_CREATE_DATA_CHAN: usize = 0x9008;
pub const TY_PEER_CON_REM_CERT: usize = 0x9009;
pub const TY_PEER_CON_ON_ICE_CANDIDATE: usize = 0x9801;
pub const TY_PEER_CON_ON_STATE_CHANGE: usize = 0x9802;
pub const TY_PEER_CON_ON_DATA_CHANNEL: usize = 0x9803;
pub const TY_DATA_CHAN_FREE: usize = 0xa002;
pub const TY_DATA_CHAN_READY_STATE: usize = 0xa003;
pub const TY_DATA_CHAN_SEND: usize = 0xa004;
pub const TY_DATA_CHAN_ON_CLOSE: usize = 0xa801;
pub const TY_DATA_CHAN_ON_OPEN: usize = 0xa802;
pub const TY_DATA_CHAN_ON_MESSAGE: usize = 0xa803;

impl Ty {
    /// The wire tag of this message type.
    pub open spec fn spec_tag(self) -> usize {
        match self {
            Ty::Error => TY_ERR,
            Ty::BufferAlloc => TY_BUFFER_ALLOC,
            Ty::BufferFree => TY_BUFFER_FREE,
            Ty::BufferAccess => TY_BUFFER_ACCESS,
            Ty::BufferReserve => TY_BUFFER_RESERVE,
            Ty::BufferExtend => TY_BUFFER_EXTEND,
            Ty::BufferRead => TY_BUFFER_READ,
            Ty::PeerConAlloc => TY_PEER_CON_ALLOC,
            Ty::PeerConFree => TY_PEER_CON_FREE,
            Ty::PeerConCreateOffer => TY_PEER_CON_CREATE_OFFER,
            Ty::PeerConCreateAnswer => TY_PEER_CON_CREATE_ANSWER,
            Ty::PeerConSetLocalDesc => TY_PEER_CON_SET_LOCAL_DESC,
            Ty::PeerConSetRemDesc => TY_PEER_CON_SET_REM_DESC,
            Ty::PeerConAddIceCandidate => TY_PEER_CON_ADD_ICE_CANDIDATE,
            Ty::PeerConCreateDataChan => TY_PEER_CON_CREATE_DATA_CHAN,
            Ty::PeerConRemCert => TY_PEER_CON_REM_CERT,
            Ty::PeerConICECandidate => TY_PEER_CON_ON_ICE_CANDIDATE,
            Ty::PeerConStateChange => TY_PEER_CON_ON_STATE_CHANGE,
            Ty::PeerConDataChan => TY_PEER_CON_ON_DATA_CHANNEL,
            Ty::DataChanFree => TY_DATA_CHAN_FREE,
            Ty::DataChanReadyState => TY_DATA_CHAN_READY_STATE,
            Ty::DataChanSend => TY_DATA_CHAN_SEND,
            Ty::DataChanClose => TY_DATA_CHAN_ON_CLOSE,
            Ty::DataChanOpen => TY_DATA_CHAN_ON_OPEN,
            Ty::DataChanMessage => TY_DATA_CHAN_ON_MESSAGE,
        }
    }

    /// Whether the caller may issue this type as a call.
    pub open spec fn spec_is_call(self) -> bool {
        match self {
            Ty::Error | Ty::PeerConICECandidate | Ty::PeerConStateChange | Ty::PeerConDataChan
            | Ty::DataChanClose | Ty::DataChanOpen | Ty::DataChanMessage => false,
            _ => true,
        }
    }

    /// Whether the engine may deliver this type as an event.
    pub open spec fn spec_is_event(self) -> bool {
        match self {
            Ty::Error | Ty::PeerConICECandidate | Ty::PeerConStateChange | Ty::PeerConDataChan
            | Ty::DataChanClose | Ty::DataChanOpen | Ty::DataChanMessage => true,
            _ => false,
        }
    }

    /// The message type a wire tag names, if any.
    pub open spec fn spec_from_tag(tag: usize) -> Option<Ty> {
        if tag == TY_ERR {
            Some(Ty::Error)
        } else if tag == TY_BUFFER_ALLOC {
            Some(Ty::BufferAlloc)
        } else if tag == TY_BUFFER_FREE {
            Some(Ty::BufferFree)
        } else if tag == TY_BUFFER_ACCESS {
            Some(Ty::BufferAccess)
        } else if tag == TY_BUFFER_RESERVE {
            Some(Ty::BufferReserve)
        } else if tag == TY_BUFFER_EXTEND {
            Some(Ty::BufferExtend)
        } else if tag == TY_BUFFER_READ {
            Some(Ty::BufferRead)
        } else if tag == TY_PEER_CON_ALLOC {
            Some(Ty::PeerConAlloc)
        } else if tag == TY_PEER_CON_FREE {
            Some(Ty::PeerConFree)
        } else if tag == TY_PEER_CON_CREATE_OFFER {
            Some(Ty::PeerConCreateOffer)
        } else if tag == TY_PEER_CON_CREATE_ANSWER {
            Some(Ty::PeerConCreateAnswer)
        } else if tag == TY_PEER_CON_SET_LOCAL_DESC {
            Some(Ty::PeerConSetLocalDesc)
        } else if tag == TY_PEER_CON_SET_REM_DESC {
            Some(Ty::PeerConSetRemDesc)
        } else if tag == TY_PEER_CON_ADD_ICE_CANDIDATE {
            Some(Ty::PeerConAddIceCandidate)
        } else if tag == TY_PEER_CON_CREATE_DATA_CHAN {
            Some(Ty::PeerConCreateDataChan)
        } else if tag == TY_PEER_CON_REM_CERT {
            Some(Ty::PeerConRemCert)
        } else if tag == TY_PEER_CON_ON_ICE_CANDIDATE {
            Some(Ty::PeerConICECandidate)
        } else if tag == TY_PEER_CON_ON_STATE_CHANGE {
            Some(Ty::PeerConStateChange)
        } else if tag == TY_PEER_CON_ON_DATA_CHANNEL {
            Some(Ty::PeerConDataChan)
        } else if tag == TY_DATA_CHAN_FREE {
            Some(Ty::DataChanFree)
        } else if tag == TY_DATA_CHAN_READY_STATE {
            Some(Ty::DataChanReadyState)
        } else if tag == TY_DATA_CHAN_SEND {
            Some(Ty::DataChanSend)
        } else if tag == TY_DATA_CHAN_ON_CLOSE {
            Some(Ty::DataChanClose)
        } else if tag == TY_DATA_CHAN_ON_OPEN {
            Some(Ty::DataChanOpen)
        } else if tag == TY_DATA_CHAN_ON_MESSAGE {
            Some(Ty::DataChanMessage)
        } else {
            None
        }
    }

    /// Decodes a wire tag, validating it against the table.
    pub fn from_tag(tag: usize) -> (r: Option<Ty>)
        ensures
            r == Ty::spec_from_tag(tag),
    {
        if tag == TY_ERR {
            Some(Ty::Error)
        } else if tag == TY_BUFFER_ALLOC {
            Some(Ty::BufferAlloc)
        } else if tag == TY_BUFFER_FREE {
            Some(Ty::BufferFree)
        } else if tag == TY_BUFFER_ACCESS {
            Some(Ty::BufferAccess)
        } else if tag == TY_BUFFER_RESERVE {
            Some(Ty::BufferReserve)
        } else if tag == TY_BUFFER_EXTEND {
            Some(Ty::BufferExtend)
        } else if tag == TY_BUFFER_READ {
            Some(Ty::BufferRead)
        } else if tag == TY_PEER_CON_ALLOC {
            Some(Ty::PeerConAlloc)
        } else if tag == TY_PEER_CON_FREE {
            Some(Ty::PeerConFree)
        } else if tag == TY_PEER_CON_CREATE_OFFER {
            Some(Ty::PeerConCreateOffer)
        } else if tag == TY_PEER_CON_CREATE_ANSWER {
            Some(Ty::PeerConCreateAnswer)
        } else if tag == TY_PEER_CON_SET_LOCAL_DESC {
            Some(Ty::PeerConSetLocalDesc)
        } else if tag == TY_PEER_CON_SET_REM_DESC {
            Some(Ty::PeerConSetRemDesc)
        } else if tag == TY_PEER_CON_ADD_ICE_CANDIDATE {
            Some(Ty::PeerConAddIceCandidate)
        } else if tag == TY_PEER_CON_CREATE_DATA_CHAN {
            Some(Ty::PeerConCreateDataChan)
        } else if tag == TY_PEER_CON_REM_CERT {
            Some(Ty::PeerConRemCert)
        } else if tag == TY_PEER_CON_ON_ICE_CANDIDATE {
            Some(Ty::PeerConICECandidate)
        } else if tag == TY_PEER_CON_ON_STATE_CHANGE {
            Some(Ty::PeerConStateChange)
        } else if tag == TY_PEER_CON_ON_DATA_CHANNEL {
            Some(Ty::PeerConDataChan)
        } else if tag == TY_DATA_CHAN_FREE {
            Some(Ty::DataChanFree)
        } else if tag == TY_DATA_CHAN_READY_STATE {
            Some(Ty::DataChanReadyState)
        } else if tag == TY_DATA_CHAN_SEND {
            Some(Ty::DataChanSend)
        } else if tag == TY_DATA_CHAN_ON_CLOSE {
            Some(Ty::DataChanClose)
        } else if tag == TY_DATA_CHAN_ON_OPEN {
            Some(Ty::DataChanOpen)
        } else if tag == TY_DATA_CHAN_ON_MESSAGE {
            Some(Ty::DataChanMessage)
        } else {
            None
        }
    }

    /// Whether the caller may issue this type as a call.
    pub fn is_call(&self) -> (r: bool)
        ensures
            r == self.spec_is_call(),
    {
        match self {
            Ty::Error | Ty::PeerConICECandidate | Ty::PeerConStateChange | Ty::PeerConDataChan
            | Ty::DataChanClose | Ty::DataChanOpen | Ty::DataChanMessage => false,
            _ => true,
        }
    }

    /// The wire tag of this message type.
    pub fn tag(&self) -> (r: usize)
        ensures
            r == self.spec_tag(),
    {
        match self {
            Ty::Error => TY_ERR,
            Ty::BufferAlloc => TY_BUFFER_ALLOC,
            Ty::BufferFree => TY_BUFFER_FREE,
            Ty::BufferAccess => TY_BUFFER_ACCESS,
            Ty::BufferReserve => TY_BUFFER_RESERVE,
            Ty::BufferExtend => TY_BUFFER_EXTEND,
            Ty::BufferRead => TY_BUFFER_READ,
            Ty::PeerConAlloc => TY_PEER_CON_ALLOC,
            Ty::PeerConFree => TY_PEER_CON_FREE,
            Ty::PeerConCreateOffer => TY_PEER_CON_CREATE_OFFER,
            Ty::PeerConCreateAnswer => TY_PEER_CON_CREATE_ANSWER,
            Ty::PeerConSetLocalDesc => TY_PEER_CON_SET_LOCAL_DESC,
            Ty::PeerConSetRemDesc => TY_PEER_CON_SET_REM_DESC,
            Ty::PeerConAddIceCandidate => TY_PEER_CON_ADD_ICE_CANDIDATE,
            Ty::PeerConCreateDataChan => TY_PEER_CON_CREATE_DATA_CHAN,
            Ty::PeerConRemCert => TY_PEER_CON_REM_CERT,
            Ty::PeerConICECandidate => TY_PEER_CON_ON_ICE_CANDIDATE,
            Ty::PeerConStateChange => TY_PEER_CON_ON_STATE_CHANGE,
            Ty::PeerConDataChan => TY_PEER_CON_ON_DATA_CHANNEL,
            Ty::DataChanFree => TY_DATA_CHAN_FREE,
            Ty::DataChanReadyState => TY_DATA_CHAN_READY_STATE,
            Ty::DataChanSend => TY_DATA_CHAN_SEND,
            Ty::DataChanClose => TY_DATA_CHAN_ON_CLOSE,
            Ty::DataChanOpen => TY_DATA_CHAN_ON_OPEN,
            Ty::DataChanMessage => TY_DATA_CHAN_ON_MESSAGE,
        }
    }
}

/// Decoding the tag of a message type gives that type back, so no two
/// message types share a tag.
pub proof fn lemma_tag_round_trip(t: Ty)
    ensures
        Ty::spec_from_tag(t.spec_tag()) == Some(t),
{
}

/// A tag decodes only to the message type that carries it.
pub proof fn lemma_from_tag_exact(tag: usize)
    ensures
        Ty::spec_from_tag(tag) is Some ==> Ty::spec_from_tag(tag)->Some_0.spec_tag() == tag,
{
}

/// Every message type belongs to exactly one of the two directions; the
/// error type is the one the engine uses both in responses and in events.
pub proof fn lemma_tag_spaces_disjoint(t: Ty)
    ensures
        t.spec_is_call() != t.spec_is_event(),
        Ty::Error.spec_is_event(),
{
}

} // verus!
