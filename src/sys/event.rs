//! The event channel: decoding engine-initiated tuples, and the single
//! subscriber they are delivered to.
use vstd::prelude::*;
use vstd::string::*;

use crate::sys::constants::{Ty, TY_ERR, TY_PEER_CON_ON_ICE_CANDIDATE};
use crate::sys::{
    decimal, decimal_string, error_from_parts, spec_view_of, text_from_bytes, utf8_lossy, view_of,
    BufView, BufferId, DataChanId, Error, ErrorView, PeerConId, PeerConState, Slots,
};

verus! {

/// An event delivered by the engine.
#[derive(Debug)]
pub enum Event {
    Error(Error),
    PeerConICECandidate { peer_con_id: PeerConId, candidate: String },
    PeerConStateChange { peer_con_id: PeerConId, peer_con_state: PeerConState },
    PeerConDataChan { peer_con_id: PeerConId, data_chan_id: DataChanId },
    DataChanClose(DataChanId),
    DataChanOpen(DataChanId),
    DataChanMessage { data_chan_id: DataChanId, buffer_id: BufferId },
}

/// What an [`Event`] says, with its texts as characters.
pub enum EventView {
    Error(ErrorView),
    PeerConICECandidate { peer_con_id: PeerConId, candidate: Seq<char> },
    PeerConStateChange { peer_con_id: PeerConId, peer_con_state: PeerConState },
    PeerConDataChan { peer_con_id: PeerConId, data_chan_id: DataChanId },
    DataChanClose(DataChanId),
    DataChanOpen(DataChanId),
    DataChanMessage { data_chan_id: DataChanId, buffer_id: BufferId },
}

impl View for Event {
    type V = EventView;

    open spec fn view(&self) -> EventView {
        match self {
            Event::Error(e) => EventView::Error(e@),
            Event::PeerConICECandidate { peer_con_id, candidate } => EventView::PeerConICECandidate {
                peer_con_id: *peer_con_id,
                candidate: candidate@,
            },
            Event::PeerConStateChange { peer_con_id, peer_con_state } =>
                EventView::PeerConStateChange {
                    peer_con_id: *peer_con_id,
                    peer_con_state: *peer_con_state,
                },
            Event::PeerConDataChan { peer_con_id, data_chan_id } => EventView::PeerConDataChan {
                peer_con_id: *peer_con_id,
                data_chan_id: *data_chan_id,
            },
            Event::DataChanClose(id) => EventView::DataChanClose(*id),
            Event::DataChanOpen(id) => EventView::DataChanOpen(*id),
            Event::DataChanMessage { data_chan_id, buffer_id } => EventView::DataChanMessage {
                data_chan_id: *data_chan_id,
                buffer_id: *buffer_id,
            },
        }
    }
}

/// Whether events of this tag carry a text at `(slot_b, slot_c)`.
pub open spec fn spec_carries_text(ty: usize) -> bool {
    ty == TY_ERR || ty == TY_PEER_CON_ON_ICE_CANDIDATE
}

/// The bytes of an event tuple that must be copied out before the
/// subscriber returns: the text at `(slot_b, slot_c)` for the tags that
/// carry one, nothing for the others. `None` when the engine handed a text
/// that cannot be read.
pub open spec fn spec_event_text(s: Slots) -> Option<BufView> {
    if spec_carries_text(s.ty) {
        spec_view_of(s.b, s.c)
    } else {
        Some(BufView::Empty)
    }
}

/// The message of the error that stands for an unknown event tag.
pub open spec fn invalid_event_message(ty: usize) -> Seq<char> {
    "invalid event_type: "@ + decimal(ty as nat)
}

/// What an event tuple means, given the text copied out of it.
pub open spec fn spec_decode_event(s: Slots, text: Seq<u8>) -> EventView {
    match Ty::spec_from_tag(s.ty) {
        Some(Ty::Error) => EventView::Error(ErrorView { code: s.a, message: utf8_lossy(text) }),
        Some(Ty::PeerConICECandidate) => EventView::PeerConICECandidate {
            peer_con_id: s.a,
            candidate: utf8_lossy(text),
        },
        Some(Ty::PeerConStateChange) => EventView::PeerConStateChange {
            peer_con_id: s.a,
            peer_con_state: s.b,
        },
        Some(Ty::PeerConDataChan) => EventView::PeerConDataChan {
            peer_con_id: s.a,
            data_chan_id: s.b,
        },
        Some(Ty::DataChanClose) => EventView::DataChanClose(s.a),
        Some(Ty::DataChanOpen) => EventView::DataChanOpen(s.a),
        Some(Ty::DataChanMessage) => EventView::DataChanMessage {
            data_chan_id: s.a,
            buffer_id: s.b,
        },
        _ => EventView::Error(ErrorView { code: 0, message: invalid_event_message(s.ty) }),
    }
}

/// Says which bytes of an event tuple to copy out before decoding it.
pub fn event_text(s: Slots) -> (r: Option<BufView>)
    ensures
        r == spec_event_text(s),
{
    if s.ty == TY_ERR || s.ty == TY_PEER_CON_ON_ICE_CANDIDATE {
        view_of(s.b, s.c)
    } else {
        Some(BufView::Empty)
    }
}

/// Decodes an event tuple, validating its tag first. `text` is what was
/// copied out of the tuple as [`event_text`] says; tags that carry no text
/// ignore it. An unknown tag becomes an error event.
pub fn decode_event(s: Slots, text: &[u8]) -> (r: Event)
    ensures
        r@ == spec_decode_event(s, text@),
{
    match Ty::from_tag(s.ty) {
        Some(Ty::Error) => Event::Error(error_from_parts(s.a, text)),
        Some(Ty::PeerConICECandidate) => Event::PeerConICECandidate {
            peer_con_id: s.a,
            candidate: text_from_bytes(text),
        },
        Some(Ty::PeerConStateChange) => Event::PeerConStateChange {
            peer_con_id: s.a,
            peer_con_state: s.b,
        },
        Some(Ty::PeerConDataChan) => Event::PeerConDataChan { peer_con_id: s.a, data_chan_id: s.b },
        Some(Ty::DataChanClose) => Event::DataChanClose(s.a),
        Some(Ty::DataChanOpen) => Event::DataChanOpen(s.a),
        Some(Ty::DataChanMessage) => Event::DataChanMessage { data_chan_id: s.a, buffer_id: s.b },
        _ => {
            let mut message = String::from_str("invalid event_type: ");
            let digits = decimal_string(s.ty);
            message.append(digits.as_str());
            Event::Error(Error { code: 0, error: message })
        },
    }
}

/// The one installed event subscriber.
///
/// Installing is last-writer-wins: the previous subscriber is handed back
/// to the installer, who releases it. Once a subscriber is installed the
/// slot is never empty again.
pub struct SubscriberSlot<T> {
    current: Option<T>,
}

impl<T> View for SubscriberSlot<T> {
    type V = Option<T>;

    closed spec fn view(&self) -> Option<T> {
        self.current
    }
}

impl<T> SubscriberSlot<T> {
    /// A slot with no subscriber yet.
    pub fn new() -> (r: Self)
        ensures
            r@ is None,
    {
        SubscriberSlot { current: None }
    }

    /// Installs `s` as the subscriber and hands back the one it replaces,
    /// if any. The returned subscriber is no longer held by the slot, so
    /// dropping it releases it exactly once.
    pub fn install(&mut self, s: T) -> (prev: Option<T>)
        ensures
            final(self)@ == Some(s),
            prev == old(self)@,
    {
        let prev = self.current.take();
        self.current = Some(s);
        prev
    }

    /// The installed subscriber, if any.
    pub fn current(&self) -> (r: Option<&T>)
        ensures
            r matches Some(x) ==> self@ == Some(*x),
            r is None ==> self@ is None,
    {
        self.current.as_ref()
    }
}

} // verus!
