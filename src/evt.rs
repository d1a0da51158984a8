//! Routing of engine events to the peer connections they concern.
use vstd::prelude::*;
use std::collections::HashMap;

use crate::data_chan::DataChannel;
use crate::sys::event::{Event, EventView};
use crate::sys::{DataChanId, PeerConId, PeerConState};

verus! {

broadcast use vstd::std_specs::hash::group_hash_axioms;

/// Incoming events related to a PeerConnection.
#[derive(Debug)]
pub enum PeerConnectionEvent {
    /// Received a trickle ICE candidate.
    ICECandidate(String),
    /// Received an incoming data channel.
    DataChannel(DataChannel),
    /// The connection state changed.
    StateChange(PeerConState),
}

/// What a [`PeerConnectionEvent`] says.
pub enum PeerConnectionEventView {
    ICECandidate(Seq<char>),
    DataChannel(DataChanId),
    StateChange(PeerConState),
}

impl View for PeerConnectionEvent {
    type V = PeerConnectionEventView;

    open spec fn view(&self) -> PeerConnectionEventView {
        match self {
            PeerConnectionEvent::ICECandidate(c) => PeerConnectionEventView::ICECandidate(c@),
            PeerConnectionEvent::DataChannel(d) => PeerConnectionEventView::DataChannel(d@),
            PeerConnectionEvent::StateChange(s) => PeerConnectionEventView::StateChange(*s),
        }
    }
}

/// The peer connection an engine event concerns, and what it tells that
/// connection's subscriber. Events that name no peer connection (errors,
/// data channel traffic) are not routed here.
pub open spec fn spec_route(e: EventView) -> Option<(PeerConId, PeerConnectionEventView)> {
    match e {
        EventView::PeerConICECandidate { peer_con_id, candidate } => Some(
            (peer_con_id, PeerConnectionEventView::ICECandidate(candidate)),
        ),
        EventView::PeerConDataChan { peer_con_id, data_chan_id } => Some(
            (peer_con_id, PeerConnectionEventView::DataChannel(data_chan_id)),
        ),
        EventView::PeerConStateChange { peer_con_id, peer_con_state } => Some(
            (peer_con_id, PeerConnectionEventView::StateChange(peer_con_state)),
        ),
        _ => None,
    }
}

/// Routes an engine event to the peer connection it concerns.
pub fn route(evt: Event) -> (r: Option<(PeerConId, PeerConnectionEvent)>)
    ensures
        match spec_route(evt@) {
            Some((id, v)) => r matches Some((rid, re)) && rid == id && re@ == v,
            None => r is None,
        },
{
    match evt {
        Event::PeerConICECandidate { peer_con_id, candidate } => Some(
            (peer_con_id, PeerConnectionEvent::ICECandidate(candidate)),
        ),
        Event::PeerConDataChan { peer_con_id, data_chan_id } => Some(
            (peer_con_id, PeerConnectionEvent::DataChannel(DataChannel::new(data_chan_id))),
        ),
        Event::PeerConStateChange { peer_con_id, peer_con_state } => Some(
            (peer_con_id, PeerConnectionEvent::StateChange(peer_con_state)),
        ),
        _ => None,
    }
}

/// The per-connection event subscribers, keyed by peer connection handle.
pub struct Manager<T> {
    peer_con: HashMap<usize, T>,
}

impl<T> View for Manager<T> {
    type V = Map<usize, T>;

    closed spec fn view(&self) -> Map<usize, T> {
        self.peer_con@
    }
}

impl<T> Manager<T> {
    /// A registry with no subscriber.
    pub fn new() -> (r: Self)
        ensures
            r@ == Map::<usize, T>::empty(),
    {
        Manager { peer_con: HashMap::new() }
    }

    /// The subscriber registered for peer connection `id`, if any.
    pub fn subscriber(&self, id: PeerConId) -> (r: Option<&T>)
        ensures
            r matches Some(cb) ==> self@.contains_key(id) && self@[id] == *cb,
            r is None ==> !self@.contains_key(id),
    {
        self.peer_con.get(&id)
    }

    /// Routes an engine event and finds the subscriber it goes to. Events
    /// for a peer connection with no registered subscriber are dropped.
    pub fn dispatch(&self, evt: Event) -> (r: Option<(&T, PeerConnectionEvent)>)
        ensures
            match spec_route(evt@) {
                Some((id, v)) => if self@.contains_key(id) {
                    r matches Some((cb, re)) && *cb == self@[id] && re@ == v
                } else {
                    r is None
                },
                None => r is None,
            },
    {
        match route(evt) {
            Some((id, e)) => match self.subscriber(id) {
                Some(cb) => Some((cb, e)),
                None => None,
            },
            None => None,
        }
    }
}

/// Registers `cb` as the subscriber of peer connection `id`, replacing and
/// dropping any earlier one.
pub fn register_peer_con_evt_cb<T>(man: &mut Manager<T>, id: PeerConId, cb: T)
    ensures
        final(man)@ == old(man)@.insert(id, cb),
{
    man.peer_con.insert(id, cb);
}

/// Removes the subscriber of peer connection `id`; later events for it are
/// dropped.
pub fn unregister_peer_con_evt_cb<T>(man: &mut Manager<T>, id: PeerConId)
    ensures
        final(man)@ == old(man)@.remove(id),
{
    man.peer_con.remove(&id);
}

} // verus!
