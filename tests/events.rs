use std::sync::atomic::{AtomicUsize, Ordering};
use std::sync::Arc;

use go_pion_webrtc::evt::route;
use go_pion_webrtc::go_buf::{copy_view_into, vectored_len};
use go_pion_webrtc::handle::{HandleError, HandleLedger};
use go_pion_webrtc::sys::event::{decode_event, event_text, Event, SubscriberSlot};
use go_pion_webrtc::sys::{BufView, Slots, Span};
use go_pion_webrtc::{
    register_peer_con_evt_cb, unregister_peer_con_evt_cb, Error, Manager, PeerConnectionEvent,
};

fn slots(ty: usize, a: usize, b: usize, c: usize) -> Slots {
    Slots { ty, a, b, c, d: 0 }
}

#[test]
fn decode_ice_candidate_event() {
    let s = slots(0x9801, 4, 0x100, 9);
    assert_eq!(event_text(s), Some(BufView::Mem(Span { addr: 0x100, len: 9 })));
    match decode_event(s, b"candidate") {
        Event::PeerConICECandidate { peer_con_id, candidate } => {
            assert_eq!(peer_con_id, 4);
            assert_eq!(candidate, "candidate");
        }
        other => panic!("unexpected {:?}", other),
    }
}

#[test]
fn decode_error_event() {
    let s = slots(0xffff, 17, 0x100, 4);
    match decode_event(s, &[b'b', b'a', 0xc0, b'd']) {
        Event::Error(e) => {
            assert_eq!(e.code, 17);
            assert_eq!(e.error, "ba\u{fffd}d");
        }
        other => panic!("unexpected {:?}", other),
    }
}

#[test]
fn decode_slot_only_events() {
    let s = slots(0x9802, 4, 3, 0);
    assert_eq!(event_text(s), Some(BufView::Empty));
    assert!(matches!(
        decode_event(s, b""),
        Event::PeerConStateChange { peer_con_id: 4, peer_con_state: 3 }
    ));
    assert!(matches!(
        decode_event(slots(0x9803, 4, 8, 0), b""),
        Event::PeerConDataChan { peer_con_id: 4, data_chan_id: 8 }
    ));
    assert!(matches!(decode_event(slots(0xa801, 8, 0, 0), b""), Event::DataChanClose(8)));
    assert!(matches!(decode_event(slots(0xa802, 8, 0, 0), b""), Event::DataChanOpen(8)));
    assert!(matches!(
        decode_event(slots(0xa803, 8, 2, 0), b""),
        Event::DataChanMessage { data_chan_id: 8, buffer_id: 2 }
    ));
}

#[test]
fn unknown_event_tag_becomes_error() {
    match decode_event(slots(7, 1, 2, 3), b"") {
        Event::Error(e) => {
            assert_eq!(e.code, 0);
            assert_eq!(e.error, "invalid event_type: 7");
        }
        other => panic!("unexpected {:?}", other),
    }
    match decode_event(slots(0x8001, 1, 2, 3), b"") {
        Event::Error(e) => assert_eq!(e.error, "invalid event_type: 32769"),
        other => panic!("unexpected {:?}", other),
    }
}

#[test]
fn unreadable_event_text_is_flagged() {
    assert_eq!(event_text(slots(0xffff, 1, 0, 5)), None);
    assert_eq!(event_text(slots(0x9801, 1, 0, 0)), Some(BufView::Empty));
}

struct Counted(Arc<AtomicUsize>);

impl Drop for Counted {
    fn drop(&mut self) {
        self.0.fetch_add(1, Ordering::SeqCst);
    }
}

#[test]
fn replaced_subscriber_released_once() {
    let first = Arc::new(AtomicUsize::new(0));
    let second = Arc::new(AtomicUsize::new(0));
    let mut slot = SubscriberSlot::new();
    assert!(slot.current().is_none());
    assert!(slot.install(Counted(first.clone())).is_none());
    let prev = slot.install(Counted(second.clone()));
    assert_eq!(first.load(Ordering::SeqCst), 0);
    drop(prev);
    assert_eq!(first.load(Ordering::SeqCst), 1);
    assert_eq!(second.load(Ordering::SeqCst), 0);
    assert!(Arc::ptr_eq(&slot.current().unwrap().0, &second));
    drop(slot);
    assert_eq!(first.load(Ordering::SeqCst), 1);
    assert_eq!(second.load(Ordering::SeqCst), 1);
}

#[test]
fn route_peer_con_events() {
    let ice = Event::PeerConICECandidate { peer_con_id: 2, candidate: "c".to_string() };
    match route(ice) {
        Some((2, PeerConnectionEvent::ICECandidate(c))) => assert_eq!(c, "c"),
        other => panic!("unexpected {:?}", other),
    }
    match route(Event::PeerConDataChan { peer_con_id: 2, data_chan_id: 6 }) {
        Some((2, PeerConnectionEvent::DataChannel(d))) => assert_eq!(d.id(), 6),
        other => panic!("unexpected {:?}", other),
    }
    assert!(matches!(
        route(Event::PeerConStateChange { peer_con_id: 2, peer_con_state: 3 }),
        Some((2, PeerConnectionEvent::StateChange(3)))
    ));
    assert!(route(Event::DataChanOpen(6)).is_none());
}

#[test]
fn manager_dispatches_to_registered_only() {
    let mut man: Manager<&'static str> = Manager::new();
    register_peer_con_evt_cb(&mut man, 1, "one");
    register_peer_con_evt_cb(&mut man, 2, "two");
    let evt = Event::PeerConStateChange { peer_con_id: 2, peer_con_state: 5 };
    match man.dispatch(evt) {
        Some((cb, PeerConnectionEvent::StateChange(5))) => assert_eq!(*cb, "two"),
        other => panic!("unexpected {:?}", other),
    }
    let other = Event::PeerConStateChange { peer_con_id: 3, peer_con_state: 5 };
    assert!(man.dispatch(other).is_none());
    unregister_peer_con_evt_cb(&mut man, 2);
    let evt = Event::PeerConStateChange { peer_con_id: 2, peer_con_state: 5 };
    assert!(man.dispatch(evt).is_none());
    assert_eq!(man.subscriber(1), Some(&"one"));
    register_peer_con_evt_cb(&mut man, 1, "uno");
    assert_eq!(man.subscriber(1), Some(&"uno"));
}

#[test]
fn freed_handle_is_rejected_and_id_may_return() {
    let mut ledger = HandleLedger::new();
    assert_eq!(ledger.check(5), Err(HandleError::NotLive(5)));
    assert_eq!(ledger.issue(5), Ok(()));
    assert_eq!(ledger.issue(5), Err(HandleError::AlreadyLive(5)));
    assert_eq!(ledger.check(5), Ok(()));
    assert_eq!(ledger.release(5), Ok(()));
    assert_eq!(ledger.check(5), Err(HandleError::NotLive(5)));
    assert_eq!(ledger.release(5), Err(HandleError::NotLive(5)));
    assert!(!ledger.is_live(5));
    assert_eq!(ledger.issue(5), Ok(()));
    assert!(ledger.is_live(5));
}

#[test]
fn read_view_lands_at_front() {
    let mut buf = [9u8; 5];
    assert_eq!(copy_view_into(&mut buf, b"hel"), 3);
    assert_eq!(buf, [b'h', b'e', b'l', 9, 9]);
    assert_eq!(copy_view_into(&mut buf, b""), 0);
    assert_eq!(buf, [b'h', b'e', b'l', 9, 9]);
    let mut one = [0u8; 1];
    assert_eq!(copy_view_into(&mut one, b"x"), 1);
    assert_eq!(one, [b'x']);
}

#[test]
fn vectored_len_sums_or_overflows() {
    assert_eq!(vectored_len(&[]), Some(0));
    assert_eq!(vectored_len(&[2, 3, 5]), Some(10));
    assert_eq!(vectored_len(&[usize::MAX, 0]), Some(usize::MAX));
    assert_eq!(vectored_len(&[usize::MAX, 1]), None);
}

#[test]
fn error_conversions() {
    let e: Error = "boom".to_string().into();
    assert_eq!(e, Error::Other("boom".to_string()));
    let sys_err = go_pion_webrtc::sys::Error { code: 4, error: "x".to_string() };
    let e: Error = sys_err.into();
    assert_eq!(e, Error::Other("x".to_string()));
    let back: go_pion_webrtc::sys::Error = e.into();
    assert_eq!(back.code, 0);
    assert_eq!(back.error, "x");
    let raised: go_pion_webrtc::sys::Error = "raised".to_string().into();
    assert_eq!(raised.code, 0);
}
