use go_pion_webrtc::sys::call::{
    decode_response, settle, CallRequest, CallResponse, ResponseCell, Violation,
};
use go_pion_webrtc::sys::constants::Ty;
use go_pion_webrtc::sys::{error_from_parts, text_from_bytes, view_of, BufView, Slots, Span};

fn slots(ty: usize, a: usize, b: usize, c: usize, d: usize) -> Slots {
    Slots { ty, a, b, c, d }
}

const ALL: [Ty; 25] = [
    Ty::Error,
    Ty::BufferAlloc,
    Ty::BufferFree,
    Ty::BufferAccess,
    Ty::BufferReserve,
    Ty::BufferExtend,
    Ty::BufferRead,
    Ty::PeerConAlloc,
    Ty::PeerConFree,
    Ty::PeerConCreateOffer,
    Ty::PeerConCreateAnswer,
    Ty::PeerConSetLocalDesc,
    Ty::PeerConSetRemDesc,
    Ty::PeerConAddIceCandidate,
    Ty::PeerConCreateDataChan,
    Ty::PeerConRemCert,
    Ty::PeerConICECandidate,
    Ty::PeerConStateChange,
    Ty::PeerConDataChan,
    Ty::DataChanFree,
    Ty::DataChanReadyState,
    Ty::DataChanSend,
    Ty::DataChanClose,
    Ty::DataChanOpen,
    Ty::DataChanMessage,
];

#[test]
fn documented_tags() {
    assert_eq!(Ty::Error.tag(), 0xffff);
    assert_eq!(Ty::BufferAlloc.tag(), 0x8001);
    assert_eq!(Ty::BufferFree.tag(), 0x8002);
    assert_eq!(Ty::BufferAccess.tag(), 0x8003);
    assert_eq!(Ty::PeerConAlloc.tag(), 0x9001);
    assert_eq!(Ty::PeerConFree.tag(), 0x9002);
    assert_eq!(Ty::PeerConICECandidate.tag(), 0x9801);
}

#[test]
fn tags_round_trip_and_are_distinct() {
    for (i, t) in ALL.iter().enumerate() {
        assert_eq!(Ty::from_tag(t.tag()), Some(*t));
        for u in ALL.iter().skip(i + 1) {
            assert_ne!(t.tag(), u.tag());
        }
    }
    assert_eq!(Ty::from_tag(0), None);
    assert_eq!(Ty::from_tag(0x8000), None);
}

#[test]
fn error_is_no_call() {
    assert!(!Ty::Error.is_call());
    assert!(Ty::BufferAlloc.is_call());
    assert!(!Ty::DataChanMessage.is_call());
}

#[test]
fn encode_buffer_calls() {
    let r = CallRequest::BufferAlloc { len: 16 };
    assert_eq!(r.slots(), slots(0x8001, 16, 0, 0, 0));
    let r = CallRequest::BufferReserve { id: 7, add: 5 };
    assert_eq!(r.slots(), slots(0x8004, 7, 5, 0, 0));
    let r = CallRequest::BufferExtend { id: 7, data: Span { addr: 0x1000, len: 5 } };
    assert_eq!(r.slots(), slots(0x8005, 7, 0x1000, 5, 0));
    let r = CallRequest::BufferRead { id: 7, want: 32 };
    assert_eq!(r.slots(), slots(0x8006, 7, 32, 0, 0));
    let r = CallRequest::BufferAccess { id: 7 };
    assert_eq!(r.slots(), slots(0x8003, 7, 0, 0, 0));
}

#[test]
fn encode_peer_con_calls() {
    let cfg = Span { addr: 0x2000, len: 42 };
    assert_eq!(
        CallRequest::PeerConAlloc { config: cfg }.slots(),
        slots(0x9001, 0x2000, 42, 0, 0)
    );
    assert_eq!(
        CallRequest::PeerConCreateOffer { id: 3, options: None }.slots(),
        slots(0x9003, 3, 0, 0, 0)
    );
    assert_eq!(
        CallRequest::PeerConCreateAnswer { id: 3, options: Some(cfg) }.slots(),
        slots(0x9004, 3, 0x2000, 42, 0)
    );
    assert_eq!(
        CallRequest::PeerConAddIceCandidate { id: 3, candidate: cfg }.slots(),
        slots(0x9007, 3, 0x2000, 42, 0)
    );
    assert_eq!(
        CallRequest::DataChanSend { id: 9, buffer_id: 7 }.slots(),
        slots(0xa004, 9, 7, 0, 0)
    );
}

#[test]
fn frees_are_fire_and_forget() {
    assert!(!CallRequest::BufferFree { id: 1 }.awaits_response());
    assert!(!CallRequest::PeerConFree { id: 1 }.awaits_response());
    assert!(!CallRequest::DataChanFree { id: 1 }.awaits_response());
    assert!(CallRequest::BufferAccess { id: 1 }.awaits_response());
    assert_eq!(CallRequest::PeerConFree { id: 4 }.slots(), slots(0x9002, 4, 0, 0, 0));
}

#[test]
fn views_never_expose_empty_or_null_memory() {
    assert_eq!(view_of(0, 0), Some(BufView::Empty));
    assert_eq!(view_of(0x1234, 0), Some(BufView::Empty));
    assert_eq!(view_of(0, 3), None);
    assert_eq!(view_of(0x1234, 3), Some(BufView::Mem(Span { addr: 0x1234, len: 3 })));
}

#[test]
fn decode_buffer_responses() {
    let alloc = CallRequest::BufferAlloc { len: 4 };
    assert_eq!(
        decode_response(&alloc, slots(0x8001, 11, 0x5000, 4, 0)),
        Ok(CallResponse::Buffer { id: 11, data: BufView::Mem(Span { addr: 0x5000, len: 4 }) })
    );
    let access = CallRequest::BufferAccess { id: 11 };
    assert_eq!(
        decode_response(&access, slots(0x8003, 11, 0, 0, 0)),
        Ok(CallResponse::Buffer { id: 11, data: BufView::Empty })
    );
    let read = CallRequest::BufferRead { id: 11, want: 8 };
    assert_eq!(
        decode_response(&read, slots(0x8006, 0x6000, 2, 0, 0)),
        Ok(CallResponse::Data(BufView::Mem(Span { addr: 0x6000, len: 2 })))
    );
    assert_eq!(decode_response(&read, slots(0x8006, 0, 2, 0, 0)), Err(Violation::NullView));
    let extend = CallRequest::BufferExtend { id: 11, data: Span { addr: 1, len: 1 } };
    assert_eq!(decode_response(&extend, slots(0x8005, 0, 0, 0, 0)), Ok(CallResponse::Done));
}

#[test]
fn decode_peer_con_responses() {
    let alloc = CallRequest::PeerConAlloc { config: Span { addr: 1, len: 2 } };
    assert_eq!(decode_response(&alloc, slots(0x9001, 5, 0, 0, 0)), Ok(CallResponse::Value(5)));
    let offer = CallRequest::PeerConCreateOffer { id: 5, options: None };
    assert_eq!(
        decode_response(&offer, slots(0x9003, 0x7000, 100, 0, 0)),
        Ok(CallResponse::Data(BufView::Mem(Span { addr: 0x7000, len: 100 })))
    );
    let chan = CallRequest::PeerConCreateDataChan { id: 5, config: Span { addr: 1, len: 2 } };
    assert_eq!(decode_response(&chan, slots(0x9008, 9, 0, 0, 0)), Ok(CallResponse::Value(9)));
    let state = CallRequest::DataChanReadyState { id: 9 };
    assert_eq!(decode_response(&state, slots(0xa003, 2, 0, 0, 0)), Ok(CallResponse::Value(2)));
}

#[test]
fn failed_call_yields_code_and_message() {
    let req = CallRequest::PeerConAddIceCandidate { id: 5, candidate: Span { addr: 1, len: 3 } };
    let resp = decode_response(&req, slots(0xffff, 42, 0x8000, 11, 0)).unwrap();
    assert_eq!(
        resp,
        CallResponse::Failed { code: 42, message: BufView::Mem(Span { addr: 0x8000, len: 11 }) }
    );
    let err = settle(resp, b"bad json!!!").unwrap_err();
    assert_eq!(err.code, 42);
    assert_eq!(err.error, "bad json!!!");
}

#[test]
fn failed_call_with_empty_message() {
    let req = CallRequest::BufferAccess { id: 1 };
    let resp = decode_response(&req, slots(0xffff, 1, 0, 0, 0)).unwrap();
    assert_eq!(resp, CallResponse::Failed { code: 1, message: BufView::Empty });
    let err = settle(resp, b"").unwrap_err();
    assert_eq!(err.code, 1);
    assert_eq!(err.error, "");
}

#[test]
fn success_passes_through_settle() {
    assert_eq!(settle(CallResponse::Value(3), b"ignored").unwrap(), CallResponse::Value(3));
    assert_eq!(settle(CallResponse::Done, b"").unwrap(), CallResponse::Done);
}

#[test]
fn response_cell_exactly_once() {
    let none: ResponseCell<u32> = ResponseCell::new();
    assert_eq!(none.finish(), Err(Violation::NoResponse));

    let mut one = ResponseCell::new();
    one.deliver(7u32);
    assert_eq!(one.finish(), Ok(7));

    let mut two = ResponseCell::new();
    two.deliver(7u32);
    two.deliver(8u32);
    assert_eq!(two.finish(), Err(Violation::RepeatedResponse));
}

#[test]
fn lossy_text() {
    assert_eq!(text_from_bytes(b"hello"), "hello");
    assert_eq!(text_from_bytes(&[b'a', 0xff, b'b']), "a\u{fffd}b");
    let e = error_from_parts(9, b"oops");
    assert_eq!(e.code, 9);
    assert_eq!(e.error, "oops");
}
