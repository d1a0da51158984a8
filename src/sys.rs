//! The slot-level protocol spoken across the engine boundary.
//!
//! Every call, response and event is a tag and four machine words. What the
//! words mean depends on the tag alone; the modules below hold that mapping
//! in one place.
use vstd::prelude::*;
use vstd::utf8::{decode_utf8, valid_utf8};

pub mod call;
pub mod constants;
pub mod event;

verus! {

pub type CallType = usize;

pub type ResponseType = usize;

pub type ErrorCode = usize;

pub type BufferId = usize;

pub type PeerConId = usize;

pub type DataChanId = usize;

pub type PeerConState = usize;

/// A failure, as the engine reports it: a code and a message.
#[derive(Debug)]
pub struct Error {
    pub code: ErrorCode,
    pub error: String,
}

/// What an [`Error`] says: its code and the characters of its message.
pub struct ErrorView {
    pub code: ErrorCode,
    pub message: Seq<char>,
}

impl View for Error {
    type V = ErrorView;

    open spec fn view(&self) -> ErrorView {
        ErrorView { code: self.code, message: self.error@ }
    }
}

impl From<String> for Error {
    /// An error raised on the caller's side carries code zero.
    fn from(s: String) -> (r: Error)
        ensures
            r.code == 0,
            r.error@ == s@,
    {
        Error { code: 0, error: s }
    }
}

impl vstd::std_specs::convert::FromSpecImpl<String> for Error {
    open spec fn obeys_from_spec() -> bool {
        true
    }

    open spec fn from_spec(s: String) -> Error {
        Error { code: 0, error: s }
    }
}

/// One tuple as it crosses the boundary: a message type tag and four words.
#[derive(Clone, Copy, Debug, PartialEq, Eq, Structural)]
pub struct Slots {
    pub ty: usize,
    pub a: usize,
    pub b: usize,
    pub c: usize,
    pub d: usize,
}

/// A byte span named by its address and length in words.
#[derive(Clone, Copy, Debug, PartialEq, Eq, Structural)]
pub struct Span {
    pub addr: usize,
    pub len: usize,
}

/// A byte span handed over by the engine, valid only inside the callback
/// that delivered it.
///
/// An empty span is never dereferenced, whatever address came with it.
#[derive(Clone, Copy, Debug, PartialEq, Eq, Structural)]
pub enum BufView {
    Empty,
    Mem(Span),
}

/// The view an `(addr, len)` pair denotes; `None` when the engine handed a
/// null address with a non-zero length, which no caller may dereference.
pub open spec fn spec_view_of(addr: usize, len: usize) -> Option<BufView> {
    if len == 0 {
        Some(BufView::Empty)
    } else if addr == 0 {
        None
    } else {
        Some(BufView::Mem(Span { addr, len }))
    }
}

/// Classifies an `(addr, len)` pair handed over by the engine.
pub fn view_of(addr: usize, len: usize) -> (r: Option<BufView>)
    ensures
        r == spec_view_of(addr, len),
{
    if len == 0 {
        Some(BufView::Empty)
    } else if addr == 0 {
        None
    } else {
        Some(BufView::Mem(Span { addr, len }))
    }
}

/// The characters that lossy UTF-8 decoding makes of some bytes.
pub uninterp spec fn utf8_lossy(b: Seq<u8>) -> Seq<char>;

/// Relies on `String::from_utf8_lossy`: its result depends on the bytes
/// alone, and valid UTF-8 comes through unchanged.
#[verifier::external_body]
fn string_from_utf8_lossy(b: &[u8]) -> (r: String)
    ensures
        r@ == utf8_lossy(b@),
        valid_utf8(b@) ==> r@ == decode_utf8(b@),
{
    String::from_utf8_lossy(b).into_owned()
}

/// Turns the bytes copied out of the engine into text, replacing invalid
/// UTF-8 sequences.
pub fn text_from_bytes(b: &[u8]) -> (r: String)
    ensures
        r@ == utf8_lossy(b@),
        valid_utf8(b@) ==> r@ == decode_utf8(b@),
{
    string_from_utf8_lossy(b)
}

/// Builds the error that an error-tagged tuple carries, from its code slot
/// and the message bytes copied out of it.
pub fn error_from_parts(code: ErrorCode, message: &[u8]) -> (r: Error)
    ensures
        r@ == (ErrorView { code, message: utf8_lossy(message@) }),
{
    Error { code, error: text_from_bytes(message) }
}

/// The decimal digit character of `d`.
pub open spec fn digit_char(d: nat) -> char {
    if d == 0 {
        '0'
    } else if d == 1 {
        '1'
    } else if d == 2 {
        '2'
    } else if d == 3 {
        '3'
    } else if d == 4 {
        '4'
    } else if d == 5 {
        '5'
    } else if d == 6 {
        '6'
    } else if d == 7 {
        '7'
    } else if d == 8 {
        '8'
    } else {
        '9'
    }
}

/// The decimal notation of `n`, without sign or leading zeros.
pub open spec fn decimal(n: nat) -> Seq<char>
    decreases n,
{
    if n < 10 {
        seq![digit_char(n)]
    } else {
        decimal(n / 10).push(digit_char(n % 10))
    }
}

/// Relies on `ToString` for `usize`, which writes the number in decimal.
#[verifier::external_body]
fn decimal_string(n: usize) -> (r: String)
    ensures
        r@ == decimal(n as nat),
{
    n.to_string()
}

} // verus!
