//! Data channel handles.
use vstd::prelude::*;

use crate::sys::DataChanId;

verus! {

/// A pion webrtc data channel, named by its engine handle.
#[derive(Debug, PartialEq, Eq, Structural)]
pub struct DataChannel(pub(crate) DataChanId);

impl View for DataChannel {
    type V = DataChanId;

    closed spec fn view(&self) -> DataChanId {
        self.0
    }
}

impl DataChannel {
    /// Names the data channel with engine handle `id`.
    pub fn new(id: DataChanId) -> (r: Self)
        ensures
            r@ == id,
    {
        DataChannel(id)
    }

    /// The engine handle of this data channel.
    pub fn id(&self) -> (r: DataChanId)
        ensures
            r == self@,
    {
        self.0
    }
}

} // verus!
