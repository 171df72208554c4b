use crate::pattern_handler::ServiceHandler;
use vstd::prelude::*;

verus! {

/// A message type of one byte.
pub struct DataTypeA(pub u8);

/// A message type of four bytes.
pub struct DataTypeB(pub u32);

impl From<DataTypeA> for DataTypeB {
    fn from(a: DataTypeA) -> (r: DataTypeB)
        ensures
            r.0 == a.0 as u32,
    {
        DataTypeB(a.0 as u32)
    }
}

impl vstd::std_specs::convert::FromSpecImpl<DataTypeA> for DataTypeB {
    open spec fn obeys_from_spec() -> bool {
        true
    }

    open spec fn from_spec(v: DataTypeA) -> DataTypeB {
        DataTypeB(v.0 as u32)
    }
}

impl From<DataTypeB> for DataTypeA {
    /// Keeps the lowest byte.
    fn from(b: DataTypeB) -> (r: DataTypeA)
        ensures
            r.0 == b.0 as u8,
    {
        DataTypeA(b.0 as u8)
    }
}

impl vstd::std_specs::convert::FromSpecImpl<DataTypeB> for DataTypeA {
    open spec fn obeys_from_spec() -> bool {
        true
    }

    open spec fn from_spec(v: DataTypeB) -> DataTypeA {
        DataTypeA(v.0 as u8)
    }
}

/// The value after `v` in the order of `u32`, wrapping around to zero.
pub open spec fn successor(v: u32) -> u32 {
    if v == u32::MAX {
        0
    } else {
        (v + 1) as u32
    }
}

/// A handler that holds the latest value sent to it, and hands out that value and then
/// increments it every time a value is requested.
#[derive(Clone, Copy, Debug)]
pub struct IncrementingHandler {
    pub value: u32,
}

impl IncrementingHandler {
    pub fn new(initial_value: u32) -> (r: Self)
        ensures
            r.value == initial_value,
    {
        IncrementingHandler { value: initial_value }
    }
}

impl ServiceHandler<u32> for IncrementingHandler {
    fn send_message(&mut self, msg: u32)
        ensures
            final(self).value == msg,
    {
        self.value = msg;
    }

    fn receive_message(&mut self) -> (r: u32)
        ensures
            r == old(self).value,
            final(self).value == successor(old(self).value),
    {
        let r = self.value;
        self.value = if r == u32::MAX {
            0
        } else {
            r + 1
        };
        r
    }
}

} // verus!
