//! The serial-port register pair: a data byte at 0xFF01 and a control byte
//! at 0xFF02. Writing 0x81 to the control byte starts a transfer with the
//! internal clock; the host drains it through the bus.
use vstd::prelude::*;

verus! {

#[derive(Debug, Clone, Copy, PartialEq, Eq)]
pub struct Serial {
    /// The data byte at 0xFF01.
    pub transfer: u8,
    /// The control byte at 0xFF02.
    pub control: u8,
}

impl Default for Serial {
    fn default() -> (r: Self)
        ensures
            r == (Serial { transfer: 0, control: 0 }),
    {
        Serial { transfer: 0, control: 0 }
    }
}

} // verus!
