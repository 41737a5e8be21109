//! Records written to the runtime's log channel after a successful instruction.
use vstd::prelude::*;
use vstd::string::StringSliceAdditionalSpecFns;
use crate::codec::{discriminator, discriminator_of, le_bytes, tagged_amount};

verus! {

/// Emitted after a deposit, carrying the credited amount.
#[derive(Clone, Copy, Debug, PartialEq, Eq, Structural)]
pub struct DepositEvent {
    pub amount: u64,
}

/// Emitted after a withdrawal, carrying the debited amount.
#[derive(Clone, Copy, Debug, PartialEq, Eq, Structural)]
pub struct WithdrawEvent {
    pub amount: u64,
}

impl DepositEvent {
    /// The logged record: the event's discriminator, then the amount (LE).
    pub open spec fn spec_data(self) -> Seq<u8> {
        discriminator_of("event:DepositEvent".spec_bytes()) + le_bytes(self.amount)
    }

    pub fn data(&self) -> (r: Vec<u8>)
        ensures
            r@ == self.spec_data(),
    {
        let tag = discriminator("event:DepositEvent".as_bytes());
        tagged_amount(&tag, self.amount)
    }
}

impl WithdrawEvent {
    /// The logged record: the event's discriminator, then the amount (LE).
    pub open spec fn spec_data(self) -> Seq<u8> {
        discriminator_of("event:WithdrawEvent".spec_bytes()) + le_bytes(self.amount)
    }

    pub fn data(&self) -> (r: Vec<u8>)
        ensures
            r@ == self.spec_data(),
    {
        let tag = discriminator("event:WithdrawEvent".as_bytes());
        tagged_amount(&tag, self.amount)
    }
}

} // verus!
