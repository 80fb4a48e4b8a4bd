use vstd::prelude::*;

verus! {

/// One entry of the interrupt vector table: where the handler starts.
#[derive(Debug, Clone, Copy, PartialEq, Eq, Structural)]
pub struct InterruptVec {
    pub address: usize,
}

/// The interrupts that the machine raises by itself.
#[derive(Debug, Clone, Copy, PartialEq, Eq, Structural)]
pub enum Interrupt {
    DivideByZero,
    InvalidOpcode,
    MachineCheck,
}

impl Interrupt {
    /// The index of this interrupt in the vector table.
    pub open spec fn spec_number(self) -> u8 {
        match self {
            Interrupt::DivideByZero => 0x00,
            Interrupt::InvalidOpcode => 0x06,
            Interrupt::MachineCheck => 0x12,
        }
    }

    /// The index of this interrupt in the vector table.
    #[verifier::when_used_as_spec(spec_number)]
    pub fn number(self) -> (n: u8)
        ensures
            n == self.spec_number(),
    {
        match self {
            Interrupt::DivideByZero => 0x00,
            Interrupt::InvalidOpcode => 0x06,
            Interrupt::MachineCheck => 0x12,
        }
    }
}

} // verus!
