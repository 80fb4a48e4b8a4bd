use vstd::prelude::*;
use crate::computer::CPUError;

verus! {

/// A flat memory of a fixed number of bytes. Every access is checked against
/// the size; none is clamped or wrapped.
pub struct Memory {
    size: usize,
    data: Vec<u8>,
}

impl View for Memory {
    type V = Seq<u8>;

    /// The bytes of the memory, by address.
    closed spec fn view(&self) -> Seq<u8> {
        self.data@
    }
}

impl Memory {
    #[verifier::type_invariant]
    spec fn well_formed(self) -> bool {
        self.size == self.data@.len()
    }

    /// A memory of `size` bytes, all zero.
    pub fn new(size: usize) -> (memory: Self)
        ensures
            memory@.len() == size,
            forall|i: int| 0 <= i < size ==> memory@[i] == 0,
    {
        let data = vec![0u8; size];
        Self { size, data }
    }

    /// The number of bytes.
    pub fn size(&self) -> (size: usize)
        ensures
            size == self@.len(),
    {
        proof {
            use_type_invariant(self);
        }
        self.size
    }

    /// Reads the byte at `address`.
    pub fn get(&self, address: usize) -> (result: Result<u8, CPUError>)
        ensures
            address < self@.len() ==> result == Ok::<u8, CPUError>(self@[address as int]),
            address >= self@.len() ==> result == Err::<u8, CPUError>(
                CPUError::MemoryAccessError(address),
            ),
    {
        proof {
            use_type_invariant(self);
        }
        if address >= self.size {
            Err(CPUError::MemoryAccessError(address))
        } else {
            Ok(self.data[address])
        }
    }

    /// A reference to the byte at `address`, if there is one.
    pub fn peek(&self, address: usize) -> (result: Option<&u8>)
        ensures
            address < self@.len() ==> result == Some(&self@[address as int]),
            address >= self@.len() ==> result is None,
    {
        proof {
            use_type_invariant(self);
        }
        if address >= self.size {
            None
        } else {
            Some(&self.data[address])
        }
    }

    /// Writes `value` at `address`; outside the memory nothing is written.
    pub fn set(&mut self, address: usize, value: u8) -> (result: Result<(), CPUError>)
        ensures
            address < old(self)@.len() ==> result == Ok::<(), CPUError>(()) && final(self)@ == old(
                self,
            )@.update(address as int, value),
            address >= old(self)@.len() ==> result == Err::<(), CPUError>(
                CPUError::MemoryAccessError(address),
            ) && final(self)@ == old(self)@,
    {
        proof {
            use_type_invariant(&*self);
        }
        if address >= self.size {
            Err(CPUError::MemoryAccessError(address))
        } else {
            self.data[address] = value;
            Ok(())
        }
    }
}

} // verus!
