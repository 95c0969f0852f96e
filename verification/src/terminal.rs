use vstd::prelude::*;

verus! {

/// The memory-mapped keyboard registers.
pub enum KeyboardAddresses {
    Status,
    Data,
}

impl KeyboardAddresses {
    /// The address of the keyboard register.
    pub open spec fn spec_address(self) -> u16 {
        match self {
            KeyboardAddresses::Status => 0xFE00,
            KeyboardAddresses::Data => 0xFE02,
        }
    }

    /// The address of the keyboard register.
    pub fn address(self) -> (r: u16)
        ensures
            r == self.spec_address(),
    {
        match self {
            KeyboardAddresses::Status => 0xFE00,
            KeyboardAddresses::Data => 0xFE02,
        }
    }
}

} // verus!
