use vstd::prelude::*;

verus! {

/// Number of general purpose registers `V0`..`VF`.
pub const REGISTER_COUNT: usize = 16;

/// Index of `VF`, the register that instructions use as a flag.
pub const FLAG_REGISTER: usize = 0xF;

/// The register file of the machine.
pub struct Registers {
    /// General purpose registers `V0`..`VF`.
    pub v: [u8; 16],
    /// The address register `I`.
    pub i: u16,
    /// The program counter.
    pub program_counter: u16,
    /// The delay timer.
    pub delay_timer: u8,
    /// The sound timer.
    pub sound_timer: u8,
}

impl Registers {
    /// All registers start at zero.
    pub fn new() -> (r: Registers)
        ensures
            r.v@ == Seq::new(16, |k: int| 0u8),
            r.i == 0,
            r.program_counter == 0,
            r.delay_timer == 0,
            r.sound_timer == 0,
    {
        let r = Registers { v: [0u8; 16], i: 0, program_counter: 0, delay_timer: 0, sound_timer: 0 };
        assert(r.v@ =~= Seq::new(16, |k: int| 0u8));
        r
    }
}

} // verus!
