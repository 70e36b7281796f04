# chip8

A CHIP-8 virtual machine whose instructions are proved against a model.

- `src/registers.rs`, `src/stack.rs`, `src/input.rs`, `src/memory.rs`,
  `src/graphics.rs`: the parts of the machine. The screen is 32 rows of 64
  pixels, one `u64` per row; sprites are XORed on and wrap at the edges.
- `src/random.rs`: the `rand` generator behind the random-number instruction.
- `src/state.rs`: `MachineState`, the machine as plain values, and one
  transition per instruction.
- `src/vm.rs`: `VM` and its instructions; each one's contract is that the new
  state is the transition applied to the old one.
- `src/laws.rs`: properties across instructions (a return undoes a call, a
  register load reads back a store, drawing a sprite twice restores the screen,
  and others).
