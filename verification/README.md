# rbpf

Virtual machines that hold and run eBPF programs, with their contracts proved by Verus.

- `src/mbuff.rs`, `src/fixed.rs`, `src/raw.rs`, `src/nodata.rs`: the four kinds of machine.
- `src/state.rs`: the state that they share, the steps that their operations take, and the
  laws of these steps.
- `src/metabuff.rs`, `src/layout.rs`: the metadata buffer that `EbpfVmFixedMbuff` keeps, and
  how addresses stand in it.
- `src/engine.rs`: the trait that a verifier, an interpreter and a compiler are plugged in
  through. Nothing is assumed of an implementation: the contracts say what it is called on
  and what becomes of its result.
- `src/error.rs`: the error type.
- `src/outside.rs`: the calls that are not proved.
- `tests/`: programs run on the machines, on top of a small interpreter.
- `app/`: firmware for a Nucleo board that blinks its LEDs.
