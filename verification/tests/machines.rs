//! Runs programs on the four kinds of machine, on top of a small interpreter.
use rbpf::{
    EbpfVmFixedMbuff, EbpfVmMbuff, EbpfVmNoData, EbpfVmRaw, Engine, Error, ErrorKind,
};
use std::collections::HashMap;

type Verifier = fn(&[u8]) -> Result<(), Error>;
type Helper = fn(u64, u64, u64, u64, u64) -> u64;

struct Mini;

struct Compiled {
    prog: Vec<u8>,
    keys: Vec<u32>,
}

type MbuffVm<'a> = EbpfVmMbuff<'a, Mini>;
type FixedVm<'a> = EbpfVmFixedMbuff<'a, Mini>;
type RawVm<'a> = EbpfVmRaw<'a, Mini>;
type NoDataVm<'a> = EbpfVmNoData<'a, Mini>;

fn fail<T>(message: &str) -> Result<T, Error> {
    Err(Error::new(ErrorKind::Other, message))
}

/// Accepts whole instructions only.
fn check(prog: &[u8]) -> Result<(), Error> {
    if prog.is_empty() || prog.len() % 8 != 0 {
        return fail("[Verifier] Error: not a sequence of instructions");
    }
    Ok(())
}

/// Accepts programs that end with an exit instruction.
fn ends_with_exit(prog: &[u8]) -> Result<(), Error> {
    if prog[prog.len() - 8] != 0x95 {
        return fail("[Verifier] Error: program does not end with “EXIT” instruction");
    }
    Ok(())
}

/// Accepts no program, with a kind of its own.
fn invalid_data(_prog: &[u8]) -> Result<(), Error> {
    Err(Error::new(ErrorKind::InvalidData, "bad data"))
}

fn accept_nothing(_prog: &[u8]) -> Result<(), Error> {
    fail("never")
}

fn accept_anything(_prog: &[u8]) -> Result<(), Error> {
    Ok(())
}

fn sqrti(r1: u64, _: u64, _: u64, _: u64, _: u64) -> u64 {
    (r1 as f64).sqrt() as u64
}

fn sum(r1: u64, r2: u64, r3: u64, r4: u64, r5: u64) -> u64 {
    r1 + r2 + r3 + r4 + r5
}

fn load(areas: &[&[u8]], addr: u64, width: u64) -> Result<u64, Error> {
    for area in areas {
        let base = area.as_ptr() as u64;
        if base <= addr && addr + width <= base + area.len() as u64 {
            let mut value = 0u64;
            for i in (0..width).rev() {
                value = value << 8 | area[(addr - base + i) as usize] as u64;
            }
            return Ok(value);
        }
    }
    fail("out of bounds")
}

fn interpret(
    prog: &[u8],
    mem: &[u8],
    mbuff: &[u8],
    helpers: &HashMap<u32, Helper>,
    stores: &mut Vec<(u64, u8)>,
) -> Result<u64, Error> {
    let areas = [mbuff, mem];
    let mut reg = [0u64; 11];
    if !mbuff.is_empty() {
        reg[1] = mbuff.as_ptr() as u64;
    } else if !mem.is_empty() {
        reg[1] = mem.as_ptr() as u64;
    }
    let mut pc = 0;
    loop {
        let insn = &prog[pc * 8..pc * 8 + 8];
        pc += 1;
        let dst = (insn[1] & 0x0f) as usize;
        let src = (insn[1] >> 4) as usize;
        let off = i16::from_le_bytes([insn[2], insn[3]]);
        let imm = i32::from_le_bytes([insn[4], insn[5], insn[6], insn[7]]);
        let imm64 = imm as i64 as u64;
        let at = reg[src].wrapping_add(off as i64 as u64);
        match insn[0] {
            0x71 => reg[dst] = load(&areas, at, 1)?,
            0x69 => reg[dst] = load(&areas, at, 2)?,
            0x79 => reg[dst] = load(&areas, at, 8)?,
            0x72 => stores.push((reg[dst].wrapping_add(off as i64 as u64), imm as u8)),
            0x18 => {
                let high = &prog[pc * 8 + 4..pc * 8 + 8];
                let high = u32::from_le_bytes([high[0], high[1], high[2], high[3]]);
                reg[dst] = imm as u32 as u64 | (high as u64) << 32;
                pc += 1;
            }
            0x07 => reg[dst] = reg[dst].wrapping_add(imm64),
            0x1f => reg[dst] = reg[dst].wrapping_sub(reg[src]),
            0x2d => {
                if reg[dst] > reg[src] {
                    pc += off as usize;
                }
            }
            0x47 => reg[dst] |= imm64,
            0x4f => reg[dst] |= reg[src],
            0x57 => reg[dst] &= imm64,
            0x5f => reg[dst] &= reg[src],
            0x67 => reg[dst] <<= imm,
            0x6f => reg[dst] <<= reg[src],
            0x77 => reg[dst] >>= imm,
            0x7f => reg[dst] >>= reg[src],
            0xa7 => reg[dst] ^= imm64,
            0xaf => reg[dst] ^= reg[src],
            0xb7 => reg[dst] = imm64,
            0xbf => reg[dst] = reg[src],
            0xc7 => reg[dst] = ((reg[dst] as i64) >> imm) as u64,
            0xdc => reg[dst] = (reg[dst] as u16).to_be() as u64,
            0x85 => match helpers.get(&(imm as u32)) {
                Some(function) => reg[0] = function(reg[1], reg[2], reg[3], reg[4], reg[5]),
                None => return fail("unknown helper"),
            },
            0x95 => return Ok(reg[0]),
            _ => return fail("unknown instruction"),
        }
    }
}

impl Engine for Mini {
    type Verifier = Verifier;
    type Helper = Helper;
    type Compiled = Compiled;

    const CHECK: Verifier = check;

    fn verify(verifier: &Verifier, prog: &[u8]) -> Result<(), Error> {
        verifier(prog)
    }

    fn execute_program(
        prog: Option<&[u8]>,
        mem: &[u8],
        mbuff: &[u8],
        helpers: &HashMap<u32, Helper>,
    ) -> Result<u64, Error> {
        match prog {
            Some(prog) => interpret(prog, mem, mbuff, helpers, &mut Vec::new()),
            None => fail("nothing to run"),
        }
    }

    fn compile_function(
        helpers: HashMap<u32, Helper>,
        prog: &[u8],
    ) -> Result<Compiled, Error> {
        if prog[0] == 0xff {
            return fail("cannot compile");
        }
        Ok(Compiled { prog: prog.to_vec(), keys: helpers.keys().copied().collect() })
    }

    fn execute_compiled(
        program: Option<&Compiled>,
        mem: &mut [u8],
        mbuff: &mut [u8],
        helpers: &HashMap<u32, Helper>,
    ) -> Result<u64, Error> {
        let program = match program {
            Some(program) => program,
            None => return fail("nothing compiled"),
        };
        let mut known = helpers.clone();
        known.retain(|key, _| program.keys.contains(key));
        let mut stores = Vec::new();
        let result = interpret(&program.prog, mem, mbuff, &known, &mut stores);
        let base = mem.as_ptr() as u64;
        for (addr, byte) in stores {
            mem[(addr - base) as usize] = byte;
        }
        result
    }
}

const RETURN_0: &[u8] = &[
    0xb7, 0x00, 0x00, 0x00, 0x00, 0x00, 0x00, 0x00, // mov r0, 0
    0x95, 0x00, 0x00, 0x00, 0x00, 0x00, 0x00, 0x00, // exit
];

const RETURN_2211: &[u8] = &[
    0xb7, 0x00, 0x00, 0x00, 0x11, 0x22, 0x00, 0x00, // mov r0, 0x2211
    0x95, 0x00, 0x00, 0x00, 0x00, 0x00, 0x00, 0x00, // exit
];

const NO_EXIT: &[u8] = &[
    0xb7, 0x00, 0x00, 0x00, 0x11, 0x22, 0x00, 0x00, // mov r0, 0x2211
];

const BIG_ENDIAN: &[u8] = &[
    0xb7, 0x00, 0x00, 0x00, 0x11, 0x22, 0x00, 0x00, // mov r0, 0x2211
    0xdc, 0x00, 0x00, 0x00, 0x10, 0x00, 0x00, 0x00, // be16 r0
    0x95, 0x00, 0x00, 0x00, 0x00, 0x00, 0x00, 0x00, // exit
];

const THROUGH_MBUFF: &[u8] = &[
    0x79, 0x11, 0x08, 0x00, 0x00, 0x00, 0x00, 0x00, // load mem from mbuff at offset 8 into r1
    0x69, 0x10, 0x02, 0x00, 0x00, 0x00, 0x00, 0x00, // ldhx r1[2], r0
    0x95, 0x00, 0x00, 0x00, 0x00, 0x00, 0x00, 0x00, // exit
];

const FIFTH_BYTE: &[u8] = &[
    0xb7, 0x00, 0x00, 0x00, 0x00, 0x00, 0x00, 0x00, // mov r0, 0
    0x79, 0x12, 0x40, 0x00, 0x00, 0x00, 0x00, 0x00, // load mem from r1[0x40] to r2
    0x07, 0x02, 0x00, 0x00, 0x05, 0x00, 0x00, 0x00, // add r2, 5
    0x79, 0x11, 0x50, 0x00, 0x00, 0x00, 0x00, 0x00, // load mem_end from r1[0x50] to r1
    0x2d, 0x12, 0x01, 0x00, 0x00, 0x00, 0x00, 0x00, // if r2 > r1 skip 1 instruction
    0x71, 0x20, 0x00, 0x00, 0x00, 0x00, 0x00, 0x00, // load r2 (= *(mem + 5)) into r0
    0x95, 0x00, 0x00, 0x00, 0x00, 0x00, 0x00, 0x00, // exit
];

const ADD_TO_BYTE: &[u8] = &[
    0x71, 0x11, 0x04, 0x00, 0x00, 0x00, 0x00, 0x00, // ldxb r1[0x04], r1
    0x07, 0x01, 0x00, 0x00, 0x00, 0x22, 0x00, 0x00, // add r1, 0x22
    0xbf, 0x10, 0x00, 0x00, 0x00, 0x00, 0x00, 0x00, // mov r0, r1
    0x95, 0x00, 0x00, 0x00, 0x00, 0x00, 0x00, 0x00, // exit
];

const CALL_7: &[u8] = &[
    0xb7, 0x01, 0x00, 0x00, 0x10, 0x00, 0x00, 0x00, // mov r1, 16
    0xb7, 0x02, 0x00, 0x00, 0x02, 0x00, 0x00, 0x00, // mov r2, 2
    0x85, 0x00, 0x00, 0x00, 0x07, 0x00, 0x00, 0x00, // call helper with key 7
    0x95, 0x00, 0x00, 0x00, 0x00, 0x00, 0x00, 0x00, // exit
];

/// Returns the eight bytes that stand at the beginning of the metadata buffer.
const FIRST_WORD: &[u8] = &[
    0x79, 0x10, 0x00, 0x00, 0x00, 0x00, 0x00, 0x00, // load r1[0] to r0
    0x95, 0x00, 0x00, 0x00, 0x00, 0x00, 0x00, 0x00, // exit
];

/// Returns the eight bytes that stand at offset 8 of the metadata buffer.
const SECOND_WORD: &[u8] = &[
    0x79, 0x10, 0x08, 0x00, 0x00, 0x00, 0x00, 0x00, // load r1[8] to r0
    0x95, 0x00, 0x00, 0x00, 0x00, 0x00, 0x00, 0x00, // exit
];

/// Returns the difference of the two addresses that stand at offsets 8 and 0.
const PACKET_LEN: &[u8] = &[
    0x79, 0x10, 0x08, 0x00, 0x00, 0x00, 0x00, 0x00, // load r1[8] to r0
    0x79, 0x12, 0x00, 0x00, 0x00, 0x00, 0x00, 0x00, // load r1[0] to r2
    0x1f, 0x20, 0x00, 0x00, 0x00, 0x00, 0x00, 0x00, // sub r0, r2
    0x95, 0x00, 0x00, 0x00, 0x00, 0x00, 0x00, 0x00, // exit
];

// EbpfVmMbuff

#[test]
fn mbuff_program_follows_the_pointer_in_the_buffer() {
    let mem = [0xaa, 0xbb, 0x11, 0x22, 0xcc, 0xdd];
    let mut mbuff = [0u8; 32];
    let start = mem.as_ptr() as u64;
    mbuff[8..16].copy_from_slice(&start.to_le_bytes());
    mbuff[24..32].copy_from_slice(&(start + mem.len() as u64).to_le_bytes());
    let vm = MbuffVm::new(Some(THROUGH_MBUFF)).unwrap();
    assert_eq!(vm.execute_program(&mem, &mbuff).unwrap(), 0x2211);
}

#[test]
fn mbuff_new_rejects_what_the_check_rejects() {
    let e = MbuffVm::new(Some(&RETURN_0[..9])).err().unwrap();
    assert_eq!(e.kind(), ErrorKind::Other);
    assert_eq!(e.message(), "[Verifier] Error: not a sequence of instructions");
    assert!(MbuffVm::new(Some(&[])).is_err());
    assert!(MbuffVm::new(Some(RETURN_0)).is_ok());
    assert!(MbuffVm::new(None).is_ok());
}

#[test]
fn mbuff_without_program_hands_none_to_the_engine() {
    let vm = MbuffVm::new(None).unwrap();
    assert_eq!(vm.execute_program(&[], &[]).err().unwrap().message(), "nothing to run");
}

#[test]
fn mbuff_set_program_replaces_the_program() {
    let mut vm = MbuffVm::new(Some(RETURN_0)).unwrap();
    assert_eq!(vm.execute_program(&[], &[]).unwrap(), 0);
    vm.set_program(RETURN_2211).unwrap();
    assert_eq!(vm.execute_program(&[], &[]).unwrap(), 0x2211);
    vm.set_program(BIG_ENDIAN).unwrap();
    assert_eq!(vm.execute_program(&[], &[]).unwrap(), 0x1122);
}

#[test]
fn mbuff_rejected_program_leaves_the_old_one() {
    let mut vm = MbuffVm::new(Some(RETURN_2211)).unwrap();
    assert!(vm.set_program(&RETURN_0[..5]).is_err());
    assert_eq!(vm.execute_program(&[], &[]).unwrap(), 0x2211);
}

#[test]
fn mbuff_set_verifier_judges_the_loaded_program() {
    let mut vm = MbuffVm::new(Some(RETURN_0)).unwrap();
    vm.set_verifier(ends_with_exit).unwrap();
    let mut vm = MbuffVm::new(Some(NO_EXIT)).unwrap();
    let e = vm.set_verifier(ends_with_exit).err().unwrap();
    assert_eq!(e.message(), "[Verifier] Error: program does not end with “EXIT” instruction");
}

#[test]
fn mbuff_failing_verifier_is_not_set() {
    let mut vm = MbuffVm::new(Some(RETURN_0)).unwrap();
    assert_eq!(vm.set_verifier(accept_nothing).err().unwrap().message(), "never");
    // The first verifier is still in place: it accepts this program and rejects that one.
    vm.set_program(RETURN_2211).unwrap();
    assert!(vm.set_program(&RETURN_0[..5]).is_err());
    assert_eq!(vm.execute_program(&[], &[]).unwrap(), 0x2211);
}

#[test]
fn mbuff_hands_the_kind_of_the_error_on() {
    let mut vm = MbuffVm::new(Some(RETURN_0)).unwrap();
    let e = vm.set_verifier(invalid_data).err().unwrap();
    assert_eq!(e.kind(), ErrorKind::InvalidData);
    assert_eq!(e.message(), "bad data");
    assert_eq!(Error::new(ErrorKind::ResourceBusy, "").kind(), ErrorKind::ResourceBusy);
}

#[test]
fn mbuff_without_program_takes_any_verifier() {
    let mut vm = MbuffVm::new(None).unwrap();
    vm.set_verifier(accept_nothing).unwrap();
    assert_eq!(vm.set_program(RETURN_0).err().unwrap().message(), "never");
    assert!(vm.execute_program(&[], &[]).is_err());
}

#[test]
fn mbuff_new_verifier_judges_later_programs() {
    let mut vm = MbuffVm::new(Some(RETURN_0)).unwrap();
    vm.set_verifier(ends_with_exit).unwrap();
    assert!(vm.set_program(NO_EXIT).is_err());
    vm.set_verifier(accept_anything).unwrap();
    vm.set_program(NO_EXIT).unwrap();
}

#[test]
fn mbuff_helper_is_called_by_its_key() {
    let mut vm = MbuffVm::new(Some(CALL_7)).unwrap();
    assert_eq!(vm.execute_program(&[], &[]).err().unwrap().message(), "unknown helper");
    vm.register_helper(6, sum).unwrap();
    assert_eq!(vm.execute_program(&[], &[]).err().unwrap().message(), "unknown helper");
    vm.register_helper(7, sum).unwrap();
    assert_eq!(vm.execute_program(&[], &[]).unwrap(), 18);
}

#[test]
fn mbuff_last_helper_under_a_key_stays() {
    let mut vm = MbuffVm::new(Some(CALL_7)).unwrap();
    vm.register_helper(7, sum).unwrap();
    vm.register_helper(7, sqrti).unwrap();
    assert_eq!(vm.execute_program(&[], &[]).unwrap(), 4);
}

#[test]
fn mbuff_registrations_commute() {
    let mut vm = MbuffVm::new(Some(CALL_7)).unwrap();
    vm.register_helper(7, sqrti).unwrap();
    vm.register_helper(8, sum).unwrap();
    assert_eq!(vm.execute_program(&[], &[]).unwrap(), 4);
    let mut vm = MbuffVm::new(Some(CALL_7)).unwrap();
    vm.register_helper(8, sum).unwrap();
    vm.register_helper(7, sqrti).unwrap();
    assert_eq!(vm.execute_program(&[], &[]).unwrap(), 4);
}

#[test]
fn mbuff_helper_is_registered_for_a_loaded_program() {
    let prog = &[
        0x18, 0x01, 0x00, 0x00, 0x00, 0x00, 0x00, 0x00, // load 0 as u64 into r1
        0x00, 0x00, 0x00, 0x00, 0x00, 0x00, 0x00, 0x00, //
        0xb7, 0x02, 0x00, 0x00, 0x0a, 0x00, 0x00, 0x00, // mov r2, 10
        0xb7, 0x03, 0x00, 0x00, 0x01, 0x00, 0x00, 0x00, // mov r3, 1
        0xb7, 0x04, 0x00, 0x00, 0x02, 0x00, 0x00, 0x00, // mov r4, 2
        0xb7, 0x05, 0x00, 0x00, 0x03, 0x00, 0x00, 0x00, // mov r5, 3
        0x85, 0x00, 0x00, 0x00, 0x06, 0x00, 0x00, 0x00, // call helper with key 6
        0x95, 0x00, 0x00, 0x00, 0x00, 0x00, 0x00, 0x00, // exit
    ];
    let mut vm = MbuffVm::new(Some(prog)).unwrap();
    vm.register_helper(6, sum).unwrap();
    assert_eq!(vm.execute_program(&[], &[]).unwrap(), 16);
}

// EbpfVmFixedMbuff

#[test]
fn fixed_program_reads_the_packet() {
    let mut mem = [0xaa, 0xbb, 0x11, 0x22, 0xcc, 0xdd];
    let mut vm = FixedVm::new(Some(FIFTH_BYTE), 0x40, 0x50).unwrap();
    assert_eq!(vm.execute_program(&mut mem).unwrap(), 0xdd);
}

#[test]
fn fixed_program_reads_each_packet_it_is_run_on() {
    let prog = &[
        0xb7, 0x00, 0x00, 0x00, 0x00, 0x00, 0x00, 0x00, // mov r0, 0
        0x79, 0x12, 0x40, 0x00, 0x00, 0x00, 0x00, 0x00, // load mem from r1[0x40] to r2
        0x07, 0x02, 0x00, 0x00, 0x05, 0x00, 0x00, 0x00, // add r2, 5
        0x79, 0x11, 0x50, 0x00, 0x00, 0x00, 0x00, 0x00, // load mem_end from r1[0x50] to r1
        0x2d, 0x12, 0x03, 0x00, 0x00, 0x00, 0x00, 0x00, // if r2 > r1 skip 3 instructions
        0x71, 0x20, 0x00, 0x00, 0x00, 0x00, 0x00, 0x00, // load r2 (= *(mem + 5)) into r0
        0x67, 0x00, 0x00, 0x00, 0x38, 0x00, 0x00, 0x00, // r0 <<= 56
        0xc7, 0x00, 0x00, 0x00, 0x38, 0x00, 0x00, 0x00, // r0 >>= 56 (arsh)
        0x95, 0x00, 0x00, 0x00, 0x00, 0x00, 0x00, 0x00, // exit
    ];
    let mut mem1 = [0xaa, 0xbb, 0x11, 0x22, 0xcc, 0xdd];
    let mut mem2 = [0xaa, 0xbb, 0x11, 0x22, 0xcc, 0x27];
    let mut vm = FixedVm::new(Some(prog), 0x40, 0x50).unwrap();
    assert_eq!(vm.execute_program(&mut mem1).unwrap(), 0xffffffffffffffdd);
    assert_eq!(vm.execute_program(&mut mem2).unwrap(), 0x27);
}

#[test]
fn fixed_short_packet_ends_before_the_byte() {
    let mut mem = [0xaa, 0xbb];
    let mut vm = FixedVm::new(Some(FIFTH_BYTE), 0x40, 0x50).unwrap();
    assert_eq!(vm.execute_program(&mut mem).unwrap(), 0);
}

#[test]
fn fixed_set_program_sets_the_offsets() {
    let mut mem = [0xaa, 0xbb, 0x11, 0x22, 0xcc, 0x27];
    let mut vm = FixedVm::new(Some(RETURN_0), 0, 0).unwrap();
    vm.set_program(FIFTH_BYTE, 0x40, 0x50).unwrap();
    assert_eq!(vm.execute_program(&mut mem).unwrap(), 0x27);
}

#[test]
fn fixed_rejected_program_still_sets_the_offsets() {
    let mem = [1, 2, 3];
    let mut vm = FixedVm::new(Some(FIRST_WORD), 0, 8).unwrap();
    assert_eq!(vm.execute_program_at(&mem, 0x1000).unwrap(), 0x1000);
    assert!(vm.set_program(&RETURN_0[..5], 8, 0).is_err());
    assert_eq!(vm.execute_program_at(&mem, 0x1000).unwrap(), 0x1003);
}

#[test]
fn fixed_set_program_starts_from_an_empty_buffer() {
    let mem = [1, 2, 3];
    let mut vm = FixedVm::new(Some(FIRST_WORD), 0, 8).unwrap();
    assert_eq!(vm.execute_program_at(&mem, 0x1000).unwrap(), 0x1000);
    vm.set_program(FIRST_WORD, 8, 16).unwrap();
    assert_eq!(vm.execute_program_at(&mem, 0x1000).unwrap(), 0);
}

#[test]
fn fixed_helper_is_called_on_the_packet() {
    let prog = &[
        0xb7, 0x00, 0x00, 0x00, 0x00, 0x00, 0x00, 0x00, // mov r0, 0
        0x79, 0x12, 0x40, 0x00, 0x00, 0x00, 0x00, 0x00, // load mem from r1[0x40] to r2
        0x07, 0x02, 0x00, 0x00, 0x05, 0x00, 0x00, 0x00, // add r2, 5
        0x79, 0x11, 0x50, 0x00, 0x00, 0x00, 0x00, 0x00, // load mem_end from r1[0x50] to r1
        0x2d, 0x12, 0x06, 0x00, 0x00, 0x00, 0x00, 0x00, // if r2 > r1 skip 6 instructions
        0x71, 0x21, 0x00, 0x00, 0x00, 0x00, 0x00, 0x00, // load r2 (= *(mem + 5)) into r1
        0xb7, 0x02, 0x00, 0x00, 0x00, 0x00, 0x00, 0x00, // mov r2, 0
        0xb7, 0x03, 0x00, 0x00, 0x00, 0x00, 0x00, 0x00, // mov r3, 0
        0xb7, 0x04, 0x00, 0x00, 0x00, 0x00, 0x00, 0x00, // mov r4, 0
        0xb7, 0x05, 0x00, 0x00, 0x00, 0x00, 0x00, 0x00, // mov r5, 0
        0x85, 0x00, 0x00, 0x00, 0x01, 0x00, 0x00, 0x00, // call helper with key 1
        0x95, 0x00, 0x00, 0x00, 0x00, 0x00, 0x00, 0x00, // exit
    ];
    let mut mem = [0xaa, 0xbb, 0x11, 0x22, 0xcc, 0x09];
    let mut vm = FixedVm::new(Some(prog), 0x40, 0x50).unwrap();
    vm.register_helper(1, sqrti).unwrap();
    assert_eq!(vm.execute_program(&mut mem).unwrap(), 3);
}

#[test]
fn fixed_set_verifier_judges_the_loaded_program() {
    let mut vm = FixedVm::new(Some(RETURN_0), 0, 8).unwrap();
    vm.set_verifier(ends_with_exit).unwrap();
    assert!(vm.set_program(NO_EXIT, 0, 8).is_err());
    assert!(vm.set_verifier(accept_nothing).is_err());
}

#[test]
fn fixed_new_rejects_what_the_check_rejects() {
    assert!(FixedVm::new(Some(&RETURN_0[..5]), 0, 8).is_err());
    assert!(FixedVm::new(None, 0, 8).is_ok());
}

#[test]
fn fixed_new_rejects_a_program_whatever_the_offsets() {
    let e = FixedVm::new(Some(&RETURN_0[..5]), usize::MAX, 0).err().unwrap();
    assert_eq!(e.message(), "[Verifier] Error: not a sequence of instructions");
}

#[test]
fn fixed_buffer_holds_the_address_of_the_packet() {
    let mut mem = [7u8; 5];
    let start = mem.as_ptr() as u64;
    let mut vm = FixedVm::new(Some(FIRST_WORD), 0, 8).unwrap();
    assert_eq!(vm.execute_program(&mut mem).unwrap(), start);
}

#[test]
fn fixed_buffer_holds_the_address_of_the_end_of_the_packet() {
    let mut mem = [7u8; 5];
    let start = mem.as_ptr() as u64;
    let mut vm = FixedVm::new(Some(SECOND_WORD), 0, 8).unwrap();
    assert_eq!(vm.execute_program(&mut mem).unwrap(), start + 5);
}

#[test]
fn fixed_addresses_span_the_packet() {
    let mut mem = [0u8; 37];
    let mut empty = [0u8; 0];
    let mut vm = FixedVm::new(Some(PACKET_LEN), 0, 8).unwrap();
    assert_eq!(vm.execute_program(&mut mem).unwrap(), 37);
    assert_eq!(vm.execute_program(&mut empty).unwrap(), 0);
}

#[test]
fn fixed_equal_offsets_leave_the_end() {
    let mut vm = FixedVm::new(Some(FIRST_WORD), 0, 0).unwrap();
    assert_eq!(vm.execute_program_at(&[1, 2, 3], 0x1000).unwrap(), 0x1003);
}

#[test]
fn fixed_overlapping_addresses_are_written_start_first() {
    let mut vm = FixedVm::new(Some(FIRST_WORD), 0, 4).unwrap();
    let seen = vm.execute_program_at(&[1, 2, 3], 0x1122334455667788).unwrap();
    assert_eq!(seen, 0x5566778b55667788);
}

#[test]
fn fixed_run_keeps_the_packet() {
    let mut mem = [0xaa, 0xbb, 0x11, 0x22, 0xcc, 0xdd];
    {
        let mut vm = FixedVm::new(Some(FIFTH_BYTE), 0x40, 0x50).unwrap();
        vm.execute_program(&mut mem).unwrap();
    }
    assert_eq!(mem, [0xaa, 0xbb, 0x11, 0x22, 0xcc, 0xdd]);
}

// EbpfVmRaw

#[test]
fn raw_program_reads_the_packet() {
    let mut mem = [0xaa, 0xbb, 0x11, 0x22, 0xcc, 0xdd];
    let vm = RawVm::new(Some(ADD_TO_BYTE)).unwrap();
    assert_eq!(vm.execute_program(&mut mem).unwrap(), 0x22cc);
}

#[test]
fn raw_set_program_replaces_the_program() {
    let mut mem = [0xaa, 0xbb, 0x11, 0x22, 0xcc, 0x27];
    let mut vm = RawVm::new(Some(RETURN_0)).unwrap();
    vm.set_program(ADD_TO_BYTE).unwrap();
    assert!(vm.set_program(&RETURN_0[..5]).is_err());
    assert_eq!(vm.execute_program(&mut mem).unwrap(), 0x22cc);
}

#[test]
fn raw_helper_is_called_on_the_packet() {
    let prog = &[
        0x79, 0x11, 0x00, 0x00, 0x00, 0x00, 0x00, 0x00, // ldxdw r1, r1[0x00]
        0xb7, 0x02, 0x00, 0x00, 0x00, 0x00, 0x00, 0x00, // mov r2, 0
        0xb7, 0x03, 0x00, 0x00, 0x00, 0x00, 0x00, 0x00, // mov r3, 0
        0xb7, 0x04, 0x00, 0x00, 0x00, 0x00, 0x00, 0x00, // mov r4, 0
        0xb7, 0x05, 0x00, 0x00, 0x00, 0x00, 0x00, 0x00, // mov r5, 0
        0x85, 0x00, 0x00, 0x00, 0x01, 0x00, 0x00, 0x00, // call helper with key 1
        0x95, 0x00, 0x00, 0x00, 0x00, 0x00, 0x00, 0x00, // exit
    ];
    let mut mem = [0x00, 0x00, 0x00, 0x00, 0x00, 0x00, 0x00, 0x01];
    let mut vm = RawVm::new(Some(prog)).unwrap();
    vm.register_helper(1, sqrti).unwrap();
    assert_eq!(vm.execute_program(&mut mem).unwrap(), 0x10000000);
}

#[test]
fn raw_set_verifier_judges_the_loaded_program() {
    let mut vm = RawVm::new(Some(NO_EXIT)).unwrap();
    assert!(vm.set_verifier(ends_with_exit).is_err());
    vm.set_program(RETURN_0).unwrap();
    vm.set_verifier(ends_with_exit).unwrap();
}

#[test]
fn raw_compiled_program_reads_the_packet() {
    let mut mem = [0xaa, 0xbb, 0x11, 0x22, 0xcc, 0x27];
    let mut vm = RawVm::new(Some(ADD_TO_BYTE)).unwrap();
    vm.cranelift_compile().unwrap();
    assert_eq!(vm.execute_program_cranelift(&mut mem).unwrap(), 0x22cc);
}

#[test]
fn raw_compiled_program_runs_as_interpreted_after_another_load() {
    let mut mem1 = [0xaa, 0xbb, 0x11, 0x22, 0xcc, 0x27];
    let mut mem2 = mem1;
    let mut vm = RawVm::new(Some(ADD_TO_BYTE)).unwrap();
    vm.cranelift_compile().unwrap();
    let interpreted = vm.execute_program(&mut mem1).unwrap();
    vm.set_program(RETURN_0).unwrap();
    assert_eq!(vm.execute_program_cranelift(&mut mem2).unwrap(), interpreted);
}

#[test]
fn raw_compiled_program_writes_to_the_packet() {
    let prog = &[
        0x72, 0x01, 0x02, 0x00, 0x5a, 0x00, 0x00, 0x00, // stb r1[2], 0x5a
        0xb7, 0x00, 0x00, 0x00, 0x01, 0x00, 0x00, 0x00, // mov r0, 1
        0x95, 0x00, 0x00, 0x00, 0x00, 0x00, 0x00, 0x00, // exit
    ];
    let mut mem = [1, 2, 3, 4];
    {
        let mut vm = RawVm::new(Some(prog)).unwrap();
        vm.cranelift_compile().unwrap();
        assert_eq!(vm.execute_program_cranelift(&mut mem).unwrap(), 1);
    }
    assert_eq!(mem, [1, 2, 0x5a, 4]);
}

#[test]
fn raw_compiling_without_program_fails() {
    let mut vm = RawVm::new(None).unwrap();
    let e = vm.cranelift_compile().err().unwrap();
    assert_eq!(e.kind(), ErrorKind::Other);
    assert_eq!(e.message(), "Error: No program set, call prog_set() to load one");
}

#[test]
fn raw_failed_compilation_keeps_what_was_compiled() {
    let uncompilable = &[0xff, 0, 0, 0, 0, 0, 0, 0];
    let mut mem1 = [0u8; 0];
    let mut mem2 = [0u8; 0];
    let mut vm = RawVm::new(Some(RETURN_2211)).unwrap();
    assert_eq!(
        vm.execute_program_cranelift(&mut mem1).err().unwrap().message(),
        "nothing compiled"
    );
    vm.cranelift_compile().unwrap();
    vm.set_program(uncompilable).unwrap();
    assert_eq!(vm.cranelift_compile().err().unwrap().message(), "cannot compile");
    assert_eq!(vm.execute_program_cranelift(&mut mem2).unwrap(), 0x2211);
}

// EbpfVmNoData

#[test]
fn nodata_program_computes() {
    let prog = &[
        0xb7, 0x00, 0x00, 0x00, 0x00, 0x00, 0x00, 0x00, // mov r0, 0
        0xb7, 0x01, 0x00, 0x00, 0x01, 0x00, 0x00, 0x00, // mov r1, 1
        0xb7, 0x02, 0x00, 0x00, 0x02, 0x00, 0x00, 0x00, // mov r2, 2
        0xb7, 0x03, 0x00, 0x00, 0x03, 0x00, 0x00, 0x00, // mov r3, 3
        0xb7, 0x04, 0x00, 0x00, 0x04, 0x00, 0x00, 0x00, // mov r4, 4
        0xb7, 0x05, 0x00, 0x00, 0x05, 0x00, 0x00, 0x00, // mov r5, 5
        0xb7, 0x06, 0x00, 0x00, 0x06, 0x00, 0x00, 0x00, // mov r6, 6
        0xb7, 0x07, 0x00, 0x00, 0x07, 0x00, 0x00, 0x00, // mov r7, 7
        0xb7, 0x08, 0x00, 0x00, 0x08, 0x00, 0x00, 0x00, // mov r8, 8
        0x4f, 0x50, 0x00, 0x00, 0x00, 0x00, 0x00, 0x00, // or r0, r5
        0x47, 0x00, 0x00, 0x00, 0xa0, 0x00, 0x00, 0x00, // or r0, 0xa0
        0x57, 0x00, 0x00, 0x00, 0xa3, 0x00, 0x00, 0x00, // and r0, 0xa3
        0xb7, 0x09, 0x00, 0x00, 0x91, 0x00, 0x00, 0x00, // mov r9, 0x91
        0x5f, 0x90, 0x00, 0x00, 0x00, 0x00, 0x00, 0x00, // and r0, r9
        0x67, 0x00, 0x00, 0x00, 0x20, 0x00, 0x00, 0x00, // lsh r0, 32
        0x67, 0x00, 0x00, 0x00, 0x16, 0x00, 0x00, 0x00, // lsh r0, 22
        0x6f, 0x80, 0x00, 0x00, 0x00, 0x00, 0x00, 0x00, // lsh r0, r8
        0x77, 0x00, 0x00, 0x00, 0x20, 0x00, 0x00, 0x00, // rsh r0, 32
        0x77, 0x00, 0x00, 0x00, 0x13, 0x00, 0x00, 0x00, // rsh r0, 19
        0x7f, 0x70, 0x00, 0x00, 0x00, 0x00, 0x00, 0x00, // rsh r0, r7
        0xa7, 0x00, 0x00, 0x00, 0x03, 0x00, 0x00, 0x00, // xor r0, 0x03
        0xaf, 0x20, 0x00, 0x00, 0x00, 0x00, 0x00, 0x00, // xor r0, r2
        0x95, 0x00, 0x00, 0x00, 0x00, 0x00, 0x00, 0x00, // exit
    ];
    let vm = NoDataVm::new(Some(prog)).unwrap();
    assert_eq!(vm.execute_program().unwrap(), 0x11);
}

#[test]
fn nodata_set_program_replaces_the_program() {
    let mut vm = NoDataVm::new(Some(RETURN_2211)).unwrap();
    assert_eq!(vm.execute_program().unwrap(), 0x2211);
    vm.set_program(BIG_ENDIAN).unwrap();
    assert_eq!(vm.execute_program().unwrap(), 0x1122);
    assert!(vm.set_program(&BIG_ENDIAN[..5]).is_err());
    assert_eq!(vm.execute_program().unwrap(), 0x1122);
}

#[test]
fn nodata_helper_is_called() {
    let prog = &[
        0xb7, 0x01, 0x00, 0x00, 0x00, 0x00, 0x00, 0x01, // mov r1, 0x010000000
        0xb7, 0x02, 0x00, 0x00, 0x00, 0x00, 0x00, 0x00, // mov r2, 0
        0xb7, 0x03, 0x00, 0x00, 0x00, 0x00, 0x00, 0x00, // mov r3, 0
        0xb7, 0x04, 0x00, 0x00, 0x00, 0x00, 0x00, 0x00, // mov r4, 0
        0xb7, 0x05, 0x00, 0x00, 0x00, 0x00, 0x00, 0x00, // mov r5, 0
        0x85, 0x00, 0x00, 0x00, 0x01, 0x00, 0x00, 0x00, // call helper with key 1
        0x95, 0x00, 0x00, 0x00, 0x00, 0x00, 0x00, 0x00, // exit
    ];
    let mut vm = NoDataVm::new(Some(prog)).unwrap();
    vm.register_helper(1, sqrti).unwrap();
    assert_eq!(vm.execute_program().unwrap(), 0x1000);
}

#[test]
fn nodata_program_has_no_memory() {
    let vm = NoDataVm::new(Some(ADD_TO_BYTE)).unwrap();
    assert_eq!(vm.execute_program().err().unwrap().message(), "out of bounds");
}

#[test]
fn nodata_set_verifier_judges_the_loaded_program() {
    let mut vm = NoDataVm::new(Some(RETURN_0)).unwrap();
    vm.set_verifier(ends_with_exit).unwrap();
    assert!(vm.set_verifier(accept_nothing).is_err());
    assert!(vm.set_program(NO_EXIT).is_err());
}

#[test]
fn nodata_compiled_program_computes() {
    let mut vm = NoDataVm::new(Some(BIG_ENDIAN)).unwrap();
    vm.cranelift_compile().unwrap();
    assert_eq!(vm.execute_program_cranelift().unwrap(), 0x1122);
}

#[test]
fn nodata_compiled_program_stays_until_the_next_compilation() {
    let mut vm = NoDataVm::new(Some(RETURN_2211)).unwrap();
    vm.cranelift_compile().unwrap();
    assert_eq!(vm.execute_program().unwrap(), 0x2211);
    vm.set_program(RETURN_0).unwrap();
    assert_eq!(vm.execute_program_cranelift().unwrap(), 0x2211);
    vm.cranelift_compile().unwrap();
    assert_eq!(vm.execute_program_cranelift().unwrap(), 0);
}

#[test]
fn nodata_helper_can_be_changed_after_compiling() {
    let mut vm = NoDataVm::new(Some(CALL_7)).unwrap();
    vm.register_helper(7, sum).unwrap();
    vm.cranelift_compile().unwrap();
    assert_eq!(vm.execute_program_cranelift().unwrap(), 18);
    vm.register_helper(7, sqrti).unwrap();
    assert_eq!(vm.execute_program().unwrap(), 4);
    assert_eq!(vm.execute_program_cranelift().unwrap(), 4);
}

#[test]
fn nodata_compiler_gets_the_helpers_registered_before() {
    let mut vm = NoDataVm::new(Some(CALL_7)).unwrap();
    vm.cranelift_compile().unwrap();
    vm.register_helper(7, sum).unwrap();
    assert_eq!(vm.execute_program_cranelift().err().unwrap().message(), "unknown helper");
    vm.cranelift_compile().unwrap();
    assert_eq!(vm.execute_program_cranelift().unwrap(), 18);
}
