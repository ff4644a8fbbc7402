//! The execution engine: the fetch-decode-execute cycle over the register
//! file and memory.
//!
//! The machine is single-threaded and blocking host input is its only
//! suspension point: reading the keyboard-status address and the Get trap.
//! [`VmCPU::step`] therefore runs at most one instruction per call and
//! returns a [`StepEffect`] telling the host what to do: carry on, perform
//! output, stop, or deliver one input byte to the next call. What every step
//! does is pinned down by the relation [`step_rel`] over the machine's
//! abstract [`State`].

use vstd::prelude::*;

use crate::instructions::{spec_decode, wf_instruction, Instructions, JumpRegisterType, JumpType,
    LoadType};
use crate::memory::{poll_spec, Memory, KEY_BOARD_STATUS, MEMORY_SIZE};
use crate::register::{index_of, Registers, COND_INDEX, PC_INDEX, REGISTER_COUNT};
use crate::trap::TrapType;
use crate::VmError;

verus! {

/// The positive condition flag.
pub const FL_POS: u16 = 1;

/// The zero condition flag.
pub const FL_ZRO: u16 = 2;

/// The negative condition flag.
pub const FL_NEG: u16 = 4;

/// What the engine is waiting for, when an instruction had to stop at one of
/// the machine's suspension points; the next input byte resumes it.
#[derive(Debug, Clone, Copy, PartialEq, Eq)]
pub enum Pending {
    /// Not waiting: the next step fetches a fresh instruction.
    Idle,
    /// A Get trap: the byte goes to R0.
    Getc,
    /// An instruction fetch from the keyboard-status address.
    Fetch,
    /// A load whose effective address is the keyboard-status address.
    Load { dest_register: u16, address: u16 },
    /// An indirect load whose pointer lies at the keyboard-status address.
    LoadIndirect { dest_register: u16, address: u16 },
    /// An indirect store whose pointer lies at the keyboard-status address.
    StoreIndirect { src_register: u16, address: u16 },
}

/// What the host must do after one step.
#[derive(Debug, PartialEq, Eq)]
pub enum StepEffect {
    /// The instruction completed; fetch the next one.
    Continue,
    /// The machine is blocked on the keyboard: read one byte from the host
    /// input stream and hand it to the next call.
    NeedInput,
    /// Write one character, given by its code point, to the host output.
    Output(u8),
    /// Write a sequence of characters, each a word-sized code point, to the
    /// host output.
    OutputString(Vec<u16>),
    /// A Halt trap: stop the fetch loop.
    Halt,
}

/// The machine's abstract state: the ten register slots, the 65536 memory
/// words, and the suspension point, if any.
pub ghost struct State {
    pub regs: Seq<u16>,
    pub mem: Seq<u16>,
    pub pending: Pending,
}

/// A suspension record only ever names a general-purpose register.
pub open spec fn pending_wf(p: Pending) -> bool {
    match p {
        Pending::Load { dest_register, address } => dest_register < 8,
        Pending::LoadIndirect { dest_register, address } => dest_register < 8,
        Pending::StoreIndirect { src_register, address } => src_register < 8,
        _ => true,
    }
}

impl State {
    pub open spec fn wf(self) -> bool {
        &&& self.regs.len() == REGISTER_COUNT
        &&& self.mem.len() == MEMORY_SIZE
        &&& pending_wf(self.pending)
    }

    /// The program counter: the address of the next instruction to fetch.
    pub open spec fn pc(self) -> u16 {
        self.regs[PC_INDEX as int]
    }

    /// The condition-flag register.
    pub open spec fn cond(self) -> u16 {
        self.regs[COND_INDEX as int]
    }
}

/// Wrapping 16-bit addition: all machine arithmetic is modulo 65536.
pub open spec fn wadd(a: u16, b: u16) -> u16 {
    ((a + b) % 0x10000) as u16
}

/// The condition flag a just-written value sets: NEG when its sign bit
/// (bit 15, so a value of 0x8000 or more) is set, ZERO when it is zero,
/// else POS — always exactly one of the three.
pub open spec fn flag_for(value: u16) -> u16 {
    if value == 0 {
        FL_ZRO
    } else if value >= 0x8000 {
        FL_NEG
    } else {
        FL_POS
    }
}

/// The register file after a flag-updating write of `value` to `dest`.
pub open spec fn write_and_flag(regs: Seq<u16>, dest: u16, value: u16) -> Seq<u16> {
    regs.update(dest as int, value).update(COND_INDEX as int, flag_for(value))
}

/// Whether a Branch with test bits `p`/`z`/`n` is taken in condition state
/// `cond`: any set test bit matching a set condition bit takes the branch.
/// The bit at position `k` of `cond` is `(cond / 2^k) % 2`.
pub open spec fn branch_taken(cond: u16, p: bool, z: bool, n: bool) -> bool {
    ||| (p && cond % 2 == 1)
    ||| (z && (cond / 2) % 2 == 1)
    ||| (n && (cond / 4) % 2 == 1)
}

/// The zero-terminated word sequence starting at `address`, the zero
/// excluded: what a Put trap writes to the host. The fuel bounds the scan to
/// one pass over the address space; a memory with no zero word anywhere
/// yields the full wrapped scan.
pub open spec fn puts_seq(mem: Seq<u16>, address: u16, fuel: nat) -> Seq<u16>
    decreases fuel,
{
    if fuel == 0 {
        Seq::empty()
    } else if mem[address as int] == 0 {
        Seq::empty()
    } else {
        seq![mem[address as int]] + puts_seq(mem, wadd(address, 1), (fuel - 1) as nat)
    }
}

pub open spec fn is_continue(r: Result<StepEffect, VmError>) -> bool {
    r matches Ok(StepEffect::Continue)
}

pub open spec fn is_need_input(r: Result<StepEffect, VmError>) -> bool {
    r matches Ok(StepEffect::NeedInput)
}

pub open spec fn is_error(r: Result<StepEffect, VmError>, e: VmError) -> bool {
    r matches Err(a) && a == e
}

/// What a load into `dest` from `address` does: from the keyboard-status
/// address it suspends to wait for the host byte; from anywhere else it
/// moves the stored word into the register and updates the flags.
pub open spec fn load_rel(
    pre: State,
    dest: u16,
    address: u16,
    post: State,
    r: Result<StepEffect, VmError>,
) -> bool {
    if address == KEY_BOARD_STATUS {
        &&& post.regs == pre.regs
        &&& post.mem == pre.mem
        &&& post.pending == (Pending::Load { dest_register: dest, address })
        &&& is_need_input(r)
    } else {
        &&& post.regs == write_and_flag(pre.regs, dest, pre.mem[address as int])
        &&& post.mem == pre.mem
        &&& post.pending == Pending::Idle
        &&& is_continue(r)
    }
}

/// What executing one decoded instruction does, the program counter already
/// pointing at the following instruction. This is the machine's execution
/// semantics, one case per op-code.
pub open spec fn exec_rel(
    pre: State,
    i: Instructions,
    post: State,
    r: Result<StepEffect, VmError>,
) -> bool {
    match i {
        Instructions::UnImplemented(op) => {
            &&& post.regs == pre.regs
            &&& post.mem == pre.mem
            &&& post.pending == Pending::Idle
            &&& is_error(r, VmError::UnimplementedOpcode(op))
        },
        Instructions::Branch { pc_offset_9, p, z, n } => {
            &&& post.regs == if branch_taken(pre.cond(), p, z, n) {
                pre.regs.update(PC_INDEX as int, wadd(pre.pc(), pc_offset_9))
            } else {
                pre.regs
            }
            &&& post.mem == pre.mem
            &&& post.pending == Pending::Idle
            &&& is_continue(r)
        },
        Instructions::Add { dest_register, src_register, add_type } => {
            let operand = match add_type {
                LoadType::Register { src_register: s2 } => pre.regs[s2 as int],
                LoadType::Immediate { value } => value,
            };
            &&& post.regs == write_and_flag(
                pre.regs,
                dest_register,
                wadd(pre.regs[src_register as int], operand),
            )
            &&& post.mem == pre.mem
            &&& post.pending == Pending::Idle
            &&& is_continue(r)
        },
        Instructions::And { dest_register, src_register, add_type } => {
            let operand = match add_type {
                LoadType::Register { src_register: s2 } => pre.regs[s2 as int],
                LoadType::Immediate { value } => value,
            };
            &&& post.regs == write_and_flag(
                pre.regs,
                dest_register,
                pre.regs[src_register as int] & operand,
            )
            &&& post.mem == pre.mem
            &&& post.pending == Pending::Idle
            &&& is_continue(r)
        },
        Instructions::Not { dest_register, src_register } => {
            &&& post.regs == write_and_flag(pre.regs, dest_register, !pre.regs[src_register as int])
            &&& post.mem == pre.mem
            &&& post.pending == Pending::Idle
            &&& is_continue(r)
        },
        Instructions::LoadDirect { pc_offset_9, dest_register } => load_rel(
            pre,
            dest_register,
            wadd(pre.pc(), pc_offset_9),
            post,
            r,
        ),
        Instructions::LoadRegister { offset6, base_register, dest_register } => load_rel(
            pre,
            dest_register,
            wadd(pre.regs[base_register as int], offset6),
            post,
            r,
        ),
        Instructions::LoadIndirect { pc_offset_9, dest_register } => {
            let pointer = wadd(pre.pc(), pc_offset_9);
            if pointer == KEY_BOARD_STATUS {
                &&& post.regs == pre.regs
                &&& post.mem == pre.mem
                &&& post.pending == (Pending::LoadIndirect {
                    dest_register,
                    address: pointer,
                })
                &&& is_need_input(r)
            } else {
                load_rel(pre, dest_register, pre.mem[pointer as int], post, r)
            }
        },
        Instructions::LoadEffectiveAddress { pc_offset_9, dest_register } => {
            &&& post.regs == write_and_flag(pre.regs, dest_register, wadd(pre.pc(), pc_offset_9))
            &&& post.mem == pre.mem
            &&& post.pending == Pending::Idle
            &&& is_continue(r)
        },
        Instructions::StoreDirect { pc_offset_9, src_register } => {
            &&& post.regs == pre.regs
            &&& post.mem == pre.mem.update(
                wadd(pre.pc(), pc_offset_9) as int,
                pre.regs[src_register as int],
            )
            &&& post.pending == Pending::Idle
            &&& is_continue(r)
        },
        Instructions::StoreRegister { offset6, base_register, src_register } => {
            &&& post.regs == pre.regs
            &&& post.mem == pre.mem.update(
                wadd(pre.regs[base_register as int], offset6) as int,
                pre.regs[src_register as int],
            )
            &&& post.pending == Pending::Idle
            &&& is_continue(r)
        },
        Instructions::StoreIndirect { pc_offset_9, src_register } => {
            let pointer = wadd(pre.pc(), pc_offset_9);
            if pointer == KEY_BOARD_STATUS {
                &&& post.regs == pre.regs
                &&& post.mem == pre.mem
                &&& post.pending == (Pending::StoreIndirect { src_register, address: pointer })
                &&& is_need_input(r)
            } else {
                &&& post.regs == pre.regs
                &&& post.mem == pre.mem.update(
                    pre.mem[pointer as int] as int,
                    pre.regs[src_register as int],
                )
                &&& post.pending == Pending::Idle
                &&& is_continue(r)
            }
        },
        Instructions::Jump(j) => {
            let base = match j {
                JumpType::BaseRegister(b) => b,
                JumpType::Return => 7,
            };
            &&& post.regs == pre.regs.update(PC_INDEX as int, pre.regs[base as int])
            &&& post.mem == pre.mem
            &&& post.pending == Pending::Idle
            &&& is_continue(r)
        },
        Instructions::JumpRegister(j) => {
            match j {
                JumpRegisterType::FromOffset { pc_offset_11 } => {
                    &&& post.regs == pre.regs.update(7, pre.pc()).update(
                        PC_INDEX as int,
                        wadd(pre.pc(), pc_offset_11),
                    )
                    &&& post.mem == pre.mem
                    &&& post.pending == Pending::Idle
                    &&& is_continue(r)
                },
                JumpRegisterType::FromRegister { base_register } => {
                    let linked = pre.regs.update(7, pre.pc());
                    &&& post.regs == linked.update(PC_INDEX as int, linked[base_register as int])
                    &&& post.mem == pre.mem
                    &&& post.pending == Pending::Idle
                    &&& is_continue(r)
                },
            }
        },
        Instructions::Trap { trap_vector } => {
            let linked = pre.regs.update(7, pre.pc());
            &&& post.regs == linked
            &&& post.mem == pre.mem
            &&& if trap_vector == 0x20 {
                &&& post.pending == Pending::Getc
                &&& is_need_input(r)
            } else if trap_vector == 0x21 {
                &&& post.pending == Pending::Idle
                &&& (r matches Ok(e) && e matches StepEffect::Output(b) && b == (pre.regs[0]
                    % 0x100) as u8)
            } else if trap_vector == 0x22 {
                &&& post.pending == Pending::Idle
                &&& (r matches Ok(e) && e matches StepEffect::OutputString(v) && v@ == puts_seq(
                    pre.mem,
                    pre.regs[0],
                    MEMORY_SIZE as nat,
                ))
            } else if trap_vector == 0x23 || trap_vector == 0x24 {
                &&& post.pending == Pending::Idle
                &&& is_error(r, VmError::UnimplementedOpcode(trap_vector))
            } else if trap_vector == 0x25 {
                &&& post.pending == Pending::Idle
                &&& (r matches Ok(e) && e matches StepEffect::Halt)
            } else {
                &&& post.pending == Pending::Idle
                &&& is_error(r, VmError::InvalidTrapVector(trap_vector))
            }
        },
    }
}

/// What resuming a suspended instruction with the host's byte does: the
/// keyboard poll is applied first (except for a Get trap, which consumes the
/// byte itself), then the interrupted instruction finishes.
pub open spec fn resume_rel(
    pre: State,
    key: u8,
    post: State,
    r: Result<StepEffect, VmError>,
) -> bool {
    match pre.pending {
        Pending::Idle => false,
        Pending::Getc => {
            &&& post.regs == write_and_flag(pre.regs, 0, key as u16)
            &&& post.mem == pre.mem
            &&& post.pending == Pending::Idle
            &&& is_continue(r)
        },
        Pending::Fetch => {
            let polled = poll_spec(pre.mem, key);
            exec_rel(
                State { regs: pre.regs, mem: polled, pending: Pending::Idle },
                spec_decode(polled[KEY_BOARD_STATUS as int]),
                post,
                r,
            )
        },
        Pending::Load { dest_register, address } => {
            let polled = poll_spec(pre.mem, key);
            &&& post.regs == write_and_flag(pre.regs, dest_register, polled[address as int])
            &&& post.mem == polled
            &&& post.pending == Pending::Idle
            &&& is_continue(r)
        },
        Pending::LoadIndirect { dest_register, address } => {
            let polled = poll_spec(pre.mem, key);
            load_rel(
                State { regs: pre.regs, mem: polled, pending: Pending::Idle },
                dest_register,
                polled[address as int],
                post,
                r,
            )
        },
        Pending::StoreIndirect { src_register, address } => {
            let polled = poll_spec(pre.mem, key);
            &&& post.regs == pre.regs
            &&& post.mem == polled.update(
                polled[address as int] as int,
                pre.regs[src_register as int],
            )
            &&& post.pending == Pending::Idle
            &&& is_continue(r)
        },
    }
}

/// One whole step of the machine. Idle: fetch at the program counter
/// (suspending when the counter itself points at the keyboard-status
/// address), increment the counter, decode, execute. Suspended: a byte
/// resumes the interrupted instruction; without one the machine stays put
/// and asks again.
pub open spec fn step_rel(
    pre: State,
    key: Option<u8>,
    post: State,
    r: Result<StepEffect, VmError>,
) -> bool {
    if (pre.pending matches Pending::Idle) {
        if pre.pc() == KEY_BOARD_STATUS {
            &&& post.regs == pre.regs.update(PC_INDEX as int, wadd(pre.pc(), 1))
            &&& post.mem == pre.mem
            &&& post.pending == Pending::Fetch
            &&& is_need_input(r)
        } else {
            exec_rel(
                State {
                    regs: pre.regs.update(PC_INDEX as int, wadd(pre.pc(), 1)),
                    mem: pre.mem,
                    pending: Pending::Idle,
                },
                spec_decode(pre.mem[pre.pc() as int]),
                post,
                r,
            )
        }
    } else {
        match key {
            Option::None => {
                &&& post.regs == pre.regs
                &&& post.mem == pre.mem
                &&& post.pending == pre.pending
                &&& is_need_input(r)
            },
            Option::Some(b) => resume_rel(pre, b, post, r),
        }
    }
}

/// Computes [`wadd`]: the machine's wrapping word addition.
fn wrapping_add_words(a: u16, b: u16) -> (r: u16)
    ensures
        r == wadd(a, b),
{
    (((a as u32) + (b as u32)) % 0x10000) as u16
}

/// One machine instance: the register file, the memory it owns, and the
/// engine's suspension state.
pub struct VmCPU {
    registers: Vec<u16>,
    memory: Memory,
    pending: Pending,
}

impl View for VmCPU {
    type V = State;

    closed spec fn view(&self) -> State {
        State { regs: self.registers@, mem: self.memory@, pending: self.pending }
    }
}

impl VmCPU {
    /// The machine's contracts all preserve this.
    pub open spec fn wf(&self) -> bool {
        self@.wf()
    }

    /// A machine over the given register values and memory, with the
    /// program counter set to the memory's load origin.
    pub fn new(registers: [u16; REGISTER_COUNT], memory: Memory) -> (r: VmCPU)
        requires
            memory.wf(),
        ensures
            r.wf(),
            r@.regs == registers@.update(PC_INDEX as int, memory.spec_pc_start() as u16),
            r@.mem == memory@,
            r@.pending == Pending::Idle,
    {
        let mut register_file: Vec<u16> = Vec::new();
        let mut i: usize = 0;
        while i < REGISTER_COUNT
            invariant
                i <= REGISTER_COUNT,
                register_file@.len() == i,
                forall|j: int| 0 <= j < i ==> register_file@[j] == registers@[j],
            decreases REGISTER_COUNT - i,
        {
            register_file.push(*vstd::array::array_index_get(&registers, i));
            i = i + 1;
        }
        register_file.set(PC_INDEX, memory.pc_start() as u16);
        proof {
            assert(register_file@ =~= registers@.update(
                PC_INDEX as int,
                memory.spec_pc_start() as u16,
            ));
        }
        VmCPU { registers: register_file, memory, pending: Pending::Idle }
    }

    /// Borrows the machine's memory, for inspection.
    pub fn memory(&self) -> (m: &Memory)
        requires
            self.wf(),
        ensures
            m@ == self@.mem,
            m.wf(),
    {
        &self.memory
    }

    /// Reads one named register.
    pub fn read_register(&self, register: Registers) -> (r: u16)
        requires
            self.wf(),
        ensures
            r == self@.regs[index_of(register) as int],
    {
        let register_index = Registers::get_index(register);
        self.registers[register_index as usize]
    }

    /// Writes one named register.
    pub fn update_register(&mut self, register: Registers, value: u16)
        requires
            old(self).wf(),
        ensures
            final(self).wf(),
            final(self)@.regs == old(self)@.regs.update(index_of(register) as int, value),
            final(self)@.mem == old(self)@.mem,
            final(self)@.pending == old(self)@.pending,
    {
        let register_index = Registers::get_index(register);
        self.registers.set(register_index as usize, value);
    }

    /// The single flag-setting primitive: inspects the value just written to
    /// the given slot and sets the condition register to exactly one of the
    /// three one-hot flags.
    pub fn update_flag(&mut self, register_index: u16)
        requires
            old(self).wf(),
            register_index < 10,
        ensures
            final(self).wf(),
            final(self)@.regs == old(self)@.regs.update(
                COND_INDEX as int,
                flag_for(old(self)@.regs[register_index as int]),
            ),
            final(self)@.mem == old(self)@.mem,
            final(self)@.pending == old(self)@.pending,
    {
        let value = self.registers[register_index as usize];
        let flag = if value == 0 {
            FL_ZRO
        } else if value >= 0x8000 {
            FL_NEG
        } else {
            FL_POS
        };
        self.registers.set(COND_INDEX, flag);
    }

    /// A flag-updating register write: the destination register takes the
    /// value and the condition flags follow it.
    fn write_register_and_flags(&mut self, dest_register: u16, value: u16)
        requires
            old(self).wf(),
            dest_register < 8,
        ensures
            final(self).wf(),
            final(self)@.regs == write_and_flag(old(self)@.regs, dest_register, value),
            final(self)@.mem == old(self)@.mem,
            final(self)@.pending == old(self)@.pending,
    {
        self.registers.set(dest_register as usize, value);
        self.update_flag(dest_register);
    }

    /// Fetches the word at the program counter, increments the counter, and
    /// decodes. The fetch here is the passive read; [`VmCPU::step`] suspends
    /// instead when the counter points at the keyboard-status address.
    pub fn get_instruction(&mut self) -> (r: Instructions)
        requires
            old(self).wf(),
        ensures
            final(self).wf(),
            r == spec_decode(old(self)@.mem[old(self)@.pc() as int]),
            wf_instruction(r),
            final(self)@.regs == old(self)@.regs.update(
                PC_INDEX as int,
                wadd(old(self)@.pc(), 1),
            ),
            final(self)@.mem == old(self)@.mem,
            final(self)@.pending == old(self)@.pending,
    {
        let memory_location = self.registers[PC_INDEX];
        let word = self.memory.read_memory(memory_location);
        self.registers.set(PC_INDEX, wrapping_add_words(memory_location, 1));
        match Instructions::decode(word) {
            Ok(i) => i,
            Err(_) => Instructions::UnImplemented(word / 0x1000),  // never reached
        }
    }

    /// A load into `dest_register` from `address`, suspending on the
    /// keyboard-status address.
    fn do_load(&mut self, dest_register: u16, address: u16) -> (r: Result<StepEffect, VmError>)
        requires
            old(self).wf(),
            dest_register < 8,
            old(self)@.pending matches Pending::Idle,
        ensures
            final(self).wf(),
            load_rel(old(self)@, dest_register, address, final(self)@, r),
    {
        if address == KEY_BOARD_STATUS {
            self.pending = Pending::Load { dest_register, address };
            Ok(StepEffect::NeedInput)
        } else {
            let value = self.memory.read_memory(address);
            self.write_register_and_flags(dest_register, value);
            Ok(StepEffect::Continue)
        }
    }

    /// Collects the zero-terminated word sequence a Put trap writes.
    fn collect_string(&self, start: u16) -> (v: Vec<u16>)
        requires
            self.wf(),
        ensures
            v@ == puts_seq(self@.mem, start, MEMORY_SIZE as nat),
    {
        let mut out: Vec<u16> = Vec::new();
        let mut address: u16 = start;
        let mut count: usize = 0;
        while count < MEMORY_SIZE
            invariant
                self.wf(),
                count <= MEMORY_SIZE,
                puts_seq(self@.mem, start, MEMORY_SIZE as nat) == out@ + puts_seq(
                    self@.mem,
                    address,
                    (MEMORY_SIZE - count) as nat,
                ),
            decreases MEMORY_SIZE - count,
        {
            let word = self.memory.read_memory(address);
            if word == 0 {
                proof {
                    assert(puts_seq(self@.mem, address, (MEMORY_SIZE - count) as nat)
                        =~= Seq::<u16>::empty());
                    assert(out@ + Seq::<u16>::empty() =~= out@);
                }
                return out;
            }
            proof {
                assert(puts_seq(self@.mem, address, (MEMORY_SIZE - count) as nat) == seq![
                    self@.mem[address as int],
                ] + puts_seq(self@.mem, wadd(address, 1), (MEMORY_SIZE - count - 1) as nat));
            }
            out.push(word);
            proof {
                assert(puts_seq(self@.mem, start, MEMORY_SIZE as nat) =~= out@ + puts_seq(
                    self@.mem,
                    wadd(address, 1),
                    (MEMORY_SIZE - count - 1) as nat,
                ));
            }
            address = wrapping_add_words(address, 1);
            count = count + 1;
        }
        proof {
            assert(puts_seq(self@.mem, address, 0) =~= Seq::<u16>::empty());
            assert(out@ + Seq::<u16>::empty() =~= out@);
        }
        out
    }

    /// Executes one decoded instruction, the program counter already
    /// incremented past it, exactly as [`exec_rel`] states.
    pub fn execute_instruction(&mut self, instruction: Instructions) -> (r: Result<
        StepEffect,
        VmError,
    >)
        requires
            old(self).wf(),
            wf_instruction(instruction),
            old(self)@.pending matches Pending::Idle,
        ensures
            final(self).wf(),
            exec_rel(old(self)@, instruction, final(self)@, r),
    {
        match instruction {
            Instructions::UnImplemented(op) => Err(VmError::UnimplementedOpcode(op)),
            Instructions::Branch { pc_offset_9, p, z, n } => {
                let cond = self.registers[COND_INDEX];
                let taken = (p && cond % 2 == 1) || (z && (cond / 2) % 2 == 1) || (n && (cond / 4)
                    % 2 == 1);
                if taken {
                    let pc = self.registers[PC_INDEX];
                    self.registers.set(PC_INDEX, wrapping_add_words(pc, pc_offset_9));
                }
                Ok(StepEffect::Continue)
            },
            Instructions::Add { dest_register, src_register, add_type } => {
                let operand1 = self.registers[src_register as usize];
                let operand2 = match add_type {
                    LoadType::Register { src_register: second } => {
                        self.registers[second as usize]
                    },
                    LoadType::Immediate { value } => value,
                };
                self.write_register_and_flags(
                    dest_register,
                    wrapping_add_words(operand1, operand2),
                );
                Ok(StepEffect::Continue)
            },
            Instructions::And { dest_register, src_register, add_type } => {
                let operand1 = self.registers[src_register as usize];
                let operand2 = match add_type {
                    LoadType::Register { src_register: second } => {
                        self.registers[second as usize]
                    },
                    LoadType::Immediate { value } => value,
                };
                self.write_register_and_flags(dest_register, operand1 & operand2);
                Ok(StepEffect::Continue)
            },
            Instructions::Not { dest_register, src_register } => {
                let operand = self.registers[src_register as usize];
                self.write_register_and_flags(dest_register, !operand);
                Ok(StepEffect::Continue)
            },
            Instructions::LoadDirect { pc_offset_9, dest_register } => {
                let pc = self.registers[PC_INDEX];
                self.do_load(dest_register, wrapping_add_words(pc, pc_offset_9))
            },
            Instructions::LoadRegister { offset6, base_register, dest_register } => {
                let base = self.registers[base_register as usize];
                self.do_load(dest_register, wrapping_add_words(base, offset6))
            },
            Instructions::LoadIndirect { pc_offset_9, dest_register } => {
                let pc = self.registers[PC_INDEX];
                let pointer = wrapping_add_words(pc, pc_offset_9);
                if pointer == KEY_BOARD_STATUS {
                    self.pending = Pending::LoadIndirect { dest_register, address: pointer };
                    Ok(StepEffect::NeedInput)
                } else {
                    let target = self.memory.read_memory(pointer);
                    self.do_load(dest_register, target)
                }
            },
            Instructions::LoadEffectiveAddress { pc_offset_9, dest_register } => {
                let pc = self.registers[PC_INDEX];
                self.write_register_and_flags(dest_register, wrapping_add_words(pc, pc_offset_9));
                Ok(StepEffect::Continue)
            },
            Instructions::StoreDirect { pc_offset_9, src_register } => {
                let pc = self.registers[PC_INDEX];
                let address = wrapping_add_words(pc, pc_offset_9);
                let value = self.registers[src_register as usize];
                self.memory.write_memory(address, value);
                Ok(StepEffect::Continue)
            },
            Instructions::StoreRegister { offset6, base_register, src_register } => {
                let base = self.registers[base_register as usize];
                let address = wrapping_add_words(base, offset6);
                let value = self.registers[src_register as usize];
                self.memory.write_memory(address, value);
                Ok(StepEffect::Continue)
            },
            Instructions::StoreIndirect { pc_offset_9, src_register } => {
                let pc = self.registers[PC_INDEX];
                let pointer = wrapping_add_words(pc, pc_offset_9);
                if pointer == KEY_BOARD_STATUS {
                    self.pending = Pending::StoreIndirect { src_register, address: pointer };
                    Ok(StepEffect::NeedInput)
                } else {
                    let target = self.memory.read_memory(pointer);
                    let value = self.registers[src_register as usize];
                    self.memory.write_memory(target, value);
                    Ok(StepEffect::Continue)
                }
            },
            Instructions::Jump(jump_type) => {
                let base = match jump_type {
                    JumpType::BaseRegister(b) => b,
                    JumpType::Return => 7,
                };
                let target = self.registers[base as usize];
                self.registers.set(PC_INDEX, target);
                Ok(StepEffect::Continue)
            },
            Instructions::JumpRegister(jump_type) => {
                let pc = self.registers[PC_INDEX];
                self.registers.set(7, pc);
                match jump_type {
                    JumpRegisterType::FromOffset { pc_offset_11 } => {
                        self.registers.set(PC_INDEX, wrapping_add_words(pc, pc_offset_11));
                    },
                    JumpRegisterType::FromRegister { base_register } => {
                        let target = self.registers[base_register as usize];
                        self.registers.set(PC_INDEX, target);
                    },
                }
                Ok(StepEffect::Continue)
            },
            Instructions::Trap { trap_vector } => {
                let pc = self.registers[PC_INDEX];
                self.registers.set(7, pc);
                match TrapType::from_vector(trap_vector) {
                    Err(e) => Err(e),
                    Ok(TrapType::Get) => {
                        self.pending = Pending::Getc;
                        Ok(StepEffect::NeedInput)
                    },
                    Ok(TrapType::Out) => {
                        let code = (self.registers[0] % 0x100) as u8;
                        Ok(StepEffect::Output(code))
                    },
                    Ok(TrapType::Put) => {
                        let start = self.registers[0];
                        let text = self.collect_string(start);
                        Ok(StepEffect::OutputString(text))
                    },
                    Ok(TrapType::In) | Ok(TrapType::PutSp) => {
                        Err(VmError::UnimplementedOpcode(trap_vector))
                    },
                    Ok(TrapType::Halt) => Ok(StepEffect::Halt),
                }
            },
        }
    }

    /// Resumes the suspended instruction with the byte the host read.
    fn resume(&mut self, key: u8) -> (r: Result<StepEffect, VmError>)
        requires
            old(self).wf(),
            !(old(self)@.pending matches Pending::Idle),
        ensures
            final(self).wf(),
            resume_rel(old(self)@, key, final(self)@, r),
    {
        let suspended = self.pending;
        self.pending = Pending::Idle;
        match suspended {
            Pending::Idle => Ok(StepEffect::Continue),  // excluded by the caller
            Pending::Getc => {
                self.write_register_and_flags(0, key as u16);
                Ok(StepEffect::Continue)
            },
            Pending::Fetch => {
                self.memory.poll_keyboard(key);
                let word = self.memory.read_memory(KEY_BOARD_STATUS);
                let instruction = match Instructions::decode(word) {
                    Ok(i) => i,
                    Err(_) => Instructions::UnImplemented(word / 0x1000),  // never reached
                };
                self.execute_instruction(instruction)
            },
            Pending::Load { dest_register, address } => {
                self.memory.poll_keyboard(key);
                let value = self.memory.read_memory(address);
                self.write_register_and_flags(dest_register, value);
                Ok(StepEffect::Continue)
            },
            Pending::LoadIndirect { dest_register, address } => {
                self.memory.poll_keyboard(key);
                let target = self.memory.read_memory(address);
                self.do_load(dest_register, target)
            },
            Pending::StoreIndirect { src_register, address } => {
                self.memory.poll_keyboard(key);
                let target = self.memory.read_memory(address);
                let value = self.registers[src_register as usize];
                self.memory.write_memory(target, value);
                Ok(StepEffect::Continue)
            },
        }
    }

    /// One step of the fetch-decode-execute loop, exactly as [`step_rel`]
    /// states. `key` is the byte the host read after a `NeedInput` effect,
    /// `None` otherwise; a suspended machine given `None` stays put and asks
    /// again.
    pub fn step(&mut self, key: Option<u8>) -> (r: Result<StepEffect, VmError>)
        requires
            old(self).wf(),
        ensures
            final(self).wf(),
            step_rel(old(self)@, key, final(self)@, r),
    {
        match self.pending {
            Pending::Idle => {
                let pc = self.registers[PC_INDEX];
                if pc == KEY_BOARD_STATUS {
                    self.registers.set(PC_INDEX, wrapping_add_words(pc, 1));
                    self.pending = Pending::Fetch;
                    Ok(StepEffect::NeedInput)
                } else {
                    let instruction = self.get_instruction();
                    self.execute_instruction(instruction)
                }
            },
            _ => {
                match key {
                    Option::None => Ok(StepEffect::NeedInput),
                    Option::Some(b) => self.resume(b),
                }
            },
        }
    }
}


/// A legal condition state: exactly one of the three flags, one-hot.
pub open spec fn cond_one_hot(cond: u16) -> bool {
    cond == FL_POS || cond == FL_ZRO || cond == FL_NEG
}

/// The instructions documented to write a general-purpose register and set
/// the condition flags afterwards.
pub open spec fn writes_flags(i: Instructions) -> bool {
    match i {
        Instructions::Add { .. } => true,
        Instructions::And { .. } => true,
        Instructions::Not { .. } => true,
        Instructions::LoadDirect { .. } => true,
        Instructions::LoadRegister { .. } => true,
        Instructions::LoadIndirect { .. } => true,
        Instructions::LoadEffectiveAddress { .. } => true,
        _ => false,
    }
}

/// The destination register of a flag-updating instruction.
pub open spec fn dest_of(i: Instructions) -> u16 {
    match i {
        Instructions::Add { dest_register, .. } => dest_register,
        Instructions::And { dest_register, .. } => dest_register,
        Instructions::Not { dest_register, .. } => dest_register,
        Instructions::LoadDirect { dest_register, .. } => dest_register,
        Instructions::LoadRegister { dest_register, .. } => dest_register,
        Instructions::LoadIndirect { dest_register, .. } => dest_register,
        Instructions::LoadEffectiveAddress { dest_register, .. } => dest_register,
        _ => 0,
    }
}

/// The flag rule, value by value: a written zero reads back as ZERO, a value
/// with the sign bit set as NEG, anything else as POS — and the result is
/// always exactly one of the three one-hot flags.
pub proof fn lemma_flag_values()
    ensures
        flag_for(0) == FL_ZRO,
        forall|v: u16| v >= 0x8000 ==> flag_for(v) == FL_NEG,
        forall|v: u16| 0 < v < 0x8000 ==> flag_for(v) == FL_POS,
        forall|v: u16| cond_one_hot(#[trigger] flag_for(v)),
{
}

/// The flag invariant over the engine: an instruction that completes a
/// flag-updating register write leaves the condition register one-hot, and
/// equal to the flag of the value its destination now holds; an instruction
/// that is not documented to set flags, or one that had to suspend for
/// input, leaves the condition register unchanged.
pub proof fn lemma_flag_invariant(
    pre: State,
    i: Instructions,
    post: State,
    r: Result<StepEffect, VmError>,
)
    requires
        pre.wf(),
        wf_instruction(i),
        exec_rel(pre, i, post, r),
    ensures
        writes_flags(i) && is_continue(r) ==> cond_one_hot(post.cond()) && post.cond()
            == flag_for(post.regs[dest_of(i) as int]),
        !writes_flags(i) ==> post.cond() == pre.cond(),
        writes_flags(i) && is_need_input(r) ==> post.cond() == pre.cond(),
{
}

/// A Branch whose three test bits are all set is taken in every legal
/// condition state: it always moves the program counter by its offset.
pub proof fn lemma_branch_all_bits_taken(
    pre: State,
    offset: u16,
    post: State,
    r: Result<StepEffect, VmError>,
)
    requires
        pre.wf(),
        cond_one_hot(pre.cond()),
        exec_rel(
            pre,
            Instructions::Branch { pc_offset_9: offset, p: true, z: true, n: true },
            post,
            r,
        ),
    ensures
        post.pc() == wadd(pre.pc(), offset),
        is_continue(r),
{
}

/// A JumpRegister in offset form leaves R7 holding the program counter as it
/// stood before the jump — the address of the instruction after it, not the
/// jump target.
pub proof fn lemma_jump_register_links_return(
    pre: State,
    offset: u16,
    post: State,
    r: Result<StepEffect, VmError>,
)
    requires
        pre.wf(),
        exec_rel(
            pre,
            Instructions::JumpRegister(JumpRegisterType::FromOffset { pc_offset_11: offset }),
            post,
            r,
        ),
    ensures
        post.regs[7] == pre.pc(),
        post.pc() == wadd(pre.pc(), offset),
{
}

} // verus!
