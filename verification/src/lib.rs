//! An instruction-level emulator core for the NES variant of the MOS 6502
//! microprocessor (no decimal mode). The core holds the programmer-visible
//! registers, decodes and executes one instruction per `cycle` call, and
//! reports the number of machine cycles each step consumes. Memory and the
//! two interrupt lines live behind the `Mapper` and `Interrupts` traits so
//! that a host emulator can supply its own bus.
use vstd::prelude::*;

pub mod execution;
pub mod harness;
pub mod instruction;
pub mod laws;
pub mod model;
pub mod processor_status;
pub mod snapshot;

pub use snapshot::CpuState;

verus! {

/// Power-on value of the stack pointer; the reset routine of the host
/// program is expected to move it (hardware leaves S indeterminate).
pub const STACK_POINTER_STARTING_VALUE: u8 = 0x00;
/// The non-maskable interrupt vector lives at 0xFFFA/0xFFFB.
pub const NMI_VECTOR_ADDRESS: u16 = 0xFFFA;
/// The reset vector lives at 0xFFFC/0xFFFD.
pub const RESET_VECTOR_ADDRESS: u16 = 0xFFFC;
/// The IRQ/BRK vector lives at 0xFFFE/0xFFFF.
pub const IRQ_BRK_VECTOR_ADDRESS: u16 = 0xFFFE;

/// The memory bus as the CPU sees it: one byte per 16-bit address. A host
/// supplies the concrete mapping (plain RAM, mirrors, device registers);
/// `mem_view` is its abstract content, which `read` reports and `write`
/// updates pointwise.
pub trait Mapper: Sized {
    /// The byte stored at each address, as an abstract total map.
    spec fn mem_view(&self) -> Map<u16, u8>;

    fn read(&self, address: u16) -> (r: u8)
        ensures
            r == self.mem_view()[address],
    ;

    fn write(&mut self, address: u16, byte: u8)
        ensures
            final(self).mem_view() == old(self).mem_view().insert(address, byte),
    ;
}

/// The two interrupt lines, level-sensitive from the core's point of view:
/// the host raises them, the core reads them at the top of each cycle and
/// acknowledges a serviced line by clearing it.
pub trait Interrupts: Sized {
    /// The maskable interrupt line.
    spec fn irq_line(&self) -> bool;

    /// The non-maskable interrupt line.
    spec fn nmi_line(&self) -> bool;

    /// Returns true if there is a maskable interrupt pending.
    fn interrupt_state(&self) -> (r: bool)
        ensures
            r == self.irq_line(),
    ;

    fn set_interrupt_state(&mut self, new_state: bool)
        ensures
            final(self).irq_line() == new_state,
            final(self).nmi_line() == old(self).nmi_line(),
    ;

    /// Returns true if there is a non-maskable interrupt pending.
    fn non_maskable_interrupt_state(&self) -> (r: bool)
        ensures
            r == self.nmi_line(),
    ;

    fn set_non_maskable_interrupt_state(&mut self, new_state: bool)
        ensures
            final(self).nmi_line() == new_state,
            final(self).irq_line() == old(self).irq_line(),
    ;
}

/// The NES variant of the 6502: the programmer-visible registers, plus the
/// memory mapper and interrupt lines the host supplies.
pub struct Cpu<M: Mapper, I: Interrupts> {
    pub accumulator: u8,
    pub x: u8,
    pub y: u8,
    pub stack_pointer: u8,
    pub program_counter: u16,
    pub processor_status: processor_status::ProcessorStatus,
    pub memory_mapper: M,
    pub interrupts: I,
    pub initialized: bool,
}

impl<M: Mapper, I: Interrupts> Cpu<M, I> {
    /// The machine state this CPU and its bus embody: the model that every
    /// instruction contract speaks of.
    pub open spec fn machine(&self) -> model::MachineState {
        model::MachineState {
            a: self.accumulator,
            x: self.x,
            y: self.y,
            s: self.stack_pointer,
            pc: self.program_counter,
            p: self.processor_status.0,
            mem: self.memory_mapper.mem_view(),
        }
    }

    /// True when a step left the interrupt lines and the initialization
    /// latch exactly as they were; instruction routines never touch either.
    pub open spec fn same_host_state(&self, pre: &Self) -> bool {
        self.interrupts == pre.interrupts && self.initialized == pre.initialized
    }

    /// Creates a new CPU with registers zeroed. It is not initialized until
    /// [`Self::initialize`] runs the reset sequence against the bus.
    pub fn new(memory_mapper: M, interrupts: I) -> (r: Self)
        ensures
            r.machine() == (model::MachineState {
                a: 0u8,
                x: 0u8,
                y: 0u8,
                s: STACK_POINTER_STARTING_VALUE,
                pc: 0u16,
                p: 0u8,
                mem: memory_mapper.mem_view(),
            }),
            r.interrupts == interrupts,
            !r.initialized,
    {
        Self {
            accumulator: 0,
            x: 0,
            y: 0,
            stack_pointer: STACK_POINTER_STARTING_VALUE,
            program_counter: 0,
            processor_status: processor_status::ProcessorStatus::new(),
            memory_mapper,
            interrupts,
            initialized: false,
        }
    }

    /// True once the reset sequence has run.
    pub fn initialized(&self) -> (r: bool)
        ensures
            r == self.initialized,
    {
        self.initialized
    }

    /// Builds a CPU from a snapshot: the registers come from the snapshot's
    /// fields and each RAM entry is written through the mapper, which must
    /// start out all-zero. The snapshot must be a well-formed sparse
    /// listing: `[address, value]` pairs with byte-sized values and
    /// distinct addresses.
    pub fn from_state(cpu_state: CpuState, memory_mapper: M, interrupts: I) -> (r: Self)
        requires
            forall|j: int|
                0 <= j < snapshot::ram_view(cpu_state.ram).len() ==> (#[trigger] snapshot::ram_view(
                    cpu_state.ram,
                )[j]).len() == 2 && snapshot::ram_view(cpu_state.ram)[j][1] <= 0xFF,
            forall|j: int, k: int|
                0 <= j < k < snapshot::ram_view(cpu_state.ram).len() ==> snapshot::ram_view(
                    cpu_state.ram,
                )[j][0] != snapshot::ram_view(cpu_state.ram)[k][0],
            forall|a: u16| memory_mapper.mem_view()[a] == 0,
        ensures
            r.machine() == (model::MachineState {
                a: cpu_state.a,
                x: cpu_state.x,
                y: cpu_state.y,
                s: cpu_state.s,
                pc: cpu_state.pc,
                p: cpu_state.p,
                mem: snapshot::load_ram(
                    memory_mapper.mem_view(),
                    snapshot::ram_view(cpu_state.ram),
                ),
            }),
            r.interrupts == interrupts,
            r.initialized,
    {
        let mut memory_mapper = memory_mapper;
        let ghost mem0 = memory_mapper.mem_view();
        let ghost entries = snapshot::ram_view(cpu_state.ram);

        let mut idx: usize = 0;
        while idx < cpu_state.ram.len()
            invariant
                idx <= entries.len(),
                entries == snapshot::ram_view(cpu_state.ram),
                forall|j: int|
                    0 <= j < entries.len() ==> (#[trigger] entries[j]).len() == 2 && entries[j][1]
                        <= 0xFF,
                memory_mapper.mem_view() == snapshot::load_ram_upto(mem0, entries, idx as int),
            decreases entries.len() - idx,
        {
            let chunk = &cpu_state.ram[idx];
            proof {
                assert(entries[idx as int] == chunk@);
                assert(entries[idx as int].len() == 2 && entries[idx as int][1] <= 0xFF);
            }
            let address = chunk[0];
            let value = chunk[1];

            memory_mapper.write(address, value as u8);

            idx += 1;
        }

        Self {
            accumulator: cpu_state.a,
            x: cpu_state.x,
            y: cpu_state.y,
            stack_pointer: cpu_state.s,
            program_counter: cpu_state.pc,
            processor_status: processor_status::ProcessorStatus(cpu_state.p),
            memory_mapper,
            interrupts,
            initialized: true,
        }
    }

    /// Captures the programmer-visible state: the registers plus the
    /// non-zero memory cells, listed in ascending address order.
    pub fn state(&self) -> (r: CpuState)
        ensures
            r.pc == self.machine().pc,
            r.s == self.machine().s,
            r.a == self.machine().a,
            r.x == self.machine().x,
            r.y == self.machine().y,
            r.p == self.machine().p,
            snapshot::ram_view(r.ram) == snapshot::snapshot_ram(self.machine().mem),
    {
        let ghost mem = self.machine().mem;
        let mut ram: Vec<Vec<u16>> = Vec::new();
        proof {
            assert(snapshot::ram_view(ram) =~= snapshot::snapshot_ram_upto(mem, 0));
        }

        let mut i: u32 = 0;
        while i < 0x10000
            invariant
                i <= 0x10000,
                mem == self.machine().mem,
                snapshot::ram_view(ram) == snapshot::snapshot_ram_upto(mem, i as int),
            decreases 0x10000 - i,
        {
            let value = self.read(i as u16);
            if value != 0 {
                let mut entry: Vec<u16> = Vec::new();
                entry.push(i as u16);
                entry.push(value as u16);
                proof {
                    assert(entry@ =~= seq![i as u16, value as u16]);
                }
                let ghost before = snapshot::ram_view(ram);
                ram.push(entry);
                proof {
                    assert(snapshot::ram_view(ram) =~= before.push(entry@));
                }
            }
            i += 1;
        }

        CpuState {
            pc: self.program_counter,
            s: self.stack_pointer,
            a: self.accumulator,
            x: self.x,
            y: self.y,
            p: self.processor_status.0,
            ram,
        }
    }

    /// Resets the status flags (C, Z, D, V, N and B cleared; I set) and
    /// re-runs the reset vectoring through the shared interrupt routine.
    pub fn reset(&mut self)
        ensures
            final(self).machine() == model::step_interrupt(
                model::MachineState {
                    p: model::reset_flags(old(self).machine().p),
                    ..old(self).machine()
                },
                model::InterruptState::Reset,
            ).0,
            final(self).same_host_state(old(self)),
    {
        self.processor_status.clear_carry_flag();
        self.processor_status.clear_zero_flag();
        self.processor_status.set_interrupt_disable_flag();
        self.processor_status.clear_decimal_flag();
        self.processor_status.clear_overflow_flag();
        self.processor_status.clear_negative_flag();
        self.processor_status.clear_break_flag();

        self.instruction_brk(model::InterruptState::Reset);
    }

    /// Initializes the CPU to a state ready to run instructions: performs
    /// a reset and latches `initialized`. The memory mapper must already
    /// hold the reset vector.
    pub fn initialize(&mut self)
        ensures
            final(self).machine() == model::step_interrupt(
                model::MachineState {
                    p: model::reset_flags(old(self).machine().p),
                    ..old(self).machine()
                },
                model::InterruptState::Reset,
            ).0,
            final(self).interrupts == old(self).interrupts,
            final(self).initialized,
    {
        self.reset();
        self.initialized = true;
    }

    /// Runs one full instruction cycle: services a pending interrupt, or
    /// fetches, decodes and executes the instruction at PC. Returns the
    /// number of machine cycles taken. The caller must not point PC at an
    /// undecodable byte unless an interrupt is pending; `cycle_debug`
    /// handles that case gracefully.
    pub fn cycle(&mut self) -> (cycles: u8)
        requires
            old(self).interrupts.nmi_line() || (old(self).interrupts.irq_line()
                && !processor_status::spec_get_flag(
                old(self).machine().p,
                processor_status::INTERRUPT_DISABLE_FLAG_MASK,
            )) || instruction::spec_decode(
                old(self).machine().mem[old(self).machine().pc],
            ).is_some(),
        ensures
            ({
                let stepped = model::spec_cycle(
                    old(self).machine(),
                    old(self).interrupts.nmi_line(),
                    old(self).interrupts.irq_line(),
                );
                &&& final(self).machine() == stepped.0
                &&& final(self).interrupts.nmi_line() == stepped.1
                &&& final(self).interrupts.irq_line() == stepped.2
                &&& cycles == stepped.3
            }),
            final(self).initialized == old(self).initialized,
    {
        // A non-maskable interrupt always wins and is acknowledged by
        // clearing its line.
        if self.interrupts.non_maskable_interrupt_state() {
            self.interrupts.set_non_maskable_interrupt_state(false);
            return self.instruction_brk(model::InterruptState::NonMaskableInterrupt);
        }
        // A maskable interrupt is serviced only with interrupts enabled.
        let interrupts_disabled = self.processor_status.interrupt_disable_flag();
        if self.interrupts.interrupt_state() && !interrupts_disabled {
            self.interrupts.set_interrupt_state(false);
            return self.instruction_brk(model::InterruptState::MaskableInterrupt);
        }
        proof {
            model::lemma_fetched_wf(self.machine());
        }

        // Normal fetch and execute.
        let instruction = self.fetch().unwrap();

        self.execute(instruction)
    }

    /// Like `cycle` but without interrupt polling, and total: an
    /// undecodable opcode is reported as `(0, false, None)` instead of
    /// being an error.
    pub fn cycle_debug(&mut self) -> (r: (u8, bool, Option<instruction::Instruction>))
        ensures
            ({
                match model::spec_fetch(old(self).machine()) {
                    None => {
                        &&& final(self).machine() == old(self).machine()
                        &&& r.0 == 0u8
                        &&& r.1 == false
                        &&& r.2 is None
                    },
                    Some(pair) => {
                        let stepped = model::step_instr(
                            pair.1,
                            pair.0.opcode,
                            pair.0.addressing_mode,
                            pair.0.low_byte,
                            pair.0.high_byte,
                        );
                        &&& final(self).machine() == stepped.0
                        &&& r.0 == stepped.1
                        &&& r.1 == true
                        &&& r.2 == Some(pair.0)
                    },
                }
            }),
            final(self).same_host_state(old(self)),
    {
        proof {
            model::lemma_fetched_wf(self.machine());
        }
        let instruction = match self.fetch() {
            Some(x) => x,
            None => {
                return (0, false, None);
            },
        };

        (self.execute(instruction), true, Some(instruction))
    }

    /// Fetches the next instruction and advances the program counter past
    /// it; an undecodable byte fetches nothing and moves nothing.
    fn fetch(&mut self) -> (r: Option<instruction::Instruction>)
        ensures
            ({
                match model::spec_fetch(old(self).machine()) {
                    None => r is None && final(self).machine() == old(self).machine(),
                    Some(pair) => r == Some(pair.0) && final(self).machine() == pair.1,
                }
            }),
            final(self).same_host_state(old(self)),
    {
        let opcode_byte = self.read(self.program_counter);
        proof {
            model::lemma_decode_wf(opcode_byte);
        }
        let full_opcode = match instruction::FullOpcode::try_new(opcode_byte) {
            Some(x) => x,
            None => {
                return None;
            },
        };

        let mut bytes_required = full_opcode.addressing_mode.bytes_required();

        // BRK carries one byte of padding right after it, giving it a
        // fetched size of 2.
        if full_opcode.opcode == instruction::Opcode::BRK {
            bytes_required += 1;
        }

        // The low byte comes first, as words are little-endian.
        let (low_byte, high_byte) = if bytes_required == 1 {
            (None, None)
        } else if bytes_required == 2 {
            (Some(self.read(self.program_counter.wrapping_add(1))), None)
        } else {
            (
                Some(self.read(self.program_counter.wrapping_add(1))),
                Some(self.read(self.program_counter.wrapping_add(2))),
            )
        };

        self.program_counter = self.program_counter.wrapping_add(bytes_required);

        Some(
            instruction::Instruction {
                opcode: full_opcode.opcode,
                addressing_mode: full_opcode.addressing_mode,
                low_byte,
                high_byte,
            },
        )
    }

    /// Executes one fetched instruction and returns the machine cycles it
    /// took.
    fn execute(&mut self, instruction: instruction::Instruction) -> (cycles: u8)
        requires
            model::instr_wf(instruction),
        ensures
            final(self).machine() == model::step_instr(
                old(self).machine(),
                instruction.opcode,
                instruction.addressing_mode,
                instruction.low_byte,
                instruction.high_byte,
            ).0,
            cycles == model::step_instr(
                old(self).machine(),
                instruction.opcode,
                instruction.addressing_mode,
                instruction.low_byte,
                instruction.high_byte,
            ).1,
            final(self).same_host_state(old(self)),
    {
        match instruction.opcode {
            instruction::Opcode::ADC => self.instruction_adc(
                instruction.addressing_mode,
                instruction.low_byte,
                instruction.high_byte,
            ),
            instruction::Opcode::AND => self.instruction_and(
                instruction.addressing_mode,
                instruction.low_byte,
                instruction.high_byte,
            ),
            instruction::Opcode::ASL => self.instruction_asl(
                instruction.addressing_mode,
                instruction.low_byte,
                instruction.high_byte,
            ),
            instruction::Opcode::BCC => self.instruction_bcc(instruction.low_byte),
            instruction::Opcode::BCS => self.instruction_bcs(instruction.low_byte),
            instruction::Opcode::BEQ => self.instruction_beq(instruction.low_byte),
            instruction::Opcode::BIT => self.instruction_bit(
                instruction.addressing_mode,
                instruction.low_byte,
                instruction.high_byte,
            ),
            instruction::Opcode::BMI => self.instruction_bmi(instruction.low_byte),
            instruction::Opcode::BNE => self.instruction_bne(instruction.low_byte),
            instruction::Opcode::BPL => self.instruction_bpl(instruction.low_byte),
            instruction::Opcode::BRK => self.instruction_brk(model::InterruptState::Inactive),
            instruction::Opcode::BVC => self.instruction_bvc(instruction.low_byte),
            instruction::Opcode::BVS => self.instruction_bvs(instruction.low_byte),
            instruction::Opcode::CLC => self.instruction_clc(),
            instruction::Opcode::CLD => self.instruction_cld(),
            instruction::Opcode::CLI => self.instruction_cli(),
            instruction::Opcode::CLV => self.instruction_clv(),
            instruction::Opcode::CMP => self.instruction_cmp(
                instruction.addressing_mode,
                instruction.low_byte,
                instruction.high_byte,
            ),
            instruction::Opcode::CPX => self.instruction_cpx(
                instruction.addressing_mode,
                instruction.low_byte,
                instruction.high_byte,
            ),
            instruction::Opcode::CPY => self.instruction_cpy(
                instruction.addressing_mode,
                instruction.low_byte,
                instruction.high_byte,
            ),
            instruction::Opcode::DEC => self.instruction_dec(
                instruction.addressing_mode,
                instruction.low_byte,
                instruction.high_byte,
            ),
            instruction::Opcode::DEX => self.instruction_dex(),
            instruction::Opcode::DEY => self.instruction_dey(),
            instruction::Opcode::EOR => self.instruction_eor(
                instruction.addressing_mode,
                instruction.low_byte,
                instruction.high_byte,
            ),
            instruction::Opcode::INC => self.instruction_inc(
                instruction.addressing_mode,
                instruction.low_byte,
                instruction.high_byte,
            ),
            instruction::Opcode::INX => self.instruction_inx(),
            instruction::Opcode::INY => self.instruction_iny(),
            instruction::Opcode::JMP => self.instruction_jmp(
                instruction.addressing_mode,
                instruction.low_byte,
                instruction.high_byte,
            ),
            instruction::Opcode::JSR => self.instruction_jsr(
                instruction.low_byte,
                instruction.high_byte,
            ),
            instruction::Opcode::LDA => self.instruction_lda(
                instruction.addressing_mode,
                instruction.low_byte,
                instruction.high_byte,
            ),
            instruction::Opcode::LDX => self.instruction_ldx(
                instruction.addressing_mode,
                instruction.low_byte,
                instruction.high_byte,
            ),
            instruction::Opcode::LDY => self.instruction_ldy(
                instruction.addressing_mode,
                instruction.low_byte,
                instruction.high_byte,
            ),
            instruction::Opcode::LSR => self.instruction_lsr(
                instruction.addressing_mode,
                instruction.low_byte,
                instruction.high_byte,
            ),
            instruction::Opcode::NOP => self.instruction_nop(),
            instruction::Opcode::ORA => self.instruction_ora(
                instruction.addressing_mode,
                instruction.low_byte,
                instruction.high_byte,
            ),
            instruction::Opcode::PHA => self.instruction_pha(),
            instruction::Opcode::PHP => self.instruction_php(),
            instruction::Opcode::PLA => self.instruction_pla(),
            instruction::Opcode::PLP => self.instruction_plp(),
            instruction::Opcode::ROL => self.instruction_rol(
                instruction.addressing_mode,
                instruction.low_byte,
                instruction.high_byte,
            ),
            instruction::Opcode::ROR => self.instruction_ror(
                instruction.addressing_mode,
                instruction.low_byte,
                instruction.high_byte,
            ),
            instruction::Opcode::RTI => self.instruction_rti(),
            instruction::Opcode::RTS => self.instruction_rts(),
            instruction::Opcode::SBC => self.instruction_sbc(
                instruction.addressing_mode,
                instruction.low_byte,
                instruction.high_byte,
            ),
            instruction::Opcode::SEC => self.instruction_sec(),
            instruction::Opcode::SED => self.instruction_sed(),
            instruction::Opcode::SEI => self.instruction_sei(),
            instruction::Opcode::STA => self.instruction_sta(
                instruction.addressing_mode,
                instruction.low_byte,
                instruction.high_byte,
            ),
            instruction::Opcode::STX => self.instruction_stx(
                instruction.addressing_mode,
                instruction.low_byte,
                instruction.high_byte,
            ),
            instruction::Opcode::STY => self.instruction_sty(
                instruction.addressing_mode,
                instruction.low_byte,
                instruction.high_byte,
            ),
            instruction::Opcode::TAX => self.instruction_tax(),
            instruction::Opcode::TAY => self.instruction_tay(),
            instruction::Opcode::TSX => self.instruction_tsx(),
            instruction::Opcode::TXA => self.instruction_txa(),
            instruction::Opcode::TXS => self.instruction_txs(),
            instruction::Opcode::TYA => self.instruction_tya(),
        }
    }

    /// Reads one byte from the memory mapper.
    pub fn read(&self, address: u16) -> (r: u8)
        ensures
            r == self.machine().mem[address],
    {
        self.memory_mapper.read(address)
    }

    /// Writes one byte through the memory mapper.
    pub fn write(&mut self, address: u16, value: u8)
        ensures
            final(self).machine() == (model::MachineState {
                mem: old(self).machine().mem.insert(address, value),
                ..old(self).machine()
            }),
            final(self).same_host_state(old(self)),
    {
        self.memory_mapper.write(address, value);
    }
}

} // verus!
