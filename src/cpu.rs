use crate::flags::{has_flag, lemma_with_flag, with_flag, StatusFlags};
use crate::opcodes::{opcode_entry, AddressingMode, OpCode};
use vstd::prelude::*;

verus! {

/// Number of addressable bytes: every 16-bit value is an address.
pub const MEMORY_SIZE: usize = 0x10000;

/// Address at which `load` places a program image.
pub const PROGRAM_ORIGIN: u16 = 0x8000;

/// Address of the little-endian word from which `reset` takes the program counter.
pub const RESET_VECTOR: u16 = 0xFFFC;

/// Status bits after `reset`: interrupts disabled and the unused break bit set.
pub const RESET_STATUS: u8 = 0b0010_0100;

/// Largest number of instructions that one `run` executes before it gives up.
pub const STEP_LIMIT: u64 = 0xFFFF_FFFF_FFFF_FFFF;

/// A fault that stops execution.
#[derive(Clone, Copy, Debug, PartialEq, Eq, Structural)]
pub enum CpuError {
    /// The byte at the program counter is not in the opcode table.
    UnsupportedOpcode(u8),
    /// The resolver was asked for an address in a mode that has none.
    UnsupportedAddressingMode(AddressingMode),
    /// `run` executed `STEP_LIMIT` instructions without reaching a break.
    StepLimitReached,
}

/// What happened in one fetch-decode-execute step that did not fault.
#[derive(Clone, Copy, Debug, PartialEq, Eq, Structural)]
pub enum StepOutcome {
    /// An instruction ran; execution goes on.
    Continue,
    /// A break instruction was fetched; execution stops.
    Halt,
}

/// The whole machine state as a mathematical value.
pub struct CpuState {
    pub a: u8,
    pub x: u8,
    pub y: u8,
    pub status: u8,
    pub pc: u16,
    pub mem: Seq<u8>,
}

/// `a + b` modulo 2^16.
pub open spec fn add16(a: u16, b: int) -> u16 {
    ((a as int + b) % 0x10000) as u16
}

/// `a + b` modulo 2^8.
pub open spec fn add8(a: u8, b: u8) -> u8 {
    ((a as int + b as int) % 0x100) as u8
}

/// The 16-bit value whose low byte is `lo` and high byte is `hi`.
pub open spec fn word(lo: u8, hi: u8) -> u16 {
    (hi as int * 0x100 + lo as int) as u16
}

pub open spec fn read_byte(mem: Seq<u8>, addr: u16) -> u8 {
    mem[addr as int]
}

/// Little-endian word at `addr`; the high byte of the word at 0xFFFF is taken from address 0.
pub open spec fn read_word(mem: Seq<u8>, addr: u16) -> u16 {
    word(read_byte(mem, addr), read_byte(mem, add16(addr, 1)))
}

pub open spec fn write_byte(mem: Seq<u8>, addr: u16, v: u8) -> Seq<u8> {
    mem.update(addr as int, v)
}

/// Little-endian store of `v` at `addr`, wrapping to address 0 as `read_word` does.
pub open spec fn write_word(mem: Seq<u8>, addr: u16, v: u16) -> Seq<u8> {
    write_byte(write_byte(mem, addr, (v % 0x100) as u8), add16(addr, 1), (v / 0x100) as u8)
}

/// Memory with `program` copied to `PROGRAM_ORIGIN` onwards.
pub open spec fn place_image(mem: Seq<u8>, program: Seq<u8>) -> Seq<u8> {
    Seq::new(
        mem.len(),
        |i: int|
            if PROGRAM_ORIGIN <= i < PROGRAM_ORIGIN + program.len() {
                program[i - PROGRAM_ORIGIN]
            } else {
                mem[i]
            },
    )
}

/// The state after `load(program)`: the image at the origin and the origin in the reset vector.
pub open spec fn load_state(s: CpuState, program: Seq<u8>) -> CpuState {
    CpuState {
        mem: write_word(place_image(s.mem, program), RESET_VECTOR, PROGRAM_ORIGIN),
        ..s
    }
}

/// The state after `reset`: accumulator and index-X cleared, the reset status pattern, and the
/// program counter taken from the reset vector. Index-Y and memory are kept.
pub open spec fn reset_state(s: CpuState) -> CpuState {
    CpuState { a: 0, x: 0, status: RESET_STATUS, pc: read_word(s.mem, RESET_VECTOR), ..s }
}

/// Zero set iff `v == 0`, Negative set iff bit 7 of `v` is set; other bits kept.
pub open spec fn zero_negative(status: u8, v: u8) -> u8 {
    with_flag(with_flag(status, StatusFlags::ZERO, v == 0), StatusFlags::NEGATIVE, v >= 0x80)
}

/// Word stored in page 0 with its low byte at `ptr` and its high byte at `ptr + 1` modulo 2^8.
pub open spec fn zero_page_word(mem: Seq<u8>, ptr: u8) -> u16 {
    word(read_byte(mem, ptr as u16), read_byte(mem, add8(ptr, 1) as u16))
}

/// Effective address of the operand that starts at the program counter.
///
/// Indirect_Y dereferences the zero-page pointer first and adds index-Y to the word found
/// there, as the architecture defines it.
pub open spec fn operand_address(s: CpuState, mode: AddressingMode) -> Result<u16, CpuError> {
    match mode {
        AddressingMode::Immediate => Ok(s.pc),
        AddressingMode::ZeroPage => Ok(read_byte(s.mem, s.pc) as u16),
        AddressingMode::Absolute => Ok(read_word(s.mem, s.pc)),
        AddressingMode::ZeroPage_X => Ok(add8(read_byte(s.mem, s.pc), s.x) as u16),
        AddressingMode::ZeroPage_Y => Ok(add8(read_byte(s.mem, s.pc), s.y) as u16),
        AddressingMode::Absolute_X => Ok(add16(read_word(s.mem, s.pc), s.x as int)),
        AddressingMode::Absolute_Y => Ok(add16(read_word(s.mem, s.pc), s.y as int)),
        AddressingMode::Indirect_X => Ok(zero_page_word(s.mem, add8(read_byte(s.mem, s.pc), s.x))),
        AddressingMode::Indirect_Y => Ok(
            add16(zero_page_word(s.mem, read_byte(s.mem, s.pc)), s.y as int),
        ),
        AddressingMode::NoneAddressing => Err(CpuError::UnsupportedAddressingMode(mode)),
    }
}

/// Whether the signed (two's complement) sum of `a` and `v` overflowed into `r`: the operands
/// share a sign and the result has the other one.
pub open spec fn signed_overflow(a: u8, v: u8, r: u8) -> bool {
    (a >= 0x80) == (v >= 0x80) && (r >= 0x80) != (a >= 0x80)
}

/// Opcode bytes of load-accumulator.
pub open spec fn is_lda(code: u8) -> bool {
    code == 0xA9 || code == 0xA5 || code == 0xB5 || code == 0xAD || code == 0xBD || code == 0xB9
        || code == 0xA1 || code == 0xB1
}

/// Opcode bytes of store-accumulator.
pub open spec fn is_sta(code: u8) -> bool {
    code == 0x85 || code == 0x95 || code == 0x8D || code == 0x9D || code == 0x99 || code == 0x81
        || code == 0x91
}

/// Opcode bytes of add-with-carry.
pub open spec fn is_adc(code: u8) -> bool {
    code == 0x69 || code == 0x65 || code == 0x75 || code == 0x6D || code == 0x7D || code == 0x79
        || code == 0x61 || code == 0x71
}

/// Load-accumulator: the accumulator takes the operand byte; Zero and Negative follow it.
pub open spec fn lda_state(s: CpuState, mode: AddressingMode) -> Result<CpuState, CpuError> {
    match operand_address(s, mode) {
        Err(e) => Err(e),
        Ok(addr) => {
            let v = read_byte(s.mem, addr);
            Ok(CpuState { a: v, status: zero_negative(s.status, v), ..s })
        },
    }
}

/// Store-accumulator: the operand byte takes the accumulator; no flag changes.
pub open spec fn sta_state(s: CpuState, mode: AddressingMode) -> Result<CpuState, CpuError> {
    match operand_address(s, mode) {
        Err(e) => Err(e),
        Ok(addr) => Ok(CpuState { mem: write_byte(s.mem, addr, s.a), ..s }),
    }
}

/// Add-with-carry: accumulator + operand + Carry, kept modulo 2^8; Carry set iff the sum
/// exceeds 255, Overflow iff the signed sum overflowed, Zero and Negative follow the result.
pub open spec fn adc_state(s: CpuState, mode: AddressingMode) -> Result<CpuState, CpuError> {
    match operand_address(s, mode) {
        Err(e) => Err(e),
        Ok(addr) => {
            let v = read_byte(s.mem, addr);
            let sum = s.a as int + v as int + if has_flag(s.status, StatusFlags::CARRY) {
                1int
            } else {
                0int
            };
            let r = (sum % 0x100) as u8;
            let status = with_flag(
                with_flag(s.status, StatusFlags::CARRY, sum > 0xFF),
                StatusFlags::OVERFLOW,
                signed_overflow(s.a, v, r),
            );
            Ok(CpuState { a: r, status: zero_negative(status, r), ..s })
        },
    }
}

/// Transfer accumulator to index-X; Zero and Negative follow index-X.
pub open spec fn tax_state(s: CpuState) -> CpuState {
    CpuState { x: s.a, status: zero_negative(s.status, s.a), ..s }
}

/// Increment index-X modulo 2^8; Zero and Negative follow index-X.
pub open spec fn inx_state(s: CpuState) -> CpuState {
    let x = add8(s.x, 1);
    CpuState { x, status: zero_negative(s.status, x), ..s }
}

/// Runs the handler of opcode byte `code` in addressing mode `mode`.
pub open spec fn execute_state(s: CpuState, code: u8, mode: AddressingMode) -> Result<
    CpuState,
    CpuError,
> {
    if is_lda(code) {
        lda_state(s, mode)
    } else if is_sta(code) {
        sta_state(s, mode)
    } else if is_adc(code) {
        adc_state(s, mode)
    } else if code == 0xAA {
        Ok(tax_state(s))
    } else if code == 0xE8 {
        Ok(inx_state(s))
    } else {
        Err(CpuError::UnsupportedOpcode(code))
    }
}

/// One fetch-decode-execute step: fetch the opcode byte and advance the program counter past
/// it; halt on break; otherwise run the handler and, when it left the program counter where it
/// was, advance it past the operand bytes. On a fault the state is the one after the fetch.
pub open spec fn step_state(s: CpuState) -> (CpuState, Result<StepOutcome, CpuError>) {
    let code = read_byte(s.mem, s.pc);
    let fetched = CpuState { pc: add16(s.pc, 1), ..s };
    match opcode_entry(code) {
        None => (fetched, Err(CpuError::UnsupportedOpcode(code))),
        Some(e) => {
            if code == 0x00 {
                (fetched, Ok(StepOutcome::Halt))
            } else {
                match execute_state(fetched, code, e.3) {
                    Err(err) => (fetched, Err(err)),
                    Ok(done) => {
                        if done.pc == fetched.pc {
                            (CpuState { pc: add16(done.pc, e.1 - 1), ..done }, Ok(StepOutcome::Continue))
                        } else {
                            (done, Ok(StepOutcome::Continue))
                        }
                    },
                }
            }
        },
    }
}

/// Steps from `s` until a break or a fault, for at most `fuel` steps.
pub open spec fn run_state(s: CpuState, fuel: nat) -> (CpuState, Result<(), CpuError>)
    decreases fuel,
{
    if fuel == 0 {
        (s, Err(CpuError::StepLimitReached))
    } else {
        let (next, outcome) = step_state(s);
        match outcome {
            Err(e) => (next, Err(e)),
            Ok(StepOutcome::Halt) => (next, Ok(())),
            Ok(StepOutcome::Continue) => run_state(next, (fuel - 1) as nat),
        }
    }
}

/// A word written anywhere reads back unchanged.
pub proof fn lemma_word_round_trip(mem: Seq<u8>, addr: u16, val: u16)
    requires
        mem.len() == MEMORY_SIZE,
    ensures
        read_word(write_word(mem, addr, val), addr) == val,
{
}

/// Resetting twice over the same memory gives the state that resetting once gives.
pub proof fn lemma_reset_idempotent(s: CpuState)
    ensures
        reset_state(reset_state(s)) == reset_state(s),
{
}

/// A byte-addressable store covering every 16-bit address.
pub struct AddressSpace {
    bytes: Vec<u8>,
}

impl View for AddressSpace {
    type V = Seq<u8>;

    closed spec fn view(&self) -> Seq<u8> {
        self.bytes@
    }
}

impl AddressSpace {
    pub open spec fn wf(&self) -> bool {
        self@.len() == MEMORY_SIZE
    }

    /// An address space holding zero everywhere.
    pub fn new() -> (r: AddressSpace)
        ensures
            r.wf(),
            r@ == Seq::new(0x10000, |i: int| 0u8),
    {
        let r = AddressSpace { bytes: vec![0u8; MEMORY_SIZE] };
        assert(r@ =~= Seq::new(0x10000, |i: int| 0u8));
        r
    }

    pub fn read(&self, addr: u16) -> (r: u8)
        requires
            self.wf(),
        ensures
            r == read_byte(self@, addr),
    {
        self.bytes[addr as usize]
    }

    pub fn write(&mut self, addr: u16, v: u8)
        requires
            old(self).wf(),
        ensures
            final(self).wf(),
            final(self)@ == write_byte(old(self)@, addr, v),
    {
        self.bytes[addr as usize] = v;
    }
}

/// The processor: register file, status flags and its own address space.
pub struct CPU {
    pub register_a: u8,
    pub register_x: u8,
    pub register_y: u8,
    pub status: StatusFlags,
    pub program_counter: u16,
    pub memory: AddressSpace,
}

impl View for CPU {
    type V = CpuState;

    open spec fn view(&self) -> CpuState {
        CpuState {
            a: self.register_a,
            x: self.register_x,
            y: self.register_y,
            status: self.status.bits,
            pc: self.program_counter,
            mem: self.memory@,
        }
    }
}

impl CPU {
    pub open spec fn wf(&self) -> bool {
        self.memory.wf()
    }

    /// A processor with zeroed registers, flags and memory.
    pub fn new() -> (r: CPU)
        ensures
            r.wf(),
            r@ == (CpuState { a: 0, x: 0, y: 0, status: 0, pc: 0, mem: Seq::new(0x10000, |i: int| 0u8) }),
    {
        CPU {
            register_a: 0,
            register_x: 0,
            register_y: 0,
            status: StatusFlags::from_bits_truncate(0),
            program_counter: 0,
            memory: AddressSpace::new(),
        }
    }

    pub fn mem_read(&self, addr: u16) -> (r: u8)
        requires
            self.wf(),
        ensures
            r == read_byte(self@.mem, addr),
    {
        self.memory.read(addr)
    }

    /// Little-endian word at `pos`; at 0xFFFF the high byte comes from address 0.
    pub fn mem_read_u16(&self, pos: u16) -> (r: u16)
        requires
            self.wf(),
        ensures
            r == read_word(self@.mem, pos),
    {
        let lo = self.mem_read(pos) as u16;
        let hi = self.mem_read(pos.wrapping_add(1)) as u16;
        hi * 0x100 + lo
    }

    pub fn mem_write(&mut self, addr: u16, data: u8)
        requires
            old(self).wf(),
        ensures
            final(self).wf(),
            final(self)@ == (CpuState { mem: write_byte(old(self)@.mem, addr, data), ..old(self)@ }),
    {
        self.memory.write(addr, data);
    }

    /// Little-endian store; at 0xFFFF the high byte goes to address 0.
    pub fn mem_write_u16(&mut self, addr: u16, data: u16)
        requires
            old(self).wf(),
        ensures
            final(self).wf(),
            final(self)@ == (CpuState { mem: write_word(old(self)@.mem, addr, data), ..old(self)@ }),
    {
        let hi = (data / 0x100) as u8;
        let lo = (data % 0x100) as u8;
        self.mem_write(addr, lo);
        self.mem_write(addr.wrapping_add(1), hi);
    }

    /// Copies `program` to `PROGRAM_ORIGIN` onwards and stores that origin in the reset vector.
    pub fn load(&mut self, program: Vec<u8>)
        requires
            old(self).wf(),
            program@.len() <= 0x8000,
        ensures
            final(self).wf(),
            final(self)@ == load_state(old(self)@, program@),
    {
        let ghost start = self@;
        let mut i: usize = 0;
        while i < program.len()
            invariant
                self.wf(),
                program@.len() <= 0x8000,
                i <= program@.len(),
                self@ == (CpuState { mem: self@.mem, ..start }),
                forall|j: int|
                    0 <= j < MEMORY_SIZE ==> #[trigger] self@.mem[j] == (if PROGRAM_ORIGIN <= j
                        < PROGRAM_ORIGIN + i {
                        program@[j - PROGRAM_ORIGIN]
                    } else {
                        start.mem[j]
                    }),
            decreases program@.len() - i,
        {
            self.mem_write(PROGRAM_ORIGIN + i as u16, program[i]);
            i = i + 1;
        }
        assert(self@.mem =~= place_image(start.mem, program@));
        self.mem_write_u16(RESET_VECTOR, PROGRAM_ORIGIN);
    }

    /// Clears accumulator and index-X, restores the reset status pattern and takes the program
    /// counter from the reset vector. Index-Y and memory are left alone.
    pub fn reset(&mut self)
        requires
            old(self).wf(),
        ensures
            final(self).wf(),
            final(self)@ == reset_state(old(self)@),
    {
        self.register_a = 0;
        self.register_x = 0;
        self.status = StatusFlags::from_bits_truncate(RESET_STATUS);
        self.program_counter = self.mem_read_u16(RESET_VECTOR);
    }

    pub fn set_carry_flag(&mut self)
        ensures
            final(self)@ == (CpuState {
                status: with_flag(old(self)@.status, StatusFlags::CARRY, true),
                ..old(self)@
            }),
    {
        self.status.insert(StatusFlags::CARRY);
    }

    pub fn unset_carry_flag(&mut self)
        ensures
            final(self)@ == (CpuState {
                status: with_flag(old(self)@.status, StatusFlags::CARRY, false),
                ..old(self)@
            }),
    {
        self.status.remove(StatusFlags::CARRY);
    }

    /// Sets Zero iff `value` is 0 and Negative iff bit 7 of `value` is set, where `value` is
    /// what the instruction just produced.
    pub fn update_zero_and_negative_flags(&mut self, value: u8)
        ensures
            final(self)@ == (CpuState { status: zero_negative(old(self)@.status, value), ..old(self)@ }),
    {
        self.status.set(StatusFlags::ZERO, value == 0);
        self.status.set(StatusFlags::NEGATIVE, value >= 0x80);
    }

    /// Effective address of the current instruction's operand, which starts at the program
    /// counter. Reads memory, changes nothing.
    pub fn get_operand_address(&self, mode: &AddressingMode) -> (r: Result<u16, CpuError>)
        requires
            self.wf(),
        ensures
            r == operand_address(self@, *mode),
    {
        match mode {
            AddressingMode::Immediate => Ok(self.program_counter),
            AddressingMode::ZeroPage => Ok(self.mem_read(self.program_counter) as u16),
            AddressingMode::Absolute => Ok(self.mem_read_u16(self.program_counter)),
            AddressingMode::ZeroPage_X => {
                let pos = self.mem_read(self.program_counter);
                Ok(pos.wrapping_add(self.register_x) as u16)
            },
            AddressingMode::ZeroPage_Y => {
                let pos = self.mem_read(self.program_counter);
                Ok(pos.wrapping_add(self.register_y) as u16)
            },
            AddressingMode::Absolute_X => {
                let pos = self.mem_read_u16(self.program_counter);
                Ok(pos.wrapping_add(self.register_x as u16))
            },
            AddressingMode::Absolute_Y => {
                let pos = self.mem_read_u16(self.program_counter);
                Ok(pos.wrapping_add(self.register_y as u16))
            },
            AddressingMode::Indirect_X => {
                let base = self.mem_read(self.program_counter);
                let ptr = base.wrapping_add(self.register_x);
                Ok(self.read_zero_page_word(ptr))
            },
            AddressingMode::Indirect_Y => {
                let ptr = self.mem_read(self.program_counter);
                let base = self.read_zero_page_word(ptr);
                Ok(base.wrapping_add(self.register_y as u16))
            },
            AddressingMode::NoneAddressing => Err(CpuError::UnsupportedAddressingMode(*mode)),
        }
    }

    /// The pointer word at `ptr` in page 0; its high byte wraps within page 0.
    fn read_zero_page_word(&self, ptr: u8) -> (r: u16)
        requires
            self.wf(),
        ensures
            r == zero_page_word(self@.mem, ptr),
    {
        let lo = self.mem_read(ptr as u16) as u16;
        let hi = self.mem_read(ptr.wrapping_add(1) as u16) as u16;
        hi * 0x100 + lo
    }

    /// Executes one instruction.
    pub fn step(&mut self) -> (r: Result<StepOutcome, CpuError>)
        requires
            old(self).wf(),
        ensures
            final(self).wf(),
            (final(self)@, r) == step_state(old(self)@),
    {
        let code = self.mem_read(self.program_counter);
        self.program_counter = self.program_counter.wrapping_add(1);
        let program_counter_state = self.program_counter;
        let opcode = match OpCode::lookup(code) {
            Some(op) => op,
            None => {
                return Err(CpuError::UnsupportedOpcode(code));
            },
        };
        match code {
            0xA9 | 0xA5 | 0xB5 | 0xAD | 0xBD | 0xB9 | 0xA1 | 0xB1 => {
                self.lda(&opcode.mode)?;
            },
            0x85 | 0x95 | 0x8D | 0x9D | 0x99 | 0x81 | 0x91 => {
                self.sta(&opcode.mode)?;
            },
            0x69 | 0x65 | 0x75 | 0x6D | 0x7D | 0x79 | 0x61 | 0x71 => {
                self.adc(&opcode.mode)?;
            },
            0xAA => self.tax(),
            0xE8 => self.inx(),
            0x00 => {
                return Ok(StepOutcome::Halt);
            },
            _ => {
                return Err(CpuError::UnsupportedOpcode(code));
            },
        }
        if program_counter_state == self.program_counter {
            self.program_counter = self.program_counter.wrapping_add((opcode.bytes - 1) as u16);
        }
        Ok(StepOutcome::Continue)
    }

    /// Executes instructions until a break (`Ok`) or a fault (`Err`), and gives up with
    /// `StepLimitReached` after `STEP_LIMIT` instructions.
    pub fn run(&mut self) -> (r: Result<(), CpuError>)
        requires
            old(self).wf(),
        ensures
            final(self).wf(),
            (final(self)@, r) == run_state(old(self)@, STEP_LIMIT as nat),
    {
        let mut remaining: u64 = STEP_LIMIT;
        while remaining > 0
            invariant
                self.wf(),
                run_state(self@, remaining as nat) == run_state(old(self)@, STEP_LIMIT as nat),
            decreases remaining,
        {
            match self.step() {
                Err(e) => {
                    return Err(e);
                },
                Ok(StepOutcome::Halt) => {
                    return Ok(());
                },
                Ok(StepOutcome::Continue) => {},
            }
            remaining = remaining - 1;
        }
        Err(CpuError::StepLimitReached)
    }

    /// Loads `program`, resets, and runs it.
    pub fn load_and_run(&mut self, program: Vec<u8>) -> (r: Result<(), CpuError>)
        requires
            old(self).wf(),
            program@.len() <= 0x8000,
        ensures
            final(self).wf(),
            (final(self)@, r) == run_state(
                reset_state(load_state(old(self)@, program@)),
                STEP_LIMIT as nat,
            ),
    {
        self.load(program);
        self.reset();
        self.run()
    }

    fn lda(&mut self, mode: &AddressingMode) -> (r: Result<(), CpuError>)
        requires
            old(self).wf(),
        ensures
            final(self).wf(),
            match lda_state(old(self)@, *mode) {
                Ok(s) => r is Ok && final(self)@ == s,
                Err(e) => r == Err::<(), CpuError>(e) && final(self)@ == old(self)@,
            },
    {
        let addr = self.get_operand_address(mode)?;
        let value = self.mem_read(addr);
        self.register_a = value;
        self.update_zero_and_negative_flags(value);
        Ok(())
    }

    fn sta(&mut self, mode: &AddressingMode) -> (r: Result<(), CpuError>)
        requires
            old(self).wf(),
        ensures
            final(self).wf(),
            match sta_state(old(self)@, *mode) {
                Ok(s) => r is Ok && final(self)@ == s,
                Err(e) => r == Err::<(), CpuError>(e) && final(self)@ == old(self)@,
            },
    {
        let addr = self.get_operand_address(mode)?;
        self.mem_write(addr, self.register_a);
        Ok(())
    }

    fn adc(&mut self, mode: &AddressingMode) -> (r: Result<(), CpuError>)
        requires
            old(self).wf(),
        ensures
            final(self).wf(),
            match adc_state(old(self)@, *mode) {
                Ok(s) => r is Ok && final(self)@ == s,
                Err(e) => r == Err::<(), CpuError>(e) && final(self)@ == old(self)@,
            },
    {
        let addr = self.get_operand_address(mode)?;
        let value = self.mem_read(addr);
        let a = self.register_a;
        let carry: u16 = if self.status.contains(StatusFlags::CARRY) {
            1
        } else {
            0
        };
        let sum: u16 = a as u16 + value as u16 + carry;
        if sum > 0xFF {
            self.set_carry_flag();
        } else {
            self.unset_carry_flag();
        }
        let result = (sum % 0x100) as u8;
        let overflow = (a >= 0x80) == (value >= 0x80) && (result >= 0x80) != (a >= 0x80);
        self.status.set(StatusFlags::OVERFLOW, overflow);
        self.register_a = result;
        self.update_zero_and_negative_flags(result);
        Ok(())
    }

    fn tax(&mut self)
        ensures
            final(self)@ == tax_state(old(self)@),
    {
        self.register_x = self.register_a;
        self.update_zero_and_negative_flags(self.register_x);
    }

    fn inx(&mut self)
        ensures
            final(self)@ == inx_state(old(self)@),
    {
        self.register_x = self.register_x.wrapping_add(1);
        self.update_zero_and_negative_flags(self.register_x);
    }
}

} // verus!
