use vstd::prelude::*;
use crate::decode::{decode, decode_instr, instr_ok, Instr};
use crate::display::{blank_screen, draw_collision, screen_after_draw, FrameBuffer};
use crate::input::{first_pressed, InputState};
use crate::mem::{mem_init, mem_with_rom, MemoryBank};
use crate::regs::RegisterFile;
use crate::stack::CallStack;

verus! {

/// Load-time failure: the program does not fit in the 3584 bytes between
/// 0x200 and the end of memory.
#[derive(Clone, Copy, Debug, PartialEq, Eq, Structural)]
pub enum LoadError {
    RomTooLarge,
}

/// Fatal runtime faults. Each one halts the machine; later steps keep
/// returning the same fault without executing anything.
#[derive(Clone, Copy, Debug, PartialEq, Eq, Structural)]
pub enum Fault {
    StackOverflow,
    StackUnderflow,
    InvalidOpcode(u16),
}

/// What one step did, for the host: `Idle` while stalled on a key wait,
/// `Redraw` when the frame buffer changed, `Executed` otherwise.
#[derive(Clone, Copy, Debug, PartialEq, Eq, Structural)]
pub enum StepEvent {
    Idle,
    Executed,
    Redraw,
}

/// Interpreter state: running, stalled on the key-wait instruction with the
/// target register recorded, or halted on a fault until reset.
#[derive(Clone, Copy, Debug, PartialEq, Eq, Structural)]
pub enum Mode {
    Running,
    WaitingForKey(u8),
    Halted(Fault),
}

/// Behavior points on which historical machines disagree, fixed at
/// construction.
#[derive(Clone, Copy, Debug)]
pub struct Quirks {
    /// Shift instructions read V[Y] instead of V[X].
    pub shift_uses_vy: bool,
    /// Sprite pixels past the screen edge wrap around instead of clipping.
    pub draw_wraps: bool,
    /// Register store/load advance the index register past the block.
    pub load_store_increments_index: bool,
    /// An undefined opcode halts the machine instead of being skipped.
    pub invalid_opcode_fatal: bool,
}

/// The default configuration: modern shift and store/load behavior,
/// clipped drawing, undefined opcodes ignored for ROM compatibility.
pub open spec fn default_quirks() -> Quirks {
    Quirks {
        shift_uses_vy: false,
        draw_wraps: false,
        load_store_increments_index: false,
        invalid_opcode_fatal: false,
    }
}

/// Seed of the deterministic pseudo-random source; `seed_rng` overrides it.
pub const RNG_SEED: u16 = 0x2A53;

/// The whole machine as mathematical values: what every contract of the
/// interpreter speaks about.
pub ghost struct VmState {
    pub mem: Seq<u8>,
    pub v: Seq<u8>,
    pub i: u16,
    pub pc: u16,
    pub delay: u8,
    pub sound: u8,
    pub stack: Seq<u16>,
    pub screen: Seq<bool>,
    pub keys: Seq<bool>,
    pub mode: Mode,
    pub quirks: Quirks,
    pub rng: u16,
}

/// Result of one step: the machine afterwards and what the host is told.
pub ghost struct StepOutcome {
    pub post: VmState,
    pub event: Result<StepEvent, Fault>,
}

pub open spec fn vm_wf(s: VmState) -> bool {
    &&& s.mem.len() == 4096
    &&& s.v.len() == 16
    &&& s.stack.len() <= 16
    &&& s.screen.len() == 2048
    &&& s.keys.len() == 16
    &&& s.pc < 4096
    &&& (s.mode matches Mode::WaitingForKey(x) ==> x < 16)
}

/// The machine right after construction or reset.
pub open spec fn initial_vm(q: Quirks) -> VmState {
    VmState {
        mem: mem_init(),
        v: Seq::new(16, |k: int| 0u8),
        i: 0,
        pc: 0x200,
        delay: 0,
        sound: 0,
        stack: Seq::<u16>::empty(),
        screen: blank_screen(),
        keys: Seq::new(16, |k: int| false),
        mode: Mode::Running,
        quirks: q,
        rng: RNG_SEED,
    }
}

/// The instruction word at the program counter, big-endian.
pub open spec fn fetch_word(s: VmState) -> u16 {
    (s.mem[s.pc as int] * 256 + s.mem[(s.pc + 1) % 4096]) as u16
}

/// Next state of the pseudo-random source (a 16-bit linear congruence).
pub open spec fn rng_next(s: u16) -> u16 {
    ((s * 25173 + 13849) % 65536) as u16
}

/// The byte drawn from the pseudo-random source.
pub open spec fn rng_byte(s: u16) -> u8 {
    ((s / 256) % 256) as u8
}

/// The program counter after an extra skip of one instruction, when `cond`
/// holds.
pub open spec fn skip_pc(s: VmState, cond: bool) -> u16 {
    if cond {
        (((s.pc + 2) as int) % 4096) as u16
    } else {
        s.pc
    }
}

/// Memory after the first `cnt` registers are stored at index `i` (FX55).
pub open spec fn mem_after_store(mem: Seq<u8>, v: Seq<u8>, i: int, cnt: int) -> Seq<u8>
    decreases cnt,
{
    if cnt <= 0 {
        mem
    } else {
        mem_after_store(mem, v, i, cnt - 1).update((i + cnt - 1) % 4096, v[cnt - 1])
    }
}

/// Registers after the first `cnt` are loaded from index `i` (FX65).
pub open spec fn regs_after_load(v: Seq<u8>, mem: Seq<u8>, i: int, cnt: int) -> Seq<u8>
    decreases cnt,
{
    if cnt <= 0 {
        v
    } else {
        regs_after_load(v, mem, i, cnt - 1).update(cnt - 1, mem[(i + cnt - 1) % 4096])
    }
}

pub proof fn lemma_store_keeps_len(mem: Seq<u8>, v: Seq<u8>, i: int, cnt: int)
    requires
        mem.len() == 4096,
    ensures
        mem_after_store(mem, v, i, cnt).len() == mem.len(),
    decreases cnt,
{
    if cnt > 0 {
        lemma_store_keeps_len(mem, v, i, cnt - 1);
    }
}

pub proof fn lemma_load_keeps_len(v: Seq<u8>, mem: Seq<u8>, i: int, cnt: int)
    requires
        v.len() == 16,
        cnt <= 16,
    ensures
        regs_after_load(v, mem, i, cnt).len() == v.len(),
    decreases cnt,
{
    if cnt > 0 {
        lemma_load_keeps_len(v, mem, i, cnt - 1);
    }
}

/// The rows of the sprite that a draw instruction reads from memory.
pub open spec fn sprite_rows(s: VmState, n: u8) -> Seq<u8> {
    Seq::new(n as nat, |k: int| s.mem[(s.i + k) % 4096])
}

/// Effect of one decoded instruction on a machine whose program counter has
/// already advanced past it. This is the opcode table of the machine.
pub open spec fn exec_instr_vm(s: VmState, instr: Instr) -> StepOutcome {
    match instr {
        Instr::Cls => StepOutcome {
            post: VmState { screen: blank_screen(), ..s },
            event: Ok(StepEvent::Redraw),
        },
        Instr::Ret => if s.stack.len() == 0 {
            StepOutcome {
                post: VmState { mode: Mode::Halted(Fault::StackUnderflow), ..s },
                event: Err(Fault::StackUnderflow),
            }
        } else {
            StepOutcome {
                post: VmState {
                    pc: ((s.stack.last() as int) % 4096) as u16,
                    stack: s.stack.drop_last(),
                    ..s
                },
                event: Ok(StepEvent::Executed),
            }
        },
        Instr::Jump(a) => StepOutcome {
            post: VmState { pc: a, ..s },
            event: Ok(StepEvent::Executed),
        },
        Instr::Call(a) => if s.stack.len() >= 16 {
            StepOutcome {
                post: VmState { mode: Mode::Halted(Fault::StackOverflow), ..s },
                event: Err(Fault::StackOverflow),
            }
        } else {
            StepOutcome {
                post: VmState { stack: s.stack.push(s.pc), pc: a, ..s },
                event: Ok(StepEvent::Executed),
            }
        },
        Instr::SkipEqImm(x, nn) => StepOutcome {
            post: VmState { pc: skip_pc(s, s.v[x as int] == nn), ..s },
            event: Ok(StepEvent::Executed),
        },
        Instr::SkipNeImm(x, nn) => StepOutcome {
            post: VmState { pc: skip_pc(s, s.v[x as int] != nn), ..s },
            event: Ok(StepEvent::Executed),
        },
        Instr::SkipEqReg(x, y) => StepOutcome {
            post: VmState { pc: skip_pc(s, s.v[x as int] == s.v[y as int]), ..s },
            event: Ok(StepEvent::Executed),
        },
        Instr::SetImm(x, nn) => StepOutcome {
            post: VmState { v: s.v.update(x as int, nn), ..s },
            event: Ok(StepEvent::Executed),
        },
        Instr::AddImm(x, nn) => StepOutcome {
            post: VmState { v: s.v.update(x as int, ((s.v[x as int] + nn) % 256) as u8), ..s },
            event: Ok(StepEvent::Executed),
        },
        Instr::MovReg(x, y) => StepOutcome {
            post: VmState { v: s.v.update(x as int, s.v[y as int]), ..s },
            event: Ok(StepEvent::Executed),
        },
        Instr::OrReg(x, y) => StepOutcome {
            post: VmState { v: s.v.update(x as int, s.v[x as int] | s.v[y as int]), ..s },
            event: Ok(StepEvent::Executed),
        },
        Instr::AndReg(x, y) => StepOutcome {
            post: VmState { v: s.v.update(x as int, s.v[x as int] & s.v[y as int]), ..s },
            event: Ok(StepEvent::Executed),
        },
        Instr::XorReg(x, y) => StepOutcome {
            post: VmState { v: s.v.update(x as int, s.v[x as int] ^ s.v[y as int]), ..s },
            event: Ok(StepEvent::Executed),
        },
        Instr::AddReg(x, y) => {
            let sum = s.v[x as int] + s.v[y as int];
            let flag: u8 = if sum > 255 { 1 } else { 0 };
            StepOutcome {
                post: VmState {
                    v: s.v.update(x as int, (sum % 256) as u8).update(15, flag),
                    ..s
                },
                event: Ok(StepEvent::Executed),
            }
        },
        Instr::SubReg(x, y) => {
            let flag: u8 = if s.v[x as int] >= s.v[y as int] { 1 } else { 0 };
            StepOutcome {
                post: VmState {
                    v: s.v.update(x as int, ((s.v[x as int] + 256 - s.v[y as int]) % 256) as u8)
                        .update(15, flag),
                    ..s
                },
                event: Ok(StepEvent::Executed),
            }
        },
        Instr::ShrReg(x, y) => {
            let src = if s.quirks.shift_uses_vy { s.v[y as int] } else { s.v[x as int] };
            StepOutcome {
                post: VmState {
                    v: s.v.update(x as int, src / 2).update(15, (src % 2) as u8),
                    ..s
                },
                event: Ok(StepEvent::Executed),
            }
        },
        Instr::SubnReg(x, y) => {
            let flag: u8 = if s.v[y as int] >= s.v[x as int] { 1 } else { 0 };
            StepOutcome {
                post: VmState {
                    v: s.v.update(x as int, ((s.v[y as int] + 256 - s.v[x as int]) % 256) as u8)
                        .update(15, flag),
                    ..s
                },
                event: Ok(StepEvent::Executed),
            }
        },
        Instr::ShlReg(x, y) => {
            let src = if s.quirks.shift_uses_vy { s.v[y as int] } else { s.v[x as int] };
            StepOutcome {
                post: VmState {
                    v: s.v.update(x as int, ((src * 2) % 256) as u8).update(15, (src / 128) as u8),
                    ..s
                },
                event: Ok(StepEvent::Executed),
            }
        },
        Instr::SkipNeReg(x, y) => StepOutcome {
            post: VmState { pc: skip_pc(s, s.v[x as int] != s.v[y as int]), ..s },
            event: Ok(StepEvent::Executed),
        },
        Instr::SetIndex(a) => StepOutcome {
            post: VmState { i: a, ..s },
            event: Ok(StepEvent::Executed),
        },
        Instr::JumpV0(a) => StepOutcome {
            post: VmState { pc: (((a + s.v[0]) as int) % 4096) as u16, ..s },
            event: Ok(StepEvent::Executed),
        },
        Instr::RandMask(x, nn) => {
            let nrng = rng_next(s.rng);
            StepOutcome {
                post: VmState { v: s.v.update(x as int, rng_byte(nrng) & nn), rng: nrng, ..s },
                event: Ok(StepEvent::Executed),
            }
        },
        Instr::Draw(x, y, n) => {
            let sxi = (s.v[x as int] % 64) as int;
            let syi = (s.v[y as int] % 32) as int;
            let sprite = sprite_rows(s, n);
            let wrap = s.quirks.draw_wraps;
            let flag: u8 = if draw_collision(s.screen, sprite, sxi, syi, wrap) { 1 } else { 0 };
            StepOutcome {
                post: VmState {
                    screen: screen_after_draw(s.screen, sprite, sxi, syi, wrap),
                    v: s.v.update(15, flag),
                    ..s
                },
                event: Ok(StepEvent::Redraw),
            }
        },
        Instr::SkipKey(x) => StepOutcome {
            post: VmState { pc: skip_pc(s, s.keys[(s.v[x as int] % 16) as int]), ..s },
            event: Ok(StepEvent::Executed),
        },
        Instr::SkipNoKey(x) => StepOutcome {
            post: VmState { pc: skip_pc(s, !s.keys[(s.v[x as int] % 16) as int]), ..s },
            event: Ok(StepEvent::Executed),
        },
        Instr::GetDelay(x) => StepOutcome {
            post: VmState { v: s.v.update(x as int, s.delay), ..s },
            event: Ok(StepEvent::Executed),
        },
        Instr::WaitKey(x) => StepOutcome {
            post: VmState { mode: Mode::WaitingForKey(x), ..s },
            event: Ok(StepEvent::Executed),
        },
        Instr::SetDelay(x) => StepOutcome {
            post: VmState { delay: s.v[x as int], ..s },
            event: Ok(StepEvent::Executed),
        },
        Instr::SetSound(x) => StepOutcome {
            post: VmState { sound: s.v[x as int], ..s },
            event: Ok(StepEvent::Executed),
        },
        Instr::AddIndex(x) => StepOutcome {
            post: VmState { i: (((s.i + s.v[x as int]) as int) % 65536) as u16, ..s },
            event: Ok(StepEvent::Executed),
        },
        Instr::FontAddr(x) => StepOutcome {
            post: VmState { i: ((s.v[x as int] % 16) * 5) as u16, ..s },
            event: Ok(StepEvent::Executed),
        },
        Instr::StoreBcd(x) => {
            let val = s.v[x as int];
            StepOutcome {
                post: VmState {
                    mem: s.mem.update((s.i as int) % 4096, (val / 100) as u8)
                        .update((s.i + 1) % 4096, ((val / 10) % 10) as u8)
                        .update((s.i + 2) % 4096, (val % 10) as u8),
                    ..s
                },
                event: Ok(StepEvent::Executed),
            }
        },
        Instr::StoreRegs(x) => StepOutcome {
            post: VmState {
                mem: mem_after_store(s.mem, s.v, s.i as int, x as int + 1),
                i: if s.quirks.load_store_increments_index {
                    (((s.i + x + 1) as int) % 65536) as u16
                } else {
                    s.i
                },
                ..s
            },
            event: Ok(StepEvent::Executed),
        },
        Instr::LoadRegs(x) => StepOutcome {
            post: VmState {
                v: regs_after_load(s.v, s.mem, s.i as int, x as int + 1),
                i: if s.quirks.load_store_increments_index {
                    (((s.i + x + 1) as int) % 65536) as u16
                } else {
                    s.i
                },
                ..s
            },
            event: Ok(StepEvent::Executed),
        },
        Instr::Invalid(w) => if s.quirks.invalid_opcode_fatal {
            StepOutcome {
                post: VmState { mode: Mode::Halted(Fault::InvalidOpcode(w)), ..s },
                event: Err(Fault::InvalidOpcode(w)),
            }
        } else {
            StepOutcome { post: s, event: Ok(StepEvent::Executed) }
        },
    }
}

/// One whole step of the machine: the stored fault when halted, the key-wait
/// protocol when stalled, otherwise fetch, advance and execute.
pub open spec fn step_vm(s: VmState) -> StepOutcome {
    match s.mode {
        Mode::Halted(f) => StepOutcome { post: s, event: Err(f) },
        Mode::WaitingForKey(x) => {
            let k = first_pressed(s.keys, 0);
            if k == 16 {
                StepOutcome { post: s, event: Ok(StepEvent::Idle) }
            } else {
                StepOutcome {
                    post: VmState {
                        v: s.v.update(x as int, k as u8),
                        keys: s.keys.update(k, false),
                        mode: Mode::Running,
                        ..s
                    },
                    event: Ok(StepEvent::Executed),
                }
            }
        },
        Mode::Running => {
            let word = fetch_word(s);
            let s2 = VmState { pc: (((s.pc + 2) as int) % 4096) as u16, ..s };
            exec_instr_vm(s2, decode(word))
        },
    }
}

/// The machine after a timer tick: each nonzero timer goes down by one.
pub open spec fn ticked(s: VmState) -> VmState {
    VmState {
        delay: if s.delay > 0 { (s.delay - 1) as u8 } else { 0 },
        sound: if s.sound > 0 { (s.sound - 1) as u8 } else { 0 },
        ..s
    }
}

/// The CHIP-8 machine: memory, registers, call stack, frame buffer and
/// keypad, plus the interpreter mode, quirk configuration and pseudo-random
/// source. The interpreter alone mutates the owned entities; the host loads
/// programs, supplies key state and observes the display and sound flag.
pub struct Chip8 {
    pub mem: MemoryBank,
    pub regs: RegisterFile,
    pub stack: CallStack,
    pub display: FrameBuffer,
    pub input: InputState,
    pub mode: Mode,
    pub quirks: Quirks,
    pub rng: u16,
}

impl View for Chip8 {
    type V = VmState;

    open spec fn view(&self) -> VmState {
        VmState {
            mem: self.mem.bytes@,
            v: self.regs.v@,
            i: self.regs.i,
            pc: self.regs.pc,
            delay: self.regs.delay,
            sound: self.regs.sound,
            stack: self.stack.slots@,
            screen: self.display.pixels@,
            keys: self.input.keys@,
            mode: self.mode,
            quirks: self.quirks,
            rng: self.rng,
        }
    }
}

/// Masked address arithmetic: `i + k` within the 4096-byte address space.
fn index_addr(i: u16, k: u16) -> (r: u16)
    ensures
        r as int == (i + k) % 4096,
        r < 4096,
{
    ((i as u32 + k as u32) % 4096) as u16
}

impl Chip8 {
    pub open spec fn wf(self) -> bool {
        vm_wf(self@)
    }

    /// A machine with the given quirk configuration, reset to the
    /// construction state: font in low memory, everything else zero, program
    /// counter at 0x200.
    pub fn with_quirks(quirks: Quirks) -> (r: Chip8)
        ensures
            r.wf(),
            r@ == initial_vm(quirks),
    {
        Chip8 {
            mem: MemoryBank::new(),
            regs: RegisterFile::new(),
            stack: CallStack::new(),
            display: FrameBuffer::new(),
            input: InputState::new(),
            mode: Mode::Running,
            quirks,
            rng: RNG_SEED,
        }
    }

    /// A machine with the default quirk configuration.
    pub fn new() -> (r: Chip8)
        ensures
            r.wf(),
            r@ == initial_vm(default_quirks()),
    {
        Chip8::with_quirks(
            Quirks {
                shift_uses_vy: false,
                draw_wraps: false,
                load_store_increments_index: false,
                invalid_opcode_fatal: false,
            },
        )
    }

    /// Reinitializes every owned entity to its construction state, keeping
    /// the quirk configuration.
    pub fn reset(&mut self)
        ensures
            final(self).wf(),
            final(self)@ == initial_vm(old(self)@.quirks),
    {
        *self = Chip8::with_quirks(self.quirks);
    }

    /// Reseeds the pseudo-random source, e.g. from host wall time.
    pub fn seed_rng(&mut self, seed: u16)
        requires
            old(self).wf(),
        ensures
            final(self).wf(),
            final(self)@ == (VmState { rng: seed, ..old(self)@ }),
    {
        self.rng = seed;
    }

    /// Copies a program into memory at 0x200 and points the program counter
    /// there; rejects programs over 3584 bytes without touching anything.
    pub fn load_rom(&mut self, rom: &Vec<u8>) -> (r: Result<(), LoadError>)
        requires
            old(self).wf(),
        ensures
            final(self).wf(),
            rom@.len() > 3584 ==> r == Err::<(), LoadError>(LoadError::RomTooLarge)
                && final(self)@ == old(self)@,
            rom@.len() <= 3584 ==> r == Ok::<(), LoadError>(()) && final(self)@ == (VmState {
                mem: mem_with_rom(old(self)@.mem, rom@),
                pc: 0x200,
                ..old(self)@
            }),
    {
        if rom.len() > 3584 {
            return Err(LoadError::RomTooLarge);
        }
        self.mem.load(rom);
        self.regs.pc = 0x200;
        Ok(())
    }

    /// Host-side write of one keypad key.
    pub fn set_key(&mut self, k: u8, pressed: bool)
        requires
            old(self).wf(),
            k < 16,
        ensures
            final(self).wf(),
            final(self)@ == (VmState {
                keys: old(self)@.keys.update(k as int, pressed),
                ..old(self)@
            }),
    {
        self.input.set_key(k, pressed);
    }

    /// Read-only view of the 64x32 frame buffer, row-major.
    pub fn read_display(&self) -> (r: &Vec<bool>)
        ensures
            r@ == self@.screen,
    {
        &self.display.pixels
    }

    /// One pixel of the frame buffer.
    pub fn pixel(&self, px: usize, py: usize) -> (r: bool)
        requires
            self.wf(),
            px < 64,
            py < 32,
        ensures
            r == self@.screen[py * 64 + px],
    {
        self.display.pixel(px, py)
    }

    /// Whether the sound timer is running, i.e. a tone should play.
    pub fn sound_active(&self) -> (r: bool)
        ensures
            r == (self@.sound > 0),
    {
        self.regs.sound > 0
    }

    /// The instruction word at the program counter, big-endian.
    pub fn get_instruction(&self) -> (r: u16)
        requires
            self.wf(),
        ensures
            r == fetch_word(self@),
    {
        let hi = self.mem.read(self.regs.pc);
        let lo = self.mem.read(self.regs.pc + 1);
        crate::construct_u16(hi, lo)
    }

    /// Advances the program counter past one instruction.
    pub fn next_instruction(&mut self)
        requires
            old(self).wf(),
        ensures
            final(self).wf(),
            final(self)@ == (VmState {
                pc: (((old(self)@.pc + 2) as int) % 4096) as u16,
                ..old(self)@
            }),
    {
        self.regs.pc = (self.regs.pc + 2) % 4096;
    }

    /// Sends the program counter to `addr`, masked to 12 bits.
    pub fn goto(&mut self, addr: u16)
        requires
            old(self).wf(),
        ensures
            final(self).wf(),
            final(self)@ == (VmState { pc: ((addr as int) % 4096) as u16, ..old(self)@ }),
    {
        self.regs.pc = addr % 4096;
    }

    /// Decrements each nonzero timer by one; called at the fixed 60Hz
    /// cadence, independent of `step`.
    pub fn tick_timers(&mut self)
        requires
            old(self).wf(),
        ensures
            final(self).wf(),
            final(self)@ == ticked(old(self)@),
    {
        if self.regs.delay > 0 {
            self.regs.delay = self.regs.delay - 1;
        }
        if self.regs.sound > 0 {
            self.regs.sound = self.regs.sound - 1;
        }
    }

    /// Executes exactly one fetch-decode-execute step, or the key-wait or
    /// halted protocol, as `step_vm` specifies.
    pub fn step(&mut self) -> (r: Result<StepEvent, Fault>)
        requires
            old(self).wf(),
        ensures
            final(self).wf(),
            final(self)@ == step_vm(old(self)@).post,
            r == step_vm(old(self)@).event,
    {
        match self.mode {
            Mode::Halted(f) => Err(f),
            Mode::WaitingForKey(x) => {
                match self.input.first_down() {
                    None => Ok(StepEvent::Idle),
                    Some(k) => {
                        self.regs.v.set(x as usize, k);
                        self.input.set_key(k, false);
                        self.mode = Mode::Running;
                        Ok(StepEvent::Executed)
                    },
                }
            },
            Mode::Running => {
                let word = self.get_instruction();
                self.next_instruction();
                let instr = decode_instr(word);
                self.run_instr(instr)
            },
        }
    }

    /// Executes the draw instruction: reads the sprite rows from memory,
    /// XOR-blits them and records the collision flag in V[F].
    #[verifier::loop_isolation(false)]
    #[verifier::rlimit(100)]
    fn run_draw(&mut self, x: u8, y: u8, n: u8) -> (r: Result<StepEvent, Fault>)
        requires
            old(self).wf(),
            x < 16,
            y < 16,
            n < 16,
        ensures
            final(self).wf(),
            final(self)@ == exec_instr_vm(old(self)@, Instr::Draw(x, y, n)).post,
            r == exec_instr_vm(old(self)@, Instr::Draw(x, y, n)).event,
    {
        let sx = self.regs.get_v(x) % 64;
        let sy = self.regs.get_v(y) % 32;
        let i0 = self.regs.i;
        let mut sprite: Vec<u8> = Vec::new();
        let mut k: u16 = 0;
        while k < n as u16
            invariant
                k <= n as u16,
                sprite@.len() == k as int,
                forall|j: int| 0 <= j < k ==> sprite@[j] == self@.mem[(i0 + j) % 4096],
            decreases n as u16 - k,
        {
            let addr = index_addr(i0, k);
            sprite.push(self.mem.read(addr));
            k += 1;
        }
        proof {
            assert(sprite@ =~= sprite_rows(self@, n));
        }
        let colf = self.display.draw_sprite(sx, sy, &sprite, self.quirks.draw_wraps);
        self.regs.v.set(15, if colf { 1 } else { 0 });
        Ok(StepEvent::Redraw)
    }

    /// Executes the register-store instruction (FX55).
    #[verifier::loop_isolation(false)]
    #[verifier::rlimit(100)]
    fn run_store_regs(&mut self, x: u8) -> (r: Result<StepEvent, Fault>)
        requires
            old(self).wf(),
            x < 16,
        ensures
            final(self).wf(),
            final(self)@ == exec_instr_vm(old(self)@, Instr::StoreRegs(x)).post,
            r == exec_instr_vm(old(self)@, Instr::StoreRegs(x)).event,
    {
        let i0 = self.regs.i;
        let mut k: usize = 0;
        while k <= x as usize
            invariant
                k <= x as usize + 1,
                self@ == (VmState {
                    mem: mem_after_store(old(self)@.mem, old(self)@.v, i0 as int, k as int),
                    ..old(self)@
                }),
            decreases x as usize + 1 - k,
        {
            proof {
                lemma_store_keeps_len(old(self)@.mem, old(self)@.v, i0 as int, k as int);
                lemma_store_keeps_len(old(self)@.mem, old(self)@.v, i0 as int, k as int + 1);
            }
            let addr = index_addr(i0, k as u16);
            let vk = self.regs.v[k];
            self.mem.write(addr, vk);
            k += 1;
        }
        proof {
            lemma_store_keeps_len(old(self)@.mem, old(self)@.v, i0 as int, x as int + 1);
        }
        if self.quirks.load_store_increments_index {
            let t: u32 = i0 as u32 + x as u32 + 1;
            self.regs.i = (t % 65536) as u16;
        }
        Ok(StepEvent::Executed)
    }

    /// Executes the register-load instruction (FX65).
    #[verifier::loop_isolation(false)]
    #[verifier::rlimit(100)]
    fn run_load_regs(&mut self, x: u8) -> (r: Result<StepEvent, Fault>)
        requires
            old(self).wf(),
            x < 16,
        ensures
            final(self).wf(),
            final(self)@ == exec_instr_vm(old(self)@, Instr::LoadRegs(x)).post,
            r == exec_instr_vm(old(self)@, Instr::LoadRegs(x)).event,
    {
        let i0 = self.regs.i;
        let mut k: usize = 0;
        while k <= x as usize
            invariant
                k <= x as usize + 1,
                self@ == (VmState {
                    v: regs_after_load(old(self)@.v, old(self)@.mem, i0 as int, k as int),
                    ..old(self)@
                }),
            decreases x as usize + 1 - k,
        {
            proof {
                lemma_load_keeps_len(old(self)@.v, old(self)@.mem, i0 as int, k as int);
                lemma_load_keeps_len(old(self)@.v, old(self)@.mem, i0 as int, k as int + 1);
            }
            let addr = index_addr(i0, k as u16);
            let mk = self.mem.read(addr);
            self.regs.v.set(k, mk);
            k += 1;
        }
        proof {
            lemma_load_keeps_len(old(self)@.v, old(self)@.mem, i0 as int, x as int + 1);
        }
        if self.quirks.load_store_increments_index {
            let t: u32 = i0 as u32 + x as u32 + 1;
            self.regs.i = (t % 65536) as u16;
        }
        Ok(StepEvent::Executed)
    }

    /// Control flow and skips: clear, return, jumps, calls and the skip family.
    #[verifier::rlimit(80)]
    fn run_flow(&mut self, instr: Instr) -> (r: Result<StepEvent, Fault>)
        requires
            old(self).wf(),
            instr_ok(instr),
            ({
                ||| instr is Cls
                ||| instr is Ret
                ||| instr is Jump
                ||| instr is Call
                ||| instr is SkipEqImm
                ||| instr is SkipNeImm
                ||| instr is SkipEqReg
                ||| instr is SkipNeReg
                ||| instr is SkipKey
                ||| instr is SkipNoKey
            }),
        ensures
            final(self).wf(),
            final(self)@ == exec_instr_vm(old(self)@, instr).post,
            r == exec_instr_vm(old(self)@, instr).event,
    {
        match instr {
            Instr::Cls => {
                self.display.clear();
                Ok(StepEvent::Redraw)
            },
            Instr::Ret => {
                match self.stack.pop_addr() {
                    None => {
                        self.mode = Mode::Halted(Fault::StackUnderflow);
                        Err(Fault::StackUnderflow)
                    },
                    Some(a) => {
                        self.goto(a);
                        Ok(StepEvent::Executed)
                    },
                }
            },
            Instr::Jump(a) => {
                self.regs.pc = a;
                Ok(StepEvent::Executed)
            },
            Instr::Call(a) => {
                let pc_now = self.regs.pc;
                if self.stack.push_addr(pc_now) {
                    self.regs.pc = a;
                    Ok(StepEvent::Executed)
                } else {
                    self.mode = Mode::Halted(Fault::StackOverflow);
                    Err(Fault::StackOverflow)
                }
            },
            Instr::SkipEqImm(x, nn) => {
                if self.regs.get_v(x) == nn {
                    self.next_instruction();
                }
                Ok(StepEvent::Executed)
            },
            Instr::SkipNeImm(x, nn) => {
                if self.regs.get_v(x) != nn {
                    self.next_instruction();
                }
                Ok(StepEvent::Executed)
            },
            Instr::SkipEqReg(x, y) => {
                if self.regs.get_v(x) == self.regs.get_v(y) {
                    self.next_instruction();
                }
                Ok(StepEvent::Executed)
            },
            Instr::SkipNeReg(x, y) => {
                if self.regs.get_v(x) != self.regs.get_v(y) {
                    self.next_instruction();
                }
                Ok(StepEvent::Executed)
            },
            Instr::SkipKey(x) => {
                let k = self.regs.get_v(x) % 16;
                if self.input.key_down(k) {
                    self.next_instruction();
                }
                Ok(StepEvent::Executed)
            },
            Instr::SkipNoKey(x) => {
                let k = self.regs.get_v(x) % 16;
                if !self.input.key_down(k) {
                    self.next_instruction();
                }
                Ok(StepEvent::Executed)
            },
            _ => unreached(),
        }
    }

    /// Register moves, immediate and register arithmetic, bitwise ops and shifts.
    #[verifier::rlimit(80)]
    fn run_alu(&mut self, instr: Instr) -> (r: Result<StepEvent, Fault>)
        requires
            old(self).wf(),
            instr_ok(instr),
            ({
                ||| instr is SetImm
                ||| instr is AddImm
                ||| instr is MovReg
                ||| instr is OrReg
                ||| instr is AndReg
                ||| instr is XorReg
                ||| instr is AddReg
                ||| instr is SubReg
                ||| instr is ShrReg
                ||| instr is SubnReg
                ||| instr is ShlReg
            }),
        ensures
            final(self).wf(),
            final(self)@ == exec_instr_vm(old(self)@, instr).post,
            r == exec_instr_vm(old(self)@, instr).event,
    {
        match instr {
            Instr::SetImm(x, nn) => {
                self.regs.v.set(x as usize, nn);
                Ok(StepEvent::Executed)
            },
            Instr::AddImm(x, nn) => {
                let sum: u16 = self.regs.get_v(x) as u16 + nn as u16;
                self.regs.v.set(x as usize, (sum % 256) as u8);
                Ok(StepEvent::Executed)
            },
            Instr::MovReg(x, y) => {
                let vy = self.regs.get_v(y);
                self.regs.v.set(x as usize, vy);
                Ok(StepEvent::Executed)
            },
            Instr::OrReg(x, y) => {
                let r: u8 = self.regs.get_v(x) | self.regs.get_v(y);
                self.regs.v.set(x as usize, r);
                Ok(StepEvent::Executed)
            },
            Instr::AndReg(x, y) => {
                let r: u8 = self.regs.get_v(x) & self.regs.get_v(y);
                self.regs.v.set(x as usize, r);
                Ok(StepEvent::Executed)
            },
            Instr::XorReg(x, y) => {
                let r: u8 = self.regs.get_v(x) ^ self.regs.get_v(y);
                self.regs.v.set(x as usize, r);
                Ok(StepEvent::Executed)
            },
            Instr::AddReg(x, y) => {
                let sum: u16 = self.regs.get_v(x) as u16 + self.regs.get_v(y) as u16;
                self.regs.v.set(x as usize, (sum % 256) as u8);
                self.regs.v.set(15, if sum > 255 { 1 } else { 0 });
                Ok(StepEvent::Executed)
            },
            Instr::SubReg(x, y) => {
                let vx = self.regs.get_v(x);
                let vy = self.regs.get_v(y);
                let flag: u8 = if vx >= vy { 1 } else { 0 };
                let diff: u16 = (vx as u16 + 256 - vy as u16) % 256;
                self.regs.v.set(x as usize, diff as u8);
                self.regs.v.set(15, flag);
                Ok(StepEvent::Executed)
            },
            Instr::ShrReg(x, y) => {
                let src = if self.quirks.shift_uses_vy {
                    self.regs.get_v(y)
                } else {
                    self.regs.get_v(x)
                };
                self.regs.v.set(x as usize, src / 2);
                self.regs.v.set(15, src % 2);
                Ok(StepEvent::Executed)
            },
            Instr::SubnReg(x, y) => {
                let vx = self.regs.get_v(x);
                let vy = self.regs.get_v(y);
                let flag: u8 = if vy >= vx { 1 } else { 0 };
                let diff: u16 = (vy as u16 + 256 - vx as u16) % 256;
                self.regs.v.set(x as usize, diff as u8);
                self.regs.v.set(15, flag);
                Ok(StepEvent::Executed)
            },
            Instr::ShlReg(x, y) => {
                let src = if self.quirks.shift_uses_vy {
                    self.regs.get_v(y)
                } else {
                    self.regs.get_v(x)
                };
                self.regs.v.set(x as usize, ((src as u16 * 2) % 256) as u8);
                self.regs.v.set(15, src / 128);
                Ok(StepEvent::Executed)
            },
            _ => unreached(),
        }
    }

    /// Index, random, timer, font, BCD and undefined-opcode handling.
    #[verifier::rlimit(80)]
    fn run_misc(&mut self, instr: Instr) -> (r: Result<StepEvent, Fault>)
        requires
            old(self).wf(),
            instr_ok(instr),
            ({
                ||| instr is SetIndex
                ||| instr is JumpV0
                ||| instr is RandMask
                ||| instr is GetDelay
                ||| instr is WaitKey
                ||| instr is SetDelay
                ||| instr is SetSound
                ||| instr is AddIndex
                ||| instr is FontAddr
                ||| instr is StoreBcd
                ||| instr is Invalid
            }),
        ensures
            final(self).wf(),
            final(self)@ == exec_instr_vm(old(self)@, instr).post,
            r == exec_instr_vm(old(self)@, instr).event,
    {
        match instr {
            Instr::SetIndex(a) => {
                self.regs.i = a;
                Ok(StepEvent::Executed)
            },
            Instr::JumpV0(a) => {
                let t: u16 = a + self.regs.get_v(0) as u16;
                self.regs.pc = t % 4096;
                Ok(StepEvent::Executed)
            },
            Instr::RandMask(x, nn) => {
                let wide: u32 = self.rng as u32 * 25173 + 13849;
                let nrng: u16 = (wide % 65536) as u16;
                self.rng = nrng;
                let b: u8 = ((nrng / 256) % 256) as u8;
                self.regs.v.set(x as usize, b & nn);
                Ok(StepEvent::Executed)
            },
            Instr::GetDelay(x) => {
                let d = self.regs.delay;
                self.regs.v.set(x as usize, d);
                Ok(StepEvent::Executed)
            },
            Instr::WaitKey(x) => {
                self.mode = Mode::WaitingForKey(x);
                Ok(StepEvent::Executed)
            },
            Instr::SetDelay(x) => {
                self.regs.delay = self.regs.get_v(x);
                Ok(StepEvent::Executed)
            },
            Instr::SetSound(x) => {
                self.regs.sound = self.regs.get_v(x);
                Ok(StepEvent::Executed)
            },
            Instr::AddIndex(x) => {
                let t: u32 = self.regs.i as u32 + self.regs.get_v(x) as u32;
                self.regs.i = (t % 65536) as u16;
                Ok(StepEvent::Executed)
            },
            Instr::FontAddr(x) => {
                self.regs.i = (self.regs.get_v(x) % 16) as u16 * 5;
                Ok(StepEvent::Executed)
            },
            Instr::StoreBcd(x) => {
                let val = self.regs.get_v(x);
                let i0 = self.regs.i;
                self.mem.write(index_addr(i0, 0), val / 100);
                self.mem.write(index_addr(i0, 1), (val / 10) % 10);
                self.mem.write(index_addr(i0, 2), val % 10);
                Ok(StepEvent::Executed)
            },
            Instr::Invalid(w) => {
                if self.quirks.invalid_opcode_fatal {
                    self.mode = Mode::Halted(Fault::InvalidOpcode(w));
                    Err(Fault::InvalidOpcode(w))
                } else {
                    Ok(StepEvent::Executed)
                }
            },
            _ => unreached(),
        }
    }

    /// Applies one decoded instruction to a machine whose program counter
    /// has already advanced past it.
    fn run_instr(&mut self, instr: Instr) -> (r: Result<StepEvent, Fault>)
        requires
            old(self).wf(),
            instr_ok(instr),
        ensures
            final(self).wf(),
            final(self)@ == exec_instr_vm(old(self)@, instr).post,
            r == exec_instr_vm(old(self)@, instr).event,
    {
        match instr {
            Instr::Cls => self.run_flow(instr),
            Instr::Ret => self.run_flow(instr),
            Instr::Jump(a) => self.run_flow(instr),
            Instr::Call(a) => self.run_flow(instr),
            Instr::SkipEqImm(x, nn) => self.run_flow(instr),
            Instr::SkipNeImm(x, nn) => self.run_flow(instr),
            Instr::SkipEqReg(x, y) => self.run_flow(instr),
            Instr::SkipNeReg(x, y) => self.run_flow(instr),
            Instr::SkipKey(x) => self.run_flow(instr),
            Instr::SkipNoKey(x) => self.run_flow(instr),
            Instr::SetImm(x, nn) => self.run_alu(instr),
            Instr::AddImm(x, nn) => self.run_alu(instr),
            Instr::MovReg(x, y) => self.run_alu(instr),
            Instr::OrReg(x, y) => self.run_alu(instr),
            Instr::AndReg(x, y) => self.run_alu(instr),
            Instr::XorReg(x, y) => self.run_alu(instr),
            Instr::AddReg(x, y) => self.run_alu(instr),
            Instr::SubReg(x, y) => self.run_alu(instr),
            Instr::ShrReg(x, y) => self.run_alu(instr),
            Instr::SubnReg(x, y) => self.run_alu(instr),
            Instr::ShlReg(x, y) => self.run_alu(instr),
            Instr::SetIndex(a) => self.run_misc(instr),
            Instr::JumpV0(a) => self.run_misc(instr),
            Instr::RandMask(x, nn) => self.run_misc(instr),
            Instr::GetDelay(x) => self.run_misc(instr),
            Instr::WaitKey(x) => self.run_misc(instr),
            Instr::SetDelay(x) => self.run_misc(instr),
            Instr::SetSound(x) => self.run_misc(instr),
            Instr::AddIndex(x) => self.run_misc(instr),
            Instr::FontAddr(x) => self.run_misc(instr),
            Instr::StoreBcd(x) => self.run_misc(instr),
            Instr::Invalid(w) => self.run_misc(instr),
            Instr::Draw(x, y, n) => self.run_draw(x, y, n),
            Instr::StoreRegs(x) => self.run_store_regs(x),
            Instr::LoadRegs(x) => self.run_load_regs(x),
        }
    }
}

} // verus!
