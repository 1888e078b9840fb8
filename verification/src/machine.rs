//! The architectural state of the CHIP-8 machine.
//!
//! `Chip8` is the executable state; `MachineV` is its mathematical view,
//! over which all contracts are stated.  Construction places the hex-digit
//! font at `FONT_BASE` and the program counter at `PC_START`; a ROM is
//! loaded verbatim at `PC_START`.

use vstd::prelude::*;

verus! {

/// Lowest address of the built-in font: 16 glyphs of 5 bytes each.
pub const FONT_BASE: usize = 0x50;

/// Address at which programs are loaded and execution starts.
pub const PC_START: u16 = 0x200;

/// Largest ROM that fits between `PC_START` and the end of memory.
pub const MAX_ROM_LEN: usize = 3584;

/// Seed of the deterministic pseudo-random generator used by `RND`.
pub const RNG_SEED: u16 = 0x13B7;

/// Behavioural options on which historical CHIP-8 interpreters disagree.
///
/// Each option selects one of two documented conventions; neither choice is
/// an error.  The modern convention is `legacy_shift = false`,
/// `increment_index = false`, `wrap_sprites = true`.
#[derive(Clone, Copy, PartialEq, Eq, Structural, Debug)]
pub struct Quirks {
    /// `SHL`/`SHR` shift `Vy` into `Vx` (original COSMAC VIP) instead of
    /// shifting `Vx` in place.
    pub legacy_shift: bool,
    /// `LD [I], Vx` and `LD Vx, [I]` leave `I` advanced past the block
    /// (original behaviour) instead of leaving it unchanged.
    pub increment_index: bool,
    /// Sprite pixels past the screen edge wrap to the opposite edge
    /// instead of being clipped.
    pub wrap_sprites: bool,
}

impl Quirks {
    /// The modern default convention.
    pub fn modern() -> (q: Quirks)
        ensures
            q == (Quirks { legacy_shift: false, increment_index: false, wrap_sprites: true }),
    {
        Quirks { legacy_shift: false, increment_index: false, wrap_sprites: true }
    }
}

/// Everything that can go wrong while loading or running a program.
///
/// A fault is reported as an error value; the engine never panics and
/// never applies a partial effect of a faulting instruction.
#[derive(Clone, Copy, PartialEq, Eq, Structural, Debug)]
pub enum Fault {
    /// The ROM does not fit between `PC_START` and the end of memory.
    RomTooLarge,
    /// The fetched instruction word has no defined semantics.
    UnknownOpcode(u16),
    /// A seventeenth nested `CALL`.
    StackOverflow,
    /// `RET` with an empty stack.
    StackUnderflow,
    /// A fetch or a memory-block access past address `0xFFF`.
    MemoryOutOfRange,
}

/// The abstract machine state: the view of [`Chip8`].
#[verifier::ext_equal]
pub struct MachineV {
    /// 4096 bytes of memory.
    pub mem: Seq<u8>,
    /// The sixteen general registers `V0`..`VF`.
    pub regs: Seq<u8>,
    /// The sixteen return-address slots; `stack[0 .. sp]` are live.
    pub stack: Seq<u16>,
    /// Number of live stack entries, `0 ..= 16`.
    pub sp: int,
    /// The index register `I`.
    pub index: u16,
    /// The program counter.
    pub pc: u16,
    /// The delay timer.
    pub delay: u8,
    /// The sound timer.
    pub sound: u8,
    /// The 64x32 framebuffer, row-major: pixel `(col, row)` is
    /// `video[row * 64 + col]`.
    pub video: Seq<bool>,
    /// The sixteen key states, pressed = `true`.
    pub keys: Seq<bool>,
    /// `Some(x)` while a `LD Vx, K` instruction is waiting for a key.
    pub waiting: Option<u8>,
    /// State of the pseudo-random generator.
    pub rng: u16,
    /// The configured behavioural options.
    pub quirks: Quirks,
}

impl MachineV {
    /// Well-formedness: the sizes fixed by the architecture and the ranges
    /// that every reachable state keeps.
    ///
    /// The program counter stays below `0x1100`: jumps target at most
    /// `0xFFF + 0xFF` (`JP V0, nnn`) and a fetch only happens below
    /// `0xFFF`, so advancing and skipping stay below `0x1003`.  Stack
    /// entries are pushed program counters, so the same bound holds of
    /// them.
    pub open spec fn wf(self) -> bool {
        &&& self.mem.len() == 4096
        &&& self.regs.len() == 16
        &&& self.stack.len() == 16
        &&& self.video.len() == 2048
        &&& self.keys.len() == 16
        &&& 0 <= self.sp <= 16
        &&& self.index < 4096
        &&& self.pc < 0x1100
        &&& forall|k: int| 0 <= k < 16 ==> self.stack[k] < 0x1100
        &&& match self.waiting {
            Some(x) => x < 16,
            None => true,
        }
    }
}

/// The executable CHIP-8 machine state.
pub struct Chip8 {
    pub(crate) memory: [u8; 4096],
    pub(crate) registers: [u8; 16],
    pub(crate) stack: [u16; 16],
    pub(crate) sp: usize,
    pub(crate) index: u16,
    pub(crate) pc: u16,
    pub(crate) delay_timer: u8,
    pub(crate) sound_timer: u8,
    pub(crate) video: [bool; 2048],
    pub(crate) keypad: [bool; 16],
    pub(crate) waiting: Option<u8>,
    pub(crate) rng: u16,
    pub(crate) quirks: Quirks,
}

impl View for Chip8 {
    type V = MachineV;

    open(crate) spec fn view(&self) -> MachineV {
        MachineV {
            mem: self.memory@,
            regs: self.registers@,
            stack: self.stack@,
            sp: self.sp as int,
            index: self.index,
            pc: self.pc,
            delay: self.delay_timer,
            sound: self.sound_timer,
            video: self.video@,
            keys: self.keypad@,
            waiting: self.waiting,
            rng: self.rng,
            quirks: self.quirks,
        }
    }
}

/// The 80 bytes of the built-in font: one 5-byte glyph per hex digit.
pub open spec fn font_seq() -> Seq<u8> {
    seq![
        0xF0, 0x90, 0x90, 0x90, 0xF0, // 0
        0x20, 0x60, 0x20, 0x20, 0x70, // 1
        0xF0, 0x10, 0xF0, 0x80, 0xF0, // 2
        0xF0, 0x10, 0xF0, 0x10, 0xF0, // 3
        0x90, 0x90, 0xF0, 0x10, 0x10, // 4
        0xF0, 0x80, 0xF0, 0x10, 0xF0, // 5
        0xF0, 0x80, 0xF0, 0x90, 0xF0, // 6
        0xF0, 0x10, 0x20, 0x40, 0x40, // 7
        0xF0, 0x90, 0xF0, 0x90, 0xF0, // 8
        0xF0, 0x90, 0xF0, 0x10, 0xF0, // 9
        0xF0, 0x90, 0xF0, 0x90, 0x90, // A
        0xE0, 0x90, 0xE0, 0x90, 0xE0, // B
        0xF0, 0x80, 0x80, 0x80, 0xF0, // C
        0xE0, 0x90, 0x90, 0x90, 0xE0, // D
        0xF0, 0x80, 0xF0, 0x80, 0xF0, // E
        0xF0, 0x80, 0xF0, 0x80, 0x80, // F
    ]
}

/// `mem` with the font written at `FONT_BASE`.
pub open spec fn with_font(mem: Seq<u8>) -> Seq<u8> {
    Seq::new(4096, |a: int|
        if FONT_BASE <= a < FONT_BASE + 80 { font_seq()[a - FONT_BASE] } else { mem[a] })
}

/// `mem` with `rom` written at `PC_START`.
pub open spec fn with_rom(mem: Seq<u8>, rom: Seq<u8>) -> Seq<u8> {
    Seq::new(4096, |a: int|
        if PC_START <= a < PC_START + rom.len() { rom[a - PC_START] } else { mem[a] })
}

/// The state of a freshly constructed machine: all-zero memory except the
/// font, cleared registers and framebuffer, `pc` at `PC_START`.
pub open spec fn initial_machine(quirks: Quirks) -> MachineV {
    MachineV {
        mem: with_font(Seq::new(4096, |a: int| 0u8)),
        regs: Seq::new(16, |i: int| 0u8),
        stack: Seq::new(16, |i: int| 0u16),
        sp: 0,
        index: 0,
        pc: PC_START,
        delay: 0,
        sound: 0,
        video: Seq::new(2048, |p: int| false),
        keys: Seq::new(16, |k: int| false),
        waiting: None,
        rng: RNG_SEED,
        quirks,
    }
}

/// A countdown-timer step: down by one, floored at zero.
pub open spec fn timer_dec(t: u8) -> u8 {
    if t > 0 { (t - 1) as u8 } else { 0 }
}

/// The font glyph table, as the host or a loader may want it.
pub fn get_fontset() -> (r: [u8; 80])
    ensures
        r@ == font_seq(),
{
    let r: [u8; 80] = [
        0xF0, 0x90, 0x90, 0x90, 0xF0, // 0
        0x20, 0x60, 0x20, 0x20, 0x70, // 1
        0xF0, 0x10, 0xF0, 0x80, 0xF0, // 2
        0xF0, 0x10, 0xF0, 0x10, 0xF0, // 3
        0x90, 0x90, 0xF0, 0x10, 0x10, // 4
        0xF0, 0x80, 0xF0, 0x10, 0xF0, // 5
        0xF0, 0x80, 0xF0, 0x90, 0xF0, // 6
        0xF0, 0x10, 0x20, 0x40, 0x40, // 7
        0xF0, 0x90, 0xF0, 0x90, 0xF0, // 8
        0xF0, 0x90, 0xF0, 0x10, 0xF0, // 9
        0xF0, 0x90, 0xF0, 0x90, 0x90, // A
        0xE0, 0x90, 0xE0, 0x90, 0xE0, // B
        0xF0, 0x80, 0x80, 0x80, 0xF0, // C
        0xE0, 0x90, 0x90, 0x90, 0xE0, // D
        0xF0, 0x80, 0xF0, 0x80, 0xF0, // E
        0xF0, 0x80, 0xF0, 0x80, 0x80, // F
    ];
    assert(r@ =~= font_seq());
    r
}

/// Writes the font glyphs into low memory at `FONT_BASE`.
pub fn load_fontset(chip8: &mut Chip8)
    ensures
        final(chip8)@ == (MachineV { mem: with_font(old(chip8)@.mem), ..old(chip8)@ }),
{
    let font = get_fontset();
    let mut idx: usize = 0;
    while idx < 80
        invariant
            idx <= 80,
            font@ == font_seq(),
            chip8@ == (MachineV { mem: chip8@.mem, ..old(chip8)@ }),
            forall|a: int| 0 <= a < 4096 ==> chip8@.mem[a] == (
                if FONT_BASE <= a < FONT_BASE + idx { font_seq()[a - FONT_BASE] }
                else { old(chip8)@.mem[a] }),
        decreases 80 - idx,
    {
        chip8.memory[FONT_BASE + idx] = font[idx];
        idx = idx + 1;
    }
    assert(chip8@.mem =~= with_font(old(chip8)@.mem));
}

/// Builds a machine with the given behavioural options: zeroed state, font
/// in place, `pc` at `PC_START`.
pub fn build_chip8_with(quirks: Quirks) -> (c: Chip8)
    ensures
        c@ == initial_machine(quirks),
        c@.wf(),
{
    let mut c = Chip8 {
        memory: [0; 4096],
        registers: [0; 16],
        stack: [0; 16],
        sp: 0,
        index: 0,
        pc: PC_START,
        delay_timer: 0,
        sound_timer: 0,
        video: [false; 2048],
        keypad: [false; 16],
        waiting: None,
        rng: RNG_SEED,
        quirks,
    };
    load_fontset(&mut c);
    assert(c@.mem =~= initial_machine(quirks).mem);
    assert(c@.regs =~= initial_machine(quirks).regs);
    assert(c@.stack =~= initial_machine(quirks).stack);
    assert(c@.video =~= initial_machine(quirks).video);
    assert(c@.keys =~= initial_machine(quirks).keys);
    c
}

/// Builds a machine with the modern default options.
pub fn build_chip8() -> (c: Chip8)
    ensures
        c@ == initial_machine(Quirks { legacy_shift: false, increment_index: false, wrap_sprites: true }),
        c@.wf(),
{
    build_chip8_with(Quirks::modern())
}

impl Chip8 {
    /// Whether the machine state is well formed; established by
    /// construction and preserved by every operation.
    pub open spec fn wf(&self) -> bool {
        self@.wf()
    }

    /// Writes `rom` verbatim at `PC_START`, rejecting one that does not
    /// fit in the address space.
    pub fn load_rom(&mut self, rom: &Vec<u8>) -> (r: Result<(), Fault>)
        ensures
            (r is Ok) == (rom@.len() <= MAX_ROM_LEN),
            r is Ok ==> final(self)@ == (MachineV {
                mem: with_rom(old(self)@.mem, rom@),
                ..old(self)@
            }),
            r is Err ==> r->Err_0 == Fault::RomTooLarge && final(self)@ == old(self)@,
    {
        if rom.len() > MAX_ROM_LEN {
            return Err(Fault::RomTooLarge);
        }
        let base: usize = PC_START as usize;
        let mut idx: usize = 0;
        while idx < rom.len()
            invariant
                idx <= rom@.len(),
                rom@.len() <= MAX_ROM_LEN,
                self@ == (MachineV { mem: self@.mem, ..old(self)@ }),
                base == PC_START,
                forall|a: int| 0 <= a < 4096 ==> self@.mem[a] == (
                    if PC_START <= a < PC_START + idx { rom@[a - PC_START] }
                    else { old(self)@.mem[a] }),
            decreases rom@.len() - idx,
        {
            self.memory[base + idx] = rom[idx];
            idx = idx + 1;
        }
        assert(self@.mem =~= with_rom(old(self)@.mem, rom@));
        Ok(())
    }

    /// One 60 Hz clock step: each timer goes down by one, floored at zero.
    ///
    /// The host calls this at 60 Hz, independently of the instruction
    /// rate; `cycle` never touches the timers.
    pub fn update_timers(&mut self)
        ensures
            final(self)@ == (MachineV {
                delay: timer_dec(old(self)@.delay),
                sound: timer_dec(old(self)@.sound),
                ..old(self)@
            }),
    {
        if self.delay_timer > 0 {
            self.delay_timer = self.delay_timer - 1;
        }
        if self.sound_timer > 0 {
            self.sound_timer = self.sound_timer - 1;
        }
    }

    /// Whether the host should have sound playing: true exactly while the
    /// sound timer is above zero.
    pub fn play_sound(&self) -> (active: bool)
        ensures
            active == (self@.sound > 0),
    {
        self.sound_timer > 0
    }

    /// Records a key press or release from the host's input device.
    pub fn set_key(&mut self, key: u8, pressed: bool)
        requires
            key < 16,
        ensures
            final(self)@ == (MachineV {
                keys: old(self)@.keys.update(key as int, pressed),
                ..old(self)@
            }),
    {
        self.keypad[key as usize] = pressed;
    }

    /// The program counter.
    pub fn pc(&self) -> (r: u16)
        ensures
            r == self@.pc,
    {
        self.pc
    }

    /// The value of general register `Vx`.
    pub fn register(&self, x: u8) -> (r: u8)
        requires
            x < 16,
            self.wf(),
        ensures
            r == self@.regs[x as int],
    {
        self.registers[x as usize]
    }

    /// The index register `I`.
    pub fn index_register(&self) -> (r: u16)
        ensures
            r == self@.index,
    {
        self.index
    }

    /// The delay timer.
    pub fn delay_timer(&self) -> (r: u8)
        ensures
            r == self@.delay,
    {
        self.delay_timer
    }

    /// The sound timer.
    pub fn sound_timer(&self) -> (r: u8)
        ensures
            r == self@.sound,
    {
        self.sound_timer
    }

    /// Pixel `(col, row)` of the framebuffer, for the renderer.
    pub fn pixel(&self, col: usize, row: usize) -> (r: bool)
        requires
            col < 64,
            row < 32,
            self.wf(),
        ensures
            r == self@.video[row * 64 + col],
    {
        self.video[row * 64 + col]
    }

    /// `Some(x)` while a `LD Vx, K` instruction is waiting for a key.
    pub fn waiting_for_key(&self) -> (r: Option<u8>)
        ensures
            r == self@.waiting,
    {
        self.waiting
    }
}

} // verus!
