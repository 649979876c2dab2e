use vstd::prelude::*;

use crate::delay::Delay;
use crate::display::{Display, row_applied, row_collides};
use crate::keyboard::Keyboard;
use crate::sound::Sound;

verus! {

/// Relies on rand::random: one byte drawn from the thread-local generator.
/// Nothing is assumed of the value.
#[verifier::external_body]
fn random_byte() -> u8 {
    rand::random::<u8>()
}

/// The two fatal conditions: an instruction word that matches no recognized
/// nibble pattern, and a memory, register-file or call-stack access that
/// would leave its fixed capacity. Each carries the offending instruction
/// word and the program counter it was fetched from.
#[derive(Clone, Copy, PartialEq, Eq, Structural, Debug)]
pub enum VmError {
    InvalidOpcode(u16, u16),
    OutOfBoundsAccess(u16, u16),
}

/// One decoded instruction. Register indices are 4-bit (below 16),
/// addresses 12-bit (below 4096), sprite heights 4-bit.
#[derive(Clone, Copy, PartialEq, Eq, Structural, Debug)]
pub enum Instr {
    /// 00E0: every pixel off.
    Cls,
    /// 00EE: pop the stack and jump to the popped address.
    Ret,
    /// Any other word with leading nibble 0: the halt sentinel; the driving
    /// loop sees the maximum representable address as the next counter.
    Halt,
    /// 1nnn: jump.
    Jump(u16),
    /// 2nnn: push the return address and jump.
    Call(u16),
    /// 3xkk: skip the next instruction when Vx equals the immediate.
    SkipEqImm(u8, u8),
    /// 4xkk: skip when Vx differs from the immediate.
    SkipNeImm(u8, u8),
    /// 5xy0: skip when Vx equals Vy.
    SkipEqReg(u8, u8),
    /// 6xkk: load the immediate into Vx.
    LoadImm(u8, u8),
    /// 7xkk: add the immediate into Vx, wrapping, flag untouched.
    AddImm(u8, u8),
    /// 8xy0: copy Vy into Vx.
    Move(u8, u8),
    /// 8xy1: bitwise or.
    Or(u8, u8),
    /// 8xy2: bitwise and.
    And(u8, u8),
    /// 8xy3: bitwise exclusive or.
    Xor(u8, u8),
    /// 8xy4: add with carry into the flag register.
    AddReg(u8, u8),
    /// 8xy5: Vx minus Vy, flag 1 exactly when Vx > Vy.
    SubReg(u8, u8),
    /// 8xy6: shift Vx right by one, flag takes the old low bit.
    ShiftRight(u8),
    /// 8xy7: Vy minus Vx, flag 1 exactly when Vy > Vx.
    SubFrom(u8, u8),
    /// 8xyE: shift Vx left by one, flag takes the old high bit.
    ShiftLeft(u8),
    /// 9xy0: skip when Vx differs from Vy.
    SkipNeReg(u8, u8),
    /// Annn: load the index register.
    SetIndex(u16),
    /// Bnnn: jump to nnn plus V0.
    JumpOffset(u16),
    /// Cxkk: a random byte masked by the immediate into Vx.
    Random(u8, u8),
    /// Dxyn: draw a sprite of the given height at (Vx, Vy).
    Draw(u8, u8, u8),
    /// Ex9E: skip when the last latched key equals Vx, consuming the latch.
    SkipKey(u8),
    /// ExA1: skip when no key is latched or the last one differs from Vx;
    /// a matching key is consumed without a skip.
    SkipNoKey(u8),
    /// Fx07: read the delay timer into Vx.
    ReadDelay(u8),
    /// Fx0A: wait for a key; without one the counter does not advance.
    WaitKey(u8),
    /// Fx15: load the delay timer from Vx.
    SetDelay(u8),
    /// Fx18: load the sound timer from Vx.
    SetSound(u8),
    /// Fx1E: add Vx into the index register, wrapping.
    AddIndex(u8),
    /// Fx29: point the index register at the font glyph for Vx.
    FontGlyph(u8),
    /// Fx33: store the decimal digits of Vx at the index address.
    StoreBcd(u8),
    /// Fx55: dump registers 0 through x to memory at the index address.
    DumpRegs(u8),
    /// Fx65: load registers 0 through x from memory at the index address.
    LoadRegs(u8),
}

/// The decode table: four 4-bit fields select among the recognized
/// operations; a pattern outside the table decodes to nothing.
pub open spec fn spec_decode(w: u16) -> Option<Instr> {
    let n0 = w / 0x1000;
    let x = ((w / 0x100) % 0x10) as u8;
    let y = ((w / 0x10) % 0x10) as u8;
    let n3 = w % 0x10;
    let nnn = w % 0x1000;
    let kk = (w % 0x100) as u8;
    let n = (w % 0x10) as u8;
    if n0 == 0x0 {
        if w == 0x00E0 {
            Some(Instr::Cls)
        } else if w == 0x00EE {
            Some(Instr::Ret)
        } else {
            Some(Instr::Halt)
        }
    } else if n0 == 0x1 {
        Some(Instr::Jump(nnn))
    } else if n0 == 0x2 {
        Some(Instr::Call(nnn))
    } else if n0 == 0x3 {
        Some(Instr::SkipEqImm(x, kk))
    } else if n0 == 0x4 {
        Some(Instr::SkipNeImm(x, kk))
    } else if n0 == 0x5 {
        if n3 == 0x0 {
            Some(Instr::SkipEqReg(x, y))
        } else {
            None
        }
    } else if n0 == 0x6 {
        Some(Instr::LoadImm(x, kk))
    } else if n0 == 0x7 {
        Some(Instr::AddImm(x, kk))
    } else if n0 == 0x8 {
        if n3 == 0x0 {
            Some(Instr::Move(x, y))
        } else if n3 == 0x1 {
            Some(Instr::Or(x, y))
        } else if n3 == 0x2 {
            Some(Instr::And(x, y))
        } else if n3 == 0x3 {
            Some(Instr::Xor(x, y))
        } else if n3 == 0x4 {
            Some(Instr::AddReg(x, y))
        } else if n3 == 0x5 {
            Some(Instr::SubReg(x, y))
        } else if n3 == 0x6 {
            Some(Instr::ShiftRight(x))
        } else if n3 == 0x7 {
            Some(Instr::SubFrom(x, y))
        } else if n3 == 0xE {
            Some(Instr::ShiftLeft(x))
        } else {
            None
        }
    } else if n0 == 0x9 {
        if n3 == 0x0 {
            Some(Instr::SkipNeReg(x, y))
        } else {
            None
        }
    } else if n0 == 0xA {
        Some(Instr::SetIndex(nnn))
    } else if n0 == 0xB {
        Some(Instr::JumpOffset(nnn))
    } else if n0 == 0xC {
        Some(Instr::Random(x, kk))
    } else if n0 == 0xD {
        Some(Instr::Draw(x, y, n))
    } else if n0 == 0xE {
        if kk == 0x9E {
            Some(Instr::SkipKey(x))
        } else if kk == 0xA1 {
            Some(Instr::SkipNoKey(x))
        } else {
            None
        }
    } else {
        if kk == 0x07 {
            Some(Instr::ReadDelay(x))
        } else if kk == 0x0A {
            Some(Instr::WaitKey(x))
        } else if kk == 0x15 {
            Some(Instr::SetDelay(x))
        } else if kk == 0x18 {
            Some(Instr::SetSound(x))
        } else if kk == 0x1E {
            Some(Instr::AddIndex(x))
        } else if kk == 0x29 {
            Some(Instr::FontGlyph(x))
        } else if kk == 0x33 {
            Some(Instr::StoreBcd(x))
        } else if kk == 0x55 {
            Some(Instr::DumpRegs(x))
        } else if kk == 0x65 {
            Some(Instr::LoadRegs(x))
        } else {
            None
        }
    }
}

/// Decode one 16-bit instruction word; nothing comes back for a pattern
/// outside the instruction set.
pub fn decode(w: u16) -> (r: Option<Instr>)
    ensures
        r == spec_decode(w),
{
    let n0 = w / 0x1000;
    let x = ((w / 0x100) % 0x10) as u8;
    let y = ((w / 0x10) % 0x10) as u8;
    let n3 = w % 0x10;
    let nnn = w % 0x1000;
    let kk = (w % 0x100) as u8;
    let n = (w % 0x10) as u8;
    if n0 == 0x0 {
        if w == 0x00E0 {
            Some(Instr::Cls)
        } else if w == 0x00EE {
            Some(Instr::Ret)
        } else {
            Some(Instr::Halt)
        }
    } else if n0 == 0x1 {
        Some(Instr::Jump(nnn))
    } else if n0 == 0x2 {
        Some(Instr::Call(nnn))
    } else if n0 == 0x3 {
        Some(Instr::SkipEqImm(x, kk))
    } else if n0 == 0x4 {
        Some(Instr::SkipNeImm(x, kk))
    } else if n0 == 0x5 {
        if n3 == 0x0 {
            Some(Instr::SkipEqReg(x, y))
        } else {
            None
        }
    } else if n0 == 0x6 {
        Some(Instr::LoadImm(x, kk))
    } else if n0 == 0x7 {
        Some(Instr::AddImm(x, kk))
    } else if n0 == 0x8 {
        if n3 == 0x0 {
            Some(Instr::Move(x, y))
        } else if n3 == 0x1 {
            Some(Instr::Or(x, y))
        } else if n3 == 0x2 {
            Some(Instr::And(x, y))
        } else if n3 == 0x3 {
            Some(Instr::Xor(x, y))
        } else if n3 == 0x4 {
            Some(Instr::AddReg(x, y))
        } else if n3 == 0x5 {
            Some(Instr::SubReg(x, y))
        } else if n3 == 0x6 {
            Some(Instr::ShiftRight(x))
        } else if n3 == 0x7 {
            Some(Instr::SubFrom(x, y))
        } else if n3 == 0xE {
            Some(Instr::ShiftLeft(x))
        } else {
            None
        }
    } else if n0 == 0x9 {
        if n3 == 0x0 {
            Some(Instr::SkipNeReg(x, y))
        } else {
            None
        }
    } else if n0 == 0xA {
        Some(Instr::SetIndex(nnn))
    } else if n0 == 0xB {
        Some(Instr::JumpOffset(nnn))
    } else if n0 == 0xC {
        Some(Instr::Random(x, kk))
    } else if n0 == 0xD {
        Some(Instr::Draw(x, y, n))
    } else if n0 == 0xE {
        if kk == 0x9E {
            Some(Instr::SkipKey(x))
        } else if kk == 0xA1 {
            Some(Instr::SkipNoKey(x))
        } else {
            None
        }
    } else {
        if kk == 0x07 {
            Some(Instr::ReadDelay(x))
        } else if kk == 0x0A {
            Some(Instr::WaitKey(x))
        } else if kk == 0x15 {
            Some(Instr::SetDelay(x))
        } else if kk == 0x18 {
            Some(Instr::SetSound(x))
        } else if kk == 0x1E {
            Some(Instr::AddIndex(x))
        } else if kk == 0x29 {
            Some(Instr::FontGlyph(x))
        } else if kk == 0x33 {
            Some(Instr::StoreBcd(x))
        } else if kk == 0x55 {
            Some(Instr::DumpRegs(x))
        } else if kk == 0x65 {
            Some(Instr::LoadRegs(x))
        } else {
            None
        }
    }
}

/// The built-in font table: sixteen glyphs of five rows each, one glyph per
/// hexadecimal digit, placed at the bottom of memory.
pub open spec fn font_seq() -> Seq<u8> {
    seq![
        0xF0u8, 0x90, 0x90, 0x90, 0xF0,
        0x20, 0x60, 0x20, 0x20, 0x70,
        0xF0, 0x10, 0xF0, 0x80, 0xF0,
        0xF0, 0x10, 0xF0, 0x10, 0xF0,
        0x90, 0x90, 0xF0, 0x10, 0x10,
        0xF0, 0x80, 0xF0, 0x10, 0xF0,
        0xF0, 0x80, 0xF0, 0x90, 0xF0,
        0xF0, 0x10, 0x20, 0x40, 0x40,
        0xF0, 0x90, 0xF0, 0x90, 0xF0,
        0xF0, 0x90, 0xF0, 0x10, 0xF0,
        0xF0, 0x90, 0xF0, 0x90, 0x90,
        0xE0, 0x90, 0xE0, 0x90, 0xE0,
        0xF0, 0x80, 0x80, 0x80, 0xF0,
        0xE0, 0x90, 0x90, 0x90, 0xE0,
        0xF0, 0x80, 0xF0, 0x80, 0xF0,
        0xF0, 0x80, 0xF0, 0x80, 0x80,
    ]
}

fn font_table() -> (r: [u8; 80])
    ensures
        r@ == font_seq(),
{
    let t: [u8; 80] = [
        0xF0, 0x90, 0x90, 0x90, 0xF0,
        0x20, 0x60, 0x20, 0x20, 0x70,
        0xF0, 0x10, 0xF0, 0x80, 0xF0,
        0xF0, 0x10, 0xF0, 0x10, 0xF0,
        0x90, 0x90, 0xF0, 0x10, 0x10,
        0xF0, 0x80, 0xF0, 0x10, 0xF0,
        0xF0, 0x80, 0xF0, 0x90, 0xF0,
        0xF0, 0x10, 0x20, 0x40, 0x40,
        0xF0, 0x90, 0xF0, 0x90, 0xF0,
        0xF0, 0x90, 0xF0, 0x10, 0xF0,
        0xF0, 0x90, 0xF0, 0x90, 0x90,
        0xE0, 0x90, 0xE0, 0x90, 0xE0,
        0xF0, 0x80, 0x80, 0x80, 0xF0,
        0xE0, 0x90, 0x90, 0x90, 0xE0,
        0xF0, 0x80, 0xF0, 0x80, 0xF0,
        0xF0, 0x80, 0xF0, 0x80, 0x80,
    ];
    proof {
        assert(t@ =~= font_seq());
    }
    t
}

/// An 8-bit difference that wraps below zero.
pub open spec fn wrap_sub8(a: u8, b: u8) -> u8 {
    if a >= b {
        (a - b) as u8
    } else {
        (a - b + 256) as u8
    }
}

/// Memory after registers 0 through x are dumped at `index`.
pub open spec fn mem_after_dump(mem: Seq<u8>, regs: Seq<u8>, index: int, x: int) -> Seq<u8> {
    Seq::new(
        mem.len(),
        |k: int| if index <= k <= index + x {
            regs[k - index]
        } else {
            mem[k]
        },
    )
}

/// Registers after 0 through x are loaded from memory at `index`.
pub open spec fn regs_after_load(regs: Seq<u8>, mem: Seq<u8>, index: int, x: int) -> Seq<u8> {
    Seq::new(
        regs.len(),
        |k: int| if 0 <= k <= x {
            mem[index + k]
        } else {
            regs[k]
        },
    )
}

/// The framebuffer after the first `rows` sprite rows read from memory at
/// `index` are blitted at origin (`x0`, `y0`), one row after the other.
pub open spec fn fb_after_rows(
    g: Seq<bool>,
    mem: Seq<u8>,
    index: int,
    x0: int,
    y0: int,
    rows: int,
) -> Seq<bool>
    decreases rows,
{
    if rows <= 0 {
        g
    } else {
        row_applied(
            fb_after_rows(g, mem, index, x0, y0, rows - 1),
            mem[index + rows - 1],
            x0,
            y0 + rows - 1,
        )
    }
}

/// Whether blitting the first `rows` sprite rows turns some already-lit
/// pixel off.
pub open spec fn rows_collide(
    g: Seq<bool>,
    mem: Seq<u8>,
    index: int,
    x0: int,
    y0: int,
    rows: int,
) -> bool
    decreases rows,
{
    if rows <= 0 {
        false
    } else {
        rows_collide(g, mem, index, x0, y0, rows - 1) || row_collides(
            fb_after_rows(g, mem, index, x0, y0, rows - 1),
            mem[index + rows - 1],
            x0,
            y0 + rows - 1,
        )
    }
}

/// Law: dumping registers 0 through x at an index and loading registers 0
/// through x back from the same index restores every register value.
pub proof fn lemma_dump_load_roundtrip(mem: Seq<u8>, regs: Seq<u8>, index: int, x: int)
    requires
        mem.len() == 4096,
        regs.len() == 16,
        0 <= x < 16,
        0 <= index,
        index + x + 1 <= 4096,
    ensures
        regs_after_load(regs, mem_after_dump(mem, regs, index, x), index, x) == regs,
{
    assert(regs_after_load(regs, mem_after_dump(mem, regs, index, x), index, x) =~= regs);
}

/// The interpreter state: 4096 bytes of memory with the font table at the
/// bottom and programs from 0x200 up, sixteen 8-bit registers whose last
/// doubles as the flag, a 16-bit index register, a 16-level call stack, the
/// two 60 Hz timers, the framebuffer and the input latch.
pub struct Chip8 {
    pub memory: Vec<u8>,
    pub display: Display,
    pub pc: u16,
    pub index_reg: u16,
    pub stack: Vec<u16>,
    pub delay_timer: Delay,
    pub sound_timer: Sound,
    pub registers: Vec<u8>,
    pub sp: u8,
    pub keyboard: Keyboard,
}

pub open spec fn same_mem(pre: Chip8, post: Chip8) -> bool {
    post.memory@ == pre.memory@
}

pub open spec fn same_regs(pre: Chip8, post: Chip8) -> bool {
    post.registers@ == pre.registers@
}

pub open spec fn same_index(pre: Chip8, post: Chip8) -> bool {
    post.index_reg == pre.index_reg
}

pub open spec fn same_stack(pre: Chip8, post: Chip8) -> bool {
    post.stack@ == pre.stack@ && post.sp == pre.sp
}

pub open spec fn same_fb(pre: Chip8, post: Chip8) -> bool {
    post.display.grid@ == pre.display.grid@
}

pub open spec fn same_keys(pre: Chip8, post: Chip8) -> bool {
    post.keyboard.keys@ == pre.keyboard.keys@
}

/// Memory, registers, index, stack, framebuffer and latch all untouched.
pub open spec fn core_frame(pre: Chip8, post: Chip8) -> bool {
    &&& same_mem(pre, post)
    &&& same_regs(pre, post)
    &&& same_index(pre, post)
    &&& same_stack(pre, post)
    &&& same_fb(pre, post)
    &&& same_keys(pre, post)
}

/// Everything but the register file untouched, the counter and both timers
/// included.
pub open spec fn only_regs_differ(pre: Chip8, post: Chip8) -> bool {
    &&& same_mem(pre, post)
    &&& same_index(pre, post)
    &&& same_stack(pre, post)
    &&& same_fb(pre, post)
    &&& same_keys(pre, post)
    &&& post.pc == pre.pc
    &&& post.delay_timer == pre.delay_timer
    &&& post.sound_timer == pre.sound_timer
}

impl Chip8 {
    pub open spec fn wf(self) -> bool {
        &&& self.memory@.len() == 4096
        &&& self.registers@.len() == 16
        &&& self.stack@.len() == 16
        &&& self.sp <= 16
        &&& self.display.wf()
    }

    /// A machine at reset: font table at the bottom of memory, counter at
    /// 0x200, everything else zero, screen dark, latch empty.
    pub fn new() -> (r: Chip8)
        ensures
            r.wf(),
            r.pc == 0x200,
            r.index_reg == 0,
            r.sp == 0,
            forall|k: int| 0 <= k < 80 ==> r.memory@[k] == font_seq()[k],
            forall|k: int| 80 <= k < 4096 ==> r.memory@[k] == 0,
            forall|k: int| 0 <= k < 16 ==> r.registers@[k] == 0,
            forall|k: int| 0 <= k < 16 ==> r.stack@[k] == 0,
            r.delay_timer.count == 0,
            r.sound_timer.timer.count == 0,
            r.keyboard.keys@ == Seq::<u8>::empty(),
            forall|k: int| 0 <= k < 64 * 32 ==> !r.display.grid@[k],
    {
        let mut memory: Vec<u8> = vec![0u8; 4096];
        let font = font_table();
        let mut i: usize = 0;
        while i < 80
            invariant
                i <= 80,
                memory@.len() == 4096,
                font@ == font_seq(),
                forall|k: int| 0 <= k < i ==> memory@[k] == font_seq()[k],
                forall|k: int| i <= k < 4096 ==> memory@[k] == 0,
            decreases 80 - i,
        {
            memory.set(i, font[i]);
            i = i + 1;
        }
        Chip8 {
            memory,
            display: Display::new(),
            pc: 0x200,
            index_reg: 0,
            stack: vec![0u16; 16],
            delay_timer: Delay::new(),
            sound_timer: Sound::new(),
            registers: vec![0u8; 16],
            sp: 0,
            keyboard: Keyboard::new(),
        }
    }

    /// Copy a program image into memory starting at 0x200, byte for byte;
    /// nothing else moves. The caller keeps the image within the 3584 bytes
    /// above the reserved region.
    pub fn load_rom(&mut self, rom: &Vec<u8>)
        requires
            old(self).wf(),
            rom@.len() <= 4096 - 0x200,
        ensures
            final(self).wf(),
            final(self).memory@.len() == 4096,
            forall|k: int|
                0 <= k < 4096 ==> final(self).memory@[k] == if 0x200 <= k < 0x200 + rom@.len() {
                    rom@[k - 0x200]
                } else {
                    old(self).memory@[k]
                },
            same_regs(*old(self), *final(self)),
            same_index(*old(self), *final(self)),
            same_stack(*old(self), *final(self)),
            same_fb(*old(self), *final(self)),
            same_keys(*old(self), *final(self)),
            final(self).pc == old(self).pc,
            final(self).delay_timer == old(self).delay_timer,
            final(self).sound_timer == old(self).sound_timer,
    {
        let mut i: usize = 0;
        while i < rom.len()
            invariant
                old(self).wf(),
                self.wf(),
                i <= rom@.len(),
                rom@.len() <= 4096 - 0x200,
                forall|k: int|
                    0 <= k < 4096 ==> self.memory@[k] == if 0x200 <= k < 0x200 + i {
                        rom@[k - 0x200]
                    } else {
                        old(self).memory@[k]
                    },
                same_regs(*old(self), *self),
                same_index(*old(self), *self),
                same_stack(*old(self), *self),
                same_fb(*old(self), *self),
                same_keys(*old(self), *self),
                self.pc == old(self).pc,
                self.delay_timer == old(self).delay_timer,
                self.sound_timer == old(self).sound_timer,
            decreases rom@.len() - i,
        {
            let b = rom[i];
            self.memory.set(0x200 + i, b);
            i = i + 1;
        }
    }

    /// The 9-bit sum of two registers: the flag register takes 1 exactly
    /// when the sum reaches 256, and the result is the low eight bits.
    pub fn add_with_carry(&mut self, a: u8, b: u8) -> (r: u8)
        requires
            old(self).wf(),
        ensures
            final(self).wf(),
            r == (a + b) % 256,
            final(self).registers@ == old(self).registers@.update(
                15,
                if a + b >= 256 { 1u8 } else { 0u8 },
            ),
            only_regs_differ(*old(self), *final(self)),
    {
        let s: u16 = (a as u16) + (b as u16);
        if s >= 0x100 {
            self.registers.set(15, 1);
            (s % 256) as u8
        } else {
            self.registers.set(15, 0);
            s as u8
        }
    }

    /// The wrapping difference of two registers: the flag register takes 1
    /// exactly when the minuend is strictly greater than the subtrahend.
    pub fn sub_with_carry(&mut self, a: u8, b: u8) -> (r: u8)
        requires
            old(self).wf(),
        ensures
            final(self).wf(),
            r == wrap_sub8(a, b),
            final(self).registers@ == old(self).registers@.update(
                15,
                if a > b { 1u8 } else { 0u8 },
            ),
            only_regs_differ(*old(self), *final(self)),
    {
        if a > b {
            self.registers.set(15, 1);
        } else {
            self.registers.set(15, 0);
        }
        if a >= b {
            a - b
        } else {
            (((a as u16) + 256) - (b as u16)) as u8
        }
    }

    /// Blit a sprite of `n` rows read from memory at the index register,
    /// rows below or columns right of the edges clipped.
    fn op_draw(&mut self, x0: u8, y0: u8, n: u8) -> (collided: bool)
        requires
            old(self).wf(),
            x0 < 64,
            y0 < 32,
            n < 16,
            old(self).index_reg as int + n as int <= 4096,
        ensures
            final(self).wf(),
            final(self).display.grid@ == fb_after_rows(
                old(self).display.grid@,
                old(self).memory@,
                old(self).index_reg as int,
                x0 as int,
                y0 as int,
                n as int,
            ),
            collided == rows_collide(
                old(self).display.grid@,
                old(self).memory@,
                old(self).index_reg as int,
                x0 as int,
                y0 as int,
                n as int,
            ),
            same_mem(*old(self), *final(self)),
            same_regs(*old(self), *final(self)),
            same_index(*old(self), *final(self)),
            same_stack(*old(self), *final(self)),
            same_keys(*old(self), *final(self)),
            final(self).pc == old(self).pc,
            final(self).delay_timer == old(self).delay_timer,
            final(self).sound_timer == old(self).sound_timer,
    {
        let mut conflict = false;
        let mut i: u8 = 0;
        while i < n
            invariant
                self.wf(),
                i <= n,
                x0 < 64,
                y0 < 32,
                n < 16,
                self.index_reg as int + n as int <= 4096,
                self.display.grid@ == fb_after_rows(
                    old(self).display.grid@,
                    old(self).memory@,
                    old(self).index_reg as int,
                    x0 as int,
                    y0 as int,
                    i as int,
                ),
                conflict == rows_collide(
                    old(self).display.grid@,
                    old(self).memory@,
                    old(self).index_reg as int,
                    x0 as int,
                    y0 as int,
                    i as int,
                ),
                same_mem(*old(self), *self),
                same_regs(*old(self), *self),
                same_index(*old(self), *self),
                same_stack(*old(self), *self),
                same_keys(*old(self), *self),
                self.pc == old(self).pc,
                self.delay_timer == old(self).delay_timer,
                self.sound_timer == old(self).sound_timer,
            decreases n - i,
        {
            let b = self.memory[(self.index_reg as usize) + (i as usize)];
            let yy: u8 = y0 + i;
            let c = self.display.draw_row(b, x0, yy);
            conflict = conflict || c;
            i = i + 1;
        }
        conflict
    }

    /// Write the decimal digits of a register value to memory at the index
    /// register: hundreds, tens, ones.
    fn op_bcd(&mut self, vx: u8)
        requires
            old(self).wf(),
            old(self).index_reg as int + 3 <= 4096,
        ensures
            final(self).wf(),
            final(self).memory@ == old(self).memory@
                .update(old(self).index_reg as int, vx / 100)
                .update(old(self).index_reg as int + 1, (vx / 10) % 10)
                .update(old(self).index_reg as int + 2, vx % 10),
            same_regs(*old(self), *final(self)),
            same_index(*old(self), *final(self)),
            same_stack(*old(self), *final(self)),
            same_fb(*old(self), *final(self)),
            same_keys(*old(self), *final(self)),
            final(self).pc == old(self).pc,
            final(self).delay_timer == old(self).delay_timer,
            final(self).sound_timer == old(self).sound_timer,
    {
        let idx = self.index_reg as usize;
        self.memory.set(idx, vx / 100);
        self.memory.set(idx + 1, (vx / 10) % 10);
        self.memory.set(idx + 2, vx % 10);
    }

    /// Dump registers 0 through x to memory at the index register.
    fn op_dump(&mut self, x: u8)
        requires
            old(self).wf(),
            x < 16,
            old(self).index_reg as int + x as int + 1 <= 4096,
        ensures
            final(self).wf(),
            final(self).memory@ == mem_after_dump(
                old(self).memory@,
                old(self).registers@,
                old(self).index_reg as int,
                x as int,
            ),
            same_regs(*old(self), *final(self)),
            same_index(*old(self), *final(self)),
            same_stack(*old(self), *final(self)),
            same_fb(*old(self), *final(self)),
            same_keys(*old(self), *final(self)),
            final(self).pc == old(self).pc,
            final(self).delay_timer == old(self).delay_timer,
            final(self).sound_timer == old(self).sound_timer,
    {
        let idx = self.index_reg as usize;
        let mut i: usize = 0;
        while i < (x as usize) + 1
            invariant
                self.wf(),
                i <= x as int + 1,
                x < 16,
                idx == old(self).index_reg as int,
                idx + x as int + 1 <= 4096,
                forall|k: int|
                    0 <= k < 4096 ==> self.memory@[k] == if idx <= k < idx + i {
                        old(self).registers@[k - idx]
                    } else {
                        old(self).memory@[k]
                    },
                same_regs(*old(self), *self),
                same_index(*old(self), *self),
                same_stack(*old(self), *self),
                same_fb(*old(self), *self),
                same_keys(*old(self), *self),
                self.pc == old(self).pc,
                self.delay_timer == old(self).delay_timer,
                self.sound_timer == old(self).sound_timer,
            decreases x as int + 1 - i,
        {
            let v = self.registers[i];
            self.memory.set(idx + i, v);
            i = i + 1;
        }
        proof {
            assert(self.memory@ =~= mem_after_dump(
                old(self).memory@,
                old(self).registers@,
                old(self).index_reg as int,
                x as int,
            ));
        }
    }

    /// Load registers 0 through x from memory at the index register.
    fn op_load(&mut self, x: u8)
        requires
            old(self).wf(),
            x < 16,
            old(self).index_reg as int + x as int + 1 <= 4096,
        ensures
            final(self).wf(),
            final(self).registers@ == regs_after_load(
                old(self).registers@,
                old(self).memory@,
                old(self).index_reg as int,
                x as int,
            ),
            only_regs_differ(*old(self), *final(self)),
    {
        let idx = self.index_reg as usize;
        let mut i: usize = 0;
        while i < (x as usize) + 1
            invariant
                self.wf(),
                i <= x as int + 1,
                x < 16,
                idx == old(self).index_reg as int,
                idx + x as int + 1 <= 4096,
                forall|k: int|
                    0 <= k < 16 ==> self.registers@[k] == if 0 <= k < i {
                        old(self).memory@[idx + k]
                    } else {
                        old(self).registers@[k]
                    },
                only_regs_differ(*old(self), *self),
            decreases x as int + 1 - i,
        {
            let v = self.memory[idx + i];
            self.registers.set(i, v);
            i = i + 1;
        }
        proof {
            assert(self.registers@ =~= regs_after_load(
                old(self).registers@,
                old(self).memory@,
                old(self).index_reg as int,
                x as int,
            ));
        }
    }
    /// One fetch-decode-execute step at a given clock instant with a given
    /// random byte: both timers tick once, the word at the counter is
    /// fetched big-endian and decoded, and the operation runs. The result
    /// carries the next counter (nothing meaning "advance by two bytes"),
    /// or the fatal condition that ended execution.
    pub fn step_at(&mut self, now_ms: u64, rnd: u8) -> (r: Result<Option<u16>, VmError>)
        requires
            old(self).wf(),
        ensures
            final(self).wf(),
            step_rel(*old(self), *final(self), now_ms, rnd, r),
    {
        self.delay_timer.tick_at(now_ms);
        self.sound_timer.tick_at(now_ms);
        if self.pc >= 4095 {
            return Err(VmError::OutOfBoundsAccess(0, self.pc));
        }
        let pc = self.pc as usize;
        let hi = self.memory[pc];
        let lo = self.memory[pc + 1];
        let w: u16 = (hi as u16) * 256 + (lo as u16);
        let i = match decode(w) {
            Some(i) => i,
            None => {
                return Err(VmError::InvalidOpcode(w, self.pc));
            },
        };
        match i {
            Instr::Cls => {
                self.display.clear();
                Ok(None)
            },
            Instr::Ret => {
                if self.sp == 0 {
                    Err(VmError::OutOfBoundsAccess(w, self.pc))
                } else {
                    self.sp = self.sp - 1;
                    Ok(Some(self.stack[self.sp as usize]))
                }
            },
            Instr::Halt => Ok(Some(0xFFFF)),
            Instr::Jump(nnn) => Ok(Some(nnn)),
            Instr::Call(nnn) => {
                if self.sp >= 16 {
                    Err(VmError::OutOfBoundsAccess(w, self.pc))
                } else {
                    self.stack.set(self.sp as usize, self.pc + 2);
                    self.sp = self.sp + 1;
                    Ok(Some(nnn))
                }
            },
            Instr::SkipEqImm(x, kk) => {
                let vx = self.registers[x as usize];
                Ok(Some(self.pc + if vx == kk { 4 } else { 2 }))
            },
            Instr::SkipNeImm(x, kk) => {
                let vx = self.registers[x as usize];
                Ok(Some(self.pc + if vx != kk { 4 } else { 2 }))
            },
            Instr::SkipEqReg(x, y) => {
                let vx = self.registers[x as usize];
                let vy = self.registers[y as usize];
                Ok(Some(self.pc + if vx == vy { 4 } else { 2 }))
            },
            Instr::SkipNeReg(x, y) => {
                let vx = self.registers[x as usize];
                let vy = self.registers[y as usize];
                Ok(Some(self.pc + if vx != vy { 4 } else { 2 }))
            },
            Instr::LoadImm(x, kk) => {
                self.registers.set(x as usize, kk);
                Ok(None)
            },
            Instr::AddImm(x, kk) => {
                let vx = self.registers[x as usize];
                self.registers.set(x as usize, (((vx as u16) + (kk as u16)) % 256) as u8);
                Ok(None)
            },
            Instr::Move(x, y) => {
                let vy = self.registers[y as usize];
                self.registers.set(x as usize, vy);
                Ok(None)
            },
            Instr::Or(x, y) => {
                let vx = self.registers[x as usize];
                let vy = self.registers[y as usize];
                self.registers.set(x as usize, vx | vy);
                Ok(None)
            },
            Instr::And(x, y) => {
                let vx = self.registers[x as usize];
                let vy = self.registers[y as usize];
                self.registers.set(x as usize, vx & vy);
                Ok(None)
            },
            Instr::Xor(x, y) => {
                let vx = self.registers[x as usize];
                let vy = self.registers[y as usize];
                self.registers.set(x as usize, vx ^ vy);
                Ok(None)
            },
            Instr::AddReg(x, y) => {
                let vx = self.registers[x as usize];
                let vy = self.registers[y as usize];
                let s = self.add_with_carry(vx, vy);
                self.registers.set(x as usize, s);
                Ok(None)
            },
            Instr::SubReg(x, y) => {
                let vx = self.registers[x as usize];
                let vy = self.registers[y as usize];
                let d = self.sub_with_carry(vx, vy);
                self.registers.set(x as usize, d);
                Ok(None)
            },
            Instr::SubFrom(x, y) => {
                let vx = self.registers[x as usize];
                let vy = self.registers[y as usize];
                let d = self.sub_with_carry(vy, vx);
                self.registers.set(x as usize, d);
                Ok(None)
            },
            Instr::ShiftRight(x) => {
                let vx = self.registers[x as usize];
                self.registers.set(15, vx % 2);
                let cur = self.registers[x as usize];
                self.registers.set(x as usize, cur / 2);
                Ok(None)
            },
            Instr::ShiftLeft(x) => {
                let vx = self.registers[x as usize];
                self.registers.set(15, vx / 128);
                let cur = self.registers[x as usize];
                self.registers.set(x as usize, (((cur as u16) * 2) % 256) as u8);
                Ok(None)
            },
            Instr::SetIndex(nnn) => {
                self.index_reg = nnn;
                Ok(None)
            },
            Instr::JumpOffset(nnn) => Ok(Some(nnn + (self.registers[0] as u16))),
            Instr::Random(x, kk) => {
                self.registers.set(x as usize, rnd & kk);
                Ok(None)
            },
            Instr::Draw(x, y, n) => {
                let vx = self.registers[x as usize];
                let vy = self.registers[y as usize];
                let x0 = vx % 64;
                let y0 = vy % 32;
                if (self.index_reg as usize) + (n as usize) > 4096 {
                    Err(VmError::OutOfBoundsAccess(w, self.pc))
                } else {
                    let col = self.op_draw(x0, y0, n);
                    self.registers.set(15, if col { 1 } else { 0 });
                    Ok(None)
                }
            },
            Instr::SkipKey(x) => {
                let vx = self.registers[x as usize];
                match self.keyboard.get_last_key() {
                    Some(k) => {
                        if k == vx {
                            self.keyboard.clear();
                            Ok(Some(self.pc + 4))
                        } else {
                            Ok(Some(self.pc + 2))
                        }
                    },
                    None => Ok(Some(self.pc + 2)),
                }
            },
            Instr::SkipNoKey(x) => {
                let vx = self.registers[x as usize];
                match self.keyboard.get_last_key() {
                    Some(k) => {
                        if k != vx {
                            Ok(Some(self.pc + 4))
                        } else {
                            self.keyboard.clear();
                            Ok(Some(self.pc + 2))
                        }
                    },
                    None => Ok(Some(self.pc + 4)),
                }
            },
            Instr::ReadDelay(x) => {
                let d = self.delay_timer.get_count();
                self.registers.set(x as usize, d);
                Ok(None)
            },
            Instr::WaitKey(x) => {
                match self.keyboard.get_last_key() {
                    Some(k) => {
                        self.keyboard.clear();
                        self.registers.set(x as usize, k);
                        Ok(None)
                    },
                    None => Ok(Some(self.pc)),
                }
            },
            Instr::SetDelay(x) => {
                let vx = self.registers[x as usize];
                self.delay_timer.set_at(vx, now_ms);
                Ok(None)
            },
            Instr::SetSound(x) => {
                let vx = self.registers[x as usize];
                self.sound_timer.set_at(vx, now_ms);
                Ok(None)
            },
            Instr::AddIndex(x) => {
                let vx = self.registers[x as usize];
                self.index_reg = (((self.index_reg as u32) + (vx as u32)) % 0x10000) as u16;
                Ok(None)
            },
            Instr::FontGlyph(x) => {
                let vx = self.registers[x as usize];
                self.index_reg = (vx as u16) * 5;
                Ok(None)
            },
            Instr::StoreBcd(x) => {
                if (self.index_reg as usize) + 3 > 4096 {
                    Err(VmError::OutOfBoundsAccess(w, self.pc))
                } else {
                    let vx = self.registers[x as usize];
                    self.op_bcd(vx);
                    Ok(None)
                }
            },
            Instr::DumpRegs(x) => {
                if (self.index_reg as usize) + (x as usize) + 1 > 4096 {
                    Err(VmError::OutOfBoundsAccess(w, self.pc))
                } else {
                    self.op_dump(x);
                    Ok(None)
                }
            },
            Instr::LoadRegs(x) => {
                if (self.index_reg as usize) + (x as usize) + 1 > 4096 {
                    Err(VmError::OutOfBoundsAccess(w, self.pc))
                } else {
                    self.op_load(x);
                    Ok(None)
                }
            },
        }
    }

    /// Apply a step's outcome to the program counter: a returned address
    /// is taken as it stands, and no address means "advance by two bytes",
    /// one instruction. Nothing else moves.
    pub fn apply_pc(&mut self, next: Option<u16>)
        requires
            old(self).wf(),
            old(self).pc + 2 <= 0xFFFF,
        ensures
            final(self).wf(),
            final(self).pc == (match next {
                Option::Some(p) => p,
                Option::None => (old(self).pc + 2) as u16,
            }),
            core_frame(*old(self), *final(self)),
            final(self).delay_timer == old(self).delay_timer,
            final(self).sound_timer == old(self).sound_timer,
    {
        match next {
            Some(p) => self.pc = p,
            None => self.pc = self.pc + 2,
        }
    }

    /// One step against the wall clock and the thread-local random source:
    /// whatever instant and byte they give, the step relation holds of the
    /// old and new states, and the program counter itself never moves (the
    /// driving loop applies the returned counter).
    pub fn execute(&mut self) -> (r: Result<Option<u16>, VmError>)
        requires
            old(self).wf(),
        ensures
            final(self).wf(),
            final(self).pc == old(self).pc,
            exists|now_ms: u64, rnd: u8|
                step_rel(*old(self), *final(self), now_ms, rnd, r),
    {
        let now_ms = crate::clock::now_millis();
        let rnd = random_byte();
        let r = self.step_at(now_ms, rnd);
        proof {
            assert(step_rel(*old(self), *self, now_ms, rnd, r));
        }
        r
    }
}

/// The full meaning of one interpreter step from `pre` to `post`, observed
/// at clock instant `now_ms` and with random byte `rnd`: both timers tick
/// once, then the word fetched big-endian at the counter decodes and runs
/// as `instr_rel` says. The counter field itself never moves; jumps travel
/// through the result.
pub open spec fn step_rel(
    pre: Chip8,
    post: Chip8,
    now_ms: u64,
    rnd: u8,
    r: Result<Option<u16>, VmError>,
) -> bool {
    let d1 = pre.delay_timer.ticked(now_ms);
    let s1 = pre.sound_timer.timer.ticked(now_ms);
    &&& post.pc == pre.pc
    &&& if pre.pc as int + 1 >= 4096 {
        &&& r == Err::<Option<u16>, VmError>(VmError::OutOfBoundsAccess(0, pre.pc))
        &&& core_frame(pre, post)
        &&& post.delay_timer == d1
        &&& post.sound_timer.timer == s1
    } else {
        let w = ((pre.memory@[pre.pc as int] as int) * 256
            + (pre.memory@[pre.pc as int + 1] as int)) as u16;
        match spec_decode(w) {
            None => {
                &&& r == Err::<Option<u16>, VmError>(VmError::InvalidOpcode(w, pre.pc))
                &&& core_frame(pre, post)
                &&& post.delay_timer == d1
                &&& post.sound_timer.timer == s1
            },
            Some(i) => {
                &&& (match i {
                    Instr::SetDelay(x) => post.delay_timer == (Delay {
                        count: pre.registers@[x as int],
                        last_ms: now_ms,
                    }),
                    _ => post.delay_timer == d1,
                })
                &&& (match i {
                    Instr::SetSound(x) => post.sound_timer.timer == (Delay {
                        count: pre.registers@[x as int],
                        last_ms: now_ms,
                    }),
                    _ => post.sound_timer.timer == s1,
                })
                &&& instr_rel(pre, post, d1, w, i, rnd, r)
            },
        }
    }
}

/// What each operation does to registers, memory, index, stack, screen and
/// latch, and what it returns. `d1` is the delay timer as already ticked
/// this step (the read-delay operation sees the post-tick count).
pub open spec fn instr_rel(
    pre: Chip8,
    post: Chip8,
    d1: Delay,
    w: u16,
    i: Instr,
    rnd: u8,
    r: Result<Option<u16>, VmError>,
) -> bool {
    match i {
        Instr::Cls => {
            &&& post.display.grid@.len() == 64 * 32
            &&& (forall|k: int| 0 <= k < 64 * 32 ==> !post.display.grid@[k])
            &&& same_mem(pre, post)
            &&& same_regs(pre, post)
            &&& same_index(pre, post)
            &&& same_stack(pre, post)
            &&& same_keys(pre, post)
            &&& r == Ok::<Option<u16>, VmError>(None)
        },
        Instr::Ret => {
            if pre.sp == 0 {
                &&& core_frame(pre, post)
                &&& r == Err::<Option<u16>, VmError>(VmError::OutOfBoundsAccess(w, pre.pc))
            } else {
                &&& same_mem(pre, post)
                &&& same_regs(pre, post)
                &&& same_index(pre, post)
                &&& same_fb(pre, post)
                &&& same_keys(pre, post)
                &&& post.stack@ == pre.stack@
                &&& post.sp == pre.sp - 1
                &&& r == Ok::<Option<u16>, VmError>(Some(pre.stack@[pre.sp as int - 1]))
            }
        },
        Instr::Halt => {
            &&& core_frame(pre, post)
            &&& r == Ok::<Option<u16>, VmError>(Some(0xFFFF))
        },
        Instr::Jump(nnn) => {
            &&& core_frame(pre, post)
            &&& r == Ok::<Option<u16>, VmError>(Some(nnn))
        },
        Instr::Call(nnn) => {
            if pre.sp >= 16 {
                &&& core_frame(pre, post)
                &&& r == Err::<Option<u16>, VmError>(VmError::OutOfBoundsAccess(w, pre.pc))
            } else {
                &&& same_mem(pre, post)
                &&& same_regs(pre, post)
                &&& same_index(pre, post)
                &&& same_fb(pre, post)
                &&& same_keys(pre, post)
                &&& post.stack@ == pre.stack@.update(pre.sp as int, (pre.pc + 2) as u16)
                &&& post.sp == pre.sp + 1
                &&& r == Ok::<Option<u16>, VmError>(Some(nnn))
            }
        },
        Instr::SkipEqImm(x, kk) => {
            &&& core_frame(pre, post)
            &&& r == Ok::<Option<u16>, VmError>(Some(
                if pre.registers@[x as int] == kk {
                    (pre.pc + 4) as u16
                } else {
                    (pre.pc + 2) as u16
                },
            ))
        },
        Instr::SkipNeImm(x, kk) => {
            &&& core_frame(pre, post)
            &&& r == Ok::<Option<u16>, VmError>(Some(
                if pre.registers@[x as int] != kk {
                    (pre.pc + 4) as u16
                } else {
                    (pre.pc + 2) as u16
                },
            ))
        },
        Instr::SkipEqReg(x, y) => {
            &&& core_frame(pre, post)
            &&& r == Ok::<Option<u16>, VmError>(Some(
                if pre.registers@[x as int] == pre.registers@[y as int] {
                    (pre.pc + 4) as u16
                } else {
                    (pre.pc + 2) as u16
                },
            ))
        },
        Instr::SkipNeReg(x, y) => {
            &&& core_frame(pre, post)
            &&& r == Ok::<Option<u16>, VmError>(Some(
                if pre.registers@[x as int] != pre.registers@[y as int] {
                    (pre.pc + 4) as u16
                } else {
                    (pre.pc + 2) as u16
                },
            ))
        },
        Instr::LoadImm(x, kk) => {
            &&& regs_step(pre, post, pre.registers@.update(x as int, kk))
            &&& r == Ok::<Option<u16>, VmError>(None)
        },
        Instr::AddImm(x, kk) => {
            &&& regs_step(
                pre,
                post,
                pre.registers@.update(
                    x as int,
                    ((pre.registers@[x as int] + kk) % 256) as u8,
                ),
            )
            &&& r == Ok::<Option<u16>, VmError>(None)
        },
        Instr::Move(x, y) => {
            &&& regs_step(pre, post, pre.registers@.update(x as int, pre.registers@[y as int]))
            &&& r == Ok::<Option<u16>, VmError>(None)
        },
        Instr::Or(x, y) => {
            &&& regs_step(
                pre,
                post,
                pre.registers@.update(x as int, pre.registers@[x as int] | pre.registers@[y as int]),
            )
            &&& r == Ok::<Option<u16>, VmError>(None)
        },
        Instr::And(x, y) => {
            &&& regs_step(
                pre,
                post,
                pre.registers@.update(x as int, pre.registers@[x as int] & pre.registers@[y as int]),
            )
            &&& r == Ok::<Option<u16>, VmError>(None)
        },
        Instr::Xor(x, y) => {
            &&& regs_step(
                pre,
                post,
                pre.registers@.update(x as int, pre.registers@[x as int] ^ pre.registers@[y as int]),
            )
            &&& r == Ok::<Option<u16>, VmError>(None)
        },
        Instr::AddReg(x, y) => {
            let vx = pre.registers@[x as int];
            let vy = pre.registers@[y as int];
            &&& regs_step(
                pre,
                post,
                pre.registers@
                    .update(15, if vx + vy >= 256 { 1u8 } else { 0u8 })
                    .update(x as int, ((vx + vy) % 256) as u8),
            )
            &&& r == Ok::<Option<u16>, VmError>(None)
        },
        Instr::SubReg(x, y) => {
            let vx = pre.registers@[x as int];
            let vy = pre.registers@[y as int];
            &&& regs_step(
                pre,
                post,
                pre.registers@
                    .update(15, if vx > vy { 1u8 } else { 0u8 })
                    .update(x as int, wrap_sub8(vx, vy)),
            )
            &&& r == Ok::<Option<u16>, VmError>(None)
        },
        Instr::SubFrom(x, y) => {
            let vx = pre.registers@[x as int];
            let vy = pre.registers@[y as int];
            &&& regs_step(
                pre,
                post,
                pre.registers@
                    .update(15, if vy > vx { 1u8 } else { 0u8 })
                    .update(x as int, wrap_sub8(vy, vx)),
            )
            &&& r == Ok::<Option<u16>, VmError>(None)
        },
        Instr::ShiftRight(x) => {
            let r1 = pre.registers@.update(15, (pre.registers@[x as int] % 2) as u8);
            &&& regs_step(pre, post, r1.update(x as int, (r1[x as int] / 2) as u8))
            &&& r == Ok::<Option<u16>, VmError>(None)
        },
        Instr::ShiftLeft(x) => {
            let r1 = pre.registers@.update(15, (pre.registers@[x as int] / 128) as u8);
            &&& regs_step(pre, post, r1.update(x as int, ((r1[x as int] * 2) % 256) as u8))
            &&& r == Ok::<Option<u16>, VmError>(None)
        },
        Instr::SetIndex(nnn) => {
            &&& index_step(pre, post, nnn)
            &&& r == Ok::<Option<u16>, VmError>(None)
        },
        Instr::JumpOffset(nnn) => {
            &&& core_frame(pre, post)
            &&& r == Ok::<Option<u16>, VmError>(Some((nnn + pre.registers@[0]) as u16))
        },
        Instr::Random(x, kk) => {
            &&& regs_step(pre, post, pre.registers@.update(x as int, rnd & kk))
            &&& r == Ok::<Option<u16>, VmError>(None)
        },
        Instr::Draw(x, y, n) => {
            let x0 = (pre.registers@[x as int] % 64) as int;
            let y0 = (pre.registers@[y as int] % 32) as int;
            if pre.index_reg as int + n as int > 4096 {
                &&& core_frame(pre, post)
                &&& r == Err::<Option<u16>, VmError>(VmError::OutOfBoundsAccess(w, pre.pc))
            } else {
                let col = rows_collide(
                    pre.display.grid@,
                    pre.memory@,
                    pre.index_reg as int,
                    x0,
                    y0,
                    n as int,
                );
                &&& post.display.grid@ == fb_after_rows(
                    pre.display.grid@,
                    pre.memory@,
                    pre.index_reg as int,
                    x0,
                    y0,
                    n as int,
                )
                &&& post.registers@ == pre.registers@.update(15, if col { 1u8 } else { 0u8 })
                &&& same_mem(pre, post)
                &&& same_index(pre, post)
                &&& same_stack(pre, post)
                &&& same_keys(pre, post)
                &&& r == Ok::<Option<u16>, VmError>(None)
            }
        },
        Instr::SkipKey(x) => {
            let ks = pre.keyboard.keys@;
            let vx = pre.registers@[x as int];
            &&& same_mem(pre, post)
            &&& same_regs(pre, post)
            &&& same_index(pre, post)
            &&& same_stack(pre, post)
            &&& same_fb(pre, post)
            &&& if ks.len() > 0 && ks.last() == vx {
                &&& post.keyboard.keys@ == Seq::<u8>::empty()
                &&& r == Ok::<Option<u16>, VmError>(Some((pre.pc + 4) as u16))
            } else {
                &&& same_keys(pre, post)
                &&& r == Ok::<Option<u16>, VmError>(Some((pre.pc + 2) as u16))
            }
        },
        Instr::SkipNoKey(x) => {
            let ks = pre.keyboard.keys@;
            let vx = pre.registers@[x as int];
            &&& same_mem(pre, post)
            &&& same_regs(pre, post)
            &&& same_index(pre, post)
            &&& same_stack(pre, post)
            &&& same_fb(pre, post)
            &&& if ks.len() == 0 || ks.last() != vx {
                &&& same_keys(pre, post)
                &&& r == Ok::<Option<u16>, VmError>(Some((pre.pc + 4) as u16))
            } else {
                &&& post.keyboard.keys@ == Seq::<u8>::empty()
                &&& r == Ok::<Option<u16>, VmError>(Some((pre.pc + 2) as u16))
            }
        },
        Instr::ReadDelay(x) => {
            &&& regs_step(pre, post, pre.registers@.update(x as int, d1.count))
            &&& r == Ok::<Option<u16>, VmError>(None)
        },
        Instr::WaitKey(x) => {
            let ks = pre.keyboard.keys@;
            if ks.len() > 0 {
                &&& same_mem(pre, post)
                &&& same_index(pre, post)
                &&& same_stack(pre, post)
                &&& same_fb(pre, post)
                &&& post.keyboard.keys@ == Seq::<u8>::empty()
                &&& post.registers@ == pre.registers@.update(x as int, ks.last())
                &&& r == Ok::<Option<u16>, VmError>(None)
            } else {
                &&& core_frame(pre, post)
                &&& r == Ok::<Option<u16>, VmError>(Some(pre.pc))
            }
        },
        Instr::SetDelay(_x) => {
            &&& core_frame(pre, post)
            &&& r == Ok::<Option<u16>, VmError>(None)
        },
        Instr::SetSound(_x) => {
            &&& core_frame(pre, post)
            &&& r == Ok::<Option<u16>, VmError>(None)
        },
        Instr::AddIndex(x) => {
            &&& index_step(
                pre,
                post,
                ((pre.index_reg + pre.registers@[x as int]) % 0x10000) as u16,
            )
            &&& r == Ok::<Option<u16>, VmError>(None)
        },
        Instr::FontGlyph(x) => {
            &&& index_step(pre, post, (pre.registers@[x as int] * 5) as u16)
            &&& r == Ok::<Option<u16>, VmError>(None)
        },
        Instr::StoreBcd(x) => {
            let vx = pre.registers@[x as int];
            if pre.index_reg as int + 3 > 4096 {
                &&& core_frame(pre, post)
                &&& r == Err::<Option<u16>, VmError>(VmError::OutOfBoundsAccess(w, pre.pc))
            } else {
                &&& post.memory@ == pre.memory@
                    .update(pre.index_reg as int, (vx / 100) as u8)
                    .update(pre.index_reg as int + 1, ((vx / 10) % 10) as u8)
                    .update(pre.index_reg as int + 2, (vx % 10) as u8)
                &&& same_regs(pre, post)
                &&& same_index(pre, post)
                &&& same_stack(pre, post)
                &&& same_fb(pre, post)
                &&& same_keys(pre, post)
                &&& r == Ok::<Option<u16>, VmError>(None)
            }
        },
        Instr::DumpRegs(x) => {
            if pre.index_reg as int + x as int + 1 > 4096 {
                &&& core_frame(pre, post)
                &&& r == Err::<Option<u16>, VmError>(VmError::OutOfBoundsAccess(w, pre.pc))
            } else {
                &&& post.memory@ == mem_after_dump(
                    pre.memory@,
                    pre.registers@,
                    pre.index_reg as int,
                    x as int,
                )
                &&& same_regs(pre, post)
                &&& same_index(pre, post)
                &&& same_stack(pre, post)
                &&& same_fb(pre, post)
                &&& same_keys(pre, post)
                &&& r == Ok::<Option<u16>, VmError>(None)
            }
        },
        Instr::LoadRegs(x) => {
            if pre.index_reg as int + x as int + 1 > 4096 {
                &&& core_frame(pre, post)
                &&& r == Err::<Option<u16>, VmError>(VmError::OutOfBoundsAccess(w, pre.pc))
            } else {
                &&& post.registers@ == regs_after_load(
                    pre.registers@,
                    pre.memory@,
                    pre.index_reg as int,
                    x as int,
                )
                &&& same_mem(pre, post)
                &&& same_index(pre, post)
                &&& same_stack(pre, post)
                &&& same_fb(pre, post)
                &&& same_keys(pre, post)
                &&& r == Ok::<Option<u16>, VmError>(None)
            }
        },
    }
}

/// Only the register file moves, to the given contents.
pub open spec fn regs_step(pre: Chip8, post: Chip8, regs: Seq<u8>) -> bool {
    &&& post.registers@ == regs
    &&& same_mem(pre, post)
    &&& same_index(pre, post)
    &&& same_stack(pre, post)
    &&& same_fb(pre, post)
    &&& same_keys(pre, post)
}

/// Only the index register moves, to the given value.
pub open spec fn index_step(pre: Chip8, post: Chip8, index: u16) -> bool {
    &&& post.index_reg == index
    &&& same_mem(pre, post)
    &&& same_regs(pre, post)
    &&& same_stack(pre, post)
    &&& same_fb(pre, post)
    &&& same_keys(pre, post)
}

} // verus!
