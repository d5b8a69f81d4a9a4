//! The CPU: register file, address decoder, flag register, stack discipline,
//! and the fetch-decode-execute engine.
//!
//! The register file is a single 12-byte store aliased by two views: an 8-bit
//! read-write view for the register halves and a 16-bit read-write view for
//! the pairs, so a pair and its halves are the same bytes, not copies. The
//! address decoder maps the 16-bit address space onto five disjoint regions
//! (ROM, working RAM, I/O ports, high RAM, the interrupt-enable register);
//! everything else is unmapped and faults. The engine is a two-state machine:
//! `Running`, and a terminal `Faulted` that records the first fault.

use vstd::prelude::*;

use crate::instruction::InstructionSet;
use crate::instruction::lemma_table_matches_engine;
use crate::instruction::spec_table;
use crate::storage::ByteStore;
use crate::storage::Fault;
use crate::storage::Storage;
use crate::storage::StorageMode;
use crate::storage::combine16;
use crate::storage::hi8;
use crate::storage::lo8;

verus! {

/// A named location: a register, the flag byte, the interrupt-master-enable
/// byte, or a memory address.
#[derive(Clone, Copy, Debug, PartialEq, Eq, Structural)]
pub enum Loc {
    RegA,
    RegB,
    RegC,
    RegD,
    RegE,
    RegH,
    RegL,
    RegAF,
    RegBC,
    RegDE,
    RegHL,
    RegSP,
    RegPC,
    Flags,
    RegIME,
    Mem(u16),
}

/// One of the four named flags, held in bits 4 to 7 of the F byte,
/// in this order from bit 4 upward.
#[derive(Clone, Copy, Debug, PartialEq, Eq, Structural)]
pub enum Flags {
    Zero,
    HalfCarry,
    Subtraction,
    Carry,
}

/// The engine's state: running, or stopped for good at its first fault.
#[derive(Clone, Copy, Debug, PartialEq, Eq, Structural)]
pub enum Status {
    Running,
    Faulted(Fault),
}

/// Which backing store a location resolves to.
#[derive(Clone, Copy, Debug)]
pub enum StoreKind {
    Regs8,
    Regs16,
    Rom,
    Ram,
    HighRam,
    IoPorts,
    InterruptEnable,
    Ime,
}

/// The abstract machine state: the bytes of each store, and the engine status.
pub struct State {
    pub regs: Seq<u8>,
    pub rom: Seq<u8>,
    pub ram: Seq<u8>,
    pub hram: Seq<u8>,
    pub io: Seq<u8>,
    pub ie: Seq<u8>,
    pub ime: Seq<u8>,
    pub status: Status,
}

pub open spec fn state_wf(s: State) -> bool {
    &&& s.regs.len() == 12
    &&& s.rom.len() == 0x8000
    &&& s.ram.len() == 0x2000
    &&& s.hram.len() == 0x7F
    &&& s.io.len() == 0x4C
    &&& s.ie.len() == 1
    &&& s.ime.len() == 1
}

/// Resolve a location to its backing store and the offset within it, or
/// `None` for an unmapped memory address. Register halves sit at the offsets
/// of the register-file table: F 0, A 1, C 2, B 3, E 4, D 5, L 6, H 7;
/// the pairs at the even offsets, SP at 8, PC at 10.
pub open spec fn spec_route(loc: Loc) -> Option<(StoreKind, u16)> {
    match loc {
        Loc::RegA => Some((StoreKind::Regs8, 1)),
        Loc::Flags => Some((StoreKind::Regs8, 0)),
        Loc::RegB => Some((StoreKind::Regs8, 3)),
        Loc::RegC => Some((StoreKind::Regs8, 2)),
        Loc::RegD => Some((StoreKind::Regs8, 5)),
        Loc::RegE => Some((StoreKind::Regs8, 4)),
        Loc::RegH => Some((StoreKind::Regs8, 7)),
        Loc::RegL => Some((StoreKind::Regs8, 6)),
        Loc::RegAF => Some((StoreKind::Regs16, 0)),
        Loc::RegBC => Some((StoreKind::Regs16, 2)),
        Loc::RegDE => Some((StoreKind::Regs16, 4)),
        Loc::RegHL => Some((StoreKind::Regs16, 6)),
        Loc::RegSP => Some((StoreKind::Regs16, 8)),
        Loc::RegPC => Some((StoreKind::Regs16, 10)),
        Loc::RegIME => Some((StoreKind::Ime, 0)),
        Loc::Mem(a) => if a < 0x8000 {
            Some((StoreKind::Rom, a))
        } else if 0xC000 <= a && a < 0xE000 {
            Some((StoreKind::Ram, (a - 0xC000) as u16))
        } else if 0xFF00 <= a && a <= 0xFF4B {
            Some((StoreKind::IoPorts, (a - 0xFF00) as u16))
        } else if 0xFF80 <= a && a <= 0xFFFE {
            Some((StoreKind::HighRam, (a - 0xFF80) as u16))
        } else if a == 0xFFFF {
            Some((StoreKind::InterruptEnable, 0))
        } else {
            Option::None
        },
    }
}

/// The view (position and per-width modes) that a resolved location is
/// accessed through. The register file forbids 16-bit access through the
/// 8-bit view and 8-bit access through the 16-bit view; the one-byte
/// interrupt stores forbid 16-bit access; the memory regions allow both.
pub open spec fn kind_view(k: StoreKind, off: u16) -> Storage {
    match k {
        StoreKind::Regs8 => Storage {
            address: Some(off), mode8: StorageMode::RW, mode16: StorageMode::NoAccess },
        StoreKind::Regs16 => Storage {
            address: Some(off), mode8: StorageMode::NoAccess, mode16: StorageMode::RW },
        StoreKind::Rom => Storage {
            address: Some(off), mode8: StorageMode::RW, mode16: StorageMode::RW },
        StoreKind::Ram => Storage {
            address: Some(off), mode8: StorageMode::RW, mode16: StorageMode::RW },
        StoreKind::HighRam => Storage {
            address: Some(off), mode8: StorageMode::RW, mode16: StorageMode::RW },
        StoreKind::IoPorts => Storage {
            address: Some(off), mode8: StorageMode::RW, mode16: StorageMode::RW },
        StoreKind::InterruptEnable => Storage {
            address: Some(off), mode8: StorageMode::RW, mode16: StorageMode::NoAccess },
        StoreKind::Ime => Storage {
            address: Some(off), mode8: StorageMode::RW, mode16: StorageMode::NoAccess },
    }
}

/// The bytes of the store a kind names.
pub open spec fn kind_data(s: State, k: StoreKind) -> Seq<u8> {
    match k {
        StoreKind::Regs8 => s.regs,
        StoreKind::Regs16 => s.regs,
        StoreKind::Rom => s.rom,
        StoreKind::Ram => s.ram,
        StoreKind::HighRam => s.hram,
        StoreKind::IoPorts => s.io,
        StoreKind::InterruptEnable => s.ie,
        StoreKind::Ime => s.ime,
    }
}

/// The state with the store a kind names replaced.
pub open spec fn kind_update(s: State, k: StoreKind, d: Seq<u8>) -> State {
    match k {
        StoreKind::Regs8 => State { regs: d, ..s },
        StoreKind::Regs16 => State { regs: d, ..s },
        StoreKind::Rom => State { rom: d, ..s },
        StoreKind::Ram => State { ram: d, ..s },
        StoreKind::HighRam => State { hram: d, ..s },
        StoreKind::IoPorts => State { io: d, ..s },
        StoreKind::InterruptEnable => State { ie: d, ..s },
        StoreKind::Ime => State { ime: d, ..s },
    }
}

/// What an 8-bit read of a named location returns.
pub open spec fn s_get_u8(s: State, loc: Loc) -> Result<u8, Fault> {
    match spec_route(loc) {
        Option::None => Err(Fault::MemoryFault),
        Some((k, off)) => kind_view(k, off).read8_spec(kind_data(s, k)),
    }
}

/// What a 16-bit read of a named location returns.
pub open spec fn s_get_u16(s: State, loc: Loc) -> Result<u16, Fault> {
    match spec_route(loc) {
        Option::None => Err(Fault::MemoryFault),
        Some((k, off)) => kind_view(k, off).read16_spec(kind_data(s, k)),
    }
}

/// The state after an 8-bit write to a named location, or the fault.
pub open spec fn s_set_u8(s: State, loc: Loc, value: u8) -> Result<State, Fault> {
    match spec_route(loc) {
        Option::None => Err(Fault::MemoryFault),
        Some((k, off)) => match kind_view(k, off).write8_spec(kind_data(s, k), value) {
            Ok(d) => Ok(kind_update(s, k, d)),
            Err(f) => Err(f),
        },
    }
}

/// The state after a 16-bit write to a named location, or the fault.
pub open spec fn s_set_u16(s: State, loc: Loc, value: u16) -> Result<State, Fault> {
    match spec_route(loc) {
        Option::None => Err(Fault::MemoryFault),
        Some((k, off)) => match kind_view(k, off).write16_spec(kind_data(s, k), value) {
            Ok(d) => Ok(kind_update(s, k, d)),
            Err(f) => Err(f),
        },
    }
}

/// The 16-bit register whose low byte sits at `off` in the register file.
pub open spec fn s_reg16_at(s: State, off: int) -> u16 {
    combine16(s.regs[off], s.regs[off + 1])
}

/// The state with that 16-bit register replaced, low byte first.
pub open spec fn s_set_reg16_at(s: State, off: int, v: u16) -> State {
    State { regs: s.regs.update(off, lo8(v)).update(off + 1, hi8(v)), ..s }
}

/// The state with one register-file byte replaced.
pub open spec fn s_set_reg8_at(s: State, off: int, v: u8) -> State {
    State { regs: s.regs.update(off, v), ..s }
}

pub open spec fn s_pc(s: State) -> u16 {
    s_reg16_at(s, 10)
}

pub open spec fn s_sp(s: State) -> u16 {
    s_reg16_at(s, 8)
}

pub open spec fn s_hl(s: State) -> u16 {
    s_reg16_at(s, 6)
}

/// The single bit of the F byte that a flag occupies.
pub open spec fn flag_mask(f: Flags) -> u8 {
    match f {
        Flags::Zero => 0x10,
        Flags::HalfCarry => 0x20,
        Flags::Subtraction => 0x40,
        Flags::Carry => 0x80,
    }
}

/// A flag is true exactly when its bit of the F byte is set.
pub open spec fn s_get_flag(s: State, f: Flags) -> bool {
    s.regs[0] & flag_mask(f) != 0
}

/// The F byte with one flag's bit cleared and then, if asked, set again;
/// the other three flags and the low nibble are untouched.
pub open spec fn set_flag_byte(fb: u8, mask: u8, value: bool) -> u8 {
    if value {
        (fb & !mask) | mask
    } else {
        fb & !mask
    }
}

/// The state after setting one flag.
pub open spec fn s_set_flag(s: State, f: Flags, value: bool) -> State {
    State { regs: s.regs.update(0, set_flag_byte(s.regs[0], flag_mask(f), value)), ..s }
}

/// Decrement of the stack pointer by 2, wrapping around the 16-bit space.
pub open spec fn w_sub2(sp: u16) -> u16 {
    if sp >= 2 {
        (sp - 2) as u16
    } else {
        (sp + 0xFFFE) as u16
    }
}

/// Increment of the stack pointer by 2, wrapping around the 16-bit space.
pub open spec fn w_add2(sp: u16) -> u16 {
    if sp <= 0xFFFD {
        (sp + 2) as u16
    } else {
        (sp - 0xFFFE) as u16
    }
}

/// Addition of a small offset to an address, wrapping around the 16-bit space.
pub open spec fn w_add16(a: u16, d: u16) -> u16 {
    if a + d <= 0xFFFF {
        (a + d) as u16
    } else {
        (a + d - 0x10000) as u16
    }
}

/// The state after a push, or the fault: SP is decremented by 2 and the value
/// is stored little-endian at the new SP. On a fault nothing changes.
pub open spec fn s_push(s: State, v: u16) -> Result<State, Fault> {
    let nsp = w_sub2(s_sp(s));
    match s_set_u16(s, Loc::Mem(nsp), v) {
        Ok(s2) => Ok(s_set_reg16_at(s2, 8, nsp)),
        Err(f) => Err(f),
    }
}

/// The state and value of a pop, or the fault: the value is read from SP and
/// SP is incremented by 2. On a fault nothing changes.
pub open spec fn s_pop(s: State) -> Result<(State, u16), Fault> {
    let sp = s_sp(s);
    match s_get_u16(s, Loc::Mem(sp)) {
        Ok(v) => Ok((s_set_reg16_at(s, 8, w_add2(sp)), v)),
        Err(f) => Err(f),
    }
}

/// The register-file bytes right after boot:
/// AF=0x01B0, BC=0x0013, DE=0x00D8, HL=0x014D, SP=0xFFFE, PC=0x0100.
pub open spec fn boot_regs() -> Seq<u8> {
    seq![0xB0u8, 0x01u8, 0x13u8, 0x00u8, 0xD8u8, 0x00u8, 0x4Du8, 0x01u8, 0xFEu8, 0xFFu8, 0x00u8, 0x01u8]
}

/// A ROM image zero-padded to the full ROM window.
pub open spec fn padded_rom(d: Seq<u8>) -> Seq<u8>
    recommends
        d.len() <= 0x8000,
{
    d + Seq::new((0x8000 - d.len()) as nat, |i: int| 0u8)
}

/// The whole machine state right after boot from a given ROM image.
pub open spec fn boot_state(d: Seq<u8>) -> State
    recommends
        d.len() <= 0x8000,
{
    State {
        regs: boot_regs(),
        rom: padded_rom(d),
        ram: Seq::new(0x2000, |i: int| 0u8),
        hram: Seq::new(0x7F, |i: int| 0u8),
        io: Seq::new(0x4C, |i: int| 0u8),
        ie: Seq::new(1, |i: int| 0u8),
        ime: Seq::new(1, |i: int| 0u8),
        status: Status::Running,
    }
}

/// The CPU: one byte store per region of the data model, the views that gate
/// access to them, and the engine status.
pub struct CPU {
    regs_store: ByteStore,
    rom_store: ByteStore,
    ram_store: ByteStore,
    hram_store: ByteStore,
    io_store: ByteStore,
    ie_store: ByteStore,
    ime_store: ByteStore,
    regs8: Storage,
    regs16: Storage,
    rom: Storage,
    ram: Storage,
    stack: Storage,
    io_ports: Storage,
    interrupt_enable: Storage,
    interrupt_master_enable: Storage,
    instruction_set: InstructionSet,
    status: Status,
}

impl View for CPU {
    type V = State;

    closed spec fn view(&self) -> State {
        State {
            regs: self.regs_store@,
            rom: self.rom_store@,
            ram: self.ram_store@,
            hram: self.hram_store@,
            io: self.io_store@,
            ie: self.ie_store@,
            ime: self.ime_store@,
            status: self.status,
        }
    }
}

impl CPU {
    /// The stores have their fixed sizes and each base view is unpositioned
    /// and carries the modes of its region.
    pub closed spec fn wf(self) -> bool {
        &&& state_wf(self@)
        &&& self.regs8 == (Storage {
            address: Option::None, mode8: StorageMode::RW, mode16: StorageMode::NoAccess })
        &&& self.regs16 == (Storage {
            address: Option::None, mode8: StorageMode::NoAccess, mode16: StorageMode::RW })
        &&& self.rom == (Storage {
            address: Option::None, mode8: StorageMode::RW, mode16: StorageMode::RW })
        &&& self.ram == (Storage {
            address: Option::None, mode8: StorageMode::RW, mode16: StorageMode::RW })
        &&& self.stack == (Storage {
            address: Option::None, mode8: StorageMode::RW, mode16: StorageMode::RW })
        &&& self.io_ports == (Storage {
            address: Option::None, mode8: StorageMode::RW, mode16: StorageMode::RW })
        &&& self.interrupt_enable == (Storage {
            address: Option::None, mode8: StorageMode::RW, mode16: StorageMode::NoAccess })
        &&& self.interrupt_master_enable == (Storage {
            address: Option::None, mode8: StorageMode::RW, mode16: StorageMode::NoAccess })
        &&& self.instruction_set.wf()
        &&& self.instruction_set@ == spec_table()
    }

    /// Boot a CPU from a ROM image of at most 0x8000 bytes; a larger image is
    /// refused. The image is zero-padded to the full ROM window and the
    /// registers take their documented post-boot values.
    pub fn new(rom: Vec<u8>) -> (r: Result<CPU, Fault>)
        ensures
            (match r {
                Ok(cpu) => cpu.wf() && rom@.len() <= 0x8000 && cpu@ == boot_state(rom@),
                Err(f) => f == Fault::RomTooLarge && rom@.len() > 0x8000,
            }),
    {
        let ghost orig: Seq<u8> = rom@;
        if rom.len() > 0x8000 {
            return Err(Fault::RomTooLarge);
        }
        let mut image = rom;
        while image.len() < 0x8000
            invariant
                orig.len() <= 0x8000,
                orig.len() <= image@.len() <= 0x8000,
                forall|i: int| 0 <= i < orig.len() ==> image@[i] == orig[i],
                forall|i: int| orig.len() <= i < image@.len() ==> image@[i] == 0u8,
            decreases 0x8000 - image@.len(),
        {
            image.push(0u8);
        }
        let (regs8, regs_store) = Storage::new(12, StorageMode::RW, StorageMode::NoAccess);
        let regs16 = regs8.duplicate(StorageMode::NoAccess, StorageMode::RW);
        let (rom_view, rom_store) = Storage::from_data(image, StorageMode::RW, StorageMode::RW);
        let (ram_view, ram_store) = Storage::new(0x2000, StorageMode::RW, StorageMode::RW);
        let (stack_view, hram_store) = Storage::new(0x7F, StorageMode::RW, StorageMode::RW);
        let (io_view, io_store) = Storage::new(0x4C, StorageMode::RW, StorageMode::RW);
        let (ie_view, ie_store) = Storage::new(1, StorageMode::RW, StorageMode::NoAccess);
        let (ime_view, ime_store) = Storage::new(1, StorageMode::RW, StorageMode::NoAccess);
        let mut cpu = CPU {
            regs_store,
            rom_store,
            ram_store,
            hram_store,
            io_store,
            ie_store,
            ime_store,
            regs8,
            regs16,
            rom: rom_view,
            ram: ram_view,
            stack: stack_view,
            io_ports: io_view,
            interrupt_enable: ie_view,
            interrupt_master_enable: ime_view,
            instruction_set: InstructionSet::new(),
            status: Status::Running,
        };
        let _ = cpu.set_u16(Loc::RegAF, 0x01B0);
        let _ = cpu.set_u16(Loc::RegBC, 0x0013);
        let _ = cpu.set_u16(Loc::RegDE, 0x00D8);
        let _ = cpu.set_u16(Loc::RegHL, 0x014D);
        let _ = cpu.set_u16(Loc::RegPC, 0x0100);
        let _ = cpu.set_u16(Loc::RegSP, 0xFFFE);
        proof {
            assert(cpu@.regs =~= boot_regs());
            assert(cpu@.rom =~= padded_rom(orig));
            assert(cpu@.ram =~= Seq::new(0x2000, |i: int| 0u8));
            assert(cpu@.hram =~= Seq::new(0x7F, |i: int| 0u8));
            assert(cpu@.io =~= Seq::new(0x4C, |i: int| 0u8));
            assert(cpu@.ie =~= Seq::new(1, |i: int| 0u8));
            assert(cpu@.ime =~= Seq::new(1, |i: int| 0u8));
            assert(cpu@ == boot_state(orig));
        }
        Ok(cpu)
    }

    /// The engine status.
    pub fn status(&self) -> (r: Status)
        ensures
            r == self@.status,
    {
        self.status
    }

    /// Resolve a location to the positioned view it is accessed through and
    /// the store behind it; an unmapped memory address is a memory fault.
    fn get_storage(&self, loc: Loc) -> (r: Result<(Storage, StoreKind), Fault>)
        requires
            self.wf(),
        ensures
            (match spec_route(loc) {
                Option::None => r == Err::<(Storage, StoreKind), Fault>(Fault::MemoryFault),
                Some((k, off)) => r matches Ok(p) && p.0 == kind_view(k, off) && p.1 == k,
            }),
    {
        match loc {
            Loc::RegA => Ok((self.regs8.view(1), StoreKind::Regs8)),
            Loc::Flags => Ok((self.regs8.view(0), StoreKind::Regs8)),
            Loc::RegB => Ok((self.regs8.view(3), StoreKind::Regs8)),
            Loc::RegC => Ok((self.regs8.view(2), StoreKind::Regs8)),
            Loc::RegD => Ok((self.regs8.view(5), StoreKind::Regs8)),
            Loc::RegE => Ok((self.regs8.view(4), StoreKind::Regs8)),
            Loc::RegH => Ok((self.regs8.view(7), StoreKind::Regs8)),
            Loc::RegL => Ok((self.regs8.view(6), StoreKind::Regs8)),
            Loc::RegAF => Ok((self.regs16.view(0), StoreKind::Regs16)),
            Loc::RegBC => Ok((self.regs16.view(2), StoreKind::Regs16)),
            Loc::RegDE => Ok((self.regs16.view(4), StoreKind::Regs16)),
            Loc::RegHL => Ok((self.regs16.view(6), StoreKind::Regs16)),
            Loc::RegSP => Ok((self.regs16.view(8), StoreKind::Regs16)),
            Loc::RegPC => Ok((self.regs16.view(10), StoreKind::Regs16)),
            Loc::RegIME => Ok((self.interrupt_master_enable.view(0), StoreKind::Ime)),
            Loc::Mem(a) => if a < 0x8000 {
                Ok((self.rom.view(a), StoreKind::Rom))
            } else if 0xC000 <= a && a < 0xE000 {
                Ok((self.ram.view(a - 0xC000), StoreKind::Ram))
            } else if 0xFF00 <= a && a <= 0xFF4B {
                Ok((self.io_ports.view(a - 0xFF00), StoreKind::IoPorts))
            } else if 0xFF80 <= a && a <= 0xFFFE {
                Ok((self.stack.view(a - 0xFF80), StoreKind::HighRam))
            } else if a == 0xFFFF {
                Ok((self.interrupt_enable.view(0), StoreKind::InterruptEnable))
            } else {
                Err(Fault::MemoryFault)
            },
        }
    }

    /// The store a kind names, for reading.
    fn store_ref(&self, k: StoreKind) -> (r: &ByteStore)
        ensures
            r@ == kind_data(self@, k),
    {
        match k {
            StoreKind::Regs8 => &self.regs_store,
            StoreKind::Regs16 => &self.regs_store,
            StoreKind::Rom => &self.rom_store,
            StoreKind::Ram => &self.ram_store,
            StoreKind::HighRam => &self.hram_store,
            StoreKind::IoPorts => &self.io_store,
            StoreKind::InterruptEnable => &self.ie_store,
            StoreKind::Ime => &self.ime_store,
        }
    }

    /// The store a kind names, for writing.
    fn store_mut(&mut self, k: StoreKind) -> (r: &mut ByteStore)
        ensures
            r@ == kind_data(old(self)@, k),
            final(self)@ == kind_update(old(self)@, k, final(r)@),
            old(self).wf() && final(r)@.len() == kind_data(old(self)@, k).len()
                ==> final(self).wf(),
    {
        match k {
            StoreKind::Regs8 => &mut self.regs_store,
            StoreKind::Regs16 => &mut self.regs_store,
            StoreKind::Rom => &mut self.rom_store,
            StoreKind::Ram => &mut self.ram_store,
            StoreKind::HighRam => &mut self.hram_store,
            StoreKind::IoPorts => &mut self.io_store,
            StoreKind::InterruptEnable => &mut self.ie_store,
            StoreKind::Ime => &mut self.ime_store,
        }
    }

    /// Read the byte at a named location.
    pub fn get_u8(&self, loc: Loc) -> (r: Result<u8, Fault>)
        requires
            self.wf(),
        ensures
            r == s_get_u8(self@, loc),
    {
        let (view, k) = match self.get_storage(loc) {
            Ok(p) => p,
            Err(f) => {
                return Err(f);
            },
        };
        view.read_u8(self.store_ref(k))
    }

    /// Read the little-endian 16-bit value at a named location.
    pub fn get_u16(&self, loc: Loc) -> (r: Result<u16, Fault>)
        requires
            self.wf(),
        ensures
            r == s_get_u16(self@, loc),
    {
        let (view, k) = match self.get_storage(loc) {
            Ok(p) => p,
            Err(f) => {
                return Err(f);
            },
        };
        view.read_u16(self.store_ref(k))
    }

    /// Write the byte at a named location; on a fault nothing changes.
    pub fn set_u8(&mut self, loc: Loc, value: u8) -> (r: Result<(), Fault>)
        requires
            old(self).wf(),
        ensures
            final(self).wf(),
            (match s_set_u8(old(self)@, loc, value) {
                Ok(s2) => final(self)@ == s2 && r == Ok::<(), Fault>(()),
                Err(f) => final(self)@ == old(self)@ && r == Err::<(), Fault>(f),
            }),
    {
        let (view, k) = match self.get_storage(loc) {
            Ok(p) => p,
            Err(f) => {
                return Err(f);
            },
        };
        let store = self.store_mut(k);
        view.write_u8(store, value)
    }

    /// Write the little-endian 16-bit value at a named location; on a fault
    /// nothing changes.
    pub fn set_u16(&mut self, loc: Loc, value: u16) -> (r: Result<(), Fault>)
        requires
            old(self).wf(),
        ensures
            final(self).wf(),
            (match s_set_u16(old(self)@, loc, value) {
                Ok(s2) => final(self)@ == s2 && r == Ok::<(), Fault>(()),
                Err(f) => final(self)@ == old(self)@ && r == Err::<(), Fault>(f),
            }),
    {
        let (view, k) = match self.get_storage(loc) {
            Ok(p) => p,
            Err(f) => {
                return Err(f);
            },
        };
        let store = self.store_mut(k);
        view.write_u16(store, value)
    }

    /// Test one flag of the F byte.
    pub fn get_flag(&self, flag: Flags) -> (r: bool)
        requires
            self.wf(),
        ensures
            r == s_get_flag(self@, flag),
    {
        let fb = match self.get_u8(Loc::Flags) {
            Ok(v) => v,
            Err(_) => 0,
        };
        let mask = flag_mask_x(flag);
        fb & mask != 0
    }

    /// Clear one flag's bit of the F byte and, if asked, set it again; the
    /// other flags and the low nibble are untouched.
    pub fn set_flag(&mut self, flag: Flags, value: bool)
        requires
            old(self).wf(),
        ensures
            final(self).wf(),
            final(self)@ == s_set_flag(old(self)@, flag, value),
    {
        let fb = match self.get_u8(Loc::Flags) {
            Ok(v) => v,
            Err(_) => 0,
        };
        let mask = flag_mask_x(flag);
        let unset = fb & !mask;
        let newb = if value {
            unset | mask
        } else {
            unset
        };
        let _ = self.set_u8(Loc::Flags, newb);
    }

    /// Decrement SP by 2, then store the value little-endian at the new SP.
    /// On a fault nothing changes, SP included.
    pub fn push(&mut self, value: u16) -> (r: Result<(), Fault>)
        requires
            old(self).wf(),
        ensures
            final(self).wf(),
            (match s_push(old(self)@, value) {
                Ok(s2) => final(self)@ == s2 && r == Ok::<(), Fault>(()),
                Err(f) => final(self)@ == old(self)@ && r == Err::<(), Fault>(f),
            }),
    {
        let sp = match self.get_u16(Loc::RegSP) {
            Ok(v) => v,
            Err(f) => {
                return Err(f);
            },
        };
        let nsp = if sp >= 2 {
            sp - 2
        } else {
            sp + 0xFFFE
        };
        match self.set_u16(Loc::Mem(nsp), value) {
            Ok(()) => {},
            Err(f) => {
                return Err(f);
            },
        }
        let _ = self.set_u16(Loc::RegSP, nsp);
        Ok(())
    }

    /// Read the value at SP, then increment SP by 2. On a fault nothing
    /// changes, SP included.
    pub fn pop(&mut self) -> (r: Result<u16, Fault>)
        requires
            old(self).wf(),
        ensures
            final(self).wf(),
            (match s_pop(old(self)@) {
                Ok(p) => final(self)@ == p.0 && r == Ok::<u16, Fault>(p.1),
                Err(f) => final(self)@ == old(self)@ && r == Err::<u16, Fault>(f),
            }),
    {
        let sp = match self.get_u16(Loc::RegSP) {
            Ok(v) => v,
            Err(f) => {
                return Err(f);
            },
        };
        let v = match self.get_u16(Loc::Mem(sp)) {
            Ok(v) => v,
            Err(f) => {
                return Err(f);
            },
        };
        let nsp = if sp <= 0xFFFD {
            sp + 2
        } else {
            sp - 0xFFFE
        };
        let _ = self.set_u16(Loc::RegSP, nsp);
        Ok(v)
    }
}

/// The bit of one flag, as a runtime value.
fn flag_mask_x(f: Flags) -> (r: u8)
    ensures
        r == flag_mask(f),
{
    match f {
        Flags::Zero => 0x10,
        Flags::HalfCarry => 0x20,
        Flags::Subtraction => 0x40,
        Flags::Carry => 0x80,
    }
}

/// Wrapping 16-bit addition, as a runtime value.
fn wrap_add(a: u16, d: u16) -> (r: u16)
    ensures
        r == w_add16(a, d),
{
    if d <= 0xFFFF - a {
        a + d
    } else {
        let wide: u32 = a as u32 + d as u32;
        (wide - 0x10000) as u16
    }
}

/// The state stopped at a fault.
pub open spec fn s_fail(s: State, f: Fault) -> State {
    State { status: Status::Faulted(f), ..s }
}

/// A step outcome that stops at a fault.
pub open spec fn s_failed(s: State, f: Fault) -> (State, Result<(), Fault>) {
    (s_fail(s, f), Err(f))
}

/// A step outcome that advances PC by a fixed instruction length; a result
/// past the end of the 16-bit range is a fault, and PC is left unwritten.
pub open spec fn s_adv(s: State, pc: u16, len: u16) -> (State, Result<(), Fault>) {
    if pc + len > 0xFFFF {
        s_failed(s, Fault::PcOutOfRange)
    } else {
        (s_set_reg16_at(s, 10, (pc + len) as u16), Ok(()))
    }
}

/// A step outcome that sets PC to a computed target; a target outside the
/// 16-bit range is a fault, and PC is left unwritten.
pub open spec fn s_jump(s: State, target: int) -> (State, Result<(), Fault>) {
    if target < 0 || target > 0xFFFF {
        s_failed(s, Fault::PcOutOfRange)
    } else {
        (s_set_reg16_at(s, 10, target as u16), Ok(()))
    }
}

/// The signed displacement an 8-bit relative-jump operand denotes.
pub open spec fn sdisp(imm: u8) -> int {
    if imm >= 0x80 {
        imm - 256
    } else {
        imm as int
    }
}

/// The outcome of a 16-bit immediate load into the register whose low byte
/// sits at `off`.
pub open spec fn spec_ld16(s: State, pc: u16, off: int) -> (State, Result<(), Fault>) {
    match s_get_u16(s, Loc::Mem(w_add16(pc, 1))) {
        Err(f) => s_failed(s, f),
        Ok(d) => s_adv(s_set_reg16_at(s, off, d), pc, 3),
    }
}

/// The low-byte offset of a 16-bit register location.
pub open spec fn reg16_off(dst: Loc) -> int {
    match dst {
        Loc::RegAF => 0,
        Loc::RegBC => 2,
        Loc::RegDE => 4,
        Loc::RegHL => 6,
        Loc::RegSP => 8,
        Loc::RegPC => 10,
        _ => 0,
    }
}

/// The outcome of one primary (non-prefixed) opcode fetched at `pc`, with
/// the machine running. An opcode outside the implemented set faults with
/// its address and composite code.
pub open spec fn spec_run_primary(s: State, pc: u16, op: u8) -> (State, Result<(), Fault>) {
    if op == 0x00 {
        // NOP
        s_adv(s, pc, 1)
    } else if op == 0x01 {
        spec_ld16(s, pc, 2)
    } else if op == 0x11 {
        spec_ld16(s, pc, 4)
    } else if op == 0x21 {
        spec_ld16(s, pc, 6)
    } else if op == 0x31 {
        spec_ld16(s, pc, 8)
    } else if op == 0x18 || op == 0x20 || op == 0x28 {
        // JR r8, JR NZ r8, JR Z r8
        let taken = if op == 0x18 {
            true
        } else if op == 0x20 {
            !s_get_flag(s, Flags::Zero)
        } else {
            s_get_flag(s, Flags::Zero)
        };
        if !taken {
            s_adv(s, pc, 2)
        } else {
            match s_get_u8(s, Loc::Mem(w_add16(pc, 1))) {
                Err(f) => s_failed(s, f),
                Ok(imm) => s_jump(s, pc + 2 + sdisp(imm)),
            }
        }
    } else if op == 0x36 {
        // LD (HL), d8
        match s_get_u8(s, Loc::Mem(w_add16(pc, 1))) {
            Err(f) => s_failed(s, f),
            Ok(d) => match s_set_u8(s, Loc::Mem(s_hl(s)), d) {
                Err(f) => s_failed(s, f),
                Ok(s2) => s_adv(s2, pc, 2),
            },
        }
    } else if op == 0x3E {
        // LD A, d8
        match s_get_u8(s, Loc::Mem(w_add16(pc, 1))) {
            Err(f) => s_failed(s, f),
            Ok(d) => s_adv(s_set_reg8_at(s, 1, d), pc, 2),
        }
    } else if op == 0x47 {
        // LD B, A
        s_adv(s_set_reg8_at(s, 3, s.regs[1]), pc, 1)
    } else if op == 0x78 {
        // LD A, B
        s_adv(s_set_reg8_at(s, 1, s.regs[3]), pc, 1)
    } else if op == 0xAF {
        // XOR A, A: A becomes zero, the flag byte is zeroed and Zero is set
        s_adv(s_set_reg8_at(s_set_reg8_at(s, 1, 0), 0, 0x10), pc, 1)
    } else if op == 0xC3 {
        // JP a16
        match s_get_u16(s, Loc::Mem(w_add16(pc, 1))) {
            Err(f) => s_failed(s, f),
            Ok(t) => (s_set_reg16_at(s, 10, t), Ok(())),
        }
    } else if op == 0xC9 {
        // RET
        match s_pop(s) {
            Err(f) => s_failed(s, f),
            Ok(p) => (s_set_reg16_at(p.0, 10, p.1), Ok(())),
        }
    } else if op == 0xCD {
        // CALL a16
        match s_get_u16(s, Loc::Mem(w_add16(pc, 1))) {
            Err(f) => s_failed(s, f),
            Ok(t) => match s_push(s, w_add16(pc, 3)) {
                Err(f) => s_failed(s, f),
                Ok(s2) => (s_set_reg16_at(s2, 10, t), Ok(())),
            },
        }
    } else if op == 0xE0 {
        // LDH (a8), A
        match s_get_u8(s, Loc::Mem(w_add16(pc, 1))) {
            Err(f) => s_failed(s, f),
            Ok(a8) => match s_set_u8(s, Loc::Mem((0xFF00 + a8) as u16), s.regs[1]) {
                Err(f) => s_failed(s, f),
                Ok(s2) => s_adv(s2, pc, 2),
            },
        }
    } else if op == 0xE6 {
        // AND d8: Carry and Subtraction cleared, HalfCarry set, Zero from the result
        match s_get_u8(s, Loc::Mem(w_add16(pc, 1))) {
            Err(f) => s_failed(s, f),
            Ok(d) => {
                let v = s.regs[1] & d;
                s_adv(
                    s_set_reg8_at(s_set_reg8_at(s, 1, v), 0, if v == 0 { 0x30u8 } else { 0x20u8 }),
                    pc,
                    2,
                )
            },
        }
    } else if op == 0xEA {
        // LD (a16), A
        match s_get_u16(s, Loc::Mem(w_add16(pc, 1))) {
            Err(f) => s_failed(s, f),
            Ok(t) => match s_set_u8(s, Loc::Mem(t), s.regs[1]) {
                Err(f) => s_failed(s, f),
                Ok(s2) => s_adv(s2, pc, 3),
            },
        }
    } else if op == 0xF0 {
        // LDH A, (a8)
        match s_get_u8(s, Loc::Mem(w_add16(pc, 1))) {
            Err(f) => s_failed(s, f),
            Ok(a8) => match s_get_u8(s, Loc::Mem((0xFF00 + a8) as u16)) {
                Err(f) => s_failed(s, f),
                Ok(v) => s_adv(s_set_reg8_at(s, 1, v), pc, 2),
            },
        }
    } else if op == 0xF3 {
        // DI: clear the interrupt-master-enable byte
        s_adv(State { ime: s.ime.update(0, 0u8), ..s }, pc, 1)
    } else if op == 0xFE {
        // CP d8: Zero set exactly when A equals the immediate
        match s_get_u8(s, Loc::Mem(w_add16(pc, 1))) {
            Err(f) => s_failed(s, f),
            Ok(d) => s_adv(s_set_flag(s, Flags::Zero, s.regs[1] == d), pc, 2),
        }
    } else {
        s_failed(s, Fault::UnknownOpcode(pc, op as u16))
    }
}

/// The outcome of one 0xCB-prefixed opcode fetched at `pc`.
pub open spec fn spec_run_cb(s: State, pc: u16, sub: u8) -> (State, Result<(), Fault>) {
    if sub == 0x87 {
        // RES 0, A
        s_adv(s_set_reg8_at(s, 1, s.regs[1] & 0xFE), pc, 2)
    } else {
        s_failed(s, Fault::UnknownOpcode(pc, (0xCB00 + sub) as u16))
    }
}

/// One whole step of the engine: fetch the opcode at PC, resolve it (through
/// the prefix byte if it is 0xCB), run its effect, and compute the next PC.
/// A faulted machine stays as it is and reports its fault again.
pub open spec fn spec_step(s: State) -> (State, Result<(), Fault>) {
    match s.status {
        Status::Faulted(f) => (s, Err(f)),
        Status::Running => {
            let pc = s_pc(s);
            match s_get_u8(s, Loc::Mem(pc)) {
                Err(f) => s_failed(s, f),
                Ok(op) => if op == 0xCB {
                    match s_get_u8(s, Loc::Mem(w_add16(pc, 1))) {
                        Err(f) => s_failed(s, f),
                        Ok(sub) => spec_run_cb(s, pc, sub),
                    }
                } else {
                    spec_run_primary(s, pc, op)
                },
            }
        },
    }
}

impl CPU {
    /// Stop at a fault: record it and report it.
    fn fail(&mut self, f: Fault) -> (r: Result<(), Fault>)
        ensures
            final(self)@ == s_fail(old(self)@, f),
            r == Err::<(), Fault>(f),
            old(self).wf() ==> final(self).wf(),
    {
        self.status = Status::Faulted(f);
        Err(f)
    }

    /// Advance PC past an instruction of the given length.
    fn advance(&mut self, pc: u16, len: u16) -> (r: Result<(), Fault>)
        requires
            old(self).wf(),
            len <= 3,
        ensures
            final(self).wf(),
            ({
                let p = s_adv(old(self)@, pc, len);
                final(self)@ == p.0 && r == p.1
            }),
    {
        if pc > 0xFFFF - len {
            self.fail(Fault::PcOutOfRange)
        } else {
            let _ = self.set_u16(Loc::RegPC, pc + len);
            Ok(())
        }
    }

    /// Take a relative jump: PC moves past the 2-byte instruction and then by
    /// the signed displacement.
    fn rel_jump(&mut self, pc: u16, imm: u8) -> (r: Result<(), Fault>)
        requires
            old(self).wf(),
        ensures
            final(self).wf(),
            ({
                let p = s_jump(old(self)@, pc + 2 + sdisp(imm));
                final(self)@ == p.0 && r == p.1
            }),
    {
        let disp: i32 = if imm >= 0x80 {
            imm as i32 - 256
        } else {
            imm as i32
        };
        let t: i32 = pc as i32 + 2 + disp;
        if t < 0 || t > 0xFFFF {
            self.fail(Fault::PcOutOfRange)
        } else {
            let _ = self.set_u16(Loc::RegPC, t as u16);
            Ok(())
        }
    }

    /// Load a 16-bit immediate into a register pair or SP.
    fn ld_r16_d16(&mut self, pc: u16, dst: Loc) -> (r: Result<(), Fault>)
        requires
            old(self).wf(),
            dst == Loc::RegBC || dst == Loc::RegDE || dst == Loc::RegHL || dst == Loc::RegSP,
        ensures
            final(self).wf(),
            ({
                let p = spec_ld16(old(self)@, pc, reg16_off(dst));
                final(self)@ == p.0 && r == p.1
            }),
    {
        let d = match self.get_u16(Loc::Mem(wrap_add(pc, 1))) {
            Ok(v) => v,
            Err(f) => {
                return self.fail(f);
            },
        };
        let _ = self.set_u16(dst, d);
        self.advance(pc, 3)
    }

    /// The accumulator.
    fn read_a(&self) -> (r: u8)
        requires
            self.wf(),
        ensures
            r == self@.regs[1],
    {
        match self.get_u8(Loc::RegA) {
            Ok(v) => v,
            Err(_) => 0,
        }
    }

    /// Register B.
    fn read_b(&self) -> (r: u8)
        requires
            self.wf(),
        ensures
            r == self@.regs[3],
    {
        match self.get_u8(Loc::RegB) {
            Ok(v) => v,
            Err(_) => 0,
        }
    }

    /// One fetch-decode-execute step. On a running machine: fetch the opcode
    /// at PC (through the 0xCB prefix if present), run its effect, and write
    /// the next PC; any fault stops the machine for good with nothing further
    /// changed by that step. On a faulted machine: change nothing and report
    /// the recorded fault again.
    pub fn execute(&mut self) -> (r: Result<(), Fault>)
        requires
            old(self).wf(),
        ensures
            final(self).wf(),
            ({
                let p = spec_step(old(self)@);
                final(self)@ == p.0 && r == p.1
            }),
    {
        if let Status::Faulted(f) = self.status {
            return Err(f);
        }
        let pc = match self.get_u16(Loc::RegPC) {
            Ok(v) => v,
            Err(f) => {
                return Err(f);
            },
        };
        let op = match self.get_u8(Loc::Mem(pc)) {
            Ok(v) => v,
            Err(f) => {
                return self.fail(f);
            },
        };
        // resolve the descriptor: through the prefix byte for 0xCB, directly
        // otherwise; an opcode the table does not catalogue is fatal
        let sub: u8 = if op == 0xCB {
            match self.get_u8(Loc::Mem(wrap_add(pc, 1))) {
                Ok(v) => v,
                Err(f) => {
                    return self.fail(f);
                },
            }
        } else {
            0
        };
        let composite: u16 = if op == 0xCB {
            0xCB00 + sub as u16
        } else {
            op as u16
        };
        proof {
            lemma_table_matches_engine(composite);
        }
        if self.instruction_set.get_instruction(composite).is_none() {
            return self.fail(Fault::UnknownOpcode(pc, composite));
        }
        if op == 0xCB {
            // the one catalogued extended opcode: RES 0, A
            let a = self.read_a();
            let _ = self.set_u8(Loc::RegA, a & 0xFE);
            return self.advance(pc, 2);
        }
        match op {
            0x00 => self.advance(pc, 1),
            0x01 => self.ld_r16_d16(pc, Loc::RegBC),
            0x11 => self.ld_r16_d16(pc, Loc::RegDE),
            0x21 => self.ld_r16_d16(pc, Loc::RegHL),
            0x31 => self.ld_r16_d16(pc, Loc::RegSP),
            0x18 | 0x20 | 0x28 => {
                let taken = if op == 0x18 {
                    true
                } else {
                    let z = self.get_flag(Flags::Zero);
                    if op == 0x20 {
                        !z
                    } else {
                        z
                    }
                };
                if !taken {
                    self.advance(pc, 2)
                } else {
                    let imm = match self.get_u8(Loc::Mem(wrap_add(pc, 1))) {
                        Ok(v) => v,
                        Err(f) => {
                            return self.fail(f);
                        },
                    };
                    self.rel_jump(pc, imm)
                }
            },
            0x36 => {
                let d = match self.get_u8(Loc::Mem(wrap_add(pc, 1))) {
                    Ok(v) => v,
                    Err(f) => {
                        return self.fail(f);
                    },
                };
                let hl = match self.get_u16(Loc::RegHL) {
                    Ok(v) => v,
                    Err(f) => {
                        return Err(f);
                    },
                };
                match self.set_u8(Loc::Mem(hl), d) {
                    Ok(()) => self.advance(pc, 2),
                    Err(f) => self.fail(f),
                }
            },
            0x3E => {
                let d = match self.get_u8(Loc::Mem(wrap_add(pc, 1))) {
                    Ok(v) => v,
                    Err(f) => {
                        return self.fail(f);
                    },
                };
                let _ = self.set_u8(Loc::RegA, d);
                self.advance(pc, 2)
            },
            0x47 => {
                let a = self.read_a();
                let _ = self.set_u8(Loc::RegB, a);
                self.advance(pc, 1)
            },
            0x78 => {
                let b = self.read_b();
                let _ = self.set_u8(Loc::RegA, b);
                self.advance(pc, 1)
            },
            0xAF => {
                let _ = self.set_u8(Loc::RegA, 0);
                let _ = self.set_u8(Loc::Flags, 0x10);
                self.advance(pc, 1)
            },
            0xC3 => {
                let t = match self.get_u16(Loc::Mem(wrap_add(pc, 1))) {
                    Ok(v) => v,
                    Err(f) => {
                        return self.fail(f);
                    },
                };
                let _ = self.set_u16(Loc::RegPC, t);
                Ok(())
            },
            0xC9 => {
                let v = match self.pop() {
                    Ok(v) => v,
                    Err(f) => {
                        return self.fail(f);
                    },
                };
                let _ = self.set_u16(Loc::RegPC, v);
                Ok(())
            },
            0xCD => {
                let t = match self.get_u16(Loc::Mem(wrap_add(pc, 1))) {
                    Ok(v) => v,
                    Err(f) => {
                        return self.fail(f);
                    },
                };
                match self.push(wrap_add(pc, 3)) {
                    Ok(()) => {},
                    Err(f) => {
                        return self.fail(f);
                    },
                }
                let _ = self.set_u16(Loc::RegPC, t);
                Ok(())
            },
            0xE0 => {
                let a8 = match self.get_u8(Loc::Mem(wrap_add(pc, 1))) {
                    Ok(v) => v,
                    Err(f) => {
                        return self.fail(f);
                    },
                };
                let a = self.read_a();
                match self.set_u8(Loc::Mem(0xFF00 + a8 as u16), a) {
                    Ok(()) => self.advance(pc, 2),
                    Err(f) => self.fail(f),
                }
            },
            0xE6 => {
                let d = match self.get_u8(Loc::Mem(wrap_add(pc, 1))) {
                    Ok(v) => v,
                    Err(f) => {
                        return self.fail(f);
                    },
                };
                let a = self.read_a();
                let v = a & d;
                let _ = self.set_u8(Loc::RegA, v);
                let _ = self.set_u8(Loc::Flags, if v == 0 { 0x30 } else { 0x20 });
                self.advance(pc, 2)
            },
            0xEA => {
                let t = match self.get_u16(Loc::Mem(wrap_add(pc, 1))) {
                    Ok(v) => v,
                    Err(f) => {
                        return self.fail(f);
                    },
                };
                let a = self.read_a();
                match self.set_u8(Loc::Mem(t), a) {
                    Ok(()) => self.advance(pc, 3),
                    Err(f) => self.fail(f),
                }
            },
            0xF0 => {
                let a8 = match self.get_u8(Loc::Mem(wrap_add(pc, 1))) {
                    Ok(v) => v,
                    Err(f) => {
                        return self.fail(f);
                    },
                };
                let v = match self.get_u8(Loc::Mem(0xFF00 + a8 as u16)) {
                    Ok(v) => v,
                    Err(f) => {
                        return self.fail(f);
                    },
                };
                let _ = self.set_u8(Loc::RegA, v);
                self.advance(pc, 2)
            },
            0xF3 => {
                let _ = self.set_u8(Loc::RegIME, 0);
                self.advance(pc, 1)
            },
            0xFE => {
                let d = match self.get_u8(Loc::Mem(wrap_add(pc, 1))) {
                    Ok(v) => v,
                    Err(f) => {
                        return self.fail(f);
                    },
                };
                let a = self.read_a();
                self.set_flag(Flags::Zero, a == d);
                self.advance(pc, 2)
            },
            _ => self.fail(Fault::UnknownOpcode(pc, op as u16)),
        }
    }
}

/// The fixed size of the store a kind names.
pub open spec fn kind_len(k: StoreKind) -> int {
    match k {
        StoreKind::Regs8 => 12,
        StoreKind::Regs16 => 12,
        StoreKind::Rom => 0x8000,
        StoreKind::Ram => 0x2000,
        StoreKind::HighRam => 0x7F,
        StoreKind::IoPorts => 0x4C,
        StoreKind::InterruptEnable => 1,
        StoreKind::Ime => 1,
    }
}

/// A memory address at which a 16-bit access succeeds: the address is mapped
/// and the following byte still lies within the same region.
pub open spec fn mapped16(a: u16) -> bool {
    match spec_route(Loc::Mem(a)) {
        Some((k, off)) => off + 1 < kind_len(k),
        Option::None => false,
    }
}

/// Round trip through memory: at any address where a 16-bit access stays
/// within one region, writing a 16-bit value succeeds, reading it back gives
/// the value, and the two bytes read 8-bit-wise are its little-endian halves.
pub proof fn lemma_mem_round_trip(s: State, a: u16, v: u16)
    requires
        state_wf(s),
        mapped16(a),
    ensures
        s_set_u16(s, Loc::Mem(a), v) is Ok,
        s_set_u16(s, Loc::Mem(a), v) matches Ok(s2) ==> {
            &&& s_get_u16(s2, Loc::Mem(a)) == Ok::<u16, Fault>(v)
            &&& s_get_u8(s2, Loc::Mem(a)) == Ok::<u8, Fault>(lo8(v))
            &&& s_get_u8(s2, Loc::Mem(w_add16(a, 1))) == Ok::<u8, Fault>(hi8(v))
            &&& lo8(v) == (v & 0xFF)
            &&& hi8(v) == (v >> 8)
        },
{
    crate::storage::lemma_combine_split(v);
}

/// A 16-bit register location is exactly the pair of its 8-bit halves.
pub open spec fn is_reg_pair(p: Loc) -> bool {
    p == Loc::RegAF || p == Loc::RegBC || p == Loc::RegDE || p == Loc::RegHL
}

/// The location of the low half of a register pair.
pub open spec fn pair_low(p: Loc) -> Loc {
    match p {
        Loc::RegAF => Loc::Flags,
        Loc::RegBC => Loc::RegC,
        Loc::RegDE => Loc::RegE,
        Loc::RegHL => Loc::RegL,
        _ => p,
    }
}

/// The location of the high half of a register pair.
pub open spec fn pair_high(p: Loc) -> Loc {
    match p {
        Loc::RegAF => Loc::RegA,
        Loc::RegBC => Loc::RegB,
        Loc::RegDE => Loc::RegD,
        Loc::RegHL => Loc::RegH,
        _ => p,
    }
}

/// Register aliasing: a pair and its halves are the same bytes. Reading a
/// pair composes its two halves little-endian; writing the pair makes its
/// halves read as the written bytes; writing both halves makes the pair read
/// as their composition.
pub proof fn lemma_register_aliasing(s: State, p: Loc, v: u16, lo: u8, hi: u8)
    requires
        state_wf(s),
        is_reg_pair(p),
    ensures
        (match (s_get_u16(s, p), s_get_u8(s, pair_low(p)), s_get_u8(s, pair_high(p))) {
            (Ok(w), Ok(l), Ok(h)) => w == combine16(l, h),
            _ => false,
        }),
        s_set_u16(s, p, v) is Ok,
        s_set_u16(s, p, v) matches Ok(s2) ==> {
            &&& s_get_u8(s2, pair_low(p)) == Ok::<u8, Fault>(lo8(v))
            &&& s_get_u8(s2, pair_high(p)) == Ok::<u8, Fault>(hi8(v))
        },
        (match s_set_u8(s, pair_low(p), lo) {
            Ok(s1) => match s_set_u8(s1, pair_high(p), hi) {
                Ok(s2) => s_get_u16(s2, p) == Ok::<u16, Fault>(combine16(lo, hi)),
                Err(_) => false,
            },
            Err(_) => false,
        }),
{
}

/// One bit kept under a flag update: masking with a bit disjoint from the
/// flag's own reads the same before and after.
proof fn lemma_mask_preserves(fb: u8, m: u8, g: u8, value: bool)
    requires
        m & g == 0,
    ensures
        set_flag_byte(fb, m, value) & g == fb & g,
{
    if value {
        assert(((fb & !m) | m) & g == fb & g) by (bit_vector)
            requires
                m & g == 0,
        ;
    } else {
        assert((fb & !m) & g == fb & g) by (bit_vector)
            requires
                m & g == 0,
        ;
    }
}

/// The updated flag reads as the value it was set to.
proof fn lemma_mask_sets(fb: u8, m: u8, value: bool)
    requires
        m != 0,
    ensures
        (set_flag_byte(fb, m, value) & m != 0) == value,
{
    if value {
        assert(((fb & !m) | m) & m != 0) by (bit_vector)
            requires
                m != 0,
        ;
    } else {
        assert((fb & !m) & m == 0) by (bit_vector);
    }
}

/// Distinct flags occupy disjoint bits.
proof fn lemma_flag_masks_disjoint(f: Flags, g: Flags)
    requires
        f != g,
    ensures
        flag_mask(f) & flag_mask(g) == 0,
{
    let a = flag_mask(f);
    let b = flag_mask(g);
    assert(a & b == b & a) by (bit_vector);
    assert(0x10u8 & 0x20u8 == 0) by (bit_vector);
    assert(0x10u8 & 0x40u8 == 0) by (bit_vector);
    assert(0x10u8 & 0x80u8 == 0) by (bit_vector);
    assert(0x20u8 & 0x40u8 == 0) by (bit_vector);
    assert(0x20u8 & 0x80u8 == 0) by (bit_vector);
    assert(0x40u8 & 0x80u8 == 0) by (bit_vector);
}

/// Flags isolation: setting one flag makes that flag read as the value set,
/// leaves every other flag as it was, and touches neither the low nibble of
/// the F byte nor any other byte of the register file.
pub proof fn lemma_flag_isolation(s: State, f: Flags, value: bool, g: Flags)
    requires
        state_wf(s),
        f != g,
    ensures
        s_get_flag(s_set_flag(s, f, value), f) == value,
        s_get_flag(s_set_flag(s, f, value), g) == s_get_flag(s, g),
        s_set_flag(s, f, value).regs[0] & 0x0F == s.regs[0] & 0x0F,
        forall|i: int| 1 <= i < 12 ==> s_set_flag(s, f, value).regs[i] == s.regs[i],
{
    let fb = s.regs[0];
    let m = flag_mask(f);
    lemma_flag_masks_disjoint(f, g);
    lemma_mask_sets(fb, m, value);
    lemma_mask_preserves(fb, m, flag_mask(g), value);
    assert(0x10u8 & 0x0Fu8 == 0) by (bit_vector);
    assert(0x20u8 & 0x0Fu8 == 0) by (bit_vector);
    assert(0x40u8 & 0x0Fu8 == 0) by (bit_vector);
    assert(0x80u8 & 0x0Fu8 == 0) by (bit_vector);
    lemma_mask_preserves(fb, m, 0x0F, value);
}

/// Stack symmetry: wherever a push can write (its decremented stack pointer
/// is an address at which a 16-bit access stays within one region), a push
/// followed by a pop yields the pushed value and restores the whole register
/// file, SP included; only the stack slot's region was written.
pub proof fn lemma_stack_symmetry(s: State, v: u16)
    requires
        state_wf(s),
        mapped16(w_sub2(s_sp(s))),
    ensures
        s_push(s, v) is Ok,
        s_push(s, v) matches Ok(s2) ==> {
            &&& s_pop(s2) is Ok
            &&& (s_pop(s2) matches Ok(p) ==> {
                &&& p.1 == v
                &&& p.0.regs == s.regs
                &&& p.0.rom == s2.rom && p.0.ram == s2.ram && p.0.hram == s2.hram
                &&& p.0.io == s2.io && p.0.ie == s.ie && p.0.ime == s.ime
                &&& p.0.status == s.status
            })
        },
{
    let sp = s_sp(s);
    let nsp = w_sub2(sp);
    crate::storage::lemma_combine_split(v);
    crate::storage::lemma_combine_split(nsp);
    crate::storage::lemma_split_combine(s.regs[8], s.regs[9]);
    match s_set_u16(s, Loc::Mem(nsp), v) {
        Ok(s2m) => {
            let s2 = s_set_reg16_at(s2m, 8, nsp);
            assert(s_sp(s2) == nsp);
            assert(s_get_u16(s2, Loc::Mem(nsp)) == Ok::<u16, Fault>(v));
            assert(w_add2(nsp) == sp);
            let s3 = s_set_reg16_at(s2, 8, w_add2(nsp));
            assert(s3.regs =~= s.regs);
        },
        Err(_) => {
            assert(false);
        },
    }
}

} // verus!
