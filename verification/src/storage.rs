//! Byte stores and storage views.
//!
//! A `ByteStore` owns a buffer of raw bytes. A `Storage` is a cheap value
//! describing a window onto such a store: an optional position and one
//! permitted access mode per access width. Several views may address the same
//! store at different positions and with different permissions, which is how
//! the register file aliases one byte pair as two 8-bit halves and one 16-bit
//! register. Every access is gated by the view's mode and bounds-checked
//! against the store, and failures are reported as typed faults.

use vstd::prelude::*;

verus! {

/// A typed fault. Every error of the core is one of these; no operation
/// panics, substitutes a default, or retries.
#[derive(Clone, Copy, Debug, PartialEq, Eq, Structural)]
pub enum Fault {
    /// An access was attempted against a view whose access mode forbids it
    /// (wrong width or wrong direction), or against a view with no position.
    AccessViolation,
    /// An address, or one of the two bytes of a 16-bit access, falls outside
    /// all mapped regions or outside the store behind the view.
    MemoryFault,
    /// No instruction matches the fetched opcode; carries the address it was
    /// fetched from and the composite opcode.
    UnknownOpcode(u16, u16),
    /// A computed next program counter falls outside the 16-bit range.
    PcOutOfRange,
    /// A ROM image larger than the fixed ROM window was supplied at boot.
    RomTooLarge,
}

/// Permitted access for one width of one view.
#[derive(Clone, Copy, Debug, PartialEq, Eq, Structural)]
pub enum StorageMode {
    NoAccess,
    R,
    RW,
}

pub open spec fn mode_allows_read(m: StorageMode) -> bool {
    m matches StorageMode::R || m matches StorageMode::RW
}

pub open spec fn mode_allows_write(m: StorageMode) -> bool {
    m matches StorageMode::RW
}

/// The 16-bit value stored little-endian as the bytes `lo`, `hi`.
pub open spec fn combine16(lo: u8, hi: u8) -> u16 {
    (hi as int * 256 + lo as int) as u16
}

/// The low byte of a 16-bit value.
pub open spec fn lo8(v: u16) -> u8 {
    (v as int % 256) as u8
}

/// The high byte of a 16-bit value.
pub open spec fn hi8(v: u16) -> u8 {
    (v as int / 256) as u8
}

/// Splitting a 16-bit value into its little-endian bytes and recomposing them
/// is the identity, and the bytes are the usual mask and shift.
pub proof fn lemma_combine_split(v: u16)
    ensures
        combine16(lo8(v), hi8(v)) == v,
        lo8(v) == v & 0xFF,
        hi8(v) == v >> 8,
{
    assert(v as int / 256 * 256 + v as int % 256 == v as int) by {
        vstd::arithmetic::div_mod::lemma_fundamental_div_mod(v as int, 256);
    }
    assert(v % 256 == v & 0xFF) by (bit_vector);
    assert(v / 256 == v >> 8) by (bit_vector);
}

/// Recomposing two bytes and splitting the result gives the bytes back.
pub proof fn lemma_split_combine(lo: u8, hi: u8)
    ensures
        lo8(combine16(lo, hi)) == lo,
        hi8(combine16(lo, hi)) == hi,
{
    let v = combine16(lo, hi);
    assert(v == hi as u16 * 256 + lo as u16);
    assert(v as int % 256 == lo as int && v as int / 256 == hi as int) by {
        vstd::arithmetic::div_mod::lemma_fundamental_div_mod_converse(
            v as int, 256, hi as int, lo as int);
    }
}

/// An owning buffer of raw bytes, shared by all views onto it.
pub struct ByteStore {
    data: Vec<u8>,
}

impl View for ByteStore {
    type V = Seq<u8>;

    closed spec fn view(&self) -> Seq<u8> {
        self.data@
    }
}

impl ByteStore {
    /// A zero-filled store of the given size.
    pub fn new(size: u16) -> (r: ByteStore)
        ensures
            r@.len() == size,
            forall|i: int| 0 <= i < size ==> r@[i] == 0u8,
    {
        let mut data: Vec<u8> = Vec::new();
        while data.len() < size as usize
            invariant
                data@.len() <= size,
                forall|i: int| 0 <= i < data@.len() ==> data@[i] == 0u8,
            decreases size as int - data@.len(),
        {
            data.push(0u8);
        }
        ByteStore { data }
    }

    /// A store owning the given bytes.
    pub fn from_data(data: Vec<u8>) -> (r: ByteStore)
        ensures
            r@ == data@,
    {
        ByteStore { data }
    }

    pub fn len(&self) -> (r: usize)
        ensures
            r == self@.len(),
    {
        self.data.len()
    }

    pub fn read_byte(&self, i: usize) -> (r: u8)
        requires
            i < self@.len(),
        ensures
            r == self@[i as int],
    {
        self.data[i]
    }

    pub fn write_byte(&mut self, i: usize, v: u8)
        requires
            i < old(self)@.len(),
        ensures
            final(self)@ == old(self)@.update(i as int, v),
    {
        self.data.set(i, v);
    }
}

/// A permissioned window onto a byte store: an optional position within the
/// store, and one access mode per access width. The store itself is passed to
/// each access, so duplicating or re-basing a view never copies bytes.
#[derive(Clone, Copy, Debug)]
pub struct Storage {
    pub address: Option<u16>,
    pub mode8: StorageMode,
    pub mode16: StorageMode,
}

impl Storage {
    /// What an 8-bit read of this view observes of the given store contents.
    pub open spec fn read8_spec(self, data: Seq<u8>) -> Result<u8, Fault> {
        match self.address {
            Option::None => Err(Fault::AccessViolation),
            Option::Some(a) => if !mode_allows_read(self.mode8) {
                Err(Fault::AccessViolation)
            } else if a as int >= data.len() {
                Err(Fault::MemoryFault)
            } else {
                Ok(data[a as int])
            },
        }
    }

    /// What a 16-bit read of this view observes: the little-endian composition
    /// of the byte at the position and the byte after it.
    pub open spec fn read16_spec(self, data: Seq<u8>) -> Result<u16, Fault> {
        match self.address {
            Option::None => Err(Fault::AccessViolation),
            Option::Some(a) => if !mode_allows_read(self.mode16) {
                Err(Fault::AccessViolation)
            } else if a as int + 1 >= data.len() {
                Err(Fault::MemoryFault)
            } else {
                Ok(combine16(data[a as int], data[a as int + 1]))
            },
        }
    }

    /// The store contents after an 8-bit write through this view.
    pub open spec fn write8_spec(self, data: Seq<u8>, value: u8) -> Result<Seq<u8>, Fault> {
        match self.address {
            Option::None => Err(Fault::AccessViolation),
            Option::Some(a) => if !mode_allows_write(self.mode8) {
                Err(Fault::AccessViolation)
            } else if a as int >= data.len() {
                Err(Fault::MemoryFault)
            } else {
                Ok(data.update(a as int, value))
            },
        }
    }

    /// The store contents after a 16-bit write through this view: the low byte
    /// at the position, the high byte after it.
    pub open spec fn write16_spec(self, data: Seq<u8>, value: u16) -> Result<Seq<u8>, Fault> {
        match self.address {
            Option::None => Err(Fault::AccessViolation),
            Option::Some(a) => if !mode_allows_write(self.mode16) {
                Err(Fault::AccessViolation)
            } else if a as int + 1 >= data.len() {
                Err(Fault::MemoryFault)
            } else {
                Ok(data.update(a as int, lo8(value)).update(a as int + 1, hi8(value)))
            },
        }
    }

    /// A fresh zero-filled store of the given size together with an unpositioned
    /// view of it carrying the given modes.
    pub fn new(size: u16, mode8: StorageMode, mode16: StorageMode) -> (r: (Storage, ByteStore))
        ensures
            r.0.address is None,
            r.0.mode8 == mode8,
            r.0.mode16 == mode16,
            r.1@.len() == size,
            forall|i: int| 0 <= i < size ==> r.1@[i] == 0u8,
    {
        (Storage { address: Option::None, mode8, mode16 }, ByteStore::new(size))
    }

    /// A store owning the given bytes together with an unpositioned view of it.
    pub fn from_data(data: Vec<u8>, mode8: StorageMode, mode16: StorageMode) -> (r: (Storage, ByteStore))
        ensures
            r.0.address is None,
            r.0.mode8 == mode8,
            r.0.mode16 == mode16,
            r.1@ == data@,
    {
        (Storage { address: Option::None, mode8, mode16 }, ByteStore::from_data(data))
    }

    /// The same window with different access modes; the bytes stay shared.
    pub fn duplicate(&self, mode8: StorageMode, mode16: StorageMode) -> (r: Storage)
        ensures
            r.address == self.address,
            r.mode8 == mode8,
            r.mode16 == mode16,
    {
        Storage { address: self.address, mode8, mode16 }
    }

    /// A view positioned `address` bytes past this view's base, with the same
    /// modes; the bytes stay shared.
    pub fn view(&self, address: u16) -> (r: Storage)
        requires
            self.address matches Some(b) ==> b + address <= 0xFFFF,
        ensures
            r.address == Some(match self.address {
                Option::Some(b) => (b + address) as u16,
                Option::None => address,
            }),
            r.mode8 == self.mode8,
            r.mode16 == self.mode16,
    {
        let a = match self.address {
            Option::Some(b) => b + address,
            Option::None => address,
        };
        Storage { address: Option::Some(a), mode8: self.mode8, mode16: self.mode16 }
    }

    /// Read the byte at the view's position.
    pub fn read_u8(&self, store: &ByteStore) -> (r: Result<u8, Fault>)
        ensures
            r == self.read8_spec(store@),
    {
        let a = match self.address {
            Option::Some(a) => a,
            Option::None => {
                return Err(Fault::AccessViolation);
            },
        };
        match self.mode8 {
            StorageMode::NoAccess => {
                return Err(Fault::AccessViolation);
            },
            _ => {},
        }
        let i = a as usize;
        if i >= store.len() {
            return Err(Fault::MemoryFault);
        }
        Ok(store.read_byte(i))
    }

    /// Read the 16-bit value stored little-endian at the view's position.
    pub fn read_u16(&self, store: &ByteStore) -> (r: Result<u16, Fault>)
        ensures
            r == self.read16_spec(store@),
    {
        let a = match self.address {
            Option::Some(a) => a,
            Option::None => {
                return Err(Fault::AccessViolation);
            },
        };
        match self.mode16 {
            StorageMode::NoAccess => {
                return Err(Fault::AccessViolation);
            },
            _ => {},
        }
        let i = a as usize;
        if i + 1 >= store.len() {
            return Err(Fault::MemoryFault);
        }
        let lo = store.read_byte(i);
        let hi = store.read_byte(i + 1);
        Ok(hi as u16 * 256 + lo as u16)
    }

    /// Write the byte at the view's position.
    pub fn write_u8(&self, store: &mut ByteStore, value: u8) -> (r: Result<(), Fault>)
        ensures
            (match self.write8_spec(old(store)@, value) {
                Ok(d) => final(store)@ == d && r == Ok::<(), Fault>(()),
                Err(f) => final(store)@ == old(store)@ && r == Err::<(), Fault>(f),
            }),
    {
        let a = match self.address {
            Option::Some(a) => a,
            Option::None => {
                return Err(Fault::AccessViolation);
            },
        };
        match self.mode8 {
            StorageMode::RW => {},
            _ => {
                return Err(Fault::AccessViolation);
            },
        }
        let i = a as usize;
        if i >= store.len() {
            return Err(Fault::MemoryFault);
        }
        store.write_byte(i, value);
        Ok(())
    }

    /// Write the 16-bit value little-endian at the view's position.
    pub fn write_u16(&self, store: &mut ByteStore, value: u16) -> (r: Result<(), Fault>)
        ensures
            (match self.write16_spec(old(store)@, value) {
                Ok(d) => final(store)@ == d && r == Ok::<(), Fault>(()),
                Err(f) => final(store)@ == old(store)@ && r == Err::<(), Fault>(f),
            }),
    {
        let a = match self.address {
            Option::Some(a) => a,
            Option::None => {
                return Err(Fault::AccessViolation);
            },
        };
        match self.mode16 {
            StorageMode::RW => {},
            _ => {
                return Err(Fault::AccessViolation);
            },
        }
        let i = a as usize;
        if i + 1 >= store.len() {
            return Err(Fault::MemoryFault);
        }
        store.write_byte(i, (value % 256) as u8);
        store.write_byte(i + 1, (value / 256) as u8);
        Ok(())
    }
}

} // verus!
