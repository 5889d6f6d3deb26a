//! Sparse backing store of one memory region: a lazily populated mapping
//! from byte address to stored byte, together with the policy that decides
//! what unwritten bytes read as and whether ordinary stores are accepted.

use vstd::prelude::*;

use crate::{SimError, ValueInit};
use std::collections::HashMap;

verus! {

broadcast use vstd::std_specs::hash::group_hash_axioms;

/// Little-endian byte `k` (0..=3) of a 32-bit value.
pub open spec fn le_byte32(v: u32, k: int) -> u8 {
    if k == 0 {
        (v & 0xFF) as u8
    } else if k == 1 {
        ((v >> 8) & 0xFF) as u8
    } else if k == 2 {
        ((v >> 16) & 0xFF) as u8
    } else {
        ((v >> 24) & 0xFF) as u8
    }
}

/// Little-endian byte `k` (0..=1) of a 16-bit value.
pub open spec fn le_byte16(v: u16, k: int) -> u8 {
    if k == 0 {
        (v & 0xFF) as u8
    } else {
        ((v >> 8) & 0xFF) as u8
    }
}

/// Two 32-bit values with the same four little-endian bytes are equal.
pub proof fn lemma_word_byte_ext(v1: u32, v2: u32)
    by (bit_vector)
    requires
        le_byte32(v1, 0) == le_byte32(v2, 0),
        le_byte32(v1, 1) == le_byte32(v2, 1),
        le_byte32(v1, 2) == le_byte32(v2, 2),
        le_byte32(v1, 3) == le_byte32(v2, 3),
    ensures
        v1 == v2,
{
}

/// Two 16-bit values with the same two little-endian bytes are equal.
pub proof fn lemma_half_byte_ext(v1: u16, v2: u16)
    by (bit_vector)
    requires
        le_byte16(v1, 0) == le_byte16(v2, 0),
        le_byte16(v1, 1) == le_byte16(v2, 1),
    ensures
        v1 == v2,
{
}

/// Recombining four bytes little-endian yields a word whose bytes are the
/// four inputs.
pub proof fn lemma_word_of_bytes(b0: u8, b1: u8, b2: u8, b3: u8)
    by (bit_vector)
    ensures
        ({
            let w = (b0 as u32) | ((b1 as u32) << 8) | ((b2 as u32) << 16) | ((b3 as u32) << 24);
            &&& w & 0xFF == b0 as u32
            &&& (w >> 8) & 0xFF == b1 as u32
            &&& (w >> 16) & 0xFF == b2 as u32
            &&& (w >> 24) & 0xFF == b3 as u32
        }),
{
}

/// Recombining two bytes little-endian yields a half-word whose bytes are
/// the two inputs.
pub proof fn lemma_half_of_bytes(b0: u8, b1: u8)
    by (bit_vector)
    ensures
        ({
            let h = (b0 as u16) | ((b1 as u16) << 8);
            &&& h & 0xFF == b0 as u16
            &&& (h >> 8) & 0xFF == b1 as u16
        }),
{
}

/// Backing store of a single contiguous region starting at `start_adr`.
/// A byte is *written* when it is present in `mem`; an absent byte reads
/// according to `init`. Only bytes at or above `start_adr` may be accessed.
pub struct Memory {
    pub start_adr: u32,
    pub write_protected: bool,
    pub init: ValueInit,
    pub mem: HashMap<u32, u8>,
}

/// The byte an unwritten cell at address `adr` reads as, when the policy
/// determines one (`Random` and `Error` determine none).
pub open spec fn init_byte(init: ValueInit, adr: u32) -> Option<u8> {
    match init {
        ValueInit::Zero => Some(0u8),
        ValueInit::Ones => Some(0xFFu8),
        ValueInit::FixedByte(b) => Some(b),
        ValueInit::FixedWord(w) => Some(le_byte32(w, (adr % 4) as int)),
        ValueInit::Random => None,
        ValueInit::Error => None,
    }
}

impl Memory {
    /// Whether the byte at `adr` has been stored to.
    pub open spec fn byte_written(self, adr: u32) -> bool {
        self.mem@.contains_key(adr)
    }

    /// Whether reading the byte at `adr` succeeds.
    pub open spec fn byte_read_ok(self, adr: u32) -> bool {
        self.byte_written(adr) || !(self.init is Error)
    }

    /// Whether a successful read of the byte at `adr` may return `b`:
    /// written bytes read back exactly, unwritten bytes read per policy,
    /// and under `Random` any byte may come back.
    pub open spec fn byte_consistent(self, adr: u32, b: u8) -> bool {
        if self.byte_written(adr) {
            b == self.mem@[adr]
        } else {
            match self.init {
                ValueInit::Random => true,
                _ => init_byte(self.init, adr) == Some(b),
            }
        }
    }

    /// Whether a successful two-byte read at `adr` may return `h`.
    pub open spec fn half_consistent(self, adr: u32, h: u16) -> bool
        recommends
            adr + 1 <= u32::MAX,
    {
        &&& self.byte_consistent(adr, le_byte16(h, 0))
        &&& self.byte_consistent((adr + 1) as u32, le_byte16(h, 1))
    }

    /// Whether a successful four-byte read at `adr` may return `w`.
    pub open spec fn word_consistent(self, adr: u32, w: u32) -> bool
        recommends
            adr + 3 <= u32::MAX,
    {
        &&& self.byte_consistent(adr, le_byte32(w, 0))
        &&& self.byte_consistent((adr + 1) as u32, le_byte32(w, 1))
        &&& self.byte_consistent((adr + 2) as u32, le_byte32(w, 2))
        &&& self.byte_consistent((adr + 3) as u32, le_byte32(w, 3))
    }

    /// Whether a two-byte read at `adr` succeeds.
    pub open spec fn half_read_ok(self, adr: u32) -> bool {
        self.byte_read_ok(adr) && self.byte_read_ok((adr + 1) as u32)
    }

    /// Whether a four-byte read at `adr` succeeds.
    pub open spec fn word_read_ok(self, adr: u32) -> bool {
        &&& self.byte_read_ok(adr)
        &&& self.byte_read_ok((adr + 1) as u32)
        &&& self.byte_read_ok((adr + 2) as u32)
        &&& self.byte_read_ok((adr + 3) as u32)
    }

    /// The fault a failing two-byte read at `adr` reports: the first
    /// unreadable byte, in address order.
    pub open spec fn half_read_err(self, adr: u32) -> SimError {
        if !self.byte_read_ok(adr) {
            SimError::UninitRead(adr)
        } else {
            SimError::UninitRead((adr + 1) as u32)
        }
    }

    /// The fault a failing four-byte read at `adr` reports: the first
    /// unreadable byte, in address order.
    pub open spec fn word_read_err(self, adr: u32) -> SimError {
        if !self.byte_read_ok(adr) {
            SimError::UninitRead(adr)
        } else if !self.byte_read_ok((adr + 1) as u32) {
            SimError::UninitRead((adr + 1) as u32)
        } else if !self.byte_read_ok((adr + 2) as u32) {
            SimError::UninitRead((adr + 2) as u32)
        } else {
            SimError::UninitRead((adr + 3) as u32)
        }
    }

    /// The store after programming one byte.
    pub open spec fn map_store_byte(mm: Map<u32, u8>, adr: u32, val: u8) -> Map<u32, u8> {
        mm.insert(adr, val)
    }

    /// The store after writing a half-word little-endian.
    pub open spec fn map_store_half(mm: Map<u32, u8>, adr: u32, val: u16) -> Map<u32, u8>
        recommends
            adr + 1 <= u32::MAX,
    {
        mm.insert(adr, le_byte16(val, 0)).insert((adr + 1) as u32, le_byte16(val, 1))
    }

    /// The store after writing a word little-endian.
    pub open spec fn map_store_word(mm: Map<u32, u8>, adr: u32, val: u32) -> Map<u32, u8>
        recommends
            adr + 3 <= u32::MAX,
    {
        mm.insert(adr, le_byte32(val, 0)).insert((adr + 1) as u32, le_byte32(val, 1)).insert(
            (adr + 2) as u32,
            le_byte32(val, 2),
        ).insert((adr + 3) as u32, le_byte32(val, 3))
    }

    /// All fields except the byte store are unchanged.
    pub open spec fn same_shape(self, other: Memory) -> bool {
        &&& self.start_adr == other.start_adr
        &&& self.write_protected == other.write_protected
        &&& self.init == other.init
    }

    pub fn new(start_adr: u32, init: ValueInit, write_protected: bool) -> (r: Memory)
        ensures
            r.start_adr == start_adr,
            r.init == init,
            r.write_protected == write_protected,
            r.mem@ == Map::<u32, u8>::empty(),
    {
        Memory { start_adr, write_protected, init, mem: HashMap::new() }
    }

    /// Mark the byte at `adr` as written with value `val`, ignoring write
    /// protection. This is the programming path used at image-load time.
    pub fn program_b(&mut self, adr: u32, val: u8)
        requires
            adr >= old(self).start_adr,
        ensures
            final(self).same_shape(*old(self)),
            final(self).mem@ == Memory::map_store_byte(old(self).mem@, adr, val),
    {
        self.mem.insert(adr, val);
    }

    /// Store one byte, honouring write protection.
    pub fn write_b(&mut self, adr: u32, val: u8) -> (r: Result<(), SimError>)
        requires
            adr >= old(self).start_adr,
        ensures
            final(self).same_shape(*old(self)),
            old(self).write_protected ==> r == Err::<(), SimError>(SimError::WriteToReadOnly(adr))
                && final(self).mem@ == old(self).mem@,
            !old(self).write_protected ==> r == Ok::<(), SimError>(()) && final(self).mem@
                == Memory::map_store_byte(old(self).mem@, adr, val),
    {
        if self.write_protected {
            return Err(SimError::WriteToReadOnly(adr));
        }
        self.program_b(adr, val);
        Ok(())
    }

    /// Store a half-word as two little-endian bytes, honouring write
    /// protection.
    pub fn write_h(&mut self, adr: u32, val: u16) -> (r: Result<(), SimError>)
        requires
            adr >= old(self).start_adr,
            adr + 1 <= u32::MAX,
        ensures
            final(self).same_shape(*old(self)),
            old(self).write_protected ==> r == Err::<(), SimError>(SimError::WriteToReadOnly(adr))
                && final(self).mem@ == old(self).mem@,
            !old(self).write_protected ==> r == Ok::<(), SimError>(()) && final(self).mem@
                == Memory::map_store_half(old(self).mem@, adr, val),
    {
        self.write_b(adr, (val & 0xFF) as u8)?;
        self.write_b(adr + 1, ((val >> 8) & 0xFF) as u8)?;
        Ok(())
    }

    /// Store a word as four little-endian bytes, honouring write
    /// protection.
    pub fn write_w(&mut self, adr: u32, val: u32) -> (r: Result<(), SimError>)
        requires
            adr >= old(self).start_adr,
            adr + 3 <= u32::MAX,
        ensures
            final(self).same_shape(*old(self)),
            old(self).write_protected ==> r == Err::<(), SimError>(SimError::WriteToReadOnly(adr))
                && final(self).mem@ == old(self).mem@,
            !old(self).write_protected ==> r == Ok::<(), SimError>(()) && final(self).mem@
                == Memory::map_store_word(old(self).mem@, adr, val),
    {
        self.write_b(adr, (val & 0xFF) as u8)?;
        self.write_b(adr + 1, ((val >> 8) & 0xFF) as u8)?;
        self.write_b(adr + 2, ((val >> 16) & 0xFF) as u8)?;
        self.write_b(adr + 3, ((val >> 24) & 0xFF) as u8)?;
        Ok(())
    }

    /// Read one byte. A written byte reads back exactly; an unwritten byte
    /// reads per the init policy, and the synthesized value is *not*
    /// committed back: under `Random` successive reads may differ.
    pub fn read_b(&self, adr: u32) -> (r: Result<u8, SimError>)
        requires
            adr >= self.start_adr,
        ensures
            match r {
                Ok(b) => self.byte_read_ok(adr) && self.byte_consistent(adr, b),
                Err(e) => !self.byte_read_ok(adr) && e == SimError::UninitRead(adr),
            },
    {
        match self.mem.get(&adr) {
            Some(b) => Ok(*b),
            None => match self.init {
                ValueInit::Random => Ok(crate::random_byte()),
                ValueInit::Zero => Ok(0),
                ValueInit::Ones => Ok(0xFF),
                ValueInit::FixedByte(b) => Ok(b),
                ValueInit::FixedWord(w) => {
                    let k = adr % 4;
                    if k == 0 {
                        Ok((w & 0xFF) as u8)
                    } else if k == 1 {
                        Ok(((w >> 8) & 0xFF) as u8)
                    } else if k == 2 {
                        Ok(((w >> 16) & 0xFF) as u8)
                    } else {
                        Ok(((w >> 24) & 0xFF) as u8)
                    }
                },
                ValueInit::Error => Err(SimError::UninitRead(adr)),
            },
        }
    }

    /// Read a half-word as two little-endian bytes.
    pub fn read_h(&self, adr: u32) -> (r: Result<u16, SimError>)
        requires
            adr >= self.start_adr,
            adr + 1 <= u32::MAX,
        ensures
            match r {
                Ok(h) => self.half_read_ok(adr) && self.half_consistent(adr, h),
                Err(e) => !self.half_read_ok(adr) && e == self.half_read_err(adr),
            },
    {
        let b0 = self.read_b(adr)?;
        let b1 = self.read_b(adr + 1)?;
        let h: u16 = (b0 as u16) | ((b1 as u16) << 8);
        proof {
            lemma_half_of_bytes(b0, b1);
        }
        Ok(h)
    }

    /// Read a word as four little-endian bytes.
    pub fn read_w(&self, adr: u32) -> (r: Result<u32, SimError>)
        requires
            adr >= self.start_adr,
            adr + 3 <= u32::MAX,
        ensures
            match r {
                Ok(w) => self.word_read_ok(adr) && self.word_consistent(adr, w),
                Err(e) => !self.word_read_ok(adr) && e == self.word_read_err(adr),
            },
    {
        let b0 = self.read_b(adr)?;
        let b1 = self.read_b(adr + 1)?;
        let b2 = self.read_b(adr + 2)?;
        let b3 = self.read_b(adr + 3)?;
        let w: u32 = (b0 as u32) | ((b1 as u32) << 8) | ((b2 as u32) << 16) | ((b3 as u32) << 24);
        proof {
            lemma_word_of_bytes(b0, b1, b2, b3);
        }
        Ok(w)
    }
}

/// Law: storing a byte and then reading it back yields the stored byte,
/// whatever the init policy and whatever was stored before.
pub proof fn lemma_store_then_load_byte(m1: Memory, m2: Memory, adr: u32, val: u8, b: u8)
    requires
        m2.same_shape(m1),
        m2.mem@ == Memory::map_store_byte(m1.mem@, adr, val),
        m2.byte_consistent(adr, b),
    ensures
        b == val,
{
}

/// Law: writing a half-word and then reading two bytes little-endian at
/// the same address yields exactly the written 16 bits.
pub proof fn lemma_store_then_load_half(m1: Memory, m2: Memory, adr: u32, val: u16, h: u16)
    requires
        adr + 1 <= u32::MAX,
        m2.same_shape(m1),
        m2.mem@ == Memory::map_store_half(m1.mem@, adr, val),
        m2.half_consistent(adr, h),
    ensures
        h == val,
{
    assert(m2.byte_written(adr) && m2.byte_written((adr + 1) as u32));
    assert(le_byte16(h, 0) == le_byte16(val, 0));
    assert(le_byte16(h, 1) == le_byte16(val, 1));
    lemma_half_byte_ext(h, val);
}

/// Law: writing a word and then reading four bytes little-endian at the
/// same address yields exactly the written 32 bits.
pub proof fn lemma_store_then_load_word(m1: Memory, m2: Memory, adr: u32, val: u32, w: u32)
    requires
        adr + 3 <= u32::MAX,
        m2.same_shape(m1),
        m2.mem@ == Memory::map_store_word(m1.mem@, adr, val),
        m2.word_consistent(adr, w),
    ensures
        w == val,
{
    assert(le_byte32(w, 0) == le_byte32(val, 0));
    assert(le_byte32(w, 1) == le_byte32(val, 1));
    assert(le_byte32(w, 2) == le_byte32(val, 2));
    assert(le_byte32(w, 3) == le_byte32(val, 3));
    lemma_word_byte_ext(w, val);
}

} // verus!
