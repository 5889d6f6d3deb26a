//! Instruction-set simulator for a 32-bit little-endian RISC integer core
//! with sixteen general-purpose registers and two auxiliary program-counter
//! registers. The simulator executes one instruction per step over a flat,
//! region-partitioned, sparsely populated address space and reports every
//! register and memory value it read or committed in a structured log record.

use vstd::prelude::*;

pub mod inst;
pub mod inst_decoding;
pub mod inst_log;
pub mod inst_sim;
pub mod memory;
pub mod textfmt;

use crate::inst::{DecodeError, Instruction, Register, reg_id};
use crate::inst_log::{Value, ValueOrigin};
use crate::memory::Memory;
use core::ops::Range;

verus! {

/// Policy that decides what an unwritten memory byte or an uninitialized
/// register reads as.
#[derive(Copy, Clone, Debug)]
pub enum ValueInit {
    Random,
    Zero,
    Ones,
    Error,
    FixedByte(u8),
    FixedWord(u32),
}

/// Whether a memory region accepts ordinary stores (RAM) or only the
/// programming path used at image-load time (ROM).
#[derive(Copy, Clone, Debug)]
pub enum MemoryRegionType {
    RAM,
    ROM,
}

/// Fault raised by a memory access, a register read, a decode, or an
/// unimplemented instruction. Errors are values: the simulator never
/// panics on simulated-program misbehaviour.
#[derive(Debug, Clone, Copy, PartialEq, Eq, Structural)]
pub enum SimError {
    /// No configured region contains the accessed address.
    UnmappedAddress(u32),
    /// The access starts inside a region but does not end inside it.
    CrossesBoundary { adr: u32, len: u32 },
    /// An ordinary store hit a write-protected (ROM) region.
    WriteToReadOnly(u32),
    /// A byte was read under the `Error` init policy before being written.
    UninitRead(u32),
    /// A register was read under the `Error` init policy before being written.
    UninitRegister(Register),
    /// The fetched word is not a valid instruction encoding.
    Decode(DecodeError),
    /// The instruction decodes but its execution semantics are not modeled.
    NotImplemented(Instruction),
}

/// Configuration of one memory region: its address range, the init policy
/// of its unwritten bytes, and whether it is RAM or ROM.
pub struct MemoryRegionConfig {
    pub adr_range: Range<u32>,
    pub init: ValueInit,
    pub region_type: MemoryRegionType,
}

/// Frozen configuration a simulator is built from.
pub struct DRVSimConfig {
    /// Address of the first instruction to be executed.
    pub entry: u32,
    /// Address reserved for the trap entry vector.
    pub mtvec: u32,
    /// Address reserved for the debug entry vector.
    pub dvec: u32,
    /// Available memory, in routing order: the first region whose range
    /// contains an accessed address serves the access.
    pub mem_regions: Vec<MemoryRegionConfig>,
    /// Init policy of registers `X1`..`Xdpc` after reset (`X0` is always 0).
    pub reg_init: ValueInit,
}

/// One routed memory region: its address range and its backing store.
pub struct MemoryRegion {
    pub start: u32,
    pub end: u32,
    pub mem: Memory,
}

/// Whether `adr` lies inside the region's half-open address range.
pub open spec fn region_contains(r: MemoryRegion, adr: u32) -> bool {
    r.start <= adr < r.end
}

/// Index of the first region at or after position `i` that contains `adr`,
/// or -1 when none does.
pub open spec fn find_region_from(mems: Seq<MemoryRegion>, adr: u32, i: nat) -> int
    decreases mems.len() - i,
{
    if i >= mems.len() {
        -1
    } else if region_contains(mems[i as int], adr) {
        i as int
    } else {
        find_region_from(mems, adr, (i + 1) as nat)
    }
}

/// Index of the first region that contains `adr`, or -1 when none does.
pub open spec fn find_region(mems: Seq<MemoryRegion>, adr: u32) -> int {
    find_region_from(mems, adr, 0)
}

/// Routing looks only at the regions' address ranges: region lists that
/// agree on every range route every address alike.
pub proof fn lemma_find_region_same_ranges(m1: Seq<MemoryRegion>, m2: Seq<MemoryRegion>, adr: u32, i: nat)
    requires
        m1.len() == m2.len(),
        forall|j: int|
            0 <= j < m1.len() ==> (#[trigger] m1[j]).start == m2[j].start && m1[j].end == m2[j].end,
    ensures
        find_region_from(m1, adr, i) == find_region_from(m2, adr, i),
    decreases m1.len() - i,
{
    if i < m1.len() {
        lemma_find_region_same_ranges(m1, m2, adr, (i + 1) as nat);
    }
}

/// The word an uninitialized register reads as, when the policy determines
/// one (`Random` and `Error` determine none). `FixedWord` is used directly
/// as the full 32-bit value.
pub open spec fn init_word(init: ValueInit) -> Option<u32> {
    match init {
        ValueInit::Zero => Some(0u32),
        ValueInit::Ones => Some(0xFFFFFFFFu32),
        ValueInit::FixedByte(b) => Some(b as u32),
        ValueInit::FixedWord(w) => Some(w),
        ValueInit::Random => None,
        ValueInit::Error => None,
    }
}

/// Whether reading register `r` succeeds: `X0` always reads, a present
/// entry reads back, and an absent entry reads per the init policy unless
/// that policy is `Error`.
pub open spec fn reg_read_ok(regs: Seq<Option<u32>>, init: ValueInit, r: Register) -> bool {
    ||| r == Register::X0
    ||| regs[reg_id(r)] is Some
    ||| !(init is Error)
}

/// Whether a successful read of register `r` may return `v`: `X0` reads 0,
/// a present entry reads back exactly, an absent one reads per policy, and
/// under `Random` any word may come back.
pub open spec fn reg_read_consistent(
    regs: Seq<Option<u32>>,
    init: ValueInit,
    r: Register,
    v: u32,
) -> bool {
    if r == Register::X0 {
        v == 0
    } else if regs[reg_id(r)] is Some {
        Some(v) == regs[reg_id(r)]
    } else {
        match init {
            ValueInit::Random => true,
            _ => init_word(init) == Some(v),
        }
    }
}

/// The register file after reading `r` as `v`: a first read of an absent
/// entry commits the synthesized value; everything else is unchanged.
pub open spec fn reg_latch(regs: Seq<Option<u32>>, r: Register, v: u32) -> Seq<Option<u32>> {
    if r == Register::X0 || regs[reg_id(r)] is Some {
        regs
    } else {
        regs.update(reg_id(r), Some(v))
    }
}

/// The register file after writing `v` to `r`: writes to `X0` are dropped.
pub open spec fn reg_store(regs: Seq<Option<u32>>, r: Register, v: u32) -> Seq<Option<u32>> {
    if r == Register::X0 {
        regs
    } else {
        regs.update(reg_id(r), Some(v))
    }
}

/// The simulator: program counter, register file, and routed memory
/// regions, built from a frozen configuration.
pub struct DRVSim {
    /// Core registers, indexed by register identifier; `None` marks an
    /// entry that has not been read or written since reset. Entry 0 stays
    /// absent: `X0` is hard-wired to zero.
    pub core_reg: Vec<Option<u32>>,
    /// Program counter.
    pub pc: u32,
    /// Memory regions, in routing order.
    pub mems: Vec<MemoryRegion>,
    /// Simulation settings.
    pub config: DRVSimConfig,
}

impl DRVSim {
    /// Structural invariant: the register file has one slot per register,
    /// `X0` is never stored, and each region's backing store starts where
    /// the region starts.
    pub open spec fn wf(self) -> bool {
        &&& self.core_reg@.len() == 18
        &&& self.core_reg@[0] is None
        &&& forall|j: int|
            0 <= j < self.mems@.len() ==> (#[trigger] self.mems@[j]).mem.start_adr
                == self.mems@[j].start
    }

    /// Index of the region that serves an access based at `adr`, -1 when
    /// unmapped.
    pub open spec fn route(self, adr: u32) -> int {
        find_region(self.mems@, adr)
    }

    /// Whether an access of `len` bytes based at `adr` is served by one
    /// region: some region contains `adr`, and the first such region also
    /// contains the last accessed byte.
    pub open spec fn route_ok(self, adr: u32, len: u32) -> bool {
        let i = self.route(adr);
        i >= 0 && adr + len - 1 < self.mems@[i].end
    }

    /// The routing fault for an access that no single region serves.
    pub open spec fn route_err(self, adr: u32, len: u32) -> SimError {
        if self.route(adr) < 0 {
            SimError::UnmappedAddress(adr)
        } else {
            SimError::CrossesBoundary { adr, len }
        }
    }

    /// The backing store of the region that serves an access based at
    /// `adr`.
    pub open spec fn region_mem(self, adr: u32) -> Memory {
        self.mems@[self.route(adr)].mem
    }

    /// Whether a read of `len` bytes at `adr` succeeds: it routes, and
    /// every covered byte is readable.
    pub open spec fn read_ok_spec(self, adr: u32, len: u32) -> bool {
        &&& self.route_ok(adr, len)
        &&& {
            let m = self.region_mem(adr);
            if len == 1 {
                m.byte_read_ok(adr)
            } else if len == 2 {
                m.half_read_ok(adr)
            } else {
                m.word_read_ok(adr)
            }
        }
    }

    /// Whether a successful read of `len` bytes at `adr` may return the
    /// zero-extended value `v`.
    pub open spec fn read_consistent_spec(self, adr: u32, len: u32, v: u32) -> bool {
        let m = self.region_mem(adr);
        if len == 1 {
            v <= 0xFF && m.byte_consistent(adr, v as u8)
        } else if len == 2 {
            v <= 0xFFFF && m.half_consistent(adr, v as u16)
        } else {
            m.word_consistent(adr, v)
        }
    }

    /// The fault a failing read of `len` bytes at `adr` reports.
    pub open spec fn read_err_spec(self, adr: u32, len: u32) -> SimError {
        if !self.route_ok(adr, len) {
            self.route_err(adr, len)
        } else {
            let m = self.region_mem(adr);
            if len == 1 {
                SimError::UninitRead(adr)
            } else if len == 2 {
                m.half_read_err(adr)
            } else {
                m.word_read_err(adr)
            }
        }
    }

    /// Whether a store of `len` bytes at `adr` succeeds: it routes into a
    /// region that is not write-protected.
    pub open spec fn write_ok_spec(self, adr: u32, len: u32) -> bool {
        self.route_ok(adr, len) && !self.region_mem(adr).write_protected
    }

    /// The fault a failing store of `len` bytes at `adr` reports.
    pub open spec fn write_err_spec(self, adr: u32, len: u32) -> SimError {
        if !self.route_ok(adr, len) {
            self.route_err(adr, len)
        } else {
            SimError::WriteToReadOnly(adr)
        }
    }

    /// Relation between the memory regions before and after a successful
    /// store of the low `len` bytes of `val` at `adr`: the serving
    /// region's store gains the little-endian bytes, every other region
    /// is untouched.
    pub open spec fn mems_stored(self, post: DRVSim, adr: u32, len: u32, val: u32) -> bool {
        let i = self.route(adr);
        let m1 = self.mems@[i].mem;
        &&& post.mems@.len() == self.mems@.len()
        &&& forall|j: int|
            0 <= j < self.mems@.len() && j != i ==> post.mems@[j] == self.mems@[j]
        &&& post.mems@[i].start == self.mems@[i].start
        &&& post.mems@[i].end == self.mems@[i].end
        &&& post.mems@[i].mem.same_shape(m1)
        &&& post.mems@[i].mem.mem@ == (if len == 1 {
            Memory::map_store_byte(m1.mem@, adr, val as u8)
        } else if len == 2 {
            Memory::map_store_half(m1.mem@, adr, val as u16)
        } else {
            Memory::map_store_word(m1.mem@, adr, val)
        })
    }

    /// Relation between the states before and after a successful store:
    /// the memory effect, and nothing else changed.
    pub open spec fn stored_spec(self, post: DRVSim, adr: u32, len: u32, val: u32) -> bool {
        &&& post.pc == self.pc
        &&& post.core_reg@ == self.core_reg@
        &&& post.config == self.config
        &&& self.mems_stored(post, adr, len, val)
    }
}

impl DRVSim {
    /// Build a simulator from a frozen configuration: the program counter
    /// starts at the entry address, the register file is empty, and every
    /// configured region starts with no byte written.
    pub fn new(config: DRVSimConfig) -> (r: DRVSim)
        ensures
            r.wf(),
            r.pc == config.entry,
            r.config == config,
            r.core_reg@ == Seq::new(18, |i: int| None::<u32>),
            r.mems@.len() == config.mem_regions@.len(),
            forall|i: int|
                0 <= i < config.mem_regions@.len() ==> {
                    let c = #[trigger] config.mem_regions@[i];
                    let m = r.mems@[i];
                    &&& m.start == c.adr_range.start
                    &&& m.end == c.adr_range.end
                    &&& m.mem.start_adr == c.adr_range.start
                    &&& m.mem.init == c.init
                    &&& m.mem.write_protected == (c.region_type is ROM)
                    &&& m.mem.mem@ == Map::<u32, u8>::empty()
                },
    {
        let mut mems: Vec<MemoryRegion> = Vec::new();
        let mut i: usize = 0;
        while i < config.mem_regions.len()
            invariant
                i <= config.mem_regions@.len(),
                mems@.len() == i,
                forall|k: int|
                    0 <= k < i ==> {
                        let c = #[trigger] config.mem_regions@[k];
                        let m = mems@[k];
                        &&& m.start == c.adr_range.start
                        &&& m.end == c.adr_range.end
                        &&& m.mem.start_adr == c.adr_range.start
                        &&& m.mem.init == c.init
                        &&& m.mem.write_protected == (c.region_type is ROM)
                        &&& m.mem.mem@ == Map::<u32, u8>::empty()
                    },
            decreases config.mem_regions@.len() - i,
        {
            let start: u32 = config.mem_regions[i].adr_range.start;
            let end: u32 = config.mem_regions[i].adr_range.end;
            let init = config.mem_regions[i].init;
            let memory = match config.mem_regions[i].region_type {
                MemoryRegionType::RAM => Memory::new(start, init, false),
                MemoryRegionType::ROM => Memory::new(start, init, true),
            };
            mems.push(MemoryRegion { start, end, mem: memory });
            i = i + 1;
        }
        let mut core_reg: Vec<Option<u32>> = Vec::new();
        while core_reg.len() < 18
            invariant
                core_reg@.len() <= 18,
                core_reg@ == Seq::new(core_reg@.len(), |k: int| None::<u32>),
            decreases 18 - core_reg@.len(),
        {
            core_reg.push(None);
            proof {
                assert(core_reg@ =~= Seq::new(core_reg@.len(), |k: int| None::<u32>));
            }
        }
        proof {
            assert forall|j: int| 0 <= j < mems@.len() implies (#[trigger] mems@[j]).mem.start_adr
                == mems@[j].start by {
                assert(mems@[j].mem.start_adr == config.mem_regions@[j].adr_range.start);
            }
        }
        DRVSim { core_reg, pc: config.entry, mems, config }
    }

    /// Resolve an access of `access_len` bytes based at `adr` to the first
    /// region containing `adr`; the access must lie inside that region.
    fn find_mem_region(&self, adr: u32, access_len: u32) -> (r: Result<usize, SimError>)
        requires
            1 <= access_len <= 4,
        ensures
            match r {
                Ok(idx) => {
                    &&& self.route_ok(adr, access_len)
                    &&& idx == self.route(adr)
                    &&& 0 <= idx < self.mems@.len()
                    &&& region_contains(self.mems@[idx as int], adr)
                    &&& adr + access_len - 1 < self.mems@[idx as int].end
                },
                Err(e) => !self.route_ok(adr, access_len) && e == self.route_err(
                    adr,
                    access_len,
                ),
            },
    {
        let n = self.mems.len();
        let mut idx: usize = 0;
        while idx < n
            invariant
                1 <= access_len <= 4,
                n == self.mems@.len(),
                idx <= n,
                find_region(self.mems@, adr) == find_region_from(self.mems@, adr, idx as nat),
            decreases n - idx,
        {
            let region = &self.mems[idx];
            if region.start <= adr && adr < region.end {
                if access_len - 1 <= (region.end - 1) - adr {
                    return Ok(idx);
                } else {
                    return Err(SimError::CrossesBoundary { adr, len: access_len });
                }
            }
            idx = idx + 1;
        }
        Err(SimError::UnmappedAddress(adr))
    }

    /// Mark one byte as written, ignoring write protection. This is the
    /// programming path used to load an image, ROM included.
    pub fn program_b(&mut self, adr: u32, val: u8) -> (r: Result<(), SimError>)
        requires
            old(self).wf(),
        ensures
            final(self).wf(),
            match r {
                Ok(_) => old(self).route_ok(adr, 1) && old(self).stored_spec(
                    *final(self),
                    adr,
                    1,
                    val as u32,
                ),
                Err(e) => {
                    &&& !old(self).route_ok(adr, 1)
                    &&& e == old(self).route_err(adr, 1)
                    &&& *final(self) == *old(self)
                },
            },
    {
        let idx = match self.find_mem_region(adr, 1) {
            Ok(i) => i,
            Err(e) => return Err(e),
        };
        self.mems[idx].mem.program_b(adr, val);
        Ok(())
    }

    /// Mark four bytes as written with the little-endian bytes of `val`,
    /// ignoring write protection.
    pub fn program_w(&mut self, adr: u32, val: u32) -> (r: Result<(), SimError>)
        requires
            old(self).wf(),
        ensures
            final(self).wf(),
            match r {
                Ok(_) => old(self).route_ok(adr, 4) && old(self).stored_spec(
                    *final(self),
                    adr,
                    4,
                    val,
                ),
                Err(e) => {
                    &&& !old(self).route_ok(adr, 4)
                    &&& e == old(self).route_err(adr, 4)
                    &&& *final(self) == *old(self)
                },
            },
    {
        let idx = match self.find_mem_region(adr, 4) {
            Ok(i) => i,
            Err(e) => return Err(e),
        };
        self.mems[idx].mem.program_b(adr, (val & 0xFF) as u8);
        self.mems[idx].mem.program_b(adr + 1, ((val >> 8) & 0xFF) as u8);
        self.mems[idx].mem.program_b(adr + 2, ((val >> 16) & 0xFF) as u8);
        self.mems[idx].mem.program_b(adr + 3, ((val >> 24) & 0xFF) as u8);
        Ok(())
    }

    /// Store one byte, honouring write protection.
    pub fn write_b(&mut self, adr: u32, val: u8) -> (r: Result<Value, SimError>)
        requires
            old(self).wf(),
        ensures
            final(self).wf(),
            match r {
                Ok(v) => {
                    &&& old(self).write_ok_spec(adr, 1)
                    &&& v == (Value {
                        origin: ValueOrigin::Memory { adr, bytes: 1 },
                        val: val as u32,
                    })
                    &&& old(self).stored_spec(*final(self), adr, 1, val as u32)
                },
                Err(e) => {
                    &&& !old(self).write_ok_spec(adr, 1)
                    &&& e == old(self).write_err_spec(adr, 1)
                    &&& *final(self) == *old(self)
                },
            },
    {
        let idx = match self.find_mem_region(adr, 1) {
            Ok(i) => i,
            Err(e) => return Err(e),
        };
        if self.mems[idx].mem.write_protected {
            return Err(SimError::WriteToReadOnly(adr));
        }
        if let Err(e) = self.mems[idx].mem.write_b(adr, val) {
            return Err(e);
        }
        Ok(Value::memory_value(adr, 1, val as u32))
    }

    /// Store a half-word as two little-endian bytes, honouring write
    /// protection.
    pub fn write_h(&mut self, adr: u32, val: u16) -> (r: Result<Value, SimError>)
        requires
            old(self).wf(),
        ensures
            final(self).wf(),
            match r {
                Ok(v) => {
                    &&& old(self).write_ok_spec(adr, 2)
                    &&& v == (Value {
                        origin: ValueOrigin::Memory { adr, bytes: 2 },
                        val: val as u32,
                    })
                    &&& old(self).stored_spec(*final(self), adr, 2, val as u32)
                },
                Err(e) => {
                    &&& !old(self).write_ok_spec(adr, 2)
                    &&& e == old(self).write_err_spec(adr, 2)
                    &&& *final(self) == *old(self)
                },
            },
    {
        let idx = match self.find_mem_region(adr, 2) {
            Ok(i) => i,
            Err(e) => return Err(e),
        };
        if self.mems[idx].mem.write_protected {
            return Err(SimError::WriteToReadOnly(adr));
        }
        if let Err(e) = self.mems[idx].mem.write_h(adr, val) {
            return Err(e);
        }
        Ok(Value::memory_value(adr, 2, val as u32))
    }

    /// Store a word as four little-endian bytes, honouring write
    /// protection.
    pub fn write_w(&mut self, adr: u32, val: u32) -> (r: Result<Value, SimError>)
        requires
            old(self).wf(),
        ensures
            final(self).wf(),
            match r {
                Ok(v) => {
                    &&& old(self).write_ok_spec(adr, 4)
                    &&& v == (Value { origin: ValueOrigin::Memory { adr, bytes: 4 }, val })
                    &&& old(self).stored_spec(*final(self), adr, 4, val)
                },
                Err(e) => {
                    &&& !old(self).write_ok_spec(adr, 4)
                    &&& e == old(self).write_err_spec(adr, 4)
                    &&& *final(self) == *old(self)
                },
            },
    {
        let idx = match self.find_mem_region(adr, 4) {
            Ok(i) => i,
            Err(e) => return Err(e),
        };
        if self.mems[idx].mem.write_protected {
            return Err(SimError::WriteToReadOnly(adr));
        }
        if let Err(e) = self.mems[idx].mem.write_w(adr, val) {
            return Err(e);
        }
        Ok(Value::memory_value(adr, 4, val))
    }

    /// Read one byte, zero-extended.
    pub fn read_b(&mut self, adr: u32) -> (r: Result<Value, SimError>)
        requires
            old(self).wf(),
        ensures
            final(self).wf(),
            *final(self) == *old(self),
            match r {
                Ok(v) => {
                    &&& old(self).read_ok_spec(adr, 1)
                    &&& v.origin == (ValueOrigin::Memory { adr, bytes: 1 })
                    &&& old(self).read_consistent_spec(adr, 1, v.val)
                },
                Err(e) => !old(self).read_ok_spec(adr, 1) && e == old(self).read_err_spec(adr, 1),
            },
    {
        let idx = match self.find_mem_region(adr, 1) {
            Ok(i) => i,
            Err(e) => return Err(e),
        };
        let b = match self.mems[idx].mem.read_b(adr) {
            Ok(b) => b,
            Err(e) => return Err(e),
        };
        Ok(Value::memory_value(adr, 1, b as u32))
    }

    /// Read a half-word as two little-endian bytes, zero-extended.
    pub fn read_h(&mut self, adr: u32) -> (r: Result<Value, SimError>)
        requires
            old(self).wf(),
        ensures
            final(self).wf(),
            *final(self) == *old(self),
            match r {
                Ok(v) => {
                    &&& old(self).read_ok_spec(adr, 2)
                    &&& v.origin == (ValueOrigin::Memory { adr, bytes: 2 })
                    &&& old(self).read_consistent_spec(adr, 2, v.val)
                },
                Err(e) => !old(self).read_ok_spec(adr, 2) && e == old(self).read_err_spec(adr, 2),
            },
    {
        let idx = match self.find_mem_region(adr, 2) {
            Ok(i) => i,
            Err(e) => return Err(e),
        };
        let h = match self.mems[idx].mem.read_h(adr) {
            Ok(h) => h,
            Err(e) => return Err(e),
        };
        Ok(Value::memory_value(adr, 2, h as u32))
    }

    /// Read a word as four little-endian bytes.
    pub fn read_w(&mut self, adr: u32) -> (r: Result<Value, SimError>)
        requires
            old(self).wf(),
        ensures
            final(self).wf(),
            *final(self) == *old(self),
            match r {
                Ok(v) => {
                    &&& old(self).read_ok_spec(adr, 4)
                    &&& v.origin == (ValueOrigin::Memory { adr, bytes: 4 })
                    &&& old(self).read_consistent_spec(adr, 4, v.val)
                },
                Err(e) => !old(self).read_ok_spec(adr, 4) && e == old(self).read_err_spec(adr, 4),
            },
    {
        let idx = match self.find_mem_region(adr, 4) {
            Ok(i) => i,
            Err(e) => return Err(e),
        };
        let w = match self.mems[idx].mem.read_w(adr) {
            Ok(w) => w,
            Err(e) => return Err(e),
        };
        Ok(Value::memory_value(adr, 4, w))
    }

    /// Read a register. `X0` reads 0 without touching state; a first read
    /// of any other absent entry synthesizes a value per the register init
    /// policy and commits it, so later reads return the same word.
    pub fn read_register(&mut self, reg: Register) -> (r: Result<Value, SimError>)
        requires
            old(self).wf(),
        ensures
            final(self).wf(),
            final(self).pc == old(self).pc,
            final(self).mems == old(self).mems,
            final(self).config == old(self).config,
            match r {
                Ok(v) => {
                    &&& reg_read_ok(old(self).core_reg@, old(self).config.reg_init, reg)
                    &&& v.origin == ValueOrigin::Register(reg)
                    &&& reg_read_consistent(
                        old(self).core_reg@,
                        old(self).config.reg_init,
                        reg,
                        v.val,
                    )
                    &&& final(self).core_reg@ == reg_latch(old(self).core_reg@, reg, v.val)
                },
                Err(e) => {
                    &&& !reg_read_ok(old(self).core_reg@, old(self).config.reg_init, reg)
                    &&& e == SimError::UninitRegister(reg)
                    &&& *final(self) == *old(self)
                },
            },
    {
        if reg == Register::X0 {
            return Ok(Value::register_value(reg, 0));
        }
        let idx = reg.index();
        match self.core_reg[idx] {
            Some(v) => Ok(Value::register_value(reg, v)),
            None => {
                let v: u32 = match self.config.reg_init {
                    ValueInit::Random => random_word(),
                    ValueInit::Zero => 0,
                    ValueInit::Ones => 0xFFFFFFFF,
                    ValueInit::FixedByte(b) => b as u32,
                    ValueInit::FixedWord(w) => w,
                    ValueInit::Error => {
                        return Err(SimError::UninitRegister(reg));
                    },
                };
                self.core_reg[idx] = Some(v);
                Ok(Value::register_value(reg, v))
            },
        }
    }

    /// Write a register. Writes to `X0` are dropped and report a value of
    /// 0, so the commit list keeps a fixed shape per instruction; writing
    /// `X0` leaves the whole simulator state unchanged.
    pub fn write_register(&mut self, reg: Register, val: u32) -> (r: Value)
        requires
            old(self).wf(),
        ensures
            final(self).wf(),
            final(self).pc == old(self).pc,
            final(self).mems == old(self).mems,
            final(self).config == old(self).config,
            final(self).core_reg@ == reg_store(old(self).core_reg@, reg, val),
            r == (Value {
                origin: ValueOrigin::Register(reg),
                val: if reg == Register::X0 {
                    0
                } else {
                    val
                },
            }),
            reg == Register::X0 ==> *final(self) == *old(self),
    {
        if reg == Register::X0 {
            return Value::register_value(reg, 0);
        }
        let idx = reg.index();
        self.core_reg[idx] = Some(val);
        Value::register_value(reg, val)
    }

    /// The current program counter.
    pub fn pc(&self) -> (r: u32)
        ensures
            r == self.pc,
    {
        self.pc
    }
}

/// Law: a word written to a writable region reads back exactly, whatever
/// was stored there before. `s1` is the state before the store, `s2` the
/// state after it, and `v` any value a subsequent four-byte read at the
/// same address can return.
pub proof fn lemma_write_then_read_word(s1: DRVSim, s2: DRVSim, adr: u32, val: u32, v: u32)
    requires
        s1.write_ok_spec(adr, 4),
        s1.mems_stored(s2, adr, 4, val),
        s2.read_consistent_spec(adr, 4, v),
    ensures
        v == val,
{
    lemma_find_region_same_ranges(s2.mems@, s1.mems@, adr, 0);
    let i = s1.route(adr);
    assert(s2.route(adr) == i);
    crate::memory::lemma_store_then_load_word(
        s1.mems@[i].mem,
        s2.mems@[i].mem,
        adr,
        val,
        v,
    );
}

/// Law: a half-word written to a writable region reads back exactly: the
/// low 16 bits of the stored value are preserved by a two-byte
/// write-then-read at one address.
pub proof fn lemma_write_then_read_half(s1: DRVSim, s2: DRVSim, adr: u32, val: u16, v: u32)
    requires
        s1.write_ok_spec(adr, 2),
        s1.mems_stored(s2, adr, 2, val as u32),
        s2.read_consistent_spec(adr, 2, v),
    ensures
        v == val as u32,
{
    lemma_find_region_same_ranges(s2.mems@, s1.mems@, adr, 0);
    let i = s1.route(adr);
    assert(s2.route(adr) == i);
    crate::memory::lemma_store_then_load_half(
        s1.mems@[i].mem,
        s2.mems@[i].mem,
        adr,
        val,
        v as u16,
    );
}

/// Law: a byte written to a writable region reads back exactly: the low
/// 8 bits of the stored value are preserved by a one-byte
/// write-then-read at one address.
pub proof fn lemma_write_then_read_byte(s1: DRVSim, s2: DRVSim, adr: u32, val: u8, v: u32)
    requires
        s1.write_ok_spec(adr, 1),
        s1.mems_stored(s2, adr, 1, val as u32),
        s2.read_consistent_spec(adr, 1, v),
    ensures
        v == val as u32,
{
    lemma_find_region_same_ranges(s2.mems@, s1.mems@, adr, 0);
    let i = s1.route(adr);
    assert(s2.route(adr) == i);
    crate::memory::lemma_store_then_load_byte(
        s1.mems@[i].mem,
        s2.mems@[i].mem,
        adr,
        val,
        v as u8,
    );
}

/// Relies on rand::random: a uniformly drawn byte. Nothing is promised of
/// the result; two calls may differ.
#[verifier::external_body]
pub(crate) fn random_byte() -> u8 {
    rand::random()
}

/// Relies on rand::random: a uniformly drawn 32-bit word. Nothing is
/// promised of the result; two calls may differ.
#[verifier::external_body]
pub(crate) fn random_word() -> u32 {
    rand::random()
}

} // verus!
