use vstd::prelude::*;
use crate::error::Error;
use crate::flags::{
    allocation_of, page_type_of, protection_of, PageProtectionFlags, PageType, VirtualAllocationType,
    PAGE_PROTECTION_KNOWN,
};

verus! {

/// Where a seek counts from.
#[derive(PartialEq, Eq, Structural, Clone, Copy, Debug)]
pub enum SeekPosition {
    /// An offset from the start of the range.
    Start(u64),
    /// A signed offset from the current position.
    Current(i64),
    /// A signed offset from the end of the range.
    End(i64),
}

/// The address a seek lands on, or `None` when it falls before the start of
/// the range or outside the address space.
pub open spec fn seek_target(start: int, current: int, end: int, pos: SeekPosition) -> Option<int> {
    let (target, floor) = match pos {
        SeekPosition::Start(v) => (start + v, 0int),
        SeekPosition::Current(v) => (current + v, start),
        SeekPosition::End(v) => (end + v, start),
    };
    if floor <= target && target <= usize::MAX {
        Some(target)
    } else {
        None
    }
}

/// How many bytes one transfer of `requested` bytes may move from `current`
/// without passing `end`.
pub open spec fn transfer_len(current: int, end: int, requested: int) -> int {
    let room = if current < end { end - current } else { 0 };
    if requested < room { requested } else { room }
}

/// Model of a stream: the range `[start, end)` and the current address.
pub struct MemoryView {
    pub start: int,
    pub current: int,
    pub end: int,
}

/// The range `[start_address, end_address)` of a target's address space seen
/// as a seekable byte channel. It keeps the position; each transfer is made
/// by the caller, one call per transfer, and reported back here.
pub struct Memory {
    current_address: usize,
    start_address: usize,
    end_address: usize,
}

impl View for Memory {
    type V = MemoryView;

    closed spec fn view(&self) -> MemoryView {
        MemoryView {
            start: self.start_address as int,
            current: self.current_address as int,
            end: self.end_address as int,
        }
    }
}

impl Memory {
    /// A stream over `[start_address, end_address)`, positioned at its start.
    pub fn new(start_address: usize, end_address: usize) -> (r: Memory)
        ensures
            r@.start == start_address,
            r@.current == start_address,
            r@.end == end_address,
    {
        Memory { current_address: start_address, start_address, end_address }
    }

    /// The address the next transfer starts at.
    pub fn position(&self) -> (r: usize)
        ensures
            r == self@.current,
    {
        self.current_address
    }

    /// How many bytes a transfer of `requested` bytes may move now.
    pub fn transfer_len(&self, requested: usize) -> (r: usize)
        ensures
            r == transfer_len(self@.current, self@.end, requested as int),
    {
        let room: usize = if self.current_address < self.end_address {
            self.end_address - self.current_address
        } else {
            0
        };
        if requested < room {
            requested
        } else {
            room
        }
    }

    /// Records the outcome of one read or write of `requested` bytes made at
    /// the current address. `Err` leaves the position alone and is returned.
    /// `Ok(n)` advances the position by the bytes moved (at most what
    /// `transfer_len` allowed), and is `Eof` when that is fewer than requested.
    pub fn complete_transfer(&mut self, requested: usize, outcome: Result<usize, Error>) -> (r:
        Result<usize, Error>)
        ensures
            match outcome {
                Err(e) => r == Err::<usize, Error>(e) && final(self)@ == old(self)@,
                Ok(n) => {
                    let moved = if n < transfer_len(old(self)@.current, old(self)@.end, requested as int) {
                        n as int
                    } else {
                        transfer_len(old(self)@.current, old(self)@.end, requested as int)
                    };
                    &&& final(self)@.start == old(self)@.start
                    &&& final(self)@.end == old(self)@.end
                    &&& final(self)@.current == old(self)@.current + moved
                    &&& r == if moved < requested {
                        Err::<usize, Error>(Error::Eof)
                    } else {
                        Ok::<usize, Error>(moved as usize)
                    }
                },
            },
    {
        match outcome {
            Err(e) => Err(e),
            Ok(n) => {
                let allowed = self.transfer_len(requested);
                let moved: usize = if n < allowed {
                    n
                } else {
                    allowed
                };
                self.current_address = self.current_address + moved;
                if moved < requested {
                    Err(Error::Eof)
                } else {
                    Ok(moved)
                }
            },
        }
    }

    /// Moves the position; the result is the new address. A target before
    /// the start of the range, or outside the address space, fails with
    /// `InvalidOffset` and leaves the position alone.
    pub fn seek(&mut self, pos: SeekPosition) -> (r: Result<u64, Error>)
        ensures
            final(self)@.start == old(self)@.start,
            final(self)@.end == old(self)@.end,
            match seek_target(old(self)@.start, old(self)@.current, old(self)@.end, pos) {
                Some(t) => r == Ok::<u64, Error>(t as u64) && final(self)@.current == t,
                None => r == Err::<u64, Error>(Error::InvalidOffset) && final(self)@.current
                    == old(self)@.current,
            },
    {
        let (base, floor, delta): (usize, usize, i64) = match pos {
            SeekPosition::Start(v) => {
                if v > (usize::MAX - self.start_address) as u64 {
                    return Err(Error::InvalidOffset);
                }
                self.current_address = self.start_address + v as usize;
                return Ok(self.current_address as u64);
            },
            SeekPosition::Current(v) => (self.current_address, self.start_address, v),
            SeekPosition::End(v) => (self.end_address, self.start_address, v),
        };
        let target: usize = if delta >= 0 {
            if delta as u64 > (usize::MAX - base) as u64 {
                return Err(Error::InvalidOffset);
            }
            base + delta as usize
        } else {
            let back: u64 = if delta == i64::MIN {
                0x8000_0000_0000_0000u64
            } else {
                (-delta) as u64
            };
            if back > base as u64 {
                return Err(Error::InvalidOffset);
            }
            base - back as usize
        };
        if target < floor {
            return Err(Error::InvalidOffset);
        }
        self.current_address = target;
        Ok(target as u64)
    }
}

/// Writing bytes and then reading the same number back from where the write
/// began covers exactly the range the write covered: a write of `k` bytes
/// from address `a` that fits the range is allowed all `k` bytes and ends at
/// `a + k`; seeking back to `a`, from the start or from the current
/// position, lands on `a`; and the read there is allowed all `k` bytes.
pub proof fn lemma_write_then_read_covers_same_range(s: MemoryView, k: int)
    requires
        0 <= s.start <= s.current,
        0 <= k <= i64::MAX,
        s.current + k <= s.end <= usize::MAX,
    ensures
        transfer_len(s.current, s.end, k) == k,
        seek_target(s.start, s.current + k, s.end, SeekPosition::Start((s.current - s.start) as u64))
            == Some(s.current),
        seek_target(s.start, s.current + k, s.end, SeekPosition::Current((-k) as i64)) == Some(
            s.current,
        ),
{
}

/// Seeking to exactly the start or the end of the range succeeds; seeking
/// before the start, or past the end of the address space, fails.
pub proof fn lemma_seek_bounds(s: MemoryView, pos: SeekPosition)
    requires
        0 <= s.start <= s.current <= usize::MAX,
        s.start <= s.end <= usize::MAX,
    ensures
        seek_target(s.start, s.current, s.end, SeekPosition::Start(0)) == Some(s.start),
        seek_target(s.start, s.current, s.end, SeekPosition::End(0)) == Some(s.end),
        s.current - s.start <= i64::MAX ==> seek_target(
            s.start,
            s.current,
            s.end,
            SeekPosition::Current((s.start - s.current) as i64),
        ) == Some(s.start),
        match seek_target(s.start, s.current, s.end, pos) {
            Some(t) => s.start <= t <= usize::MAX,
            None => match pos {
                SeekPosition::Start(v) => s.start + v > usize::MAX,
                SeekPosition::Current(v) => s.current + v < s.start || s.current + v > usize::MAX,
                SeekPosition::End(v) => s.end + v < s.start || s.end + v > usize::MAX,
            },
        },
{
}

/// Snapshot of one memory region of a target process, as the operating
/// system reported it. Flag fields hold the raw bits.
#[derive(PartialEq, Eq, Structural, Clone, Copy, Debug)]
pub struct MemoryBasicInformation {
    pub base_address: usize,
    pub allocation_base: usize,
    pub allocation_protect: u32,
    pub partition_id: u16,
    pub region_size: usize,
    pub state: u32,
    pub protect: u32,
    pub page_type: u32,
}

/// Protection bits that keep a region out of a whole-address-space scan.
pub const UNSCANNABLE_PROTECTION: u32 = 0x4000_0101;

/// A region is scanned when its protection is a non-empty set of named bits
/// holding none of no-access, guard and targets-invalid.
pub open spec fn scannable_protection(bits: u32) -> bool {
    &&& bits != 0
    &&& bits & !PAGE_PROTECTION_KNOWN == 0
    &&& bits & UNSCANNABLE_PROTECTION == 0
}

impl MemoryBasicInformation {
    /// The region's first address.
    pub fn get_base_address(&self) -> (r: usize)
        ensures
            r == self.base_address,
    {
        self.base_address
    }

    /// The first address of the allocation the region belongs to.
    pub fn get_allocation_base(&self) -> (r: usize)
        ensures
            r == self.allocation_base,
    {
        self.allocation_base
    }

    /// The protection the allocation was made with.
    pub fn get_allocation_protect(&self) -> (r: Result<PageProtectionFlags, Error>)
        ensures
            r == protection_of(self.allocation_protect),
    {
        PageProtectionFlags::try_from_bits(self.allocation_protect)
    }

    /// The partition the region belongs to.
    pub fn get_partition_id(&self) -> (r: u16)
        ensures
            r == self.partition_id,
    {
        self.partition_id
    }

    /// The region's size in bytes.
    pub fn get_region_size(&self) -> (r: usize)
        ensures
            r == self.region_size,
    {
        self.region_size
    }

    /// The region's allocation state.
    pub fn get_state(&self) -> (r: Result<VirtualAllocationType, Error>)
        ensures
            r == allocation_of(self.state),
    {
        VirtualAllocationType::try_from_bits(self.state)
    }

    /// The region's current protection.
    pub fn get_protect(&self) -> (r: Result<PageProtectionFlags, Error>)
        ensures
            r == protection_of(self.protect),
    {
        PageProtectionFlags::try_from_bits(self.protect)
    }

    /// The kind of the region's pages.
    pub fn get_type(&self) -> (r: Result<PageType, Error>)
        ensures
            r == page_type_of(self.page_type),
    {
        PageType::try_from_bits(self.page_type)
    }

    /// Whether a whole-address-space scan reads this region.
    pub fn is_scannable(&self) -> (r: bool)
        ensures
            r == scannable_protection(self.protect),
    {
        match self.get_protect() {
            Err(_) => false,
            Ok(p) => {
                let unscannable = PageProtectionFlags { bits: UNSCANNABLE_PROTECTION };
                !p.is_empty() && !p.intersects(unscannable)
            },
        }
    }
}

/// Regions whose protection holds no-access or guard are never scanned, and
/// regions with execute-read protection alone are.
pub proof fn lemma_guarded_regions_are_skipped(bits: u32)
    ensures
        bits & PageProtectionFlags::NO_ACCESS != 0 ==> !scannable_protection(bits),
        bits & PageProtectionFlags::GUARD != 0 ==> !scannable_protection(bits),
        scannable_protection(PageProtectionFlags::EXECUTE_READ),
{
    assert(bits & 0x01u32 != 0 ==> bits & 0x4000_0101u32 != 0) by (bit_vector);
    assert(bits & 0x100u32 != 0 ==> bits & 0x4000_0101u32 != 0) by (bit_vector);
    assert(0x20u32 & !0x4000_07ffu32 == 0 && 0x20u32 & 0x4000_0101u32 == 0) by (bit_vector);
}

} // verus!
