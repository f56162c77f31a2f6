use vstd::prelude::*;
use crate::error::Error;

verus! {

/// Page protection of a memory region, as a set of named capability bits.
#[derive(PartialEq, Eq, Structural, Clone, Copy, Debug)]
pub struct PageProtectionFlags {
    pub bits: u32,
}

/// Every bit that has a name in a page protection set.
pub const PAGE_PROTECTION_KNOWN: u32 = 0x4000_07ff;

/// The set of the given bits, or `UnsupportedFlags` when one has no name.
pub open spec fn protection_of(bits: u32) -> Result<PageProtectionFlags, Error> {
    if bits & !PAGE_PROTECTION_KNOWN == 0 {
        Ok(PageProtectionFlags { bits })
    } else {
        Err(Error::UnsupportedFlags)
    }
}

impl PageProtectionFlags {
    pub const EXECUTE: u32 = 0x10;
    pub const EXECUTE_READ: u32 = 0x20;
    pub const EXECUTE_READ_WRITE: u32 = 0x40;
    pub const EXECUTE_WRITE_COPY: u32 = 0x80;
    pub const NO_ACCESS: u32 = 0x01;
    pub const READ_ONLY: u32 = 0x02;
    pub const READ_WRITE: u32 = 0x04;
    pub const WRITE_COPY: u32 = 0x08;
    pub const TARGETS_INVALID: u32 = 0x4000_0000;
    pub const TARGET_NO_UPDATE: u32 = 0x4000_0000;
    pub const GUARD: u32 = 0x100;
    pub const NO_CACHE: u32 = 0x200;
    pub const WRITE_COMBINE: u32 = 0x400;

    /// The set of the given bits, when every one of them has a name.
    pub fn from_bits(bits: u32) -> (r: Option<PageProtectionFlags>)
        ensures
            r == (if bits & !PAGE_PROTECTION_KNOWN == 0 {
                Some(PageProtectionFlags { bits })
            } else {
                None
            }),
    {
        if bits & !PAGE_PROTECTION_KNOWN == 0 {
            Some(PageProtectionFlags { bits })
        } else {
            None
        }
    }

    /// The set of the given bits; unnamed bits fail with `UnsupportedFlags`.
    pub fn try_from_bits(bits: u32) -> (r: Result<PageProtectionFlags, Error>)
        ensures
            r == protection_of(bits),
    {
        match PageProtectionFlags::from_bits(bits) {
            Some(f) => Ok(f),
            None => Err(Error::UnsupportedFlags),
        }
    }

    /// The set with no capability.
    pub fn empty() -> (r: PageProtectionFlags)
        ensures
            r.bits == 0,
    {
        PageProtectionFlags { bits: 0 }
    }

    /// The raw bits of the set.
    pub fn bits(&self) -> (r: u32)
        ensures
            r == self.bits,
    {
        self.bits
    }

    /// Whether the set holds no capability.
    pub fn is_empty(&self) -> (r: bool)
        ensures
            r == (self.bits == 0),
    {
        self.bits == 0
    }

    /// Whether every capability of `other` is in the set.
    pub fn contains(&self, other: PageProtectionFlags) -> (r: bool)
        ensures
            r == (self.bits & other.bits == other.bits),
    {
        self.bits & other.bits == other.bits
    }

    /// Whether the set shares a capability with `other`.
    pub fn intersects(&self, other: PageProtectionFlags) -> (r: bool)
        ensures
            r == (self.bits & other.bits != 0),
    {
        self.bits & other.bits != 0
    }

    /// The capabilities of either set.
    pub fn union(&self, other: PageProtectionFlags) -> (r: PageProtectionFlags)
        ensures
            r.bits == self.bits | other.bits,
    {
        PageProtectionFlags { bits: self.bits | other.bits }
    }

    /// The capabilities of both sets.
    pub fn intersection(&self, other: PageProtectionFlags) -> (r: PageProtectionFlags)
        ensures
            r.bits == self.bits & other.bits,
    {
        PageProtectionFlags { bits: self.bits & other.bits }
    }
}

/// Allocation state of a memory region.
#[derive(PartialEq, Eq, Structural, Clone, Copy, Debug)]
pub struct VirtualAllocationType {
    pub bits: u32,
}

/// Every bit that has a name in an allocation state.
pub const VIRTUAL_ALLOCATION_KNOWN: u32 = 0x0001_3000;

/// The set of the given bits, or `UnsupportedFlags` when one has no name.
pub open spec fn allocation_of(bits: u32) -> Result<VirtualAllocationType, Error> {
    if bits & !VIRTUAL_ALLOCATION_KNOWN == 0 {
        Ok(VirtualAllocationType { bits })
    } else {
        Err(Error::UnsupportedFlags)
    }
}

impl VirtualAllocationType {
    pub const COMMIT: u32 = 0x1000;
    pub const FREE: u32 = 0x10000;
    pub const RESERVE: u32 = 0x2000;

    /// The state of the given bits; unnamed bits fail with `UnsupportedFlags`.
    pub fn try_from_bits(bits: u32) -> (r: Result<VirtualAllocationType, Error>)
        ensures
            r == allocation_of(bits),
    {
        if bits & !VIRTUAL_ALLOCATION_KNOWN == 0 {
            Ok(VirtualAllocationType { bits })
        } else {
            Err(Error::UnsupportedFlags)
        }
    }

    /// The raw bits of the state.
    pub fn bits(&self) -> (r: u32)
        ensures
            r == self.bits,
    {
        self.bits
    }
}

/// Kind of the pages of a memory region.
#[derive(PartialEq, Eq, Structural, Clone, Copy, Debug)]
pub struct PageType {
    pub bits: u32,
}

/// Every bit that has a name in a page type.
pub const PAGE_TYPE_KNOWN: u32 = 0x0106_0000;

/// The set of the given bits, or `UnsupportedFlags` when one has no name.
pub open spec fn page_type_of(bits: u32) -> Result<PageType, Error> {
    if bits & !PAGE_TYPE_KNOWN == 0 {
        Ok(PageType { bits })
    } else {
        Err(Error::UnsupportedFlags)
    }
}

impl PageType {
    pub const IMAGE: u32 = 0x100_0000;
    pub const MAPPED: u32 = 0x4_0000;
    pub const PRIVATE: u32 = 0x2_0000;

    /// The type of the given bits; unnamed bits fail with `UnsupportedFlags`.
    pub fn try_from_bits(bits: u32) -> (r: Result<PageType, Error>)
        ensures
            r == page_type_of(bits),
    {
        if bits & !PAGE_TYPE_KNOWN == 0 {
            Ok(PageType { bits })
        } else {
            Err(Error::UnsupportedFlags)
        }
    }

    /// The raw bits of the type.
    pub fn bits(&self) -> (r: u32)
        ensures
            r == self.bits,
    {
        self.bits
    }
}

} // verus!
