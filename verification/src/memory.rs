//! The memory ceiling: how megabytes become pages, and what the tunables make of
//! the memories that a module declares.

use vstd::prelude::*;

verus! {

/// The number of WebAssembly pages of 64 KiB in one megabyte.
pub const PAGES_PER_MB: u32 = 16;

/// The ceiling in pages for a ceiling in megabytes.
pub open spec fn ceiling_in_pages(megabytes: u32) -> int {
    megabytes * PAGES_PER_MB
}

/// The megabytes that hold `pages` pages: `pages / 16`, rounded up.
pub open spec fn declared_megabytes(pages: u32) -> int {
    (pages + 15) / 16
}

/// The ceiling in pages for a ceiling in megabytes.
pub fn ceiling_pages(megabytes: u32) -> (pages: u32)
    requires
        ceiling_in_pages(megabytes) <= u32::MAX,
    ensures
        pages == ceiling_in_pages(megabytes),
{
    megabytes * PAGES_PER_MB
}

/// The ceiling in pages for a ceiling in megabytes, where it fits in 32 bits.
pub fn checked_ceiling_pages(megabytes: u32) -> (pages: Option<u32>)
    ensures
        pages == if ceiling_in_pages(megabytes) <= u32::MAX {
            Some(ceiling_in_pages(megabytes) as u32)
        } else {
            None
        },
{
    if megabytes <= u32::MAX / PAGES_PER_MB {
        Some(ceiling_pages(megabytes))
    } else {
        None
    }
}

/// The megabytes that hold `pages` pages.
pub fn declared_mb(pages: u32) -> (megabytes: u32)
    requires
        pages <= u32::MAX - 15,
    ensures
        megabytes == declared_megabytes(pages),
        megabytes * 16 >= pages,
        pages > 0 ==> (megabytes - 1) * 16 < pages,
{
    (pages + 15) / 16
}

/// The limits of a linear memory, in pages.
#[derive(Clone, Copy, Debug, PartialEq, Eq)]
pub struct MemoryType {
    /// The minimum number of pages in the memory.
    pub minimum: u32,
    /// The maximum number of pages in the memory.
    pub maximum: Option<u32>,
    /// Whether the memory may be shared between threads.
    pub shared: bool,
}

/// The limits of a table, in elements.
#[derive(Clone, Copy, Debug, PartialEq, Eq)]
pub struct TableType {
    /// The minimum number of elements in the table.
    pub minimum: u32,
    /// The maximum number of elements in the table.
    pub maximum: Option<u32>,
}

/// Why the tunables refuse what a module declares.
#[derive(Clone, Copy, Debug, PartialEq, Eq)]
pub enum LimitError {
    /// A memory asks for more pages at least than the ceiling allows.
    MemoryMinimumExceedsLimit { minimum: u32, limit: u32 },
    /// A table asks for more elements at least than the ceiling allows.
    TableMinimumExceedsLimit { minimum: u32, limit: u32 },
}

/// Tunables that hold every memory of a module under a ceiling.
#[derive(Clone, Copy, Debug, PartialEq, Eq)]
pub struct LimitingTunables {
    /// The ceiling, in pages.
    limit: u32,
}

/// The maximum reported for a memory under a ceiling: the lesser of the declared
/// maximum and the ceiling, and the ceiling where none is declared.
pub open spec fn capped_maximum(declared: Option<u32>, limit: u32) -> u32 {
    match declared {
        Some(maximum) => if maximum < limit {
            maximum
        } else {
            limit
        },
        None => limit,
    }
}

/// A memory type as the tunables report it under a ceiling.
pub open spec fn adjusted(requested: MemoryType, limit: u32) -> MemoryType {
    MemoryType {
        minimum: requested.minimum,
        maximum: Some(capped_maximum(requested.maximum, limit)),
        shared: requested.shared,
    }
}

/// Why a memory with the given declared minimum is refused under a ceiling;
/// `None` where it is accepted.
pub open spec fn memory_refusal(minimum: u32, limit: u32) -> Option<LimitError> {
    if minimum > limit {
        Some(LimitError::MemoryMinimumExceedsLimit { minimum, limit })
    } else {
        None
    }
}

/// Why a table with the given declared minimum is refused under a ceiling;
/// `None` where it is accepted.
pub open spec fn table_refusal(minimum: u32, limit: u32) -> Option<LimitError> {
    if minimum > limit {
        Some(LimitError::TableMinimumExceedsLimit { minimum, limit })
    } else {
        None
    }
}

impl LimitingTunables {
    /// The ceiling, in pages.
    pub closed spec fn spec_limit(&self) -> u32 {
        self.limit
    }

    /// Tunables with a ceiling of `limit` pages.
    pub fn new(limit: u32) -> (tunables: Self)
        ensures
            tunables.spec_limit() == limit,
    {
        Self { limit }
    }

    /// The ceiling, in pages.
    #[verifier::when_used_as_spec(spec_limit)]
    pub fn limit(&self) -> (limit: u32)
        ensures
            limit == self.spec_limit(),
    {
        self.limit
    }

    /// The memory type that is reported for a requested one: its maximum is
    /// capped at the ceiling, and is the ceiling where none was declared.
    pub fn adjust_memory(&self, requested: &MemoryType) -> (reported: MemoryType)
        ensures
            reported == adjusted(*requested, self.spec_limit()),
            reported.maximum->0 <= self.spec_limit(),
    {
        let maximum = match requested.maximum {
            Some(maximum) => if maximum < self.limit {
                maximum
            } else {
                self.limit
            },
            None => self.limit,
        };
        MemoryType { minimum: requested.minimum, maximum: Some(maximum), shared: requested.shared }
    }

    /// Refuses a memory whose declared minimum is above the ceiling, and no
    /// other.
    pub fn validate_memory(&self, ty: &MemoryType) -> (valid: Result<(), LimitError>)
        ensures
            match valid {
                Ok(_) => memory_refusal(ty.minimum, self.spec_limit()) is None,
                Err(refusal) => memory_refusal(ty.minimum, self.spec_limit()) == Some(refusal),
            },
    {
        if ty.minimum > self.limit {
            return Err(
                LimitError::MemoryMinimumExceedsLimit { minimum: ty.minimum, limit: self.limit },
            );
        }
        Ok(())
    }

    /// Refuses a table whose declared minimum is above the ceiling, and no other.
    pub fn validate_table(&self, ty: &TableType) -> (valid: Result<(), LimitError>)
        ensures
            match valid {
                Ok(_) => table_refusal(ty.minimum, self.spec_limit()) is None,
                Err(refusal) => table_refusal(ty.minimum, self.spec_limit()) == Some(refusal),
            },
    {
        if ty.minimum > self.limit {
            return Err(
                LimitError::TableMinimumExceedsLimit { minimum: ty.minimum, limit: self.limit },
            );
        }
        Ok(())
    }
}

/// A memory that the tunables accept under a ceiling given in megabytes declares
/// no more megabytes than the ceiling.
pub proof fn lemma_accepted_memory_fits(megabytes: u32, minimum: u32)
    requires
        minimum <= ceiling_in_pages(megabytes),
    ensures
        declared_megabytes(minimum) <= megabytes,
{
}

} // verus!
