//! The access-bit algebra: positive rights, denial folding, and the
//! predicates the traversal uses to decide when a request is satisfied.
//!
//! An access mask is an 8-bit value.  The low nibble holds the positive
//! rights (create = 1, read = 2, update = 4, delete = 8); the high nibble
//! holds the matching denials (16, 32, 64, 128).

use vstd::prelude::*;

verus! {

/// Bit fields for access rights.
#[derive(PartialEq, Eq, Structural, Clone, Copy)]
pub enum Access {
    /// Right to create.
    CanCreate,
    /// Right to read.
    CanRead,
    /// Right to update.
    CanUpdate,
    /// Right to delete.
    CanDelete,
    /// Denial of create.
    CantCreate,
    /// Denial of read.
    CantRead,
    /// Denial of update.
    CantUpdate,
    /// Denial of delete.
    CantDelete,
}

/// The mask bit that an [`Access`] value stands for.
pub open spec fn spec_access_bits(a: Access) -> u8 {
    match a {
        Access::CanCreate => 1,
        Access::CanRead => 2,
        Access::CanUpdate => 4,
        Access::CanDelete => 8,
        Access::CantCreate => 16,
        Access::CantRead => 32,
        Access::CantUpdate => 64,
        Access::CantDelete => 128,
    }
}

impl Access {
    /// The mask bit this right or denial occupies.
    pub fn bits(self) -> (r: u8)
        ensures
            r == spec_access_bits(self),
    {
        match self {
            Access::CanCreate => 1,
            Access::CanRead => 2,
            Access::CanUpdate => 4,
            Access::CanDelete => 8,
            Access::CantCreate => 16,
            Access::CantRead => 32,
            Access::CantUpdate => 64,
            Access::CantDelete => 128,
        }
    }
}

/// The effective positive mask of a raw record mask: any denial bit in the
/// high nibble suppresses the matching positive bit.
pub open spec fn effective_mask(m: u8) -> u8 {
    if m > 15 {
        (((m & 0xF0) >> 4) ^ 0x0F) & m
    } else {
        m
    }
}

/// Folds the denial bits of a raw mask into its positive bits.
pub fn fold_denials(m: u8) -> (r: u8)
    ensures
        r == effective_mask(m),
{
    if m > 15 {
        (((m & 0xF0) >> 4) ^ 0x0F) & m
    } else {
        m
    }
}

/// The positive bits of `request` that `so_far` has not yet granted.
pub open spec fn remaining_mask(request: u8, so_far: u8) -> u8 {
    (so_far ^ request) & request
}

/// Whether `so_far` covers every bit of `request`.
pub open spec fn satisfied(request: u8, so_far: u8) -> bool {
    so_far & request == request
}

/// The positive access bit at a position of the canonical enumeration
/// order `1, 2, 4, 8`.
pub open spec fn spec_access_8_item(i: int) -> u8 {
    if i == 0 {
        1
    } else if i == 1 {
        2
    } else if i == 2 {
        4
    } else {
        8
    }
}

/// Reads the canonical positive-bit enumeration.
pub fn access_8_item(i: usize) -> (r: u8)
    requires
        i < 4,
    ensures
        r == spec_access_8_item(i as int),
        r == 1 || r == 2 || r == 4 || r == 8,
{
    if i == 0 {
        1
    } else if i == 1 {
        2
    } else if i == 2 {
        4
    } else {
        8
    }
}

/// A mask is inside its own grant window.
pub proof fn lemma_self_window(c: u8, req: u8)
    ensures
        c & c == c,
        c & (c | req) == c,
{
    assert(c & c == c && c & (c | req) == c) by (bit_vector);
}

/// Two grant steps compose: what grew from `oc` to `c1` inside the window
/// and then to `c2` still contains `oc` and stays inside the window.
pub proof fn lemma_grant_chain(oc: u8, c1: u8, c2: u8, req: u8)
    requires
        oc & c1 == oc,
        c1 & (oc | req) == c1,
        c1 & c2 == c1,
        c2 & (c1 | req) == c2,
    ensures
        oc & c2 == oc,
        c2 & (oc | req) == c2,
{
    assert((oc & c1 == oc && c1 & (oc | req) == c1 && c1 & c2 == c1 && c2 & (c1 | req) == c2) ==> (
    oc & c2 == oc && c2 & (oc | req) == c2)) by (bit_vector);
}

/// An effective mask never has denial bits left.
pub proof fn lemma_effective_mask_positive(m: u8)
    ensures
        effective_mask(m) <= 15,
        m <= 15 ==> effective_mask(m) == m,
{
    assert((((m & 0xF0) >> 4) ^ 0x0F) & m <= 15) by (bit_vector);
}

/// Denial folding: a record whose raw mask is `m` contributes exactly the
/// bits a record with mask `effective_mask(m)` would, because folding a
/// mask twice equals folding it once.
pub proof fn lemma_effective_mask_idempotent(m: u8)
    ensures
        effective_mask(effective_mask(m)) == effective_mask(m),
{
    lemma_effective_mask_positive(m);
}

} // verus!
