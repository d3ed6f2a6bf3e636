//! The defended structure: which of its scene nodes become solid pieces.
use vstd::prelude::*;

verus! {

/// Kinds of fortress piece, told apart by the start of a node's name.
#[derive(Clone, Copy, Debug, PartialEq, Eq, Structural)]
pub enum FortressPiece {
    Brick,
    Disk,
    Pillar,
    Roof,
}

pub open spec fn has_prefix(s: Seq<char>, p: Seq<char>) -> bool {
    p.len() <= s.len() && s.subrange(0, p.len() as int) == p
}

/// Whether `name` starts with `prefix`.
pub fn name_starts_with(name: &str, prefix: &str) -> (r: bool)
    ensures
        r == has_prefix(name@, prefix@),
{
    let n = name.unicode_len();
    let m = prefix.unicode_len();
    if m > n {
        return false;
    }
    let mut k: usize = 0;
    while k < m
        invariant
            n == name@.len(),
            m == prefix@.len(),
            m <= n,
            0 <= k <= m,
            forall|t: int| 0 <= t < k ==> name@[t] == prefix@[t],
        decreases m - k,
    {
        if name.get_char(k) != prefix.get_char(k) {
            assert(name@.subrange(0, m as int)[k as int] != prefix@[k as int]);
            return false;
        }
        k = k + 1;
    }
    assert(name@.subrange(0, m as int) =~= prefix@);
    true
}

pub open spec fn spec_piece_of(name: Seq<char>) -> Option<FortressPiece> {
    if has_prefix(name, "brick"@) {
        Some(FortressPiece::Brick)
    } else if has_prefix(name, "pillar"@) {
        Some(FortressPiece::Pillar)
    } else if has_prefix(name, "roof"@) {
        Some(FortressPiece::Roof)
    } else if has_prefix(name, "disk"@) {
        Some(FortressPiece::Disk)
    } else {
        None
    }
}

/// The piece that a fortress node named `name` is, if it is one.
pub fn piece_of(name: &str) -> (r: Option<FortressPiece>)
    ensures
        r == spec_piece_of(name@),
{
    if name_starts_with(name, "brick") {
        Some(FortressPiece::Brick)
    } else if name_starts_with(name, "pillar") {
        Some(FortressPiece::Pillar)
    } else if name_starts_with(name, "roof") {
        Some(FortressPiece::Roof)
    } else if name_starts_with(name, "disk") {
        Some(FortressPiece::Disk)
    } else {
        None
    }
}

} // verus!
