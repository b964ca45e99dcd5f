//! Positions on the board and the relative offsets between them.
//!
//! A position is an index in `0..25`: row `p / 5`, column `p % 5`, with
//! index 0 in White's back-left corner. An offset is the displacement
//! `(drow, dcol)` between two positions, both in `-2..=2`, encoded as the
//! single index `(drow + 2) * 5 + (dcol + 2)` into a 5×5 window; code 12
//! is the zero displacement.
use vstd::prelude::*;

verus! {

/// Number of squares on the board.
pub const SQUARES: usize = 25;

/// Offset code of the zero displacement: the centre of the relative window.
pub const ZERO_OFFSET: usize = 12;

pub open spec fn row(p: int) -> int {
    p / 5
}

pub open spec fn col(p: int) -> int {
    p % 5
}

pub open spec fn delta_row(target: int, origin: int) -> int {
    row(target) - row(origin)
}

pub open spec fn delta_col(target: int, origin: int) -> int {
    col(target) - col(origin)
}

/// The target lies within two rows and two columns of the origin.
pub open spec fn within_window(target: int, origin: int) -> bool {
    -2 <= delta_row(target, origin) <= 2 && -2 <= delta_col(target, origin) <= 2
}

/// The linear code of a displacement.
pub open spec fn encode_offset(drow: int, dcol: int) -> int {
    (drow + 2) * 5 + (dcol + 2)
}

/// Row displacement that an offset code stands for.
pub open spec fn offset_drow(o: int) -> int {
    o / 5 - 2
}

/// Column displacement that an offset code stands for.
pub open spec fn offset_dcol(o: int) -> int {
    o % 5 - 2
}

/// The offset from `origin` to `target`, if it lies in the window.
pub open spec fn offset_of(target: int, origin: int) -> Option<usize> {
    if within_window(target, origin) {
        Some(encode_offset(delta_row(target, origin), delta_col(target, origin)) as usize)
    } else {
        None
    }
}

/// Offset from `origin` to `target`, or `None` when the target is more than
/// two rows or two columns away.
pub fn get_offset(target: usize, origin: usize) -> (r: Option<usize>)
    requires
        target < SQUARES,
        origin < SQUARES,
    ensures
        r == offset_of(target as int, origin as int),
{
    let target_row: usize = target / 5;
    let target_col: usize = target % 5;
    let origin_row: usize = origin / 5;
    let origin_col: usize = origin % 5;
    if target_row + 2 < origin_row || origin_row + 2 < target_row || target_col + 2 < origin_col
        || origin_col + 2 < target_col {
        None
    } else {
        Some((target_row + 2 - origin_row) * 5 + (target_col + 2 - origin_col))
    }
}

/// A movement card: an identifier and the offset codes it enables.
pub struct Card {
    pub id: u32,
    pub offsets: Vec<usize>,
}

impl Card {
    pub fn new(id: u32, offsets: Vec<usize>) -> (r: Card)
        ensures
            r.id == id,
            r.offsets@ == offsets@,
    {
        Card { id, offsets }
    }
}

/// Whether a movement card's pattern enables `offset`.
///
/// Both players read the pattern as it is written: no card is mirrored for
/// the player facing the other way.
pub fn in_card(offset: usize, card: &Card) -> (r: bool)
    ensures
        r == card.offsets@.contains(offset),
{
    let offsets = &card.offsets;
    let mut i: usize = 0;
    while i < offsets.len()
        invariant
            offsets == &card.offsets,
            i <= offsets@.len(),
            forall|j: int| 0 <= j < i ==> offsets@[j] != offset,
        decreases offsets@.len() - i,
    {
        if offsets[i] == offset {
            return true;
        }
        i = i + 1;
    }
    false
}

/// Inside the window of two rows and two columns the offset code is the
/// linear code of the displacement, and decoding it gives back the
/// displacement and so the target; outside the window there is no offset.
pub proof fn lemma_offset_inverse(target: int, origin: int)
    requires
        0 <= target < SQUARES,
        0 <= origin < SQUARES,
    ensures
        within_window(target, origin) ==> {
            &&& offset_of(target, origin) is Some
            &&& 0 <= offset_of(target, origin)->0 < SQUARES
            &&& offset_of(target, origin)->0 as int == encode_offset(
                delta_row(target, origin),
                delta_col(target, origin),
            )
            &&& offset_drow(offset_of(target, origin)->0 as int) == delta_row(target, origin)
            &&& offset_dcol(offset_of(target, origin)->0 as int) == delta_col(target, origin)
            &&& target == origin + 5 * offset_drow(offset_of(target, origin)->0 as int)
                + offset_dcol(offset_of(target, origin)->0 as int)
        },
        !within_window(target, origin) ==> offset_of(target, origin) is None,
{
}

/// From a fixed origin, two targets with the same offset are the same square.
pub proof fn lemma_offset_determines_target(t1: int, t2: int, origin: int)
    requires
        0 <= t1 < SQUARES,
        0 <= t2 < SQUARES,
        0 <= origin < SQUARES,
        offset_of(t1, origin) is Some,
        offset_of(t1, origin) == offset_of(t2, origin),
    ensures
        t1 == t2,
{
    lemma_offset_inverse(t1, origin);
    lemma_offset_inverse(t2, origin);
}

/// A square's offset to itself is the zero displacement.
pub proof fn lemma_offset_to_self(p: int)
    requires
        0 <= p < SQUARES,
    ensures
        offset_of(p, p) == Some(ZERO_OFFSET),
{
}

} // verus!
