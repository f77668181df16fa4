//! The sixteen corner patterns of a cell and their case indices.
use vstd::prelude::*;

verus! {

/// Four corner values, each 0 or 1.
pub open spec fn binary_corners(s: Seq<u8>) -> bool {
    s.len() == 4 && forall|i: int| 0 <= i < 4 ==> #[trigger] s[i] <= 1
}

/// The case index of four corners: bottom-left weighs 8, top-left 4,
/// top-right 2 and bottom-right 1.
pub open spec fn case_of(s: Seq<u8>) -> int {
    8 * s[0] + 4 * s[1] + 2 * s[2] + s[3]
}

/// The corners whose case index is `k`.
pub open spec fn corners_of_case(k: int) -> Seq<u8> {
    seq![(k / 8) as u8, ((k / 4) % 2) as u8, ((k / 2) % 2) as u8, (k % 2) as u8]
}

/// The case index of a cell's corners, given bottom-left, top-left,
/// top-right, bottom-right.
pub fn calc_case_index(square: Vec<u8>) -> (r: u8)
    requires
        binary_corners(square@),
    ensures
        r == case_of(square@),
        r <= 15,
{
    let case_index = square[0] * 8 + square[1] * 4 + square[2] * 2 + square[3] * 1;
    case_index
}

/// The case index lies in `0..=15` and tells the corners apart: two corner
/// patterns with the same index are the same pattern.
pub proof fn lemma_case_index_injective(a: Seq<u8>, b: Seq<u8>)
    requires
        binary_corners(a),
        binary_corners(b),
    ensures
        0 <= case_of(a) <= 15,
        case_of(a) == case_of(b) ==> a == b,
{
    assert(a[0] <= 1 && a[1] <= 1 && a[2] <= 1 && a[3] <= 1);
    assert(b[0] <= 1 && b[1] <= 1 && b[2] <= 1 && b[3] <= 1);
    if case_of(a) == case_of(b) {
        assert(a =~= b);
    }
}

/// Every index in `0..=15` is the case index of exactly one corner pattern,
/// `corners_of_case(k)`.
pub proof fn lemma_case_index_onto(k: int)
    requires
        0 <= k <= 15,
    ensures
        binary_corners(corners_of_case(k)),
        case_of(corners_of_case(k)) == k,
        forall|s: Seq<u8>| binary_corners(s) && case_of(s) == k ==> s == corners_of_case(k),
{
    assert forall|s: Seq<u8>| binary_corners(s) && case_of(s) == k implies s == corners_of_case(k) by {
        lemma_case_index_injective(s, corners_of_case(k));
    }
}

} // verus!
