//! The feedback matrix of the Hadamard feedback-delay-network reverb: the
//! 8×8 Sylvester-Hadamard sign pattern, whose rows are mutually orthogonal,
//! so that scaling by `1/√8` makes the mix energy-preserving.

use vstd::prelude::*;

verus! {

/// Number of delay lines in the matrix FDN (the order of the Hadamard matrix).
pub const MATRIX_FDN_N: usize = 8;

/// Whether bit `b` (given as its value 1, 2 or 4) is set in both indices.
pub open spec fn shares_bit(i: int, j: int, b: int) -> bool {
    (i / b) % 2 == 1 && (j / b) % 2 == 1
}

/// Number of the three low bit positions set in both `i` and `j`.
pub open spec fn common_bits(i: int, j: int) -> int {
    (if shares_bit(i, j, 1) { 1int } else { 0int }) + (if shares_bit(i, j, 2) {
        1int
    } else {
        0int
    }) + (if shares_bit(i, j, 4) { 1int } else { 0int })
}

/// Entry `(i, j)` of the 8×8 Sylvester-Hadamard matrix: `-1` raised to the
/// number of bit positions set in both `i` and `j` (the unrolled doubling
/// `H_2n = [[H_n, H_n], [H_n, -H_n]]`).
pub open spec fn hadamard_sign_spec(i: int, j: int) -> int {
    if common_bits(i, j) % 2 == 0 { 1 } else { -1 }
}

/// `sign(i, k) * sign(j, k)` for entries that are `±1`.
pub open spec fn entry_product(i: int, j: int, k: int) -> int {
    if hadamard_sign_spec(i, k) == hadamard_sign_spec(j, k) { 1 } else { -1 }
}

/// Dot product of rows `i` and `j` of the sign matrix.
pub open spec fn row_dot(i: int, j: int) -> int {
    entry_product(i, j, 0) + entry_product(i, j, 1) + entry_product(i, j, 2) + entry_product(
        i,
        j,
        3,
    ) + entry_product(i, j, 4) + entry_product(i, j, 5) + entry_product(i, j, 6)
        + entry_product(i, j, 7)
}

/// Sign (`1` or `-1`) of entry `(row, col)` of the 8×8 Sylvester-Hadamard
/// matrix used as the FDN feedback mix.
pub fn hadamard_sign(row: usize, col: usize) -> (s: i8)
    requires
        row < MATRIX_FDN_N,
        col < MATRIX_FDN_N,
    ensures
        s == hadamard_sign_spec(row as int, col as int),
        s == 1 || s == -1,
{
    let mut common: usize = 0;
    if row % 2 == 1 && col % 2 == 1 {
        common = common + 1;
    }
    if (row / 2) % 2 == 1 && (col / 2) % 2 == 1 {
        common = common + 1;
    }
    if (row / 4) % 2 == 1 && (col / 4) % 2 == 1 {
        common = common + 1;
    }
    if common % 2 == 0 {
        1
    } else {
        -1
    }
}

/// The first row and column are all `+1`, the matrix is symmetric, and its
/// rows are mutually orthogonal with squared length 8: `H · Hᵀ = 8 I`.
pub proof fn lemma_hadamard_orthogonal(i: int, j: int)
    requires
        0 <= i < 8,
        0 <= j < 8,
    ensures
        hadamard_sign_spec(i, 0) == 1,
        hadamard_sign_spec(0, j) == 1,
        hadamard_sign_spec(i, j) == hadamard_sign_spec(j, i),
        entry_product(i, j, 0) == hadamard_sign_spec(i, 0) * hadamard_sign_spec(j, 0),
        row_dot(i, j) == if i == j { 8int } else { 0int },
{
    lemma_row_dot_row(i, j);
}

proof fn lemma_row_dot_row(i: int, j: int)
    requires
        0 <= i < 8,
        0 <= j < 8,
    ensures
        row_dot(i, j) == if i == j { 8int } else { 0int },
{
    if i == 0 {
        assert(row_dot(0, j) == if 0 == j { 8int } else { 0int });
    } else if i == 1 {
        assert(row_dot(1, j) == if 1 == j { 8int } else { 0int });
    } else if i == 2 {
        assert(row_dot(2, j) == if 2 == j { 8int } else { 0int });
    } else if i == 3 {
        assert(row_dot(3, j) == if 3 == j { 8int } else { 0int });
    } else if i == 4 {
        assert(row_dot(4, j) == if 4 == j { 8int } else { 0int });
    } else if i == 5 {
        assert(row_dot(5, j) == if 5 == j { 8int } else { 0int });
    } else if i == 6 {
        assert(row_dot(6, j) == if 6 == j { 8int } else { 0int });
    } else {
        assert(row_dot(7, j) == if 7 == j { 8int } else { 0int });
    }
}

/// The matrix is built by Sylvester's doubling from `H_1 = [1]`: for each
/// block size `b` in 1, 2, 4 and indices below `b`, the top-right and
/// bottom-left `b × b` blocks repeat the top-left one and the bottom-right
/// block is its negation.
pub proof fn lemma_hadamard_sylvester(i: int, j: int, b: int)
    requires
        b == 1 || b == 2 || b == 4,
        0 <= i < b,
        0 <= j < b,
    ensures
        hadamard_sign_spec(0, 0) == 1,
        hadamard_sign_spec(i, j + b) == hadamard_sign_spec(i, j),
        hadamard_sign_spec(i + b, j) == hadamard_sign_spec(i, j),
        hadamard_sign_spec(i + b, j + b) == -hadamard_sign_spec(i, j),
{
}

} // verus!
