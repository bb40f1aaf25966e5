//! Transform lengths that the FFT kernels handle fastest: the products of a
//! positive power of two and a positive power of three, up to a fixed bound.

use vstd::arithmetic::power::{lemma_pow1, lemma_pow_positive, pow};
use vstd::prelude::*;

verus! {

/// The smallest recognised window size.
pub const SMALLEST_WINDOW_SIZE: usize = 6;

/// The largest recognised window size.
pub const LARGEST_WINDOW_SIZE: usize = 36864;

/// The recognised window sizes, ascending.
pub const WINDOW_SIZES: [usize; 61] = [
    6, 12, 18, 24, 36, 48, 54, 72, 96, 108, 144, 162, 192, 216, 288, 324, 384, 432, 486, 576,
    648, 768, 864, 972, 1152, 1296, 1458, 1536, 1728, 1944, 2304, 2592, 2916, 3072, 3456, 3888,
    4374, 4608, 5184, 5832, 6144, 6912, 7776, 8748, 9216, 10368, 11664, 12288, 13122, 13824,
    15552, 17496, 18432, 20736, 23328, 24576, 26244, 27648, 31104, 34992, 36864,
];

/// Why no window size was chosen.
#[derive(Debug, Clone, Copy, PartialEq, Eq, Structural)]
pub enum WindowSizeError {
    /// Every recognised size is smaller than the requested minimum.
    NotFound { min_window_size: usize },
}

/// `n` is `2^a * 3^b` with both exponents at least one.
pub open spec fn is_two_three_product(n: int) -> bool {
    exists|a: nat, b: nat| a >= 1 && b >= 1 && n == #[trigger] pow(2, a) * #[trigger] pow(3, b)
}

/// `n` is a window size that the lookup can return.
pub open spec fn is_window_size(n: int) -> bool {
    SMALLEST_WINDOW_SIZE <= n <= LARGEST_WINDOW_SIZE && is_two_three_product(n)
}

/// `n` stands in the table.
pub open spec fn listed(n: int) -> bool {
    exists|i: int| 0 <= i < 61 && #[trigger] WINDOW_SIZES[i] == n
}

/// The window size that the lookup owes for `min_window_size`: the least
/// recognised size that is not below it.
pub open spec fn is_ideal_window_size(min_window_size: int, w: int) -> bool {
    &&& min_window_size <= w
    &&& is_window_size(w)
    &&& forall|v: int| is_window_size(v) && min_window_size <= v ==> w <= v
}

/// The least recognised window size that is not below `min_window_size`,
/// for a minimum that some recognised size reaches.
pub open spec fn ideal_window_size(min_window_size: int) -> int {
    choose|w: int| is_ideal_window_size(min_window_size, w)
}

/// At most one window size is the ideal one for a minimum.
pub proof fn lemma_ideal_window_size_is_unique(min_window_size: int, w: int)
    requires
        is_ideal_window_size(min_window_size, w),
    ensures
        ideal_window_size(min_window_size) == w,
{
}

proof fn lemma_product_doubles(n: int)
    requires
        is_two_three_product(n),
    ensures
        is_two_three_product(2 * n),
{
    let (a, b) = choose|a: nat, b: nat|
        a >= 1 && b >= 1 && n == #[trigger] pow(2, a) * #[trigger] pow(3, b);
    let a1 = (a + 1) as nat;
    assert(pow(2, a1) == 2 * pow(2, a)) by {
        reveal(pow);
    }
    assert(2 * n == pow(2, a1) * pow(3, b)) by (nonlinear_arith)
        requires
            n == pow(2, a) * pow(3, b),
            pow(2, a1) == 2 * pow(2, a),
    ;
}

proof fn lemma_product_triples(n: int)
    requires
        is_two_three_product(n),
    ensures
        is_two_three_product(3 * n),
{
    let (a, b) = choose|a: nat, b: nat|
        a >= 1 && b >= 1 && n == #[trigger] pow(2, a) * #[trigger] pow(3, b);
    let b1 = (b + 1) as nat;
    assert(pow(3, b1) == 3 * pow(3, b)) by {
        reveal(pow);
    }
    assert(3 * n == pow(2, a) * pow(3, b1)) by (nonlinear_arith)
        requires
            n == pow(2, a) * pow(3, b),
            pow(3, b1) == 3 * pow(3, b),
    ;
}

/// Every entry of the table is a window size.
pub proof fn lemma_listed_is_window_size(n: int)
    requires
        listed(n),
    ensures
        is_window_size(n),
    decreases n,
{
    if n == 6 {
        lemma_pow1(2);
        lemma_pow1(3);
        assert(6 == pow(2, 1) * pow(3, 1));
    } else if n % 2 == 0 && listed(n / 2) {
        lemma_listed_is_window_size(n / 2);
        lemma_product_doubles(n / 2);
    } else {
        assert(n % 3 == 0 && listed(n / 3));
        lemma_listed_is_window_size(n / 3);
        lemma_product_triples(n / 3);
    }
}

proof fn lemma_product_is_listed(a: nat, b: nat)
    requires
        a >= 1,
        b >= 1,
        pow(2, a) * pow(3, b) <= LARGEST_WINDOW_SIZE,
    ensures
        listed(pow(2, a) * pow(3, b)),
    decreases a + b,
{
    let n = pow(2, a) * pow(3, b);
    lemma_pow_positive(2, a);
    lemma_pow_positive(3, b);
    if a >= 2 {
        let a0 = (a - 1) as nat;
        lemma_pow_positive(2, a0);
        assert(pow(2, a) == 2 * pow(2, a0)) by {
            reveal(pow);
        }
        let m = pow(2, a0) * pow(3, b);
        assert(n == 2 * m && 0 < m) by (nonlinear_arith)
            requires
                n == pow(2, a) * pow(3, b),
                m == pow(2, a0) * pow(3, b),
                pow(2, a) == 2 * pow(2, a0),
                0 < pow(2, a0),
                0 < pow(3, b),
        ;
        lemma_product_is_listed(a0, b);
        lemma_doubles_stay_listed(m);
    } else if b >= 2 {
        let b0 = (b - 1) as nat;
        lemma_pow_positive(3, b0);
        assert(pow(3, b) == 3 * pow(3, b0)) by {
            reveal(pow);
        }
        let m = pow(2, a) * pow(3, b0);
        assert(n == 3 * m && 0 < m) by (nonlinear_arith)
            requires
                n == pow(2, a) * pow(3, b),
                m == pow(2, a) * pow(3, b0),
                pow(3, b) == 3 * pow(3, b0),
                0 < pow(2, a),
                0 < pow(3, b0),
        ;
        lemma_product_is_listed(a, b0);
        lemma_triples_stay_listed(m);
    } else {
        lemma_pow1(2);
        lemma_pow1(3);
    }
}

proof fn lemma_doubles_stay_listed(m: int)
    requires
        listed(m),
        2 * m <= LARGEST_WINDOW_SIZE,
    ensures
        listed(2 * m),
{
}

proof fn lemma_triples_stay_listed(m: int)
    requires
        listed(m),
        3 * m <= LARGEST_WINDOW_SIZE,
    ensures
        listed(3 * m),
{
}

/// Every window size stands in the table.
pub proof fn lemma_window_size_is_listed(n: int)
    requires
        is_window_size(n),
    ensures
        listed(n),
{
    let (a, b) = choose|a: nat, b: nat|
        a >= 1 && b >= 1 && n == #[trigger] pow(2, a) * #[trigger] pow(3, b);
    lemma_product_is_listed(a, b);
}

/// Every window size is even.
pub proof fn lemma_window_size_is_even(n: int)
    requires
        is_window_size(n),
    ensures
        n % 2 == 0,
{
    lemma_window_size_is_listed(n);
}

/// The table ascends strictly.
pub proof fn lemma_table_ascends(i: int, j: int)
    requires
        0 <= i < j < 61,
    ensures
        WINDOW_SIZES[i] < WINDOW_SIZES[j],
    decreases j - i,
{
    if i + 1 < j {
        lemma_table_ascends(i, j - 1);
    }
}

/// The smallest recognised window size that is at least `min_window_size`,
/// or `NotFound` where the minimum lies above every recognised size.
pub fn get_ideal_window_size(min_window_size: usize) -> (r: Result<usize, WindowSizeError>)
    ensures
        r.is_ok() <==> min_window_size <= LARGEST_WINDOW_SIZE,
        r matches Ok(w) ==> is_ideal_window_size(min_window_size as int, w as int) && w
            == ideal_window_size(min_window_size as int),
        r matches Err(e) ==> e == (WindowSizeError::NotFound { min_window_size }),
{
    let mut i: usize = 0;
    while i < 61
        invariant
            i <= 61,
            forall|j: int| 0 <= j < i ==> (#[trigger] WINDOW_SIZES[j]) < min_window_size,
        decreases 61 - i,
    {
        let window_size: usize = WINDOW_SIZES[i];
        if window_size >= min_window_size {
            proof {
                lemma_listed_is_window_size(window_size as int);
                assert forall|v: int| is_window_size(v) && min_window_size <= v implies window_size
                    <= v by {
                    lemma_window_size_is_listed(v);
                    let k = choose|k: int| 0 <= k < 61 && #[trigger] WINDOW_SIZES[k] == v;
                    if k < i {
                        assert(WINDOW_SIZES[k] < min_window_size);
                    } else if k > i {
                        lemma_table_ascends(i as int, k);
                    }
                }
            }
            proof {
                lemma_ideal_window_size_is_unique(min_window_size as int, window_size as int);
            }
            return Ok(window_size);
        }
        i += 1;
    }
    proof {
        assert(WINDOW_SIZES[60] < min_window_size);
    }
    Err(WindowSizeError::NotFound { min_window_size })
}

} // verus!
