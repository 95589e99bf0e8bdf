//! Choice of the PLLA multiplier and divider for a target frequency.
use vstd::prelude::*;

verus! {

/// Largest value of the PLLA multiplier field that this library programs.
pub const MULA_MAX: u16 = 63;
/// Largest PLLA divider.
pub const DIVA_MAX: u8 = 255;

/// A multiplier field `m` and divider `d` that the search considers.
pub open spec fn pll_in_range(m: int, d: int) -> bool {
    1 <= m <= MULA_MAX && 1 <= d <= DIVA_MAX
}

/// How far the output of multiplier field `m` and divider `d` lies from
/// `target`, scaled by `d`: |mainck * (m + 1) - target * d|.
pub open spec fn pll_gap(mainck: int, target: int, m: int, d: int) -> int {
    let x = mainck * (m + 1) - target * d;
    if x < 0 { -x } else { x }
}

/// The pair (m1, d1) comes at least as close to `target` as (m2, d2):
/// gap1 / d1 <= gap2 / d2, compared without division.
pub open spec fn pll_no_worse(mainck: int, target: int, m1: int, d1: int, m2: int, d2: int) -> bool {
    pll_gap(mainck, target, m1, d1) * d2 <= pll_gap(mainck, target, m2, d2) * d1
}

/// (m2, d2) comes before (m1, d1) in the order of the search: by divider,
/// then by multiplier.
pub open spec fn pll_before(m2: int, d2: int, m1: int, d1: int) -> bool {
    d2 < d1 || (d2 == d1 && m2 < m1)
}

/// (m, d) is the pair the search settles on: the first, in search order,
/// of the pairs that come closest to `target`.
pub open spec fn pll_choice(mainck: int, target: int, m: int, d: int) -> bool {
    &&& pll_in_range(m, d)
    &&& forall|m2: int, d2: int|
        pll_in_range(m2, d2) ==> #[trigger] pll_no_worse(mainck, target, m, d, m2, d2)
    &&& forall|m2: int, d2: int|
        pll_in_range(m2, d2) && pll_before(m2, d2, m, d) ==> !#[trigger] pll_no_worse(
            mainck,
            target,
            m2,
            d2,
            m,
            d,
        )
}

proof fn lemma_better_chain(g1: int, d1: int, g2: int, d2: int, g3: int, d3: int)
    requires
        d1 > 0,
        d2 > 0,
        d3 > 0,
        g1 >= 0,
        g2 >= 0,
        g3 >= 0,
        g1 * d2 < g2 * d1,
        g2 * d3 <= g3 * d2,
    ensures
        g1 * d3 < g3 * d1,
{
    assert(g1 * d2 * d3 < g2 * d1 * d3) by (nonlinear_arith)
        requires
            g1 * d2 < g2 * d1,
            d3 > 0,
    ;
    assert(g2 * d3 * d1 <= g3 * d2 * d1) by (nonlinear_arith)
        requires
            g2 * d3 <= g3 * d2,
            d1 > 0,
    ;
    assert(g1 * d3 * d2 < g3 * d1 * d2) by (nonlinear_arith)
        requires
            g1 * d2 * d3 < g2 * d1 * d3,
            g2 * d3 * d1 <= g3 * d2 * d1,
    ;
    assert(g1 * d3 < g3 * d1) by (nonlinear_arith)
        requires
            g1 * d3 * d2 < g3 * d1 * d2,
            d2 > 0,
    ;
}

/// At most one pair is the choice of the search.
pub proof fn lemma_pll_choice_unique(mainck: int, target: int, m1: int, d1: int, m2: int, d2: int)
    requires
        pll_choice(mainck, target, m1, d1),
        pll_choice(mainck, target, m2, d2),
    ensures
        m1 == m2 && d1 == d2,
{
    assert(pll_no_worse(mainck, target, m1, d1, m2, d2));
    assert(pll_no_worse(mainck, target, m2, d2, m1, d1));
    if pll_before(m1, d1, m2, d2) {
    } else if pll_before(m2, d2, m1, d1) {
    }
}

/// The gap of a pair, computed without overflow.
fn gap_of(mainck: u32, target: u32, m: u64, d: u64) -> (r: u64)
    requires
        1 <= m <= 63,
        1 <= d <= 255,
    ensures
        r == pll_gap(mainck as int, target as int, m as int, d as int),
        r < 0x100_0000_0000,
{
    assert(mainck as int * (m + 1) < 0x100_0000_0000 && target as int * d < 0x100_0000_0000)
        by (nonlinear_arith)
        requires
            mainck <= u32::MAX,
            target <= u32::MAX,
            1 <= m <= 63,
            1 <= d <= 255,
    ;
    let a: u64 = mainck as u64 * (m + 1);
    let b: u64 = target as u64 * d;
    if a >= b {
        a - b
    } else {
        b - a
    }
}

/// Searches the multiplier field in 1..=63 and divider in 1..=255 whose PLL
/// output `mainck * (m + 1) / d` comes closest to `target`; of equally
/// close pairs it keeps the first by divider, then by multiplier. So an
/// output that equals `mainck` gives (1, 2), and a whole ratio k of at
/// most 64 gives (k - 1, 1).
pub fn plla_search(mainck: u32, target: u32) -> (r: (u16, u8))
    ensures
        pll_choice(mainck as int, target as int, r.0 as int, r.1 as int),
{
    let mut best_m: u64 = 1;
    let mut best_d: u64 = 1;
    let mut best_gap: u64 = gap_of(mainck, target, 1, 1);
    let mut d: u64 = 1;
    while d <= 255
        invariant
            1 <= d <= 256,
            pll_in_range(best_m as int, best_d as int),
            best_d < d || (best_d == 1 && best_m == 1 && d == 1),
            best_gap == pll_gap(mainck as int, target as int, best_m as int, best_d as int),
            best_gap < 0x100_0000_0000,
            forall|m2: int, d2: int|
                pll_in_range(m2, d2) && d2 < d ==> #[trigger] pll_no_worse(
                    mainck as int,
                    target as int,
                    best_m as int,
                    best_d as int,
                    m2,
                    d2,
                ),
            forall|m2: int, d2: int|
                pll_in_range(m2, d2) && pll_before(m2, d2, best_m as int, best_d as int)
                    ==> !#[trigger] pll_no_worse(
                    mainck as int,
                    target as int,
                    m2,
                    d2,
                    best_m as int,
                    best_d as int,
                ),
        decreases 256 - d,
    {
        let mut m: u64 = 1;
        while m <= 63
            invariant
                1 <= d <= 255,
                1 <= m <= 64,
                pll_in_range(best_m as int, best_d as int),
                best_d < d || (best_d == d && best_m < m) || (best_d == 1 && best_m == 1 && d == 1 && m == 1),
                best_gap == pll_gap(mainck as int, target as int, best_m as int, best_d as int),
                best_gap < 0x100_0000_0000,
                forall|m2: int, d2: int|
                    pll_in_range(m2, d2) && pll_before(m2, d2, m as int, d as int)
                        ==> #[trigger] pll_no_worse(
                        mainck as int,
                        target as int,
                        best_m as int,
                        best_d as int,
                        m2,
                        d2,
                    ),
                forall|m2: int, d2: int|
                    pll_in_range(m2, d2) && pll_before(m2, d2, best_m as int, best_d as int)
                        ==> !#[trigger] pll_no_worse(
                        mainck as int,
                        target as int,
                        m2,
                        d2,
                        best_m as int,
                        best_d as int,
                    ),
            decreases 64 - m,
        {
            let g = gap_of(mainck, target, m, d);
            assert(g * best_d < 0x1_0000_0000_0000 && best_gap * d < 0x1_0000_0000_0000)
                by (nonlinear_arith)
                requires
                    g < 0x100_0000_0000,
                    best_gap < 0x100_0000_0000,
                    best_d <= 255,
                    d <= 255,
            ;
            let lhs: u64 = g * best_d;
            let rhs: u64 = best_gap * d;
            let ghost (om, od, og) = (best_m as int, best_d as int, best_gap as int);
            if lhs < rhs {
                best_m = m;
                best_d = d;
                best_gap = g;
                assert forall|m2: int, d2: int|
                    pll_in_range(m2, d2) && pll_before(m2, d2, m as int + 1, d as int)
                        implies #[trigger] pll_no_worse(
                        mainck as int,
                        target as int,
                        best_m as int,
                        best_d as int,
                        m2,
                        d2,
                    ) by {
                    if m2 == m && d2 == d {
                    } else {
                        assert(pll_no_worse(mainck as int, target as int, om, od, m2, d2));
                        let g2 = pll_gap(mainck as int, target as int, m2, d2);
                        lemma_better_chain(g as int, d as int, og, od, g2, d2);
                    }
                }
                assert forall|m2: int, d2: int|
                    pll_in_range(m2, d2) && pll_before(m2, d2, best_m as int, best_d as int)
                        implies !#[trigger] pll_no_worse(
                        mainck as int,
                        target as int,
                        m2,
                        d2,
                        best_m as int,
                        best_d as int,
                    ) by {
                    assert(pll_no_worse(mainck as int, target as int, om, od, m2, d2));
                    let g2 = pll_gap(mainck as int, target as int, m2, d2);
                    lemma_better_chain(g as int, d as int, og, od, g2, d2);
                }
            } else {
                assert(pll_no_worse(mainck as int, target as int, om, od, m as int, d as int));
            }
            m = m + 1;
        }
        d = d + 1;
    }
    (best_m as u16, best_d as u8)
}

/// When the target is a whole multiple k (2 to 64) of the main clock, the
/// search picks multiplier field k - 1 with divider 1.
pub proof fn lemma_plla_whole_ratio(mainck: int, k: int)
    requires
        mainck > 0,
        2 <= k <= 64,
    ensures
        pll_choice(mainck, k * mainck, k - 1, 1),
{
    assert(mainck * (k - 1 + 1) - k * mainck * 1 == 0) by (nonlinear_arith);
    assert(pll_gap(mainck, k * mainck, k - 1, 1) == 0);
    assert forall|m2: int, d2: int|
        pll_in_range(m2, d2) && pll_before(m2, d2, k - 1, 1) implies !#[trigger] pll_no_worse(
        mainck,
        k * mainck,
        m2,
        d2,
        k - 1,
        1,
    ) by {
        assert(mainck * (m2 + 1) - k * mainck * d2 == mainck * (m2 + 1 - k)) by (nonlinear_arith)
            requires
                d2 == 1,
        ;
        assert(mainck * (m2 + 1 - k) < 0) by (nonlinear_arith)
            requires
                mainck > 0,
                m2 + 1 - k < 0,
        ;
    }
}

/// When the target equals the main clock, the search picks multiplier
/// field 1 with divider 2.
pub proof fn lemma_plla_same_freq(mainck: int)
    requires
        mainck > 0,
    ensures
        pll_choice(mainck, mainck, 1, 2),
{
    assert(pll_gap(mainck, mainck, 1, 2) == 0);
    assert forall|m2: int, d2: int|
        pll_in_range(m2, d2) && pll_before(m2, d2, 1, 2) implies !#[trigger] pll_no_worse(
        mainck,
        mainck,
        m2,
        d2,
        1,
        2,
    ) by {
        assert(mainck * (m2 + 1) - mainck * d2 == mainck * m2) by (nonlinear_arith)
            requires
                d2 == 1,
        ;
        assert(mainck * m2 > 0) by (nonlinear_arith)
            requires
                mainck > 0,
                m2 >= 1,
        ;
    }
}

} // verus!
