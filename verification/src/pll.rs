//! The PLL divisor solver.
//!
//! The analog PLL network multiplies an oscillator input up to a
//! voltage-controlled oscillator (VCO) frequency and divides it back down to
//! the requested outputs.  The legal divisor space is small and quantized:
//!
//! * the input divisor `M` must bring the PLL input into the documented
//!   1–2 MHz band;
//! * the VCO multiplier `N` must bring the VCO frequency into the documented
//!   100–432 MHz band;
//! * the main output divisor `P` is one of `{2, 4, 6, 8}` and must reproduce
//!   the requested system clock exactly;
//! * the USB/SDIO divisor `Q` lies in `2..=15` and must land within ±0.25 %
//!   of 48 MHz when a valid 48 MHz line is required;
//! * a dedicated audio PLL uses an independent `(M, N, R)` triple with
//!   `R` in `2..=7`, aiming as close as possible at the requested audio
//!   frequency.
//!
//! Both solvers are bounded exhaustive searches over that space.  The main
//! solver returns the lexicographically first `(M, N)` pair that serves all
//! mandatory targets; the audio solver returns the first configuration whose
//! output frequency is closest to the target.

use vstd::prelude::*;
use vstd::arithmetic::mul::lemma_mul_upper_bound;

verus! {

/// Lower edge of the documented PLL input band.
pub const PLL_IN_MIN: u32 = 1_000_000;

/// Upper edge of the documented PLL input band.
pub const PLL_IN_MAX: u32 = 2_000_000;

/// Lower edge of the documented VCO band.
pub const VCO_MIN: u32 = 100_000_000;

/// Upper edge of the documented VCO band.
pub const VCO_MAX: u32 = 432_000_000;

/// The USB/SDIO clock line target.
pub const PLL48_TARGET: u32 = 48_000_000;

/// The USB specification allows ±0.25 % around 48 MHz.
pub const PLL48_TOLERANCE: u32 = 120_000;

/// Absolute difference.
pub open spec fn abs_diff(a: int, b: int) -> int {
    if a >= b {
        a - b
    } else {
        b - a
    }
}

/// The VCO frequency produced by input divisor `m` and multiplier `n`.
pub open spec fn vco_freq(input: int, m: int, n: int) -> int {
    (input / m) * n
}

/// `m` is a legal input divisor whose PLL input lies in the documented band.
pub open spec fn m_ok(input: int, m: int) -> bool {
    2 <= m <= 63 && PLL_IN_MIN <= input / m <= PLL_IN_MAX
}

/// `n` is a legal multiplier whose VCO frequency lies in the documented band.
pub open spec fn n_ok(input: int, m: int, n: int) -> bool {
    50 <= n <= 432 && VCO_MIN <= vco_freq(input, m, n) <= VCO_MAX
}

/// `(m, n)` obeys both documented bands.
pub open spec fn mn_ok(input: int, m: int, n: int) -> bool {
    m_ok(input, m) && n_ok(input, m, n)
}

/// Membership in the main output divisor set.
pub open spec fn p_legal(p: int) -> bool {
    p == 2 || p == 4 || p == 6 || p == 8
}

/// Membership in the audio output divisor range.
pub open spec fn r_legal(r: int) -> bool {
    2 <= r <= 7
}

/// Distance of the output `vco / d` from `target`.
pub open spec fn div_err(vco: int, d: int, target: int) -> int {
    abs_diff(vco / d, target)
}

/// Distance of the 48 MHz line produced by divisor `q` from its target.
pub open spec fn q48_err(vco: int, q: int) -> int {
    div_err(vco, q, PLL48_TARGET as int)
}

/// Some `Q` divisor lands within the USB tolerance.
pub open spec fn q_tolerable(vco: int) -> bool {
    exists|q: int| 2 <= q <= 15 && #[trigger] q48_err(vco, q) <= PLL48_TOLERANCE
}

/// Some legal `P` divisor reproduces the system target `s` exactly.
pub open spec fn p_exact_exists(vco: int, s: int) -> bool {
    exists|p: int| #[trigger] p_legal(p) && vco == p * s
}

/// `(m, n)` can serve every mandatory target of the main PLL.
pub open spec fn main_admissible(
    input: int,
    sys: Option<u32>,
    need48: bool,
    m: int,
    n: int,
) -> bool {
    &&& mn_ok(input, m, n)
    &&& (need48 ==> q_tolerable(vco_freq(input, m, n)))
    &&& (match sys {
        Some(s) => p_exact_exists(vco_freq(input, m, n), s as int),
        None => true,
    })
}

/// Some `(m, n)` pair can serve every mandatory target of the main PLL.
pub open spec fn main_solvable(input: int, sys: Option<u32>, need48: bool) -> bool {
    exists|m: int, n: int| #[trigger] main_admissible(input, sys, need48, m, n)
}

/// Some `(m, n)` pair obeys the documented bands, so the audio PLL can run.
pub open spec fn audio_solvable(input: int) -> bool {
    exists|m: int, n: int| #[trigger] mn_ok(input, m, n)
}

/// The audio output frequency produced by divisors `(m, n, r)`.
pub open spec fn audio_out(input: int, m: int, n: int, r: int) -> int {
    vco_freq(input, m, n) / r
}

/// Distance of the audio output produced by `(m, n, r)` from the target.
pub open spec fn audio_err(input: int, m: int, n: int, r: int, target: int) -> int {
    abs_diff(audio_out(input, m, n, r), target)
}

/// `(m1, n1)` comes before `(m2, n2)` in search order.
pub open spec fn lex_lt(m1: int, n1: int, m2: int, n2: int) -> bool {
    m1 < m2 || (m1 == m2 && n1 < n2)
}

/// The resolved divisors of the main PLL.
///
/// `p` and `pllsysclk` are present exactly when the system clock is driven
/// by the PLL; `pll48clk` is the frequency of the 48 MHz line, produced
/// whenever the main PLL runs.
#[derive(Clone, Copy, Debug)]
pub struct MainPll {
    /// Input divisor `M`.
    pub m: u32,
    /// VCO multiplier `N`.
    pub n: u32,
    /// Main output divisor `P`, when the system clock is PLL-driven.
    pub p: Option<u32>,
    /// USB/SDIO output divisor `Q`.
    pub q: u32,
    /// The system clock produced through `P`, when engaged.
    pub pllsysclk: Option<u32>,
    /// The frequency of the 48 MHz line produced through `Q`.
    pub pll48clk: u32,
}

/// The returned main PLL configuration obeys every constraint of the search.
pub open spec fn main_pll_valid(input: int, sys: Option<u32>, need48: bool, pl: MainPll) -> bool {
    let v = vco_freq(input, pl.m as int, pl.n as int);
    &&& mn_ok(input, pl.m as int, pl.n as int)
    &&& (match sys {
        Some(s) => {
            &&& pl.p matches Some(p) && p_legal(p as int) && v == p * s
            &&& pl.pllsysclk == Some(s)
        },
        None => pl.p is None && pl.pllsysclk is None,
    })
    &&& 2 <= pl.q <= 15
    &&& pl.pll48clk == v / (pl.q as int)
    &&& forall|q: int| 2 <= q <= 15 ==> q48_err(v, pl.q as int) <= #[trigger] q48_err(v, q)
    &&& forall|q: int| 2 <= q < pl.q ==> #[trigger] q48_err(v, q) > q48_err(v, pl.q as int)
    &&& (need48 ==> q48_err(v, pl.q as int) <= PLL48_TOLERANCE)
}

/// The returned main PLL configuration is the first one in search order:
/// no admissible `(m, n)` pair precedes it, and its `P` divisor is the
/// smallest legal one that reproduces the system target.
pub open spec fn main_pll_first(input: int, sys: Option<u32>, need48: bool, pl: MainPll) -> bool {
    &&& forall|m: int, n: int|
        main_admissible(input, sys, need48, m, n) ==> !lex_lt(m, n, pl.m as int, pl.n as int)
    &&& (match sys {
        Some(s) => pl.p matches Some(pv) ==> forall|p: int|
            p_legal(p) && vco_freq(input, pl.m as int, pl.n as int) == p * (s as int)
                ==> pv <= p,
        None => true,
    })
}

/// The resolved divisors of a dedicated audio PLL, and the output frequency
/// they actually produce.
#[derive(Clone, Copy, Debug)]
pub struct AudioPll {
    /// Input divisor `M`.
    pub m: u32,
    /// VCO multiplier `N`.
    pub n: u32,
    /// Audio output divisor `R`.
    pub r: u32,
    /// The output frequency actually produced.
    pub clk: u32,
}

/// The returned audio PLL configuration obeys the documented bands and its
/// output is as close to the target as any legal configuration can come.
pub open spec fn audio_pll_valid(input: int, target: int, a: AudioPll) -> bool {
    &&& mn_ok(input, a.m as int, a.n as int)
    &&& r_legal(a.r as int)
    &&& a.clk == audio_out(input, a.m as int, a.n as int, a.r as int)
    &&& forall|m: int, n: int, r: int|
        mn_ok(input, m, n) && r_legal(r) ==> abs_diff(a.clk as int, target) <= #[trigger] audio_err(
            input,
            m,
            n,
            r,
            target,
        )
}

/// The returned audio PLL configuration is the first optimum in search
/// order: every legal configuration at an earlier `(m, n)` pair, and every
/// smaller `r` at the same pair, is strictly farther from the target.
pub open spec fn audio_pll_first(input: int, target: int, a: AudioPll) -> bool {
    &&& forall|m: int, n: int, r: int|
        mn_ok(input, m, n) && r_legal(r) && lex_lt(m, n, a.m as int, a.n as int)
            ==> #[trigger] audio_err(input, m, n, r, target) > abs_diff(a.clk as int, target)
    &&& forall|r: int|
        r_legal(r) && r < a.r ==> audio_err(input, a.m as int, a.n as int, r, target) > abs_diff(
            a.clk as int,
            target,
        )
}

/// The divisor in `2..=hi` whose output `vco / d` is closest to `target`,
/// together with its distance; ties resolve to the smallest divisor.
fn best_div(vco: u32, target: u32, hi: u32) -> (r: (u32, u32))
    requires
        2 <= hi <= 15,
    ensures
        2 <= r.0 <= hi,
        r.1 == div_err(vco as int, r.0 as int, target as int),
        forall|d: int| 2 <= d <= hi ==> r.1 <= #[trigger] div_err(vco as int, d, target as int),
        forall|d: int| 2 <= d < r.0 ==> #[trigger] div_err(vco as int, d, target as int) > r.1,
{
    let f0: u32 = vco / 2;
    let e0: u32 = if f0 >= target {
        f0 - target
    } else {
        target - f0
    };
    let mut best_d: u32 = 2;
    let mut best_e: u32 = e0;
    let mut d: u32 = 3;
    while d <= hi
        invariant
            3 <= d <= hi + 1,
            hi <= 15,
            2 <= best_d < d,
            best_d <= hi,
            best_e == div_err(vco as int, best_d as int, target as int),
            forall|d2: int|
                2 <= d2 < d ==> best_e <= #[trigger] div_err(vco as int, d2, target as int),
            forall|d2: int|
                2 <= d2 < best_d ==> #[trigger] div_err(vco as int, d2, target as int) > best_e,
        decreases hi + 1 - d,
    {
        let f: u32 = vco / d;
        let e: u32 = if f >= target {
            f - target
        } else {
            target - f
        };
        if e < best_e {
            best_d = d;
            best_e = e;
        }
        d = d + 1;
    }
    (best_d, best_e)
}

/// What a freshly computed search cell knows about itself: the VCO value
/// matches the spec-level formula.
proof fn lemma_vco_cell(input: int, m: int, n: int, pin: int, vco: int)
    requires
        pin == input / m,
        vco == pin * n,
    ensures
        vco == vco_freq(input, m, n),
{
}

/// The smallest legal `P` divisor reproducing `s` exactly, if any does.
fn try_p(vco: u32, s: u32) -> (r: Option<u32>)
    ensures
        r matches Some(p) ==> p_legal(p as int) && vco == p * s && forall|p2: int|
            p_legal(p2) && vco == p2 * s ==> p <= p2,
        r is None ==> !p_exact_exists(vco as int, s as int),
{
    let v: u64 = vco as u64;
    if v == 2 * (s as u64) {
        Some(2)
    } else if v == 4 * (s as u64) {
        Some(4)
    } else if v == 6 * (s as u64) {
        Some(6)
    } else if v == 8 * (s as u64) {
        Some(8)
    } else {
        proof {
            assert forall|p: int| p_legal(p) implies vco != p * (s as int) by {}
        }
        None
    }
}

/// Searches the main PLL divisor space for the first `(M, N)` pair that
/// serves every mandatory target: the system clock exactly (when the system
/// clock is PLL-driven) and a 48 MHz line within tolerance (when required).
/// The `Q` divisor is always chosen to land as close to 48 MHz as possible.
pub fn solve_main(input: u32, sys: Option<u32>, need48: bool) -> (r: Option<MainPll>)
    requires
        1 <= input,
        sys matches Some(s) ==> 1 <= s,
    ensures
        r is Some <==> main_solvable(input as int, sys, need48),
        r matches Some(pl) ==> main_pll_valid(input as int, sys, need48, pl) && main_pll_first(
            input as int,
            sys,
            need48,
            pl,
        ),
{
    let mut m: u32 = 2;
    while m <= 63
        invariant
            2 <= m <= 64,
            1 <= input,
            sys matches Some(s) ==> 1 <= s,
            forall|mi: int, ni: int|
                mi < m ==> !#[trigger] main_admissible(input as int, sys, need48, mi, ni),
        decreases 64 - m,
    {
        let pin: u32 = input / m;
        if PLL_IN_MIN <= pin && pin <= PLL_IN_MAX {
            let mut n: u32 = 50;
            while n <= 432
                invariant
                    50 <= n <= 433,
                    2 <= m <= 63,
                    1 <= input,
                    sys matches Some(s) ==> 1 <= s,
                    pin == input as int / m as int,
                    PLL_IN_MIN <= pin <= PLL_IN_MAX,
                    forall|mi: int, ni: int|
                        mi < m ==> !#[trigger] main_admissible(input as int, sys, need48, mi, ni),
                    forall|ni: int|
                        ni < n ==> !#[trigger] main_admissible(
                            input as int,
                            sys,
                            need48,
                            m as int,
                            ni,
                        ),
                decreases 433 - n,
            {
                proof {
                    lemma_mul_upper_bound(pin as int, PLL_IN_MAX as int, n as int, 432);
                }
                let vco: u32 = pin * n;
                if VCO_MIN <= vco && vco <= VCO_MAX {
                    proof {
                        lemma_vco_cell(input as int, m as int, n as int, pin as int, vco as int);
                    }
                    let bq = best_div(vco, PLL48_TARGET, 15);
                    proof {
                        if bq.1 <= PLL48_TOLERANCE {
                            assert(q48_err(vco as int, bq.0 as int) <= PLL48_TOLERANCE);
                            assert(q_tolerable(vco as int));
                        }
                    }
                    if !need48 || bq.1 <= PLL48_TOLERANCE {
                        match sys {
                            Some(s) => {
                                match try_p(vco, s) {
                                    Some(p) => {
                                        let pl = MainPll {
                                            m,
                                            n,
                                            p: Some(p),
                                            q: bq.0,
                                            pllsysclk: Some(s),
                                            pll48clk: vco / bq.0,
                                        };
                                        proof {
                                            assert(p_legal(p as int) && vco as int == p * (
                                            s as int));
                                            assert(p_exact_exists(vco as int, s as int));
                                            assert(main_admissible(
                                                input as int,
                                                sys,
                                                need48,
                                                m as int,
                                                n as int,
                                            ));
                                        }
                                        return Some(pl);
                                    },
                                    None => {
                                        proof {
                                            assert(!main_admissible(
                                                input as int,
                                                sys,
                                                need48,
                                                m as int,
                                                n as int,
                                            ));
                                        }
                                    },
                                }
                            },
                            None => {
                                let pl = MainPll {
                                    m,
                                    n,
                                    p: None,
                                    q: bq.0,
                                    pllsysclk: None,
                                    pll48clk: vco / bq.0,
                                };
                                proof {
                                    assert(main_admissible(
                                        input as int,
                                        sys,
                                        need48,
                                        m as int,
                                        n as int,
                                    ));
                                }
                                return Some(pl);
                            },
                        }
                    } else {
                        proof {
                            assert(!q_tolerable(vco as int)) by {
                                assert forall|q: int| 2 <= q <= 15 implies #[trigger] q48_err(
                                    vco as int,
                                    q,
                                ) > PLL48_TOLERANCE by {
                                    assert(q48_err(vco as int, q) >= bq.1);
                                }
                            }
                        }
                    }
                }
                n = n + 1;
            }
            proof {
                assert forall|ni: int| !main_admissible(input as int, sys, need48, m as int, ni) by {
                    if ni >= 433 {
                        assert(!n_ok(input as int, m as int, ni));
                    }
                }
            }
        } else {
            proof {
                assert forall|ni: int| !main_admissible(input as int, sys, need48, m as int, ni) by {
                    assert(!m_ok(input as int, m as int));
                }
            }
        }
        m = m + 1;
    }
    proof {
        assert forall|mi: int, ni: int| !main_admissible(input as int, sys, need48, mi, ni) by {
            if mi >= 64 {
                assert(!m_ok(input as int, mi));
            }
        }
    }
    None
}

/// Searches the audio PLL divisor space for the configuration whose output
/// is closest to `target`, preferring the first such configuration in
/// search order.  Fails only when no `(M, N)` pair at all obeys the
/// documented bands for this input.
pub fn solve_audio(input: u32, target: u32) -> (r: Option<AudioPll>)
    requires
        1 <= input,
    ensures
        r is Some <==> audio_solvable(input as int),
        r matches Some(a) ==> audio_pll_valid(input as int, target as int, a) && audio_pll_first(
            input as int,
            target as int,
            a,
        ),
{
    let mut best: Option<AudioPll> = None;
    let mut m: u32 = 2;
    while m <= 63
        invariant
            2 <= m <= 64,
            1 <= input,
            best is None ==> forall|mi: int, ni: int|
                mi < m ==> !#[trigger] mn_ok(input as int, mi, ni),
            best matches Some(b) ==> {
                &&& mn_ok(input as int, b.m as int, b.n as int)
                &&& r_legal(b.r as int)
                &&& b.clk == audio_out(input as int, b.m as int, b.n as int, b.r as int)
                &&& b.m < m
                &&& forall|mi: int, ni: int, ri: int|
                    mi < m && mn_ok(input as int, mi, ni) && r_legal(ri) ==> abs_diff(
                        b.clk as int,
                        target as int,
                    ) <= #[trigger] audio_err(input as int, mi, ni, ri, target as int)
                &&& forall|mi: int, ni: int, ri: int|
                    mn_ok(input as int, mi, ni) && r_legal(ri) && lex_lt(
                        mi,
                        ni,
                        b.m as int,
                        b.n as int,
                    ) ==> #[trigger] audio_err(input as int, mi, ni, ri, target as int) > abs_diff(
                        b.clk as int,
                        target as int,
                    )
                &&& forall|ri: int|
                    r_legal(ri) && ri < b.r ==> audio_err(
                        input as int,
                        b.m as int,
                        b.n as int,
                        ri,
                        target as int,
                    ) > abs_diff(b.clk as int, target as int)
            },
        decreases 64 - m,
    {
        let pin: u32 = input / m;
        if PLL_IN_MIN <= pin && pin <= PLL_IN_MAX {
            let mut n: u32 = 50;
            while n <= 432
                invariant
                    50 <= n <= 433,
                    2 <= m <= 63,
                    1 <= input,
                    pin == input as int / m as int,
                    PLL_IN_MIN <= pin <= PLL_IN_MAX,
                    best is None ==> forall|mi: int, ni: int|
                        (mi < m || (mi == m && ni < n)) ==> !#[trigger] mn_ok(input as int, mi, ni),
                    best matches Some(b) ==> {
                        &&& mn_ok(input as int, b.m as int, b.n as int)
                        &&& r_legal(b.r as int)
                        &&& b.clk == audio_out(input as int, b.m as int, b.n as int, b.r as int)
                        &&& lex_lt(b.m as int, b.n as int, m as int, n as int)
                        &&& forall|mi: int, ni: int, ri: int|
                            (mi < m || (mi == m && ni < n)) && mn_ok(input as int, mi, ni)
                                && r_legal(ri) ==> abs_diff(b.clk as int, target as int)
                                <= #[trigger] audio_err(input as int, mi, ni, ri, target as int)
                        &&& forall|mi: int, ni: int, ri: int|
                            mn_ok(input as int, mi, ni) && r_legal(ri) && lex_lt(
                                mi,
                                ni,
                                b.m as int,
                                b.n as int,
                            ) ==> #[trigger] audio_err(input as int, mi, ni, ri, target as int)
                                > abs_diff(b.clk as int, target as int)
                        &&& forall|ri: int|
                            r_legal(ri) && ri < b.r ==> audio_err(
                                input as int,
                                b.m as int,
                                b.n as int,
                                ri,
                                target as int,
                            ) > abs_diff(b.clk as int, target as int)
                    },
                decreases 433 - n,
            {
                proof {
                    lemma_mul_upper_bound(pin as int, PLL_IN_MAX as int, n as int, 432);
                }
                let vco: u32 = pin * n;
                proof {
                    lemma_vco_cell(input as int, m as int, n as int, pin as int, vco as int);
                }
                if VCO_MIN <= vco && vco <= VCO_MAX {
                    let br = best_div(vco, target, 7);
                    proof {
                        assert(mn_ok(input as int, m as int, n as int));
                        assert forall|ri: int| r_legal(ri) implies #[trigger] audio_err(
                            input as int,
                            m as int,
                            n as int,
                            ri,
                            target as int,
                        ) == div_err(vco as int, ri, target as int) by {}
                    }
                    let replace: bool = match best {
                        Some(b) => br.1 < (if b.clk >= target {
                            b.clk - target
                        } else {
                            target - b.clk
                        }),
                        None => true,
                    };
                    if replace {
                        let newb = AudioPll { m, n, r: br.0, clk: vco / br.0 };
                        proof {
                            assert(newb.clk == audio_out(
                                input as int,
                                m as int,
                                n as int,
                                br.0 as int,
                            ));
                            assert(abs_diff(newb.clk as int, target as int) == br.1);
                        }
                        best = Some(newb);
                    }
                } else {
                    proof {
                        assert(!n_ok(input as int, m as int, n as int));
                    }
                }
                n = n + 1;
            }
        } else {
            proof {
                assert(!m_ok(input as int, m as int));
            }
        }
        m = m + 1;
    }
    proof {
        if best is None {
            assert forall|mi: int, ni: int| !mn_ok(input as int, mi, ni) by {
                if mi >= 64 {
                    assert(!m_ok(input as int, mi));
                }
            }
        }
    }
    best
}

} // verus!
