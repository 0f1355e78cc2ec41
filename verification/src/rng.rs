//! The game's pseudo-random generator: the classic .NET `System.Random`
//! subtractive lagged-Fibonacci algorithm, reproduced value for value.
//!
//! Every draw is modelled exactly. The generator's state is a 56-slot array
//! of 32-bit integers plus two cursors; one raw draw ("sample") is an integer
//! in `-1..=MBIG - 1`, and stands for the real-valued draw `sample / MBIG`.
//! Because `MBIG` is prime and the rounding error of the host's
//! double-precision mapping is far smaller than `1 / MBIG`, every comparison
//! and range reduction the loot logic needs has an exact integer form:
//! `sample / MBIG < 1/2` exactly when `sample < HALF_CUT`, and a range draw
//! over `bound` values is `sample * bound / MBIG`, for any `bound` up to a
//! million. The whole crate therefore works on raw samples and never touches
//! floating point.

use vstd::arithmetic::div_mod::{lemma_div_is_ordered, lemma_fundamental_div_mod_converse};
use vstd::prelude::*;
use vstd::wrapping::i32_specs;

verus! {

/// Modulus of the generator: `i32::MAX`, which is prime.
pub const MBIG: i32 = 0x7fff_ffff;

/// Additive constant used when seeding (a scaled golden ratio).
pub const MSEED: i32 = 161803398;

/// A raw sample is below this cut exactly when the real draw it stands for
/// is below one half.
pub const HALF_CUT: i32 = 0x4000_0000;

/// A raw sample is below this cut exactly when the real draw it stands for
/// is below one eighth.
pub const EIGHTH_CUT: i32 = 0x1000_0000;

/// Mathematical state of a generator: the 56-slot array (slot 0 is unused)
/// and the two cursors.
#[verifier::ext_equal]
pub struct RngModel {
    pub arr: Seq<i32>,
    pub inext: int,
    pub inextp: int,
}

/// Well-formed generator state: full array, cursors in range.
pub open spec fn rng_wf(m: RngModel) -> bool {
    &&& m.arr.len() == 56
    &&& 0 <= m.inext < 56
    &&& 0 <= m.inextp < 56
}

/// Cursor advance: one step forward, wrapping from 55 back to 1.
pub open spec fn bump(i: int) -> int {
    if i + 1 >= 56 {
        1
    } else {
        i + 1
    }
}

/// Normalisation applied to the raw subtraction: a result equal to `MBIG` is
/// decremented, a negative result is brought back up by `MBIG`.
pub open spec fn norm_sample(v: i32) -> i32 {
    let w = if v == MBIG {
        (v - 1) as i32
    } else {
        v
    };
    if w < 0 {
        (w + MBIG) as i32
    } else {
        w
    }
}

/// The next raw sample drawn from state `m`.
pub open spec fn sample_of(m: RngModel) -> i32 {
    norm_sample(i32_specs::wrapping_sub(m.arr[bump(m.inext)], m.arr[bump(m.inextp)]))
}

/// The state after one draw from `m`.
pub open spec fn step(m: RngModel) -> RngModel {
    RngModel {
        arr: m.arr.update(bump(m.inext), sample_of(m)),
        inext: bump(m.inext),
        inextp: bump(m.inextp),
    }
}

/// A range draw over `bound` values, computed from a raw sample. The single
/// negative sample value truncates to zero, like the host's cast.
pub open spec fn range_draw(s: i32, bound: i32) -> i32 {
    if s < 0 {
        0
    } else {
        ((s as int * bound as int) / (MBIG as int)) as i32
    }
}

/// Magnitude used while seeding: absolute value of the seed, saturated at
/// `i32::MAX` for the one seed whose negation does not fit.
pub open spec fn seed_abs(seed: i32) -> i32 {
    if seed == i32::MIN {
        i32::MAX
    } else if seed < 0 {
        (-(seed as int)) as i32
    } else {
        seed
    }
}

/// The all-zero 56-slot array.
pub open spec fn zero_slots() -> Seq<i32> {
    Seq::new(56, |i: int| 0i32)
}

/// Seeding, first phase: scatter the Fibonacci-like sequence of `mk` values
/// over the array at stride 21, exactly as the host's constructor loop does.
/// `fill_from(arr, mj, mk, ii, i)` finishes that loop from iteration `i`.
pub open spec fn fill_from(arr: Seq<i32>, mj: i32, mk: i32, ii: int, i: int) -> Seq<i32>
    decreases 55 - i,
{
    if i >= 55 {
        arr
    } else {
        let ii2 = if ii + 21 >= 55 {
            ii + 21 - 55
        } else {
            ii + 21
        };
        let arr2 = arr.update(ii2, mk);
        let w = i32_specs::wrapping_sub(mj, mk);
        let mk2 = if w < 0 {
            (w + MBIG) as i32
        } else {
            w
        };
        fill_from(arr2, arr2[ii2], mk2, ii2, i + 1)
    }
}

/// Seeding, second phase, one cell: subtract the slot 31 places ahead
/// (cyclically) and renormalise.
pub open spec fn mix_cell(arr: Seq<i32>, i: int) -> Seq<i32> {
    let n = if i + 30 >= 55 {
        i + 30 - 55
    } else {
        i + 30
    };
    let w = i32_specs::wrapping_sub(arr[i], arr[1 + n]);
    let v = if w < 0 {
        (w + MBIG) as i32
    } else {
        w
    };
    arr.update(i, v)
}

/// Seeding, second phase: finish one mixing pass from slot `i`.
pub open spec fn mix_pass_from(arr: Seq<i32>, i: int) -> Seq<i32>
    decreases 56 - i,
{
    if i >= 56 {
        arr
    } else {
        mix_pass_from(mix_cell(arr, i), i + 1)
    }
}

/// Seeding, second phase: finish the mixing passes from pass `k` (there are
/// four passes, numbered 1 through 4).
pub open spec fn mix_from(arr: Seq<i32>, k: int) -> Seq<i32>
    decreases 5 - k,
{
    if k >= 5 {
        arr
    } else {
        mix_from(mix_pass_from(arr, 1), k + 1)
    }
}

/// The seeded array: slot 55 holds `MSEED - |seed|`, the stride-21 fill
/// scatters the rest, then four mixing passes scramble everything.
pub open spec fn seeded_array(seed: i32) -> Seq<i32> {
    let mj = (MSEED - seed_abs(seed) as int) as i32;
    mix_from(fill_from(zero_slots().update(55, mj), mj, 1, 0, 1), 1)
}

/// The generator state produced by seeding with `seed`.
pub open spec fn rng_from_seed(seed: i32) -> RngModel {
    RngModel { arr: seeded_array(seed), inext: 0, inextp: 21 }
}

/// Every range draw lies in `0..bound` (and is `0` for `bound == 0`).
pub proof fn lemma_range_draw_bounds(s: i32, bound: i32)
    requires
        -1 <= s < MBIG,
        0 <= bound <= 1000000,
    ensures
        0 <= range_draw(s, bound),
        bound > 0 ==> range_draw(s, bound) < bound,
        bound == 0 ==> range_draw(s, bound) == 0,
        s >= 0 ==> 0 <= (s as int * bound as int) / (MBIG as int),
        s >= 0 && bound > 0 ==> (s as int * bound as int) / (MBIG as int) < bound as int,
{
    if s >= 0 && bound == 0 {
        assert(s as int * bound as int == 0) by (nonlinear_arith)
            requires
                bound as int == 0,
        ;
    }
    if s >= 0 && bound > 0 {
        let si = s as int;
        let bi = bound as int;
        let m = MBIG as int;
        assert(si * bi >= 0) by (nonlinear_arith)
            requires
                si >= 0,
                bi >= 0,
        ;
        assert(si * bi <= (m - 1) * bi) by (nonlinear_arith)
            requires
                si <= m - 1,
                bi >= 0,
        ;
        lemma_div_is_ordered(0, si * bi, m);
        lemma_div_is_ordered(si * bi, (m - 1) * bi, m);
        lemma_fundamental_div_mod_converse((m - 1) * bi, m, bi - 1, m - bi);
    }
}

/// The game's generator, seeded from a 32-bit integer. Two instances made
/// from the same seed produce identical draw sequences; there is no hidden
/// entropy.
pub struct DotnetRng {
    seed_array: Vec<i32>,
    inext: usize,
    inextp: usize,
}

impl View for DotnetRng {
    type V = RngModel;

    closed spec fn view(&self) -> RngModel {
        RngModel {
            arr: self.seed_array@,
            inext: self.inext as int,
            inextp: self.inextp as int,
        }
    }
}

impl DotnetRng {
    /// Seed a fresh generator. The state is a pure function of the seed.
    pub fn new(seed: i32) -> (r: DotnetRng)
        ensures
            rng_wf(r@),
            r@ == rng_from_seed(seed),
    {
        let subtraction: i32 = if seed == i32::MIN {
            i32::MAX
        } else if seed < 0 {
            -seed
        } else {
            seed
        };
        let mj0: i32 = MSEED - subtraction;
        let mut arr: Vec<i32> = Vec::new();
        while arr.len() < 56
            invariant
                arr@.len() <= 56,
                forall|j: int| 0 <= j < arr@.len() ==> arr@[j] == 0i32,
            decreases 56 - arr.len(),
        {
            arr.push(0);
        }
        proof {
            assert(arr@ =~= zero_slots());
        }
        arr.set(55, mj0);
        let ghost arr0 = arr@;
        proof {
            assert(arr0 =~= zero_slots().update(55, mj0));
        }
        let mut mj: i32 = mj0;
        let mut mk: i32 = 1;
        let mut ii: usize = 0;
        let mut i: usize = 1;
        while i < 55
            invariant
                arr@.len() == 56,
                1 <= i <= 55,
                ii < 55,
                fill_from(arr@, mj, mk, ii as int, i as int) == fill_from(arr0, mj0, 1, 0, 1),
            decreases 55 - i,
        {
            let ghost (g_arr, g_mj, g_mk, g_ii, g_i) = (arr@, mj, mk, ii as int, i as int);
            ii = if ii + 21 >= 55 {
                ii + 21 - 55
            } else {
                ii + 21
            };
            arr.set(ii, mk);
            let w: i32 = mj.wrapping_sub(mk);
            mk = if w < 0 {
                w + MBIG
            } else {
                w
            };
            mj = arr[ii];
            i = i + 1;
            proof {
                assert(fill_from(g_arr, g_mj, g_mk, g_ii, g_i) == fill_from(
                    arr@,
                    mj,
                    mk,
                    ii as int,
                    i as int,
                ));
            }
        }
        let ghost filled = arr@;
        let mut k: usize = 1;
        while k < 5
            invariant
                arr@.len() == 56,
                1 <= k <= 5,
                mix_from(arr@, k as int) == mix_from(filled, 1),
            decreases 5 - k,
        {
            let mut i2: usize = 1;
            while i2 < 56
                invariant
                    arr@.len() == 56,
                    1 <= i2 <= 56,
                    1 <= k <= 4,
                    mix_from(mix_pass_from(arr@, i2 as int), k as int + 1) == mix_from(filled, 1),
                decreases 56 - i2,
            {
                let ghost (g_arr, g_i) = (arr@, i2 as int);
                let n: usize = if i2 + 30 >= 55 {
                    i2 + 30 - 55
                } else {
                    i2 + 30
                };
                let a: i32 = arr[i2];
                let b: i32 = arr[1 + n];
                let w: i32 = a.wrapping_sub(b);
                let v: i32 = if w < 0 {
                    w + MBIG
                } else {
                    w
                };
                arr.set(i2, v);
                i2 = i2 + 1;
                proof {
                    assert(mix_pass_from(g_arr, g_i) == mix_pass_from(arr@, i2 as int));
                }
            }
            k = k + 1;
        }
        let r = DotnetRng { seed_array: arr, inext: 0, inextp: 21 };
        proof {
            assert(r@ =~= rng_from_seed(seed));
        }
        r
    }

    /// One raw draw: subtract the two lagged slots, renormalise, store the
    /// result back, and advance both cursors.
    pub fn next(&mut self) -> (r: i32)
        requires
            rng_wf(old(self)@),
        ensures
            rng_wf(final(self)@),
            final(self)@ == step(old(self)@),
            r == sample_of(old(self)@),
            -1 <= r < MBIG,
    {
        let mut li: usize = self.inext + 1;
        if li >= 56 {
            li = 1;
        }
        let mut lp: usize = self.inextp + 1;
        if lp >= 56 {
            lp = 1;
        }
        let a: i32 = self.seed_array[li];
        let b: i32 = self.seed_array[lp];
        let mut v: i32 = a.wrapping_sub(b);
        if v == MBIG {
            v = v - 1;
        }
        if v < 0 {
            v = v + MBIG;
        }
        self.seed_array.set(li, v);
        self.inext = li;
        self.inextp = lp;
        proof {
            assert(final(self)@ =~= step(old(self)@));
        }
        v
    }

    /// One uniform draw over `0..bound` (the host computes it by scaling the
    /// raw sample; the exact integer form is `sample * bound / MBIG`).
    pub fn next_range(&mut self, bound: i32) -> (r: i32)
        requires
            rng_wf(old(self)@),
            0 <= bound <= 1000000,
        ensures
            rng_wf(final(self)@),
            final(self)@ == step(old(self)@),
            r == range_draw(sample_of(old(self)@), bound),
            0 <= r,
            bound > 0 ==> r < bound,
            bound == 0 ==> r == 0,
    {
        let s: i32 = self.next();
        proof {
            lemma_range_draw_bounds(s, bound);
        }
        if s < 0 {
            0
        } else {
            proof {
                assert(0 <= (s as int) * (bound as int)) by (nonlinear_arith)
                    requires
                        s >= 0,
                        bound >= 0,
                ;
                assert((s as int) * (bound as int) <= 0x7fff_ffff * 1000000) by (nonlinear_arith)
                    requires
                        0 <= s <= 0x7fff_ffff,
                        0 <= bound <= 1000000,
                ;
            }
            let prod: u64 = (s as u64) * (bound as u64);
            let q: u64 = prod / (MBIG as u64);
            q as i32
        }
    }
}

} // verus!
