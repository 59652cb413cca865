//! Reproducible random streams for parallel simulation.
//!
//! A stream is fixed by a base seed and a path index alone, so the draws of
//! one path never depend on which worker runs it or in what order.

use vstd::prelude::*;
use vstd::arithmetic::power2::pow2;
use crate::ieee::zero;
use crate::ieee::Double;
use crate::ieee::ONE_BITS;
use rand::rngs::StdRng;
use rand::SeedableRng;

verus! {

/// The first multiplier of the output mix.
pub const MIX_FIRST: u64 = 0xbf58476d1ce4e5b9;

/// The second multiplier of the output mix.
pub const MIX_SECOND: u64 = 0x94d049bb133111eb;

/// The output mix: two rounds of xor-shift and multiplication, and a last
/// xor-shift.
pub open spec fn mix(z: u64) -> u64 {
    let a = vstd::wrapping::u64_specs::wrapping_mul(z ^ (z >> 30), MIX_FIRST);
    let b = vstd::wrapping::u64_specs::wrapping_mul(a ^ (a >> 27), MIX_SECOND);
    b ^ (b >> 31)
}

/// Two to the power 32. A path index and a count of draws each take one
/// half of the word that is mixed, so below this bound no two of them
/// meet.
pub const HORIZON: u64 = 0x1_0000_0000;

/// The lane of a path: its index with the two halves exchanged, so that a
/// path index below the horizon fills the upper half alone. Different path
/// indices have different lanes.
pub open spec fn lane(path: u64) -> u64 {
    ((path % HORIZON) * HORIZON + path / HORIZON) as u64
}

/// The word that is mixed for draw number `n`, counted from one, of the
/// path: the base seed, plus the lane of the path, plus the number of the
/// draw, wrapped to 64 bits. Every bit of the path index enters it.
pub open spec fn word(base_seed: u64, path: u64, n: int) -> u64 {
    ((base_seed + lane(path) + n) % 0x1_0000_0000_0000_0000) as u64
}

/// The upper 53 bits of a raw draw.
pub open spec fn fraction(raw: u64) -> u64 {
    raw >> 11
}

/// The upper 53 bits of a raw draw, and 1 where they are all zero.
pub open spec fn positive_fraction(raw: u64) -> u64 {
    if fraction(raw) == 0 {
        1
    } else {
        fraction(raw)
    }
}

/// Whether `u` is the uniform draw that the raw draw gives: the upper 53
/// bits of the raw draw, divided by 2^53, which is a value of the half-open
/// unit interval.
pub open spec fn is_unit_draw(u: Double, raw: u64) -> bool {
    &&& u.is_finite_spec()
    &&& !u.sign_set()
    &&& u.bits < ONE_BITS
    &&& u.scaled_magnitude() == fraction(raw) * pow2(1021)
}

/// Whether `u` is the uniform draw above zero that the raw draw gives: the
/// upper 53 bits of the raw draw, or 1 where they are all zero, divided by
/// 2^53, which is a value of the open unit interval.
pub open spec fn is_positive_unit_draw(u: Double, raw: u64) -> bool {
    &&& u.is_finite_spec()
    &&& u.gt_spec(zero())
    &&& u.bits < ONE_BITS
    &&& u.scaled_magnitude() == positive_fraction(raw) * pow2(1021)
}

/// What a stream answers when a normal draw is begun.
#[derive(Clone, Copy, Debug, PartialEq, Eq, Structural)]
pub enum NormalDraw {
    /// The draw itself: the spare of an earlier pair.
    Ready(Double),
    /// Two uniform draws from the half-open unit interval, to be
    /// transformed into a pair of normal draws.
    Transform { u1: Double, u2: Double },
}

/// A counter-based generator: the state is a base seed, a path index and
/// the number of draws taken, and each draw mixes the sum of the seed, the
/// lane of the path and the number of the draw.
///
/// What holds of two streams under one base seed:
/// - with different path indices, whatever they are, the two differ at
///   every position;
/// - with path indices below [`HORIZON`], or more generally in the same
///   block of [`HORIZON`] indices, no draw of the one is a draw of the
///   other at any position, as long as fewer than [`HORIZON`] draws are
///   taken of each;
/// - with path indices in different blocks no more than the first point
///   holds: the stream of index 2^32 is that of index 0 moved on by one
///   draw. More than 2^64 draws cannot all differ.
///
/// The spare normal draw that a pairwise transform leaves over belongs to
/// the stream that produced it, so it is kept here and nowhere else.
#[derive(Clone, Copy, Debug)]
pub struct CounterRng {
    base_seed: u64,
    path: u64,
    draws: u64,
    spare: Option<Double>,
}

impl CounterRng {
    /// The base seed of the stream.
    pub closed spec fn base_seed(self) -> u64 {
        self.base_seed
    }

    /// The path index of the stream.
    pub closed spec fn path(self) -> u64 {
        self.path
    }

    /// The number of draws taken, wrapped to 64 bits.
    pub closed spec fn draws(self) -> u64 {
        self.draws
    }

    /// The spare normal draw, where the stream holds one.
    pub closed spec fn spare(self) -> Option<Double> {
        self.spare
    }

    /// What the next draw returns.
    pub open spec fn output(self) -> u64 {
        self.output_after(0)
    }

    /// The number of draws taken after `k` more draws.
    pub open spec fn draws_after(self, k: nat) -> u64 {
        ((self.draws() + k) % 0x1_0000_0000_0000_0000) as u64
    }

    /// What the draw after `k` earlier draws returns.
    pub open spec fn output_after(self, k: nat) -> u64 {
        mix(word(self.base_seed(), self.path(), self.draws() + k + 1))
    }

    /// The stream of the path under the given base seed, with no draw
    /// taken.
    pub fn new(base_seed: u64, path: u64) -> (r: CounterRng)
        ensures
            r.base_seed() == base_seed,
            r.path() == path,
            r.draws() == 0,
            r.spare().is_none(),
    {
        CounterRng { base_seed, path, draws: 0, spare: None }
    }

    /// The next draw: the number of draws advances by one, and the word of
    /// that draw is mixed.
    pub fn next_u64(&mut self) -> (r: u64)
        ensures
            r == old(self).output(),
            final(self).base_seed() == old(self).base_seed(),
            final(self).path() == old(self).path(),
            final(self).draws() == old(self).draws_after(1),
            final(self).spare() == old(self).spare(),
    {
        proof {
            lemma_word(self.base_seed, self.path, self.draws);
        }
        self.draws = self.draws.wrapping_add(1);
        let lane: u64 = (self.path % HORIZON) * HORIZON + self.path / HORIZON;
        let mut z: u64 = self.base_seed.wrapping_add(lane).wrapping_add(self.draws);
        z = (z ^ (z >> 30)).wrapping_mul(MIX_FIRST);
        z = (z ^ (z >> 27)).wrapping_mul(MIX_SECOND);
        z ^ (z >> 31)
    }

    /// A uniform draw from the half-open unit interval: the upper 53 bits
    /// of the next draw, divided by 2^53.
    pub fn uniform(&mut self) -> (r: Double)
        ensures
            is_unit_draw(r, old(self).output()),
            final(self).base_seed() == old(self).base_seed(),
            final(self).path() == old(self).path(),
            final(self).draws() == old(self).draws_after(1),
            final(self).spare() == old(self).spare(),
    {
        let x: u64 = self.next_u64();
        assert(x >> 11 < 0x20_0000_0000_0000u64) by (bit_vector);
        Double::from_unit_fraction(x >> 11)
    }

    /// A uniform draw from the open unit interval: as [`CounterRng::uniform`],
    /// but the smallest fraction above zero where that would give zero.
    pub fn uniform_positive(&mut self) -> (r: Double)
        ensures
            is_positive_unit_draw(r, old(self).output()),
            final(self).base_seed() == old(self).base_seed(),
            final(self).path() == old(self).path(),
            final(self).draws() == old(self).draws_after(1),
            final(self).spare() == old(self).spare(),
    {
        let x: u64 = self.next_u64();
        assert(x >> 11 < 0x20_0000_0000_0000u64) by (bit_vector);
        let upper: u64 = x >> 11;
        if upper == 0 {
            Double::from_unit_fraction(1)
        } else {
            Double::from_unit_fraction(upper)
        }
    }

    /// Begins a normal draw. Where the stream holds a spare, the spare is
    /// the draw and leaves the stream, and nothing is drawn. Otherwise two
    /// uniform draws are taken, in this order, for the caller to transform
    /// into a pair of normal draws: the first lies above zero, so that its
    /// logarithm is finite, and both lie below one.
    pub fn begin_normal(&mut self) -> (r: NormalDraw)
        ensures
            final(self).base_seed() == old(self).base_seed(),
            final(self).path() == old(self).path(),
            final(self).spare().is_none(),
            old(self).spare() matches Some(z) ==> r == NormalDraw::Ready(z)
                && final(self).draws() == old(self).draws(),
            old(self).spare().is_none() ==> final(self).draws() == old(self).draws_after(2)
                && (r matches NormalDraw::Transform { u1, u2 }
                && is_positive_unit_draw(u1, old(self).output_after(0))
                && is_unit_draw(u2, old(self).output_after(1))),
    {
        match self.take_spare() {
            Some(z) => NormalDraw::Ready(z),
            None => {
                let ghost start = *self;
                let u1 = self.uniform_positive();
                let ghost middle = *self;
                let u2 = self.uniform();
                proof {
                    lemma_draw_advances(start, middle, 0);
                    lemma_draw_advances(start, middle, 1);
                    assert(middle.output() == start.output_after(1));
                    assert(self.draws() == start.draws_after(2));
                }
                NormalDraw::Transform { u1, u2 }
            },
        }
    }

    /// Ends a normal draw that took two uniform draws: the first of the
    /// pair is the draw, and the second stays in the stream as its spare.
    pub fn finish_normal(&mut self, z1: Double, z2: Double) -> (r: Double)
        ensures
            r == z1,
            final(self).spare() == Some(z2),
            final(self).base_seed() == old(self).base_seed(),
            final(self).path() == old(self).path(),
            final(self).draws() == old(self).draws(),
    {
        self.store_spare(z2);
        z1
    }

    /// Takes the spare normal draw out of the stream, if it holds one.
    fn take_spare(&mut self) -> (r: Option<Double>)
        ensures
            r == old(self).spare(),
            final(self).spare().is_none(),
            final(self).base_seed() == old(self).base_seed(),
            final(self).path() == old(self).path(),
            final(self).draws() == old(self).draws(),
    {
        let r = self.spare;
        self.spare = None;
        r
    }

    /// Keeps a spare normal draw in the stream for the next request.
    fn store_spare(&mut self, z: Double)
        ensures
            final(self).spare() == Some(z),
            final(self).base_seed() == old(self).base_seed(),
            final(self).path() == old(self).path(),
            final(self).draws() == old(self).draws(),
    {
        self.spare = Some(z);
    }
}


/// The factory of streams: it holds the base seed and hands out one stream
/// per path index.
#[derive(Clone, Copy, Debug)]
pub struct RngFactory {
    base_seed: u64,
}

impl RngFactory {
    /// The base seed that every stream of the factory shares.
    pub closed spec fn base_seed(self) -> u64 {
        self.base_seed
    }

    /// The factory of the streams of the given base seed.
    pub fn new(base_seed: u64) -> (r: RngFactory)
        ensures
            r.base_seed() == base_seed,
    {
        RngFactory { base_seed }
    }

    /// The counter-based stream of one path, with no draw taken. Every bit
    /// of the path index enters its draws: streams of different indices
    /// differ at every position, and those of indices in one block of
    /// [`HORIZON`], as all below [`HORIZON`] are, share no draw among their
    /// first [`HORIZON`] draws.
    pub fn create_counter_rng(&self, path_id: u64) -> (r: CounterRng)
        ensures
            r.base_seed() == self.base_seed(),
            r.path() == path_id,
            r.draws() == 0,
            r.spare().is_none(),
    {
        CounterRng::new(self.base_seed, path_id)
    }

    /// The general-purpose generator of one path, seeded with the sum of
    /// base seed and path index, wrapped to 64 bits.
    pub fn create_std_rng(&self, path_id: u64) -> (r: StdRng)
        ensures
            r == seeded_generator(path_seed(self.base_seed(), path_id)),
    {
        seed_rng_from_u64(path_seed(self.base_seed, path_id))
    }
}

/// The seed of one path's generator: base seed plus path index, wrapped to
/// 64 bits.
pub open spec fn path_seed_spec(base_seed: u64, path_id: u64) -> u64 {
    ((base_seed + path_id) % 0x1_0000_0000_0000_0000) as u64
}

/// The seed of one path's generator.
#[verifier::when_used_as_spec(path_seed_spec)]
pub fn path_seed(base_seed: u64, path_id: u64) -> (r: u64)
    ensures
        r == path_seed_spec(base_seed, path_id),
{
    base_seed.wrapping_add(path_id)
}

/// `rand::rngs::StdRng`, carried through as an opaque value.
#[verifier::external_type_specification]
#[verifier::external_body]
pub struct ExStdRng(StdRng);

/// The generator that `rand` builds from a 64-bit seed.
pub uninterp spec fn seeded_generator(seed: u64) -> StdRng;

/// Calls `rand::SeedableRng::seed_from_u64` for `rand::rngs::StdRng`. That
/// function expands the seed with a fixed integer recurrence and never
/// fails; the contract claims only that the generator it returns is a
/// function of the seed.
#[verifier::external_body]
pub fn seed_rng_from_u64(seed: u64) -> (r: StdRng)
    ensures
        r == seeded_generator(seed),
{
    StdRng::seed_from_u64(seed)
}

/// The output mix loses nothing: different inputs give different outputs.
pub proof fn lemma_mix_injective(a: u64, b: u64)
    ensures
        mix(a) == mix(b) ==> a == b,
{
    let a1 = a ^ (a >> 30);
    let b1 = b ^ (b >> 30);
    let a2 = vstd::wrapping::u64_specs::wrapping_mul(a1, MIX_FIRST);
    let b2 = vstd::wrapping::u64_specs::wrapping_mul(b1, MIX_FIRST);
    let a3 = a2 ^ (a2 >> 27);
    let b3 = b2 ^ (b2 >> 27);
    let a4 = vstd::wrapping::u64_specs::wrapping_mul(a3, MIX_SECOND);
    let b4 = vstd::wrapping::u64_specs::wrapping_mul(b3, MIX_SECOND);
    lemma_shift_xor_injective(a4, b4);
    lemma_multiply_injective(a3, b3);
    lemma_shift_xor_injective(a2, b2);
    lemma_multiply_injective(a1, b1);
    lemma_shift_xor_injective(a, b);
}

/// The lane of a path fits 64 bits, and the word that a draw mixes is what
/// the wrapping arithmetic of the machine gives.
proof fn lemma_word(base_seed: u64, path: u64, draws: u64)
    ensures
        (path % HORIZON) * HORIZON + path / HORIZON <= u64::MAX,
        vstd::wrapping::u64_specs::wrapping_add(
            vstd::wrapping::u64_specs::wrapping_add(base_seed, lane(path)),
            vstd::wrapping::u64_specs::wrapping_add(draws, 1),
        ) == word(base_seed, path, draws + 1),
{
    let m: int = 0x1_0000_0000_0000_0000;
    lemma_lane(path);
    let l: int = lane(path) as int;
    let next = vstd::wrapping::u64_specs::wrapping_add(draws, 1);
    assert(next == (draws + 1) % m);
    let front = vstd::wrapping::u64_specs::wrapping_add(base_seed, lane(path));
    assert(front == (base_seed + l) % m);
    let whole = vstd::wrapping::u64_specs::wrapping_add(front, next);
    assert(whole == (front + next) % m);
    vstd::arithmetic::div_mod::lemma_add_mod_noop(base_seed + l, draws + 1, m);
}

/// The two halves of a lane are the two halves of the path index,
/// exchanged.
proof fn lemma_lane(path: u64)
    ensures
        (path % HORIZON) * HORIZON + path / HORIZON <= u64::MAX,
        lane(path) == (path % HORIZON) * HORIZON + path / HORIZON,
        lane(path) / HORIZON == path % HORIZON,
        lane(path) % HORIZON == path / HORIZON,
        path < HORIZON ==> lane(path) == path * HORIZON,
{
    let h: int = HORIZON as int;
    let low: int = (path % HORIZON) as int;
    let high: int = (path / HORIZON) as int;
    assert(0 <= low < h && 0 <= high < h);
    assert(low * h + high <= u64::MAX) by (nonlinear_arith)
        requires
            0 <= low < h,
            0 <= high < h,
            h == 0x1_0000_0000,
    ;
    vstd::arithmetic::div_mod::lemma_fundamental_div_mod_converse(low * h + high, h, low, high);
}

/// Different path indices have different lanes.
pub proof fn lemma_lane_injective(p: u64, q: u64)
    ensures
        lane(p) == lane(q) ==> p == q,
{
    lemma_lane(p);
    lemma_lane(q);
    vstd::arithmetic::div_mod::lemma_fundamental_div_mod(p as int, HORIZON as int);
    vstd::arithmetic::div_mod::lemma_fundamental_div_mod(q as int, HORIZON as int);
}

/// Two words of one base seed are equal only where lane plus number are.
proof fn lemma_words_differ(base_seed: u64, x: int, y: int)
    requires
        x != y,
        -0x1_0000_0000_0000_0000 < x - y < 0x1_0000_0000_0000_0000,
    ensures
        (base_seed + x) % 0x1_0000_0000_0000_0000 != (base_seed + y) % 0x1_0000_0000_0000_0000,
{
    let m: int = 0x1_0000_0000_0000_0000;
    let a: int = base_seed + x;
    let b: int = base_seed + y;
    if a % m == b % m {
        vstd::arithmetic::div_mod::lemma_fundamental_div_mod(a, m);
        vstd::arithmetic::div_mod::lemma_fundamental_div_mod(b, m);
        let d: int = a / m - b / m;
        assert(a - b == m * d) by (nonlinear_arith)
            requires
                a == m * (a / m) + a % m,
                b == m * (b / m) + b % m,
                a % m == b % m,
                d == a / m - b / m,
        ;
        assert(d == 0) by (nonlinear_arith)
            requires
                a - b == m * d,
                -m < a - b < m,
                m > 0,
        ;
        assert(false);
    }
}

/// Advancing a stream by one draw shifts its sequence of outputs by one.
pub proof fn lemma_draw_advances(before: CounterRng, after: CounterRng, k: nat)
    requires
        after.base_seed() == before.base_seed(),
        after.path() == before.path(),
        after.draws() == before.draws_after(1),
    ensures
        after.output_after(k) == before.output_after(k + 1),
        after.draws_after(k) == before.draws_after(k + 1),
{
    let m: int = 0x1_0000_0000_0000_0000;
    let d: int = before.draws() as int;
    let rest: int = before.base_seed() + lane(before.path()) + k + 1;
    vstd::arithmetic::div_mod::lemma_add_mod_noop(d + 1, rest, m);
    vstd::arithmetic::div_mod::lemma_add_mod_noop((d + 1) % m, rest, m);
    vstd::arithmetic::div_mod::lemma_mod_twice(d + 1, m);
    vstd::arithmetic::div_mod::lemma_add_mod_noop(d + 1, k as int, m);
    vstd::arithmetic::div_mod::lemma_add_mod_noop((d + 1) % m, k as int, m);
}

/// Two streams with the same base seed, the same path index and the same
/// number of draws taken give the same draws, whatever else they hold.
pub proof fn lemma_same_stream_same_draws(a: CounterRng, b: CounterRng, k: nat)
    requires
        a.base_seed() == b.base_seed(),
        a.path() == b.path(),
        a.draws() == b.draws(),
    ensures
        a.output_after(k) == b.output_after(k),
{
}

/// Under one base seed, streams of different path indices, whatever the
/// indices are, differ at every position: the draws of the same number
/// are never equal.
pub proof fn lemma_distinct_paths_differ_everywhere(a: CounterRng, b: CounterRng, i: nat, j: nat)
    requires
        a.base_seed() == b.base_seed(),
        a.path() != b.path(),
        a.draws() + i == b.draws() + j,
    ensures
        a.output_after(i) != b.output_after(j),
{
    let m: int = 0x1_0000_0000_0000_0000;
    lemma_lane_injective(a.path(), b.path());
    let x: int = lane(a.path()) + a.draws() + i + 1;
    let y: int = lane(b.path()) + b.draws() + j + 1;
    lemma_words_differ(a.base_seed(), x, y);
    lemma_mix_injective(
        ((a.base_seed() + x) % m) as u64,
        ((b.base_seed() + y) % m) as u64,
    );
}

/// Under one base seed, two draws differ where their paths or their
/// numbers differ, as long as the path indices lie in one block of
/// [`HORIZON`] indices, as all indices below [`HORIZON`] do, and the
/// numbers of the draws stay below [`HORIZON`].
pub proof fn lemma_distinct_draws(a: CounterRng, b: CounterRng, i: nat, j: nat)
    requires
        a.base_seed() == b.base_seed(),
        a.path() / HORIZON == b.path() / HORIZON,
        a.draws() + i + 1 < HORIZON,
        b.draws() + j + 1 < HORIZON,
        a.path() != b.path() || a.draws() + i != b.draws() + j,
    ensures
        a.output_after(i) != b.output_after(j),
{
    let m: int = 0x1_0000_0000_0000_0000;
    let h: int = HORIZON as int;
    lemma_lane(a.path());
    lemma_lane(b.path());
    lemma_lane_injective(a.path(), b.path());
    let pa: int = (a.path() % HORIZON) as int;
    let pb: int = (b.path() % HORIZON) as int;
    let x: int = lane(a.path()) + a.draws() + i + 1;
    let y: int = lane(b.path()) + b.draws() + j + 1;
    assert(x - y == (pa - pb) * h + (a.draws() + i - b.draws() - j)) by (nonlinear_arith)
        requires
            x == pa * h + a.path() / HORIZON + a.draws() + i + 1,
            y == pb * h + b.path() / HORIZON + b.draws() + j + 1,
            a.path() / HORIZON == b.path() / HORIZON,
    ;
    assert(x != y && -m < x - y < m) by (nonlinear_arith)
        requires
            x - y == (pa - pb) * h + (a.draws() + i - b.draws() - j),
            0 <= pa < h,
            0 <= pb < h,
            -h < a.draws() + i - b.draws() - j < h,
            pa != pb || a.draws() + i != b.draws() + j,
            h == 0x1_0000_0000,
            m == 0x1_0000_0000_0000_0000,
    ;
    lemma_words_differ(a.base_seed(), x, y);
    lemma_mix_injective(
        ((a.base_seed() + x) % m) as u64,
        ((b.base_seed() + y) % m) as u64,
    );
}

/// Streams of different paths under one base seed are disjoint: no draw of
/// the one, at whatever position, is a draw of the other, as long as the
/// path indices and the numbers of the draws stay below the horizon.
pub proof fn lemma_distinct_paths_distinct_draws(a: CounterRng, b: CounterRng, i: nat, j: nat)
    requires
        a.base_seed() == b.base_seed(),
        a.path() != b.path(),
        a.path() < HORIZON,
        b.path() < HORIZON,
        a.draws() + i + 1 < HORIZON,
        b.draws() + j + 1 < HORIZON,
    ensures
        a.output_after(i) != b.output_after(j),
{
    lemma_distinct_draws(a, b, i, j);
}

/// A stream does not repeat itself: two of its draws at different
/// positions differ, as long as the numbers of the draws stay below the
/// horizon.
pub proof fn lemma_stream_does_not_repeat(a: CounterRng, i: nat, j: nat)
    requires
        i != j,
        a.draws() + i + 1 < HORIZON,
        a.draws() + j + 1 < HORIZON,
    ensures
        a.output_after(i) != a.output_after(j),
{
    lemma_distinct_draws(a, a, i, j);
}

proof fn lemma_shift_xor_injective(a: u64, b: u64)
    by (bit_vector)
    ensures
        a ^ (a >> 30) == b ^ (b >> 30) ==> a == b,
        a ^ (a >> 27) == b ^ (b >> 27) ==> a == b,
        a ^ (a >> 31) == b ^ (b >> 31) ==> a == b,
{
}

proof fn lemma_multiply_injective(a: u64, b: u64)
    by (bit_vector)
    ensures
        vstd::wrapping::u64_specs::wrapping_mul(a, MIX_FIRST) == vstd::wrapping::u64_specs::wrapping_mul(b, MIX_FIRST) ==> a == b,
        vstd::wrapping::u64_specs::wrapping_mul(a, MIX_SECOND) == vstd::wrapping::u64_specs::wrapping_mul(b, MIX_SECOND) ==> a == b,
{
}

} // verus!
