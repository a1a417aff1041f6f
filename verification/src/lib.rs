//! A small, portable, seedable pseudo-random number generator built on the
//! standard library's `HashMap` hasher.
//!
//! The generator owns a 64-bit state word and a hashing context. Every pull
//! of a byte feeds the current state into the hasher, takes the digest as the
//! new state, and XOR-folds the eight bytes of that digest into the output
//! byte. All wider operations (64-bit integers, bounded sampling, booleans)
//! are derived from that single primitive, so the whole output stream is a
//! deterministic function of the seed.
//!
//! Two conventions are fixed so that runs are reproducible:
//! the state is fed to the hasher in little-endian byte order, and the
//! hasher's internal buffer is deliberately *not* reset between pulls — each
//! digest depends on the whole history of earlier writes.
//!
//! This generator is not cryptographically secure; it is meant for
//! simulations, procedural generation and tests that need repeatable streams.

use std::collections::hash_map::DefaultHasher;
use std::hash::Hasher;
use vstd::bytes::spec_u64_to_le_bytes;
use vstd::bytes::u64_to_le_bytes;
use vstd::prelude::*;
use vstd::std_specs::hash::DefaultHasherAdditionalSpecFns;

verus! {

/// The seed a generator starts from when none is given.
/// There is nothing special about this number.
pub const RNG_SEED: u64 = 0x6865_636B_7965_6168;

/// The abstract state of a generator: the 64-bit state word together with
/// the sequence of byte chunks fed to the hasher so far. The hasher keeps
/// its whole write history, so the history is part of the observable state.
pub struct Model {
    pub state: u64,
    pub log: Seq<Seq<u8>>,
}

/// The abstract state a generator has right after construction from `seed`:
/// the state word is the seed and nothing has been hashed yet.
pub open spec fn init(seed: u64) -> Model {
    Model { state: seed, log: Seq::empty() }
}

/// XOR of the eight bytes of `x`: the fold that turns a 64-bit digest into
/// one output byte. XOR is commutative, so the byte order of the fold does
/// not matter.
pub open spec fn xor_fold(x: u64) -> u8 {
    ((x ^ (x >> 8) ^ (x >> 16) ^ (x >> 24) ^ (x >> 32) ^ (x >> 40) ^ (x >> 48) ^ (x >> 56))
        & 0xff) as u8
}

/// One state transition: the current state word, as little-endian bytes, is
/// appended to the hasher's history, and the digest of the whole history
/// becomes the new state word.
pub open spec fn step(m: Model) -> Model {
    let log = m.log.push(spec_u64_to_le_bytes(m.state));
    Model { state: DefaultHasher::spec_finish(log), log: log }
}

/// `n` state transitions in a row.
pub open spec fn step_n(m: Model, n: nat) -> Model
    decreases n,
{
    if n == 0 {
        m
    } else {
        step(step_n(m, (n - 1) as nat))
    }
}

/// The byte emitted by the next pull from state `m`.
pub open spec fn byte_out(m: Model) -> u8 {
    xor_fold(step(m).state)
}

/// The byte stream from state `m`: the byte the `i`-th pull emits
/// (counting from 0). Total in `i` — the stream never ends.
pub open spec fn nth_byte(m: Model, i: nat) -> u8 {
    byte_out(step_n(m, i))
}

/// The 64-bit value emitted when eight consecutive bytes of the stream from
/// state `m` are packed big-endian: the first byte pulled lands in the most
/// significant position.
pub open spec fn u64_out(m: Model) -> u64 {
    ((nth_byte(m, 0) as u64) << 56) | ((nth_byte(m, 1) as u64) << 48) | ((nth_byte(m, 2) as u64)
        << 40) | ((nth_byte(m, 3) as u64) << 32) | ((nth_byte(m, 4) as u64) << 24) | ((nth_byte(
        m,
        5,
    ) as u64) << 16) | ((nth_byte(m, 6) as u64) << 8) | (nth_byte(m, 7) as u64)
}

/// Running `a` transitions and then `b` more is the same as running
/// `a + b` transitions.
pub proof fn lemma_step_n_add(m: Model, a: nat, b: nat)
    ensures
        step_n(step_n(m, a), b) == step_n(m, a + b),
    decreases b,
{
    if b > 0 {
        lemma_step_n_add(m, a, (b - 1) as nat);
    }
}

/// The byte stream of a stepped generator is the original stream shifted:
/// after `k` transitions, the `i`-th byte still to come is the `(k + i)`-th
/// byte of the original stream. This is what makes interleaving wide and
/// narrow pulls consistent.
pub proof fn lemma_nth_byte_shift(m: Model, k: nat, i: nat)
    ensures
        nth_byte(step_n(m, k), i) == nth_byte(m, k + i),
{
    lemma_step_n_add(m, k, i);
}

/// How many draws the bounded sampler makes at most before it settles on
/// zero. The mask keeps each draw within a factor of two of the bound, so
/// the chance of even a handful of rejections in a row is already tiny;
/// spending the whole budget would take on the order of 2^64 rejections and
/// does not happen in practice. The budget exists because the sampler has no
/// natural bound on its retries, only a geometrically vanishing one.
pub const RETRY_BUDGET: u64 = u64::MAX;

/// The smallest mask of the form `2^k - 1` whose one-bits span the highest
/// set bit of `max` down to bit 0; zero when `max` is zero. Drawing under
/// this mask keeps at most one power of two of slack above `max`.
pub open spec fn mask_for(max: u64) -> u64 {
    if max == 0 {
        0u64
    } else {
        u64::MAX >> (vstd::std_specs::bits::u64_leading_zeros(max) as u64)
    }
}

/// The `j`-th 64-bit draw the bounded sampler makes from state `m`; each
/// draw consumes eight state transitions.
pub open spec fn draw(m: Model, j: nat) -> u64 {
    u64_out(step_n(m, 8 * j))
}

/// The `j`-th draw, restricted to the covering mask for `max`.
pub open spec fn masked_draw(m: Model, max: u64, j: nat) -> u64 {
    draw(m, j) & mask_for(max)
}

/// Whether the sampler accepts the `j`-th draw for the bound `max`.
pub open spec fn accepts(m: Model, max: u64, j: nat) -> bool {
    masked_draw(m, max, j) <= max
}

/// What the bounded sampler returns and where it leaves the generator,
/// with `k` the index of the last draw made: every earlier draw was
/// rejected, exactly `k + 1` draws were consumed, and the result is the
/// `k`-th masked draw if it was accepted — or zero in the practically
/// unreachable case that the whole retry budget was rejected.
pub open spec fn sampled(m0: Model, max: u64, k: nat, r: u64, m1: Model) -> bool {
    &&& k <= RETRY_BUDGET
    &&& (forall|j: nat| j < k ==> !#[trigger] accepts(m0, max, j))
    &&& m1 == step_n(m0, 8 * (k + 1))
    &&& if accepts(m0, max, k) {
        r == masked_draw(m0, max, k)
    } else {
        k == RETRY_BUDGET && r == 0
    }
}

/// Determinism: the stream is a function of the seed alone. Two generators
/// built from equal seeds are in the same abstract state after any number
/// of transitions and emit the same byte at every position.
pub proof fn lemma_determinism(s1: u64, s2: u64, i: nat)
    requires
        s1 == s2,
    ensures
        step_n(init(s1), i) == step_n(init(s2), i),
        nth_byte(init(s1), i) == nth_byte(init(s2), i),
{
}

/// Byte/u64 consistency: the 64-bit pull from state `m` is the big-endian
/// packing of the eight bytes that eight successive single-byte pulls
/// produce from `m`, each pull starting where the one before left off; and
/// the 64-bit pull leaves the generator exactly where the eighth single
/// pull would.
pub proof fn lemma_u64_packs_bytes(m: Model)
    ensures
        u64_out(m) == ((byte_out(m) as u64) << 56) | ((byte_out(step(m)) as u64) << 48) | ((
        byte_out(step_n(m, 2)) as u64) << 40) | ((byte_out(step_n(m, 3)) as u64) << 32) | ((
        byte_out(step_n(m, 4)) as u64) << 24) | ((byte_out(step_n(m, 5)) as u64) << 16) | ((
        byte_out(step_n(m, 6)) as u64) << 8) | (byte_out(step_n(m, 7)) as u64),
        step_n(m, 8) == step(step_n(m, 7)),
{
    reveal_with_fuel(step_n, 9);
}

/// A portable pseudo-random number generator built on the standard
/// library's default `HashMap` hasher. Not cryptographically secure.
pub struct Rng {
    data: u64,
    hasher: DefaultHasher,
}

impl View for Rng {
    type V = Model;

    closed spec fn view(&self) -> Model {
        Model { state: self.data, log: self.hasher@ }
    }
}

impl Rng {
    /// Creates a generator seeded with [`RNG_SEED`].
    /// Produces the same series of values every run.
    pub fn new_default() -> (rng: Rng)
        ensures
            rng@ == init(RNG_SEED),
    {
        Rng::new_with_seed(RNG_SEED)
    }

    /// Creates a generator from the given seed, with a fresh hasher.
    /// Every 64-bit value, zero included, is a valid seed.
    pub fn new_with_seed(seed: u64) -> (rng: Rng)
        ensures
            rng@ == init(seed),
    {
        Rng { data: seed, hasher: DefaultHasher::new() }
    }

    /// Returns the next byte of the stream: hashes the state once and
    /// XOR-folds the new state word. This is the core primitive every other
    /// operation pulls from; it is total, the stream never ends.
    pub fn next_byte(&mut self) -> (b: u8)
        ensures
            final(self)@ == step(old(self)@),
            b == byte_out(old(self)@),
            b == nth_byte(old(self)@, 0),
    {
        let fed = u64_to_le_bytes(self.data);
        self.hasher.write(fed.as_slice());
        self.data = self.hasher.finish();
        let x = self.data;
        proof {
            assert(step_n(old(self)@, 0) == old(self)@);
        }
        ((x ^ (x >> 8) ^ (x >> 16) ^ (x >> 24) ^ (x >> 32) ^ (x >> 40) ^ (x >> 48) ^ (x >> 56))
            & 0xff) as u8
    }

    /// Returns the next 64-bit unsigned integer: pulls eight bytes from the
    /// stream and packs them big-endian, first byte in the most significant
    /// position. Consumes eight state transitions.
    pub fn next_u64(&mut self) -> (r: u64)
        ensures
            final(self)@ == step_n(old(self)@, 8),
            r == u64_out(old(self)@),
    {
        let ghost m0 = self@;
        let b0 = self.next_byte();
        let b1 = self.next_byte();
        let b2 = self.next_byte();
        let b3 = self.next_byte();
        let b4 = self.next_byte();
        let b5 = self.next_byte();
        let b6 = self.next_byte();
        let b7 = self.next_byte();
        proof {
            reveal_with_fuel(step_n, 9);
        }
        ((b0 as u64) << 56) | ((b1 as u64) << 48) | ((b2 as u64) << 40) | ((b3 as u64) << 32) | ((
        b4 as u64) << 24) | ((b5 as u64) << 16) | ((b6 as u64) << 8) | (b7 as u64)
    }

    /// Returns the next unsigned 64-bit integer less than or equal to
    /// `max`, by rejection sampling: draw a 64-bit integer, keep only the
    /// bits under the smallest mask covering `max`, and redraw while the
    /// result exceeds `max`. Every draw beyond the first means the one
    /// before it was rejected, so the outcome is pinned by the seed alone.
    /// Rejection sampling has no inherent retry bound; see [`RETRY_BUDGET`].
    pub fn next_u64_max(&mut self, max: u64) -> (r: u64)
        ensures
            r <= max,
            max == 0 ==> r == 0,
            exists|k: nat| sampled(old(self)@, max, k, r, final(self)@),
    {
        let ghost m0 = self@;
        let mask: u64;
        if max == 0 {
            mask = 0;
        } else {
            let lz = max.leading_zeros();
            proof {
                vstd::std_specs::bits::axiom_u64_leading_zeros(max);
            }
            mask = u64::MAX >> (lz as u64);
        }
        let mut out = self.next_u64() & mask;
        let mut fuel: u64 = RETRY_BUDGET;
        let ghost mut rounds: nat = 1;
        proof {
            assert(step_n(m0, 0) == m0);
        }
        while out > max && fuel > 0
            invariant
                mask == mask_for(max),
                1 <= rounds,
                fuel <= RETRY_BUDGET,
                rounds == 1 + RETRY_BUDGET - fuel,
                self@ == step_n(m0, 8 * rounds),
                out == masked_draw(m0, max, (rounds - 1) as nat),
                forall|j: nat| j < rounds - 1 ==> !#[trigger] accepts(m0, max, j),
            decreases fuel,
        {
            let ghost prev: nat = rounds;
            proof {
                assert(!accepts(m0, max, (prev - 1) as nat));
            }
            out = self.next_u64() & mask;
            fuel = fuel - 1;
            proof {
                rounds = rounds + 1;
                lemma_step_n_add(m0, 8 * prev, 8);
            }
        }
        let ghost last: nat = (rounds - 1) as nat;
        if out > max {
            out = 0;
            proof {
                assert(!accepts(m0, max, last));
                assert(sampled(m0, max, last, 0u64, self@));
            }
        } else {
            proof {
                assert(accepts(m0, max, last));
                assert(sampled(m0, max, last, out, self@));
            }
        }
        out
    }

    /// Returns a boolean: pulls one byte and reports whether it is even.
    /// This is an even/odd test of the consumed byte, not a proven fair coin.
    pub fn next_bool(&mut self) -> (v: bool)
        ensures
            final(self)@ == step(old(self)@),
            v == (byte_out(old(self)@) % 2 == 0),
            v == (nth_byte(old(self)@, 0) % 2 == 0),
    {
        self.next_byte() % 2 == 0
    }
}

} // verus!
