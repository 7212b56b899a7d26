//! The explicit game-state context: recorded seed, turn counter, seeded
//! generator and append-only log, threaded by reference into every mutating
//! call.

use crate::rng::SeededRng;
use vstd::prelude::*;

verus! {

/// The standard base64 encoding of a byte string; a function of the bytes
/// alone.
pub uninterp spec fn base64_of(bytes: Seq<u8>) -> Seq<char>;

/// Relies on base64's `STANDARD` engine (padded): the encoding is a pure
/// function of the input bytes, four output symbols for every started group
/// of three input bytes. The length bound keeps the input far away from the
/// engine's overflow panic on absurd sizes.
#[verifier::external_body]
fn encode_base64(bytes: &Vec<u8>) -> (r: String)
    requires
        bytes@.len() <= 1024,
    ensures
        r@ == base64_of(bytes@),
        r@.len() == ((bytes@.len() + 2) / 3) * 4,
{
    base64::Engine::encode(&base64::engine::general_purpose::STANDARD, bytes)
}

/// The big-endian byte string of a 64-bit value.
pub open spec fn spec_be_bytes(x: u64) -> Seq<u8> {
    seq![
        (x >> 56) as u8,
        (x >> 48) as u8,
        (x >> 40) as u8,
        (x >> 32) as u8,
        (x >> 24) as u8,
        (x >> 16) as u8,
        (x >> 8) as u8,
        x as u8,
    ]
}

/// Big-endian byte encoding of a 64-bit value.
pub fn be_bytes(x: u64) -> (r: Vec<u8>)
    ensures
        r@ == spec_be_bytes(x),
{
    let mut v: Vec<u8> = Vec::new();
    v.push(#[verifier::truncate] ((x >> 56) as u8));
    v.push(#[verifier::truncate] ((x >> 48) as u8));
    v.push(#[verifier::truncate] ((x >> 40) as u8));
    v.push(#[verifier::truncate] ((x >> 32) as u8));
    v.push(#[verifier::truncate] ((x >> 24) as u8));
    v.push(#[verifier::truncate] ((x >> 16) as u8));
    v.push(#[verifier::truncate] ((x >> 8) as u8));
    v.push(#[verifier::truncate] (x as u8));
    proof {
        assert(v@ =~= spec_be_bytes(x));
    }
    v
}

pub struct GameState {
    /// The seed in its recorded, display form.
    pub seed: String,
    pub logs: Vec<String>,
    pub current_turn: u64,
    pub rng: SeededRng,
}

impl GameState {
    pub fn new(seed: u64) -> (r: GameState)
        ensures
            r.seed@ == base64_of(spec_be_bytes(seed)),
            r.logs@ == Seq::<String>::empty(),
            r.current_turn == 0,
            r.rng == SeededRng::spec_from_seed(seed),
    {
        let data = be_bytes(seed);
        let encoded_seed = encode_base64(&data);
        GameState {
            seed: encoded_seed,
            logs: Vec::new(),
            current_turn: 0,
            rng: SeededRng::from_seed(seed),
        }
    }

    /// Advance the turn counter (it stops at the numeric ceiling rather
    /// than wrap).
    pub fn finish_turn(&mut self)
        ensures
            *final(self) == (GameState {
                current_turn: if old(self).current_turn < u64::MAX {
                    (old(self).current_turn + 1) as u64
                } else {
                    old(self).current_turn
                },
                ..*old(self)
            }),
    {
        if self.current_turn < u64::MAX {
            self.current_turn = self.current_turn + 1;
        }
    }

    /// Append one message to the log.
    pub fn log(&mut self, message: &str)
        ensures
            final(self).logs@.len() == old(self).logs@.len() + 1,
            final(self).logs@.subrange(0, old(self).logs@.len() as int) == old(self).logs@,
            final(self).logs@.last()@ == message@,
            final(self).seed == old(self).seed,
            final(self).current_turn == old(self).current_turn,
            final(self).rng == old(self).rng,
    {
        self.logs.push(message.to_owned());
        proof {
            assert(self.logs@.subrange(0, old(self).logs@.len() as int) =~= old(self).logs@);
        }
    }
}

} // verus!
