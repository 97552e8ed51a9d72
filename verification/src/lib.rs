//! A verifiable-random-function commitment for a guessing game.
//!
//! The prover derives a secret number from a public seed and its private key
//! and hands out a proof; anyone holding the public key can later recompute
//! the number from the seed and the proof alone.
//!
//! [`vrf`] holds the two operations, `commit` and `verify`; [`transcript`],
//! [`keys`], [`seed`] and [`secret`] hold what they are made of; [`game`] and
//! [`input`] hold a round of the game played on top of them; [`laws`] states
//! what holds of commit and verify together.

pub mod bytes;
pub mod game;
pub mod input;
pub mod keys;
pub mod laws;
pub mod secret;
pub mod seed;
pub mod transcript;
pub mod vrf;
