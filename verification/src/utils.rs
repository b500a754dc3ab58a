//! What the relay takes from the clock and from the random number generator.
//!
//! Nothing is known of either result but its type: two calls may differ.

use vstd::prelude::*;

verus! {

/// `chrono::Local::now()`, as seconds since the Unix epoch cut to 32 bits.
#[verifier::external_body]
pub fn current_time() -> (seconds: u32) {
    chrono::Local::now().timestamp() as u32
}

/// `uuid::Uuid::new_v4()` in its hyphenated text form: a fresh identity for a
/// connection.
#[verifier::external_body]
pub fn gen_uid() -> (uid: String) {
    uuid::Uuid::new_v4().to_string()
}

/// `rand::thread_rng()` asked for one byte by `Rng::gen`.
#[verifier::external_body]
pub(crate) fn random_byte() -> (byte: u8) {
    rand::Rng::gen(&mut rand::thread_rng())
}

} // verus!
