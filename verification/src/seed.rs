//! The per-build storage key under which the startup configuration is
//! persisted.
//!
//! The key is a 32-character random seed followed by a fixed file suffix,
//! so that concurrent installations never share a config entry.  Drawing a
//! character is the one call into the random-number generator; assembling
//! the seed and the key is verified.

use vstd::prelude::*;

verus! {

/// The fixed suffix appended to the random seed to form the storage key.
pub const CONFIG_KEY_SUFFIX: &'static str = "-neonex-startup-config.json";

/// Relies on rand::random: one uniformly drawn character.  Nothing can be
/// promised of a random value beyond its length as a string.
#[verifier::external_body]
fn random_char_string() -> (s: String)
    ensures
        s@.len() == 1,
{
    let mut s = String::new();
    s.push(rand::random::<char>());
    s
}

/// Draws a fresh 32-character random seed.
pub fn generate_32char_seed() -> (seed: String)
    ensures
        seed@.len() == 32,
{
    let mut seed = String::new();
    let mut i: usize = 0;
    while i < 32
        invariant
            0 <= i <= 32,
            seed@.len() == i,
        decreases 32 - i,
    {
        let c = random_char_string();
        seed.append(c.as_str());
        i = i + 1;
    }
    seed
}

/// The storage key for a given seed: the seed followed by the fixed
/// suffix.
pub fn startup_config_key(seed: &str) -> (key: String)
    ensures
        key@ == seed@ + CONFIG_KEY_SUFFIX@,
{
    let mut key = String::from_str(seed);
    key.append(CONFIG_KEY_SUFFIX);
    key
}

} // verus!
