//! Mithras core: stealth-address keypairs, discovery tags, hybrid-encrypted
//! note envelopes, the address codec, and the wallet-side chain-scanner state.
use vstd::prelude::*;

pub mod address;
pub mod bytes;
pub mod conservation;
pub mod discovery;
pub mod envelope;
pub mod errors;
pub mod metadata;
pub mod keypairs;
pub mod primitives;
pub mod scanner;
pub mod utxo;

verus! {

/// Smoke-test export mirrored from the mobile bindings.
pub fn mopro_hello_world() -> (r: String)
    ensures
        r@ == "Hello, World!"@,
{
    "Hello, World!".to_owned()
}

} // verus!
