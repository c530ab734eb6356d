//! Key material as a configuration file carries it.

use vstd::prelude::*;

verus! {

/// The two halves of a key pair in text form, as a configuration holds them.
pub struct CryptoConfig {
    pub private_key: String,
    pub public_key: String,
}

} // verus!
