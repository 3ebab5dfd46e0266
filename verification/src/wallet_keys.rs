//! Key-pair generation: a fresh public wallet address and private key for
//! a new identity, drawn from a cryptographically secure random source.

use vstd::prelude::*;

verus! {

/// A lowercase hexadecimal digit.
pub open spec fn is_lower_hex_digit(c: char) -> bool {
    ('0' <= c && c <= '9') || ('a' <= c && c <= 'f')
}

/// Generates a fresh key pair: the textual public address and the hex
/// encoding of the private key.
///
/// Relies on ethers' `Wallet::new` seeded from `thread_rng`, the `Debug`
/// form of the derived address (`0x` followed by 40 lowercase hex
/// digits), and `hex::encode` of the 32-byte secret scalar (64 lowercase
/// hex digits). The key pair is random: nothing relates two calls, and
/// the contract states only what holds of every outcome.
#[verifier::external_body]
pub fn generate_wallet() -> (r: (String, String))
    ensures
        r.0@.len() == 42,
        r.0@[0] == '0',
        r.0@[1] == 'x',
        forall |i: int| 2 <= i < 42 ==> is_lower_hex_digit(#[trigger] r.0@[i]),
        r.1@.len() == 64,
        forall |i: int| 0 <= i < 64 ==> is_lower_hex_digit(#[trigger] r.1@[i]),
{
    let wallet = ethers_signers::LocalWallet::new(&mut ethers_core::rand::thread_rng());
    let address = format!("{:?}", ethers_signers::Signer::address(&wallet));
    let private_key = ethers_core::utils::hex::encode(wallet.signer().to_bytes());
    (address, private_key)
}

} // verus!
