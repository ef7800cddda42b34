//! The ledger's own types that the library carries.
//!
//! Each is declared without its fields: the library hands values of these
//! types on and never looks inside. What it has to read of the ledger's data,
//! it holds in types of its own (see [`crate::instruction`] and
//! [`crate::status`]).

use vstd::prelude::*;

verus! {

/// `solana_sdk::signature::Signature`: the identifier of a submitted
/// transaction, as the network returns it. The library carries it from the
/// submission to the status query and to the result.
#[verifier::external_type_specification]
#[verifier::external_body]
pub struct ExSignature(solana_sdk::signature::Signature);

/// `core::array::TryFromSliceError`: the error of std's conversion from a
/// slice to an array. The library never holds one; the type is named by one
/// of the conversions into a signature.
#[verifier::external_type_specification]
#[verifier::external_body]
pub struct ExTryFromSliceError(core::array::TryFromSliceError);

/// `solana_sdk::signer::keypair::Keypair`: a key pair of the ledger. The
/// library hands it to the signing call and has its address read; it never
/// sees the secret.
#[verifier::external_type_specification]
#[verifier::external_body]
pub struct ExKeypair(solana_sdk::signer::keypair::Keypair);

/// `solana_sdk::transaction::Transaction`: a transaction in the ledger's own
/// form, as the transport takes it.
#[verifier::external_type_specification]
#[verifier::external_body]
pub struct ExTransaction(solana_sdk::transaction::Transaction);

/// `solana_sdk::signer::SignerError`: why the ledger's signing call refused.
#[verifier::external_type_specification]
#[verifier::external_body]
pub struct ExSignerError(solana_sdk::signer::SignerError);

} // verus!
