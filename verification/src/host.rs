//! What the procedures exchange with the engine that runs them: the locations
//! they name, the secret they hand over to be stored, and the envelope of their
//! plaintext output. The types are those of `iota_stronghold`.
//!
//! Nothing in this file is proved.

use iota_stronghold::procedures::ProcedureOutput;
use iota_stronghold::procedures::Products;
use iota_stronghold::Location;
use vstd::prelude::*;
use zeroize::Zeroizing;

verus! {

/// `iota_stronghold::Location`, the name of a slot of secret bytes in the
/// store. A procedure carries it and never looks inside.
#[verifier::external_type_specification]
#[verifier::external_body]
pub struct ExLocation(Location);

/// `iota_stronghold::procedures::ProcedureOutput`, the envelope in which
/// plaintext output leaves a procedure.
#[verifier::external_type_specification]
#[verifier::external_body]
pub struct ExProcedureOutput(ProcedureOutput);

/// `iota_stronghold::procedures::Products`, what a generating procedure hands
/// over: the secret and the plaintext output.
#[verifier::external_type_specification]
#[verifier::external_body]
#[verifier::reject_recursive_types(T)]
pub struct ExProducts<T>(Products<T>);

/// The bytes inside an output envelope.
pub uninterp spec fn output_bytes(output: ProcedureOutput) -> Seq<u8>;

/// The secret bytes inside the products of a generating procedure.
pub uninterp spec fn products_secret(products: Products<()>) -> Seq<u8>;

/// `Location::clone`: the copy names the same slot.
pub assume_specification[ <Location as Clone>::clone ](location: &Location) -> (r: Location)
    ensures
        r == *location,
;

/// `ProcedureOutput::from` on bytes: the envelope holds them unchanged.
pub assume_specification[ <ProcedureOutput as From<Vec<u8>>>::from ](v: Vec<u8>) -> (r:
    ProcedureOutput)
    ensures
        output_bytes(r) == v@,
;

/// `ProcedureOutput::from` on the unit value: the envelope is empty.
pub assume_specification[ <ProcedureOutput as From<()>>::from ](unit: ()) -> (r: ProcedureOutput)
    ensures
        output_bytes(r) == Seq::<u8>::empty(),
;

/// Builds the `Products` of a generating procedure. The secret moves into
/// `Zeroizing::new`, which wipes it when it is dropped; the plaintext output
/// is the unit value.
#[verifier::external_body]
pub(crate) fn secret_products(secret: Vec<u8>) -> (r: Products<()>)
    ensures
        products_secret(r) == secret@,
{
    Products { secret: Zeroizing::new(secret), output: () }
}

} // verus!
