//! The procedures of the ES256K algorithm.
//!
//! `GenerateKey` produces a secret for the engine to store and reveals nothing
//! of it. `PublicKey`, `Sign` and `Verify` each read one secret: the engine
//! resolves the location they name and lends them the guarded bytes for the
//! length of one call. What they return is plaintext, and no error they return
//! holds a byte of the secret.

use crate::algorithm::accepts;
use crate::algorithm::encode_public_key;
use crate::algorithm::encode_signature;
use crate::algorithm::secret_key_bytes;
use crate::algorithm::secret_key_from_bytes;
use crate::algorithm::sign_sha256;
use crate::algorithm::signature_bytes;
use crate::algorithm::signature_of;
use crate::algorithm::verifying_key_of;
use crate::encoding::is_compressed_point;
use crate::encoding::is_signature;
use crate::encoding::is_signing_key;
use crate::encoding::lemma_group_order_bytes;
use crate::encoding::lemma_zeros_spell_zero;
use crate::encoding::GROUP_ORDER;
use crate::encoding::SIGNING_KEY_LENGTH;
use crate::error::ProcedureError;
use crate::host::output_bytes;
use crate::host::products_secret;
use crate::host::secret_products;
use crypto::signatures::secp256k1_ecdsa::SecretKey;
use crypto::signatures::secp256k1_ecdsa::Signature;
use crypto::utils::rand::fill;
use iota_stronghold::procedures::ProcedureOutput;
use iota_stronghold::procedures::Products;
use iota_stronghold::Location;
use vstd::prelude::*;

verus! {

/// The primary procedures of the ES256K algorithm.
#[derive(Clone)]
pub enum Es256kProcs {
    GenerateKey(GenerateKey),
    PublicKey(PublicKey),
    Sign(Sign),
    Verify(Verify),
}

/// Returns the ES256K public key of a private key that is in the vault.
#[derive(Clone)]
pub struct PublicKey {
    pub private_key: Location,
}

/// Generates a random ES256K private key and has it stored in the vault at
/// `output`.
#[derive(Clone)]
pub struct GenerateKey {
    pub output: Location,
}

/// Signs a message with the indicated private key from the vault.
#[derive(Clone)]
pub struct Sign {
    pub msg: Vec<u8>,
    pub private_key: Location,
}

/// Verifies that a message was signed by the indicated private key in the
/// vault. The public key is derived for the verification and discarded.
/// Returns the byte 1 if the signature is valid, the byte 0 otherwise.
#[derive(Clone)]
pub struct Verify {
    pub msg: Vec<u8>,
    pub signature: Vec<u8>,
    pub private_key: Location,
}

/// How running one of the `Es256kProcs` ended.
pub struct Execution {
    /// The secret to store at the procedure's `output()`, where it produced one.
    pub secret: Option<Products<()>>,
    /// The envelope of the procedure's plaintext output.
    pub output: ProcedureOutput,
}

/// What `PublicKey` returns on a guard that holds `guard`.
pub open spec fn public_key_result(guard: Seq<u8>) -> Result<Seq<u8>, ProcedureError> {
    if is_signing_key(guard) {
        Ok(verifying_key_of(guard))
    } else {
        Err(ProcedureError::MalformedKey)
    }
}

/// What `Sign` returns for `msg` on a guard that holds `guard`.
pub open spec fn sign_result(guard: Seq<u8>, msg: Seq<u8>) -> Result<Seq<u8>, ProcedureError> {
    if !is_signing_key(guard) {
        Err(ProcedureError::MalformedKey)
    } else {
        match signature_of(guard, msg) {
            Some(signature) => Ok(signature),
            None => Err(ProcedureError::SigningFailure),
        }
    }
}

/// What `Verify` returns for `msg` and `signature` on a guard that holds
/// `guard`. The key is looked at first, then the signature's form. A
/// well-formed signature is answered with one byte, 1 or 0, never with an
/// error.
pub open spec fn verify_result(guard: Seq<u8>, msg: Seq<u8>, signature: Seq<u8>) -> Result<
    Seq<u8>,
    ProcedureError,
> {
    if !is_signing_key(guard) {
        Err(ProcedureError::MalformedKey)
    } else if !is_signature(signature) {
        Err(ProcedureError::MalformedSignature)
    } else {
        Ok(spec_verdict(accepts(verifying_key_of(guard), msg, signature)))
    }
}

/// The answer of a verification as plaintext output: the one byte 1 for a
/// valid signature, the one byte 0 for an invalid one.
pub open spec fn spec_verdict(valid: bool) -> Seq<u8> {
    if valid {
        seq![1u8]
    } else {
        seq![0u8]
    }
}

/// `result` is `expected`, read through the view of its bytes.
pub open spec fn yields(result: Result<Vec<u8>, ProcedureError>, expected: Result<
    Seq<u8>,
    ProcedureError,
>) -> bool {
    match result {
        Ok(bytes) => expected == Ok::<Seq<u8>, ProcedureError>(bytes@),
        Err(e) => expected == Err::<Seq<u8>, ProcedureError>(e),
    }
}

/// The bytes behind the guard that the engine resolved, if it resolved one.
pub open spec fn guarded(guard: Option<[&[u8]; 1]>) -> Option<Seq<u8>> {
    match guard {
        Some(g) => Some(g[0]@),
        None => None,
    }
}

/// `result` is how a generation ends: with a signing key to store and an empty
/// envelope, or with `GenerationFailure`.
pub open spec fn is_generation(result: Result<Execution, ProcedureError>) -> bool {
    match result {
        Ok(execution) => {
            &&& execution.secret matches Some(products)
            &&& is_signing_key(products_secret(products))
            &&& output_bytes(execution.output) == Seq::<u8>::empty()
        },
        Err(e) => e == ProcedureError::GenerationFailure,
    }
}

/// `result` is `expected` in an envelope, with nothing to store.
pub open spec fn envelops(result: Result<Execution, ProcedureError>, expected: Result<
    Seq<u8>,
    ProcedureError,
>) -> bool {
    match result {
        Ok(execution) => {
            &&& execution.secret is None
            &&& expected == Ok::<Seq<u8>, ProcedureError>(output_bytes(execution.output))
        },
        Err(e) => expected == Err::<Seq<u8>, ProcedureError>(e),
    }
}

/// Parses guarded bytes as a signing key. They are one if they are 32 bytes
/// that spell, most significant byte first, a number from 1 up to, and not
/// including, the group order.
pub fn parse_signing_key(guard: &[u8]) -> (r: Result<SecretKey, ProcedureError>)
    ensures
        r is Ok <==> is_signing_key(guard@),
        r matches Ok(key) ==> secret_key_bytes(key) == guard@,
        r matches Err(e) ==> e == ProcedureError::MalformedKey,
{
    if guard.len() != SIGNING_KEY_LENGTH {
        return Err(ProcedureError::MalformedKey);
    }
    match secret_key_from_bytes(guard) {
        Ok(key) => Ok(key),
        Err(_) => Err(ProcedureError::MalformedKey),
    }
}

/// Parses the bytes that a caller handed in as a signature. They are one if
/// they are 64 bytes of which each half is a non-zero scalar.
pub fn parse_signature(bytes: &[u8]) -> (r: Result<Signature, ProcedureError>)
    ensures
        r is Ok <==> is_signature(bytes@),
        r matches Ok(signature) ==> signature_bytes(signature) == bytes@,
        r matches Err(e) ==> e == ProcedureError::MalformedSignature,
{
    match Signature::try_from_slice(bytes) {
        Ok(signature) => Ok(signature),
        Err(_) => Err(ProcedureError::MalformedSignature),
    }
}

/// Writes the answer of a verification as plaintext output.
pub fn verdict(valid: bool) -> (r: Vec<u8>)
    ensures
        r@ == spec_verdict(valid),
{
    let answer: Vec<u8> = if valid {
        vec![1u8]
    } else {
        vec![0u8]
    };
    assert(answer@ =~= spec_verdict(valid));
    answer
}

impl PublicKey {
    /// Derives the verifying key of the guarded signing key and returns its
    /// compressed encoding: 33 bytes, the first of them 2 or 3.
    pub fn use_secret(self, guard: [&[u8]; 1]) -> (r: Result<Vec<u8>, ProcedureError>)
        ensures
            yields(r, public_key_result(guard[0]@)),
            r matches Ok(bytes) ==> is_compressed_point(bytes@),
    {
        match parse_signing_key(guard[0]) {
            Ok(sk) => {
                let vk = sk.public_key();
                Ok(encode_public_key(&vk))
            },
            Err(e) => Err(e),
        }
    }

    /// The locations to resolve before `use_secret`: the private key's.
    pub fn source(&self) -> (r: [Location; 1])
        ensures
            r[0] == self.private_key,
    {
        [self.private_key.clone()]
    }
}

impl Sign {
    /// Signs `msg` with the guarded signing key and returns the signature's
    /// 64 bytes. `Verify` answers 1 for them, given the same key and message.
    pub fn use_secret(self, guard: [&[u8]; 1]) -> (r: Result<Vec<u8>, ProcedureError>)
        ensures
            yields(r, sign_result(guard[0]@, self.msg@)),
            r matches Ok(bytes) ==> verify_result(guard[0]@, self.msg@, bytes@) == Ok::<
                Seq<u8>,
                ProcedureError,
            >(spec_verdict(true)),
    {
        match parse_signing_key(guard[0]) {
            Ok(sk) => match sign_sha256(&sk, self.msg.as_slice()) {
                Ok(sig) => Ok(encode_signature(&sig)),
                Err(_) => Err(ProcedureError::SigningFailure),
            },
            Err(e) => Err(e),
        }
    }

    /// The locations to resolve before `use_secret`: the private key's.
    pub fn source(&self) -> (r: [Location; 1])
        ensures
            r[0] == self.private_key,
    {
        [self.private_key.clone()]
    }
}

impl Verify {
    /// Checks `signature` against `msg` under the verifying key of the guarded
    /// signing key. A signature that does not match is answered with the byte
    /// 0; only a key or a signature that cannot be parsed is an error.
    pub fn use_secret(self, guard: [&[u8]; 1]) -> (r: Result<Vec<u8>, ProcedureError>)
        ensures
            yields(r, verify_result(guard[0]@, self.msg@, self.signature@)),
    {
        let sk = match parse_signing_key(guard[0]) {
            Ok(sk) => sk,
            Err(e) => {
                return Err(e);
            },
        };
        let sig = match parse_signature(self.signature.as_slice()) {
            Ok(sig) => sig,
            Err(e) => {
                return Err(e);
            },
        };
        let vk = sk.public_key();
        let res = vk.verify_sha256(&sig, self.msg.as_slice());
        Ok(verdict(res))
    }

    /// The locations to resolve before `use_secret`: the private key's.
    pub fn source(&self) -> (r: [Location; 1])
        ensures
            r[0] == self.private_key,
    {
        [self.private_key.clone()]
    }
}

impl GenerateKey {
    /// Draws a fresh signing key from the operating system's generator. The
    /// key is the secret of the products; the plaintext output is the unit
    /// value. One draw is made: where it yields no key, the call fails.
    pub fn generate(self) -> (r: Result<Products<()>, ProcedureError>)
        ensures
            r matches Ok(products) ==> is_signing_key(products_secret(products)),
            r matches Err(e) ==> e == ProcedureError::GenerationFailure,
    {
        let mut candidate: Vec<u8> = vec![0u8; SIGNING_KEY_LENGTH];
        match fill(candidate.as_mut_slice()) {
            Ok(_) => self.generate_from(candidate),
            Err(_) => Err(ProcedureError::GenerationFailure),
        }
    }

    /// Makes `candidate` the generated key if it is a signing key, and fails
    /// otherwise.
    pub fn generate_from(self, candidate: Vec<u8>) -> (r: Result<Products<()>, ProcedureError>)
        ensures
            r is Ok <==> is_signing_key(candidate@),
            r matches Ok(products) ==> products_secret(products) == candidate@,
            r matches Err(e) ==> e == ProcedureError::GenerationFailure,
    {
        match parse_signing_key(candidate.as_slice()) {
            Ok(_) => Ok(secret_products(candidate)),
            Err(_) => Err(ProcedureError::GenerationFailure),
        }
    }

    /// The location at which the generated secret is to be stored.
    pub fn target(&self) -> (r: &Location)
        ensures
            *r == self.output,
    {
        &self.output
    }
}

impl Es256kProcs {
    /// The location of the secret that the procedure reads, if it reads one.
    pub open spec fn spec_input(self) -> Option<Location> {
        match self {
            Es256kProcs::GenerateKey(_) => None,
            Es256kProcs::PublicKey(proc) => Some(proc.private_key),
            Es256kProcs::Sign(proc) => Some(proc.private_key),
            Es256kProcs::Verify(proc) => Some(proc.private_key),
        }
    }

    /// The location at which the procedure's secret is stored, if it produces
    /// one.
    pub open spec fn spec_output(self) -> Option<Location> {
        match self {
            Es256kProcs::GenerateKey(proc) => Some(proc.output),
            Es256kProcs::PublicKey(_) => None,
            Es256kProcs::Sign(_) => None,
            Es256kProcs::Verify(_) => None,
        }
    }

    /// What a procedure that reads a secret returns, given the bytes that the
    /// engine resolved for it, if it resolved any.
    pub open spec fn use_result(self, guard: Option<Seq<u8>>) -> Result<Seq<u8>, ProcedureError>
        recommends
            !(self is GenerateKey),
    {
        match guard {
            None => Err(ProcedureError::SecretResolutionFailure),
            Some(bytes) => match self {
                Es256kProcs::GenerateKey(_) => Err(ProcedureError::SecretResolutionFailure),
                Es256kProcs::PublicKey(_) => public_key_result(bytes),
                Es256kProcs::Sign(proc) => sign_result(bytes, proc.msg@),
                Es256kProcs::Verify(proc) => verify_result(bytes, proc.msg@, proc.signature@),
            },
        }
    }

    /// What holds of the plaintext output of a run that succeeded: nothing
    /// comes out of a generation; a public key is a compressed point; a
    /// signature verifies under the key and for the message it was made with;
    /// a verification answers with one byte, 0 or 1.
    pub open spec fn output_law(self, guard: Option<Seq<u8>>, output: Seq<u8>) -> bool {
        match self {
            Es256kProcs::GenerateKey(_) => output == Seq::<u8>::empty(),
            Es256kProcs::PublicKey(_) => is_compressed_point(output),
            Es256kProcs::Sign(proc) => {
                &&& guard matches Some(key)
                &&& verify_result(key, proc.msg@, output) == Ok::<Seq<u8>, ProcedureError>(
                    spec_verdict(true),
                )
            },
            Es256kProcs::Verify(_) => output == spec_verdict(false) || output == spec_verdict(true),
        }
    }

    /// The location of the secret that the procedure reads, if it reads one.
    pub fn input(&self) -> (r: Option<Location>)
        ensures
            r == self.spec_input(),
    {
        match self {
            Es256kProcs::GenerateKey(_) => None,
            Es256kProcs::PublicKey(proc) => Some(proc.private_key.clone()),
            Es256kProcs::Sign(proc) => Some(proc.private_key.clone()),
            Es256kProcs::Verify(proc) => Some(proc.private_key.clone()),
        }
    }

    /// The location at which the procedure's secret is stored, if it produces
    /// one.
    pub fn output(&self) -> (r: Option<Location>)
        ensures
            r == self.spec_output(),
    {
        match self {
            Es256kProcs::GenerateKey(proc) => Some(proc.output.clone()),
            Es256kProcs::PublicKey(_) => None,
            Es256kProcs::Sign(_) => None,
            Es256kProcs::Verify(_) => None,
        }
    }

    /// Runs the procedure. `guard` is what the engine resolved for `input()`:
    /// `None` where it resolved nothing. `GenerateKey` reads no secret and does
    /// not look at it; the other procedures fail without one.
    ///
    /// The plaintext output comes back in an envelope: empty for `GenerateKey`,
    /// whose secret is to be stored at `output()`; the bytes that `use_secret`
    /// returns for the others, which store nothing.
    pub fn execute(self, guard: Option<[&[u8]; 1]>) -> (r: Result<Execution, ProcedureError>)
        ensures
            self is GenerateKey ==> is_generation(r),
            !(self is GenerateKey) ==> envelops(r, self.use_result(guarded(guard))),
            r matches Ok(execution) ==> self.output_law(
                guarded(guard),
                output_bytes(execution.output),
            ),
    {
        match self {
            Es256kProcs::GenerateKey(proc) => match proc.generate() {
                Ok(products) => Ok(
                    Execution { secret: Some(products), output: ProcedureOutput::from(()) },
                ),
                Err(e) => Err(e),
            },
            Es256kProcs::PublicKey(proc) => match guard {
                Some(guard) => envelope(proc.use_secret(guard)),
                None => Err(ProcedureError::SecretResolutionFailure),
            },
            Es256kProcs::Sign(proc) => match guard {
                Some(guard) => envelope(proc.use_secret(guard)),
                None => Err(ProcedureError::SecretResolutionFailure),
            },
            Es256kProcs::Verify(proc) => match guard {
                Some(guard) => envelope(proc.use_secret(guard)),
                None => Err(ProcedureError::SecretResolutionFailure),
            },
        }
    }
}

/// Puts what a procedure that read a secret returned in its envelope: the
/// bytes, with nothing to store, or the error as it is.
pub fn envelope(used: Result<Vec<u8>, ProcedureError>) -> (r: Result<Execution, ProcedureError>)
    ensures
        used matches Ok(bytes) ==> (r matches Ok(execution) && execution.secret is None
            && output_bytes(execution.output) == bytes@),
        used matches Err(e) ==> r matches Err(f) && f == e,
{
    match used {
        Ok(bytes) => Ok(Execution { secret: None, output: ProcedureOutput::from(bytes) }),
        Err(e) => Err(e),
    }
}

/// Bytes that are no signing key fail every procedure that reads them with
/// `MalformedKey`, whatever the message and the signature: none of them
/// answers, and none returns an output.
pub proof fn malformed_key_fails_every_use(proc: Es256kProcs, guard: Seq<u8>)
    requires
        !(proc is GenerateKey),
        !is_signing_key(guard),
    ensures
        proc.use_result(Some(guard)) == Err::<Seq<u8>, ProcedureError>(
            ProcedureError::MalformedKey,
        ),
{
}

/// A signing key is never answered with `MalformedKey`: `PublicKey` returns
/// its verifying key, and `Sign` and `Verify` go on to the message and the
/// signature.
pub proof fn signing_key_is_read_by_every_use(key: Seq<u8>, msg: Seq<u8>, signature: Seq<u8>)
    requires
        is_signing_key(key),
    ensures
        public_key_result(key) == Ok::<Seq<u8>, ProcedureError>(verifying_key_of(key)),
        sign_result(key, msg) != Err::<Seq<u8>, ProcedureError>(ProcedureError::MalformedKey),
        verify_result(key, msg, signature) != Err::<Seq<u8>, ProcedureError>(
            ProcedureError::MalformedKey,
        ),
{
}

/// Under a signing key, `Verify` answers exactly the well-formed signatures,
/// each with the one byte 0 or 1; a signature that is not well formed is the
/// error `MalformedSignature`, never the answer 0.
pub proof fn verify_answers_well_formed_signatures(key: Seq<u8>, msg: Seq<u8>, signature: Seq<u8>)
    requires
        is_signing_key(key),
    ensures
        verify_result(key, msg, signature) is Ok <==> is_signature(signature),
        verify_result(key, msg, signature) matches Ok(answer) ==> answer == seq![0u8] || answer
            == seq![1u8],
        verify_result(key, msg, signature) matches Err(e) ==> e
            == ProcedureError::MalformedSignature,
{
}

/// A signature verifies: where `sign` ran on a key and returned the signature
/// that `verify` carries, with the message that `sign` carries, `verify`
/// answers 1 on the same key.
pub proof fn signed_message_verifies(sign: Sign, verify: Verify, key: Seq<u8>)
    requires
        Es256kProcs::Sign(sign).use_result(Some(key)) == Ok::<Seq<u8>, ProcedureError>(
            verify.signature@,
        ),
        Es256kProcs::Sign(sign).output_law(Some(key), verify.signature@),
        verify.msg@ == sign.msg@,
    ensures
        Es256kProcs::Verify(verify).use_result(Some(key)) == Ok::<Seq<u8>, ProcedureError>(
            seq![1u8],
        ),
{
}

/// What a procedure returns is never the secret it was lent: a public key, a
/// signature and an answer each differ from a signing key in length.
pub proof fn output_is_never_the_secret(proc: Es256kProcs, guard: Seq<u8>, output: Seq<u8>)
    requires
        !(proc is GenerateKey),
        proc.use_result(Some(guard)) == Ok::<Seq<u8>, ProcedureError>(output),
        proc.output_law(Some(guard), output),
    ensures
        output != guard,
        output.len() != guard.len(),
{
}

/// Every procedure but `GenerateKey` reads one secret and stores none, and
/// `GenerateKey` reads none and stores one.
pub proof fn reads_or_stores(proc: Es256kProcs)
    ensures
        proc.spec_input() is Some <==> !(proc is GenerateKey),
        proc.spec_output() is Some <==> proc is GenerateKey,
        proc.spec_input() is Some <==> proc.spec_output() is None,
{
}

/// The group order is no signing key: scalars end below it.
pub proof fn group_order_is_no_signing_key()
    ensures
        !is_signing_key(GROUP_ORDER@),
{
    lemma_group_order_bytes();
}

/// A string of zero bytes is no signing key, whatever its length.
pub proof fn zero_is_no_signing_key(guard: Seq<u8>)
    requires
        forall|i: int| 0 <= i < guard.len() ==> guard[i] == 0,
    ensures
        !is_signing_key(guard),
{
    lemma_zeros_spell_zero(guard);
}

} // verus!
