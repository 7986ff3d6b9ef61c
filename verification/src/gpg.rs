//! Signature verification anchored in DNS: the signer's key is looked up
//! under a name derived from the signing address, and a detached signature
//! is checked against it.

use std::io::BufReader;

use pgp::composed::{Deserializable, DetachedSignature, SignedPublicKey};
use pgp::types::{KeyDetails, Mpi, PublicKeyTrait, PublicParams};
use rsa::traits::PublicKeyParts;
use sha2::{Digest, Sha256};
use vstd::prelude::*;
use vstd::slice::slice_subrange;
use vstd::std_specs::iter::IteratorSpec;
use vstd::string::*;
use vstd::utf8::encode_utf8;

verus! {

/// The resource-record type under which keys are published.
pub const OPENPGPKEY_RECORD_TYPE: u16 = 61;

/// How many bytes of the digest of the local part go into the query name.
pub const DIGEST_PREFIX_LEN: usize = 28;

/// How many bytes of its modulus make the identity of a key of version 2 or
/// 3.
pub const LEGACY_KEY_ID_LEN: usize = 8;

/// What went wrong on the way from a signing address to a verified
/// signature.
#[derive(Debug, Clone, Copy, PartialEq, Eq, Structural)]
pub enum GpgErrorKind {
    /// The signing address does not have exactly one `@`.
    AddressFormatError,
    /// The DNS lookup itself failed.
    ResolutionError,
    /// The lookup brought no record that can hold a key.
    RecordFormatError,
    /// The key payload is not a public key.
    KeyParseError,
    /// The armored text is not a detached signature.
    SignatureParseError,
    /// Key and signature are sound, but the signature does not match.
    VerificationFailed,
}

/// What a caller outside may learn of a verification.
#[derive(Debug, Clone, Copy, PartialEq, Eq, Structural)]
pub enum Verdict {
    Verified,
    /// No key could be located.
    Unavailable,
    /// A key was located and the signature did not pass.
    Invalid,
}

/// A failure with its detail, which is for operators.
#[derive(Debug, Clone, PartialEq, Eq)]
pub struct GpgError {
    pub kind: GpgErrorKind,
    pub message: String,
}

/// A failure as contracts see it.
pub ghost struct GpgErrorView {
    pub kind: GpgErrorKind,
    pub message: Seq<char>,
}

impl View for GpgError {
    type V = GpgErrorView;

    open spec fn view(&self) -> GpgErrorView {
        GpgErrorView { kind: self.kind, message: self.message@ }
    }
}

/// The DNS query that locates a key.
#[derive(Debug, Clone, PartialEq, Eq)]
pub struct KeyQuery {
    pub name: String,
    pub record_type: u16,
}

/// One record of a DNS answer, reduced to what key discovery reads.
#[derive(Debug, Clone, PartialEq, Eq)]
pub enum KeyRecord {
    /// A record of the key type, with its key payload.
    OpenPgpKey(Vec<u8>),
    /// A record the resolver could not type, with its raw payload. It is
    /// trusted like a typed record.
    Unknown(Vec<u8>),
    /// A record of any other type.
    Other,
}

/// A record as contracts see it.
pub ghost enum KeyRecordView {
    OpenPgpKey(Seq<u8>),
    Unknown(Seq<u8>),
    Other,
}

impl View for KeyRecord {
    type V = KeyRecordView;

    open spec fn view(&self) -> KeyRecordView {
        match self {
            KeyRecord::OpenPgpKey(k) => KeyRecordView::OpenPgpKey(k@),
            KeyRecord::Unknown(k) => KeyRecordView::Unknown(k@),
            KeyRecord::Other => KeyRecordView::Other,
        }
    }
}

/// The SHA-256 digest of `data`.
pub uninterp spec fn sha256(data: Seq<u8>) -> Seq<u8>;

/// What reading `data` as a public key gives, `None` where it is no public
/// key: the version of the key and, for an RSA key, the number of bytes of
/// its modulus.
pub uninterp spec fn key_shape(data: Seq<u8>) -> Option<(u8, Option<usize>)>;

/// A key of this version and modulus length can be held against a
/// signature. Keys of version 4 and 6 can. A key of version 2 or 3 is
/// known by the last 8 bytes of its RSA modulus, so it can only where its
/// modulus has that many. No other version can.
pub open spec fn spec_checkable(version: u8, rsa_modulus_len: Option<usize>) -> bool {
    ||| version == 4
    ||| version == 6
    ||| (version == 2 || version == 3) && rsa_modulus_len is Some && rsa_modulus_len->0
        >= LEGACY_KEY_ID_LEN
}

/// `data` is the binary form of a public key that can be held against a
/// signature.
pub open spec fn key_accepted(data: Seq<u8>) -> bool {
    key_shape(data) matches Some(shape) && spec_checkable(shape.0, shape.1)
}

/// `armor` is the armored form of a detached signature.
pub uninterp spec fn signature_parses(armor: Seq<char>) -> bool;

/// The check of the detached signature that `armor` writes, against the
/// public key that `key` writes and over `content`, passes. Whether a
/// change of line endings in `content` makes a difference depends on the
/// type of the signature. It has a meaning only where the key is accepted
/// and the signature parses.
pub uninterp spec fn signature_matches(key: Seq<u8>, armor: Seq<char>, content: Seq<u8>) -> bool;

/// The lower-case hexadecimal digit for a value below 16.
pub open spec fn hex_digit(n: int) -> char {
    seq!['0', '1', '2', '3', '4', '5', '6', '7', '8', '9', 'a', 'b', 'c', 'd', 'e', 'f'][n]
}

/// The lower-case hexadecimal text of `data`, two digits per byte with the
/// high half first.
pub open spec fn hex_string(data: Seq<u8>) -> Seq<char> {
    Seq::new(
        2 * data.len(),
        |i: int|
            if i % 2 == 0 {
                hex_digit(data[i / 2] as int / 16)
            } else {
                hex_digit(data[i / 2] as int % 16)
            },
    )
}

/// `email` has its only `@` at position `at`.
pub open spec fn splits_at(email: Seq<char>, at: int) -> bool {
    &&& 0 <= at < email.len()
    &&& email[at] == '@'
    &&& forall|j: int| 0 <= j < email.len() && j != at ==> email[j] != '@'
}

/// `email` has exactly one `@`.
pub open spec fn well_formed_address(email: Seq<char>) -> bool {
    exists|at: int| splits_at(email, at)
}

/// The name under which the key for `local` at `domain` is published.
pub open spec fn dns_name(local: Seq<char>, domain: Seq<char>) -> Seq<char> {
    hex_string(sha256(encode_utf8(local)).subrange(0, DIGEST_PREFIX_LEN as int)) + "._openpgpkey."@
        + domain
}

/// The part of a well-formed address before its `@`.
pub open spec fn local_part(email: Seq<char>) -> Seq<char> {
    email.subrange(0, choose|at: int| splits_at(email, at))
}

/// The part of a well-formed address after its `@`.
pub open spec fn domain_part(email: Seq<char>) -> Seq<char> {
    email.subrange((choose|at: int| splits_at(email, at)) + 1, email.len() as int)
}

/// The query name for a signing address, `None` for a malformed one.
pub open spec fn spec_dns_path(email: Seq<char>) -> Option<Seq<char>> {
    if well_formed_address(email) {
        Some(dns_name(local_part(email), domain_part(email)))
    } else {
        None
    }
}

/// A failure of the given kind with the given detail.
pub open spec fn failure(kind: GpgErrorKind, message: Seq<char>) -> GpgErrorView {
    GpgErrorView { kind, message }
}

/// Calls `Sha256::digest` of the sha2 crate. Trusted: the result is the
/// SHA-256 digest of the input, which is 32 bytes long.
#[verifier::external_body]
fn sha256_digest(data: &[u8]) -> (r: Vec<u8>)
    ensures
        r@ == sha256(data@),
        r@.len() == 32,
{
    Sha256::digest(data).to_vec()
}

/// Calls `hex::encode`. Trusted: the result holds, for each input byte in
/// order, the lower-case hexadecimal digit of its high half and then of its
/// low half.
#[verifier::external_body]
fn hex_encode(data: &[u8]) -> (r: String)
    ensures
        r@ == hex_string(data@),
{
    hex::encode(data)
}

/// Calls `SignedPublicKey::from_bytes` of the pgp crate on a buffered
/// reader over `data` and takes from the key its version and, where its
/// parameters are those of an RSA key, the length of its modulus as the
/// pgp crate measures it for the key's identity. Trusted: the outcome
/// depends on the bytes alone.
#[verifier::external_body]
fn read_public_key(data: &[u8]) -> (r: Result<(u8, Option<usize>), pgp::errors::Error>)
    ensures
        key_shape(data@) == match r {
            Ok(shape) => Some(shape),
            Err(_) => None,
        },
{
    let key = SignedPublicKey::from_bytes(BufReader::new(data))?;
    let rsa_modulus_len = match key.public_params() {
        PublicParams::RSA(params) => Some(Mpi::from(params.key.n()).len()),
        _ => None,
    };
    Ok((key.version().into(), rsa_modulus_len))
}

/// Calls `DetachedSignature::from_string` of the pgp crate and drops the
/// armor headers. Trusted: whether it succeeds depends on the text alone.
#[verifier::external_body]
fn parse_signature(armor: &str) -> (r: Result<DetachedSignature, pgp::errors::Error>)
    ensures
        r is Ok == signature_parses(armor@),
{
    DetachedSignature::from_string(armor).map(|parsed| parsed.0)
}

/// Calls `DetachedSignature::verify` of the pgp crate on the key that
/// `SignedPublicKey::from_bytes` reads from `key_data` and the signature
/// that `DetachedSignature::from_string` reads from `signature_armor`. The
/// call asks the key for its identity, which the pgp crate cannot give for
/// a key of version 2 or 3 with a modulus under 8 bytes: such a key is kept
/// out. Trusted: for an accepted key it succeeds only where the signature
/// parses, and where it parses, whether it succeeds depends on the key
/// bytes, the armored text and the content alone: the check reads no clock
/// and no other state.
#[verifier::external_body]
fn check_signature(key_data: &[u8], signature_armor: &str, content: &[u8]) -> (r: Result<
    (),
    pgp::errors::Error,
>)
    requires
        key_accepted(key_data@),
    ensures
        r is Ok ==> signature_parses(signature_armor@),
        signature_parses(signature_armor@) ==> (r is Ok == signature_matches(
            key_data@,
            signature_armor@,
            content@,
        )),
{
    let key = SignedPublicKey::from_bytes(BufReader::new(key_data))?;
    let (signature, _) = DetachedSignature::from_string(signature_armor)?;
    signature.verify(&key, content)
}

/// The text of an error of the pgp crate. Nothing is claimed of it.
#[verifier::external_body]
fn error_text(e: &pgp::errors::Error) -> String {
    e.to_string()
}

/// `DetachedSignature` of the pgp crate: what a successful parse of a
/// detached signature gives. It is never looked into.
#[verifier::external_type_specification]
#[verifier::external_body]
pub struct ExDetachedSignature(DetachedSignature);

/// `Error` of the pgp crate. Only its text is taken.
#[verifier::external_type_specification]
#[verifier::external_body]
pub struct ExPgpError(pgp::errors::Error);

/// What a caller outside may learn of a failure of the given kind: a key
/// that could not be located makes verification unavailable, everything
/// after that makes the signature invalid.
pub open spec fn spec_outward(kind: GpgErrorKind) -> Verdict {
    match kind {
        GpgErrorKind::AddressFormatError
        | GpgErrorKind::ResolutionError
        | GpgErrorKind::RecordFormatError => Verdict::Unavailable,
        GpgErrorKind::KeyParseError
        | GpgErrorKind::SignatureParseError
        | GpgErrorKind::VerificationFailed => Verdict::Invalid,
    }
}

impl GpgErrorKind {
    /// What a caller outside may learn of this failure.
    pub fn outward(&self) -> (r: Verdict)
        ensures
            r == spec_outward(*self),
    {
        match self {
            GpgErrorKind::AddressFormatError => Verdict::Unavailable,
            GpgErrorKind::ResolutionError => Verdict::Unavailable,
            GpgErrorKind::RecordFormatError => Verdict::Unavailable,
            GpgErrorKind::KeyParseError => Verdict::Invalid,
            GpgErrorKind::SignatureParseError => Verdict::Invalid,
            GpgErrorKind::VerificationFailed => Verdict::Invalid,
        }
    }
}

/// What a caller outside may learn of a verification's result. Only a
/// success counts as verified.
pub fn verdict(result: &Result<(), GpgError>) -> (r: Verdict)
    ensures
        r == match *result {
            Ok(()) => Verdict::Verified,
            Err(e) => spec_outward(e.kind),
        },
        r is Verified <==> result is Ok,
{
    match result {
        Ok(()) => Verdict::Verified,
        Err(e) => e.kind.outward(),
    }
}

/// The records of an answer as contracts see them.
pub open spec fn records_view(records: Seq<KeyRecord>) -> Seq<KeyRecordView> {
    records.map_values(|r: KeyRecord| r@)
}

/// The key payload that an answer holds: that of its first record, where
/// that record is of the key type or untyped.
pub open spec fn spec_select_key(records: Seq<KeyRecordView>) -> Result<Seq<u8>, GpgErrorView> {
    if records.len() == 0 {
        Err(failure(GpgErrorKind::RecordFormatError, "No OPENPGPKEY record found"@))
    } else {
        match records[0] {
            KeyRecordView::OpenPgpKey(key) => Ok(key),
            KeyRecordView::Unknown(raw) => Ok(raw),
            KeyRecordView::Other => Err(
                failure(
                    GpgErrorKind::RecordFormatError,
                    "Record found but not in a recognized format"@,
                ),
            ),
        }
    }
}

/// The key payload located for a signing address, given what the lookup
/// under its query name brought: the records of the answer, or the text of
/// the resolver's failure.
pub open spec fn spec_fetch(
    email: Seq<char>,
    answer: Result<Seq<KeyRecordView>, Seq<char>>,
) -> Result<Seq<u8>, GpgErrorView> {
    if !well_formed_address(email) {
        Err(failure(GpgErrorKind::AddressFormatError, "Invalid email format"@))
    } else {
        match answer {
            Err(text) => Err(failure(GpgErrorKind::ResolutionError, text)),
            Ok(records) => spec_select_key(records),
        }
    }
}

/// The views of a located key or of the failure to locate it.
pub open spec fn key_view(r: Result<Vec<u8>, GpgError>) -> Result<Seq<u8>, GpgErrorView> {
    match r {
        Ok(key) => Ok(key@),
        Err(e) => Err(e@),
    }
}

/// The views of what a lookup brought.
pub open spec fn answer_view(answer: Result<Vec<KeyRecord>, String>) -> Result<
    Seq<KeyRecordView>,
    Seq<char>,
> {
    match answer {
        Ok(records) => Ok(records_view(records@)),
        Err(text) => Err(text@),
    }
}

/// The view of a verification's result.
pub open spec fn done_view(r: Result<(), GpgError>) -> Result<(), GpgErrorView> {
    match r {
        Ok(()) => Ok(()),
        Err(e) => Err(e@),
    }
}

/// Picks the key payload out of a DNS answer.
pub fn select_key(records: Vec<KeyRecord>) -> (r: Result<Vec<u8>, GpgError>)
    ensures
        key_view(r) == spec_select_key(records_view(records@)),
{
    let mut records = records;
    if records.len() == 0 {
        return Err(
            GpgError {
                kind: GpgErrorKind::RecordFormatError,
                message: "No OPENPGPKEY record found".to_owned(),
            },
        );
    }
    let ghost first = records_view(records@)[0];
    proof {
        assert(first == records@[0]@);
    }
    match records.remove(0) {
        KeyRecord::OpenPgpKey(key) => Ok(key),
        KeyRecord::Unknown(raw) => Ok(raw),
        KeyRecord::Other => Err(
            GpgError {
                kind: GpgErrorKind::RecordFormatError,
                message: "Record found but not in a recognized format".to_owned(),
            },
        ),
    }
}

/// The failure for a key payload that is no public key.
pub fn key_parse_error(detail: String) -> (r: GpgError)
    ensures
        r@ == failure(GpgErrorKind::KeyParseError, "Failed to parse public key: "@ + detail@),
{
    GpgError {
        kind: GpgErrorKind::KeyParseError,
        message: "Failed to parse public key: ".to_owned().concat(detail.as_str()),
    }
}

/// The failure for an armored text that is no detached signature.
pub fn signature_parse_error(detail: String) -> (r: GpgError)
    ensures
        r@ == failure(
            GpgErrorKind::SignatureParseError,
            "Failed to parse armored signature: "@ + detail@,
        ),
{
    GpgError {
        kind: GpgErrorKind::SignatureParseError,
        message: "Failed to parse armored signature: ".to_owned().concat(detail.as_str()),
    }
}

/// The outcome of a verification, given what the signature check said: its
/// success, or the text of its failure.
pub fn verification_result(checked: Result<(), String>) -> (r: Result<(), GpgError>)
    ensures
        done_view(r) == match checked {
            Ok(()) => Ok::<(), GpgErrorView>(()),
            Err(detail) => Err::<(), GpgErrorView>(
                failure(GpgErrorKind::VerificationFailed, "GPG Verification failed: "@ + detail@),
            ),
        },
{
    match checked {
        Ok(()) => Ok(()),
        Err(detail) => Err(
            GpgError {
                kind: GpgErrorKind::VerificationFailed,
                message: "GPG Verification failed: ".to_owned().concat(detail.as_str()),
            },
        ),
    }
}

/// How a check of `armor` over `content` against `key` fails, `None` where
/// it succeeds: a key that is not accepted comes first, then a signature
/// that does not parse, then a signature that does not match.
pub open spec fn spec_verify(key: Seq<u8>, armor: Seq<char>, content: Seq<u8>) -> Option<
    GpgErrorKind,
> {
    if !key_accepted(key) {
        Some(GpgErrorKind::KeyParseError)
    } else if !signature_parses(armor) {
        Some(GpgErrorKind::SignatureParseError)
    } else if !signature_matches(key, armor, content) {
        Some(GpgErrorKind::VerificationFailed)
    } else {
        None
    }
}

/// The kind of a verification's failure, `None` for a success.
pub open spec fn failure_kind(r: Result<(), GpgError>) -> Option<GpgErrorKind> {
    match r {
        Ok(()) => None,
        Err(e) => Some(e.kind),
    }
}

/// The words that open the detail of a failed check.
pub open spec fn detail_prefix(kind: GpgErrorKind) -> Seq<char> {
    match kind {
        GpgErrorKind::KeyParseError => "Failed to parse public key: "@,
        GpgErrorKind::SignatureParseError => "Failed to parse armored signature: "@,
        _ => "GPG Verification failed: "@,
    }
}

/// Decides whether a key of the given version and RSA modulus length can be
/// held against a signature.
pub fn is_checkable(version: u8, rsa_modulus_len: Option<usize>) -> (r: bool)
    ensures
        r == spec_checkable(version, rsa_modulus_len),
{
    if version == 4 || version == 6 {
        return true;
    }
    if version == 2 || version == 3 {
        return match rsa_modulus_len {
            Some(len) => len >= LEGACY_KEY_ID_LEN,
            None => false,
        };
    }
    false
}

/// Checks a detached signature over `content` against a public key. The
/// content is handed to the check as it is given, no byte changed. It
/// succeeds exactly where the key is accepted, the signature parses and
/// the check of the signature passes. A key that is no key, or that cannot
/// be held against a signature, and a signature that does not parse are
/// told apart from a signature that does not match. There is no outcome
/// between success and failure.
pub fn verify_detached(
    key_data: &[u8],
    signature_armor: &str,
    content: &[u8],
) -> (r: Result<(), GpgError>)
    ensures
        failure_kind(r) == spec_verify(key_data@, signature_armor@, content@),
        r is Ok <==> key_accepted(key_data@) && signature_parses(signature_armor@)
            && signature_matches(key_data@, signature_armor@, content@),
        r is Err ==> detail_prefix(r->Err_0.kind).is_prefix_of(r->Err_0.message@),
{
    let shape = match read_public_key(key_data) {
        Ok(shape) => shape,
        Err(cause) => {
            let detail = error_text(&cause);
            proof {
                lemma_prefix_of_concat("Failed to parse public key: "@, detail@);
            }
            return Err(key_parse_error(detail));
        },
    };
    if !is_checkable(shape.0, shape.1) {
        let detail = "the key has no identity that a signature can name".to_owned();
        proof {
            lemma_prefix_of_concat("Failed to parse public key: "@, detail@);
        }
        return Err(key_parse_error(detail));
    }
    let refused = match check_signature(key_data, signature_armor, content) {
        Ok(()) => {
            return Ok(());
        },
        Err(e) => e,
    };
    // A refusal is told apart by reading the signature on its own.
    if let Err(cause) = parse_signature(signature_armor) {
        let detail = error_text(&cause);
        proof {
            lemma_prefix_of_concat("Failed to parse armored signature: "@, detail@);
        }
        return Err(signature_parse_error(detail));
    }
    let detail = error_text(&refused);
    proof {
        lemma_prefix_of_concat("GPG Verification failed: "@, detail@);
    }
    verification_result(Err(detail))
}

proof fn lemma_prefix_of_concat(prefix: Seq<char>, rest: Seq<char>)
    ensures
        prefix.is_prefix_of(prefix + rest),
{
    assert((prefix + rest).subrange(0, prefix.len() as int) =~= prefix);
}

/// Verifies content against the key published for one signing address.
pub struct GpgVerifier {
    email: String,
}

impl View for GpgVerifier {
    type V = Seq<char>;

    /// The signing address.
    closed spec fn view(&self) -> Seq<char> {
        self.email@
    }
}

impl GpgVerifier {
    pub fn new(email: String) -> (r: Self)
        ensures
            r@ == email@,
    {
        Self { email }
    }

    /// Derives the DNS query name for the signing address: the hexadecimal
    /// text of the first 28 bytes of the SHA-256 digest of the local part,
    /// which makes a label of 56 digits, before `_openpgpkey` under the
    /// address's domain. An address without exactly one `@` is refused.
    pub fn get_dns_path(&self) -> (r: Result<String, GpgError>)
        ensures
            match spec_dns_path(self@) {
                Some(path) => r is Ok && r->Ok_0@ == path,
                None => r is Err && r->Err_0@ == failure(
                    GpgErrorKind::AddressFormatError,
                    "Invalid email format"@,
                ),
            },
            r is Ok ==> r->Ok_0@.len() == 2 * DIGEST_PREFIX_LEN + "._openpgpkey."@.len()
                + domain_part(self@).len(),
    {
        broadcast use vstd::string::group_string_axioms;

        let email = self.email.as_str();
        let n: usize = email.unicode_len();
        let mut rest = email.chars();
        let mut found: Option<usize> = None;
        let mut i: usize = 0;
        while i < n
            invariant
                i <= n,
                n == email@.len(),
                email@ == self@,
                rest.remaining() == email@.skip(i as int),
                match found {
                    Some(at) => at < i && email@[at as int] == '@' && forall|j: int|
                        0 <= j < i && j != at ==> email@[j] != '@',
                    None => forall|j: int| 0 <= j < i ==> email@[j] != '@',
                },
            decreases n - i,
        {
            proof {
                assert(email@.skip(i as int).drop_first() =~= email@.skip(i + 1));
            }
            let c = rest.next();
            if c == Some('@') {
                if let Some(at) = found {
                    proof {
                        assert forall|k: int| !splits_at(email@, k) by {
                            if k == at {
                                assert(email@[i as int] == '@');
                            } else {
                                assert(email@[at as int] == '@');
                            }
                        }
                    }
                    return Err(
                        GpgError {
                            kind: GpgErrorKind::AddressFormatError,
                            message: "Invalid email format".to_owned(),
                        },
                    );
                }
                found = Some(i);
            }
            i = i + 1;
        }
        match found {
            None => {
                proof {
                    assert forall|k: int| !splits_at(email@, k) by {}
                }
                Err(
                    GpgError {
                        kind: GpgErrorKind::AddressFormatError,
                        message: "Invalid email format".to_owned(),
                    },
                )
            },
            Some(at) => {
                proof {
                    assert(splits_at(email@, at as int));
                    let chosen = choose|k: int| splits_at(email@, k);
                    assert(chosen == at) by {
                        if chosen != at {
                            assert(email@[at as int] == '@');
                        }
                    }
                }
                let local = email.substring_char(0, at);
                let domain = email.substring_char(at + 1, n);
                let digest = sha256_digest(local.as_bytes());
                let label = hex_encode(slice_subrange(digest.as_slice(), 0, DIGEST_PREFIX_LEN));
                Ok(label.concat("._openpgpkey.").concat(domain))
            },
        }
    }

    /// The query to send for the key of the signing address. A malformed
    /// address yields no query, so that nothing is sent for it.
    pub fn key_query(&self) -> (r: Result<KeyQuery, GpgError>)
        ensures
            match spec_dns_path(self@) {
                Some(path) => r is Ok && r->Ok_0.name@ == path && r->Ok_0.record_type
                    == OPENPGPKEY_RECORD_TYPE,
                None => r is Err && r->Err_0@ == failure(
                    GpgErrorKind::AddressFormatError,
                    "Invalid email format"@,
                ),
            },
    {
        match self.get_dns_path() {
            Ok(name) => Ok(KeyQuery { name, record_type: OPENPGPKEY_RECORD_TYPE }),
            Err(e) => Err(e),
        }
    }

    /// Locates the key payload for the signing address in what the lookup
    /// under its query name brought. A malformed address fails as such
    /// whatever the lookup brought.
    pub fn fetch_public_key(
        &self,
        answer: Result<Vec<KeyRecord>, String>,
    ) -> (r: Result<Vec<u8>, GpgError>)
        ensures
            key_view(r) == spec_fetch(self@, answer_view(answer)),
    {
        if let Err(e) = self.get_dns_path() {
            return Err(e);
        }
        match answer {
            Err(text) => Err(GpgError { kind: GpgErrorKind::ResolutionError, message: text }),
            Ok(records) => select_key(records),
        }
    }

    /// Verifies `content` against a detached signature with the key that
    /// was located for the signing address. Without a key the failure to
    /// locate it is the result. With one, the bytes of `content` are handed
    /// to the check unchanged, and it succeeds exactly where the key is
    /// accepted, the signature parses and the check of the signature
    /// passes.
    pub fn verify(
        &self,
        key: Result<Vec<u8>, GpgError>,
        content: &str,
        signature_armor: &str,
    ) -> (r: Result<(), GpgError>)
        ensures
            key is Err ==> done_view(r) == Err::<(), GpgErrorView>(key->Err_0@),
            key is Ok ==> {
                &&& failure_kind(r) == spec_verify(
                    key->Ok_0@,
                    signature_armor@,
                    content.spec_bytes(),
                )
                &&& r is Ok <==> key_accepted(key->Ok_0@) && signature_parses(signature_armor@)
                    && signature_matches(key->Ok_0@, signature_armor@, content.spec_bytes())
                &&& r is Err ==> detail_prefix(r->Err_0.kind).is_prefix_of(r->Err_0.message@)
            },
    {
        match key {
            Err(e) => Err(e),
            Ok(data) => verify_detached(data.as_slice(), signature_armor, content.as_bytes()),
        }
    }
}

} // verus!
