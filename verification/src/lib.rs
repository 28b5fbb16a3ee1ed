//! One-time passwords following RFC 4226 (HOTP) and RFC 6238 (TOTP).
//!
//! A shared secret (base32, RFC 4648 alphabet, no padding) and a counter —
//! either given directly or derived from the time as 30-second steps since the
//! Unix epoch — are turned into a 6-digit code: the secret is decoded, an
//! HMAC-SHA1 is computed over the 8-byte big-endian counter, a 31-bit value is
//! extracted by dynamic truncation, and the code is its remainder modulo
//! 1,000,000.

use vstd::prelude::*;

pub mod render;

verus! {

/// What `data_encoding::BASE32_NOPAD.decode` returns on a given input:
/// `Some` of the decoded bytes when the input is valid base32 without
/// padding, `None` when decoding is refused.
pub uninterp spec fn base32_decoded(s: Seq<char>) -> Option<Seq<u8>>;

/// What `hmac_sha1::hmac_sha1` returns: the 20-byte HMAC-SHA1 digest of a
/// message under a key, a function of the two arguments alone.
pub uninterp spec fn hmac_sha1_digest(key: Seq<u8>, message: Seq<u8>) -> Seq<u8>;

/// The diagnosis `data_encoding::BASE32_NOPAD.decode` makes of a refused
/// input: the kind of the first fault and the position at which it was found,
/// a function of the input alone.
pub uninterp spec fn base32_fault(s: Seq<char>) -> DecodeError;

/// Why base32 decoding of a secret was refused, mirroring the diagnosis made
/// by `data_encoding`: the kind of fault and the input position at which it
/// was found.
#[derive(Debug, Clone, Copy, PartialEq, Eq, Structural)]
pub struct DecodeError {
    /// Input position of the first fault.
    pub position: usize,
    /// The kind of fault.
    pub kind: DecodeKind,
}

/// The kind of fault found while decoding base32.
#[derive(Debug, Clone, Copy, PartialEq, Eq, Structural)]
pub enum DecodeKind {
    /// The input length is not one that base32 grouping allows.
    Length,
    /// A character outside the base32 alphabet.
    Symbol,
    /// Non-zero bits trail the last full byte.
    Trailing,
    /// Padding of an invalid length.
    Padding,
}

/// Why no code could be produced.
#[derive(Debug, Clone, Copy, PartialEq, Eq, Structural)]
pub enum OtpError {
    /// The system clock reported a time earlier than the Unix epoch.
    UnixEpochError,
    /// The secret is not valid base32.
    PrivateKeyError(DecodeError),
}

/// Relies on `data_encoding::BASE32_NOPAD.decode`: decoding succeeds exactly
/// on inputs in the RFC 4648 base32 alphabet without padding whose length and
/// trailing bits are consistent with 5-bit grouping, the decoded bytes depend
/// on the input alone, and an error carries the kind of fault and the
/// position of the first fault.
#[verifier::external_body]
fn base32_decode(key: &str) -> (r: Result<Vec<u8>, DecodeError>)
    ensures
        r is Ok <==> base32_decoded(key@) is Some,
        r matches Ok(bytes) ==> bytes@ == base32_decoded(key@).unwrap(),
        r matches Err(e) ==> e == base32_fault(key@),
{
    match data_encoding::BASE32_NOPAD.decode(key.as_bytes()) {
        Ok(bytes) => Ok(bytes),
        Err(e) => Err(DecodeError {
            position: e.position,
            kind: match e.kind {
                data_encoding::DecodeKind::Length => DecodeKind::Length,
                data_encoding::DecodeKind::Symbol => DecodeKind::Symbol,
                data_encoding::DecodeKind::Trailing => DecodeKind::Trailing,
                data_encoding::DecodeKind::Padding => DecodeKind::Padding,
            },
        }),
    }
}

/// Relies on `hmac_sha1::hmac_sha1`: the HMAC-SHA1 digest of a message under
/// a key of any length, 20 bytes depending on the two arguments alone.
#[verifier::external_body]
fn hmac_sha1_bytes(key: &[u8], message: &[u8; 8]) -> (r: [u8; 20])
    ensures
        r@ == hmac_sha1_digest(key@, message@),
{
    hmac_sha1::hmac_sha1(key, message)
}

/// The fixed-width big-endian encoding of a counter: 8 bytes, most
/// significant first, whatever the counter's magnitude.
pub open spec fn counter_bytes(counter: u64) -> Seq<u8> {
    seq![
        ((counter >> 56) & 0xff) as u8,
        ((counter >> 48) & 0xff) as u8,
        ((counter >> 40) & 0xff) as u8,
        ((counter >> 32) & 0xff) as u8,
        ((counter >> 24) & 0xff) as u8,
        ((counter >> 16) & 0xff) as u8,
        ((counter >> 8) & 0xff) as u8,
        (counter & 0xff) as u8,
    ]
}

fn counter_to_be_bytes(counter: u64) -> (r: [u8; 8])
    ensures
        r@ == counter_bytes(counter),
{
    proof {
        assert((counter >> 56) & 0xff < 256 && (counter >> 48) & 0xff < 256
            && (counter >> 40) & 0xff < 256 && (counter >> 32) & 0xff < 256
            && (counter >> 24) & 0xff < 256 && (counter >> 16) & 0xff < 256
            && (counter >> 8) & 0xff < 256 && counter & 0xff < 256) by (bit_vector);
    }
    let r: [u8; 8] = [
        ((counter >> 56) & 0xff) as u8,
        ((counter >> 48) & 0xff) as u8,
        ((counter >> 40) & 0xff) as u8,
        ((counter >> 32) & 0xff) as u8,
        ((counter >> 24) & 0xff) as u8,
        ((counter >> 16) & 0xff) as u8,
        ((counter >> 8) & 0xff) as u8,
        (counter & 0xff) as u8,
    ];
    proof {
        assert(r@ =~= counter_bytes(counter));
    }
    r
}

/// The truncation offset a digest selects: the low 4 bits of its last byte.
pub open spec fn spec_offset(digest: Seq<u8>) -> usize
    recommends
        digest.len() == 20,
{
    (digest[19] & 0x0f) as usize
}

/// The low 4 bits of the digest's last byte: the start of the 4-byte window
/// that dynamic truncation reads, always at most 15.
pub fn offset(hash: &[u8; 20]) -> (r: usize)
    ensures
        r == spec_offset(hash@),
        r <= 15,
{
    let last = hash[19];
    proof {
        assert(last & 0x0f <= 15) by (bit_vector);
    }
    (last & 0x0f) as usize
}

/// The 31-bit value dynamic truncation extracts: the 4 bytes of the digest
/// starting at `off`, packed big-endian, with the top bit of the first byte
/// cleared.
pub open spec fn spec_truncate(digest: Seq<u8>, off: int) -> u32
    recommends
        digest.len() == 20,
        0 <= off <= 15,
{
    (((digest[off] & 0x7f) as u32) << 24) | ((digest[off + 1] as u32) << 16)
        | ((digest[off + 2] as u32) << 8) | (digest[off + 3] as u32)
}

/// Dynamic truncation of a 20-byte digest at an offset in [0, 15]: packs
/// `hash[offset..offset + 4]` big-endian with the top bit cleared, so the
/// result always fits in 31 bits.
pub fn truncate_hash(hash: &[u8; 20], offset: usize) -> (r: u32)
    requires
        offset <= 15,
    ensures
        r == spec_truncate(hash@, offset as int),
        r < 0x8000_0000,
{
    let b0 = hash[offset];
    let b1 = hash[offset + 1];
    let b2 = hash[offset + 2];
    let b3 = hash[offset + 3];
    proof {
        assert((((b0 & 0x7f) as u32) << 24) | ((b1 as u32) << 16) | ((b2 as u32) << 8) | (
        b3 as u32) < 0x8000_0000) by (bit_vector);
    }
    (((b0 & 0x7f) as u32) << 24) | ((b1 as u32) << 16) | ((b2 as u32) << 8) | (b3 as u32)
}

/// The digest the counter-based generator hashes: HMAC-SHA1 of the big-endian
/// counter under the decoded secret.
pub open spec fn otp_digest(key: Seq<char>, counter: u64) -> Seq<u8>
    recommends
        base32_decoded(key) is Some,
{
    hmac_sha1_digest(base32_decoded(key).unwrap(), counter_bytes(counter))
}

/// The code the counter-based generator owes a valid secret: dynamic
/// truncation of the digest at the offset the digest itself selects, reduced
/// modulo 1,000,000.
pub open spec fn otp_code(key: Seq<char>, counter: u64) -> u32
    recommends
        base32_decoded(key) is Some,
{
    let digest = otp_digest(key, counter);
    (spec_truncate(digest, spec_offset(digest) as int) % 1_000_000) as u32
}

/// What the counter-based generator returns on a secret and counter: the code
/// of `otp_code`, in [0, 999,999], exactly when the secret decodes; exactly
/// otherwise, the decoder's own diagnosis of the secret — so the whole
/// result, error included, is a function of the two arguments.
pub open spec fn otp_result_matches(key: Seq<char>, counter: u64, r: Result<
    u32,
    OtpError,
>) -> bool {
    match r {
        Ok(code) => base32_decoded(key) is Some && code == otp_code(key, counter) && code
            < 1_000_000,
        Err(e) => base32_decoded(key) is None && e == OtpError::PrivateKeyError(
            base32_fault(key),
        ),
    }
}

/// The counter-based one-time password: decodes the secret, hashes the 8-byte
/// big-endian counter with HMAC-SHA1, truncates dynamically, and reduces
/// modulo 1,000,000. Returns the code exactly when the secret is valid base32
/// without padding, and the position and kind of the decoding fault when it
/// is not.
pub fn create_otp(key: &str, counter: u64) -> (r: Result<u32, OtpError>)
    ensures
        otp_result_matches(key@, counter, r),
{
    let bytes = match base32_decode(key) {
        Ok(b) => b,
        Err(e) => {
            return Err(OtpError::PrivateKeyError(e));
        },
    };
    let message = counter_to_be_bytes(counter);
    let digest = hmac_sha1_bytes(bytes.as_slice(), &message);
    let off = offset(&digest);
    let truncated = truncate_hash(&digest, off);
    Ok(truncated % 1_000_000)
}

/// Relies on `std::time::SystemTime::now`: reads the system clock; nothing is
/// assumed of the instant it reports.
#[verifier::external_body]
fn system_time_now() -> std::time::SystemTime {
    std::time::SystemTime::now()
}

#[verifier::external_type_specification]
#[verifier::external_body]
pub struct ExSystemTime(std::time::SystemTime);

/// Relies on `std::time::SystemTime::duration_since`, measured against
/// `SystemTime::UNIX_EPOCH`: `Some` of the elapsed duration when the instant
/// is not earlier than the epoch, `None` when it is; nothing is assumed of
/// the duration's value.
#[verifier::external_body]
fn duration_since_unix_epoch(t: &std::time::SystemTime) -> Option<std::time::Duration> {
    match t.duration_since(std::time::SystemTime::UNIX_EPOCH) {
        Ok(d) => Some(d),
        Err(_) => None,
    }
}

/// Relies on `std::time::Duration::as_secs`: the whole seconds of the
/// duration; nothing is assumed of the value.
#[verifier::external_body]
fn duration_as_secs(d: &std::time::Duration) -> u64 {
    d.as_secs()
}

/// What the time-based generator returns when the clock reads `epoch_secs`
/// whole seconds since the Unix epoch: the counter-based result for the
/// number of whole 30-second steps (integer division, truncation).
pub open spec fn totp_result_matches(key: Seq<char>, epoch_secs: u64, r: Result<
    u32,
    OtpError,
>) -> bool {
    otp_result_matches(key, epoch_secs / 30, r)
}

/// The time-based one-time password for an externally supplied instant, given
/// as whole seconds since the Unix epoch: the counter is the number of whole
/// 30-second steps (integer division, truncation), and the result is exactly
/// that of the counter-based generator on it.
pub fn create_totp_from_secs(key: &str, epoch_secs: u64) -> (r: Result<u32, OtpError>)
    ensures
        totp_result_matches(key@, epoch_secs, r),
{
    create_otp(key, epoch_secs / 30)
}

/// The time-based one-time password for the current instant: the counter is
/// the number of whole 30-second steps since the Unix epoch. Whatever the
/// clock reports as elapsed seconds, the result is exactly the counter-based
/// generator's for that reading divided by 30; a clock before the epoch is
/// reported as `UnixEpochError`, never silently clamped; an invalid secret
/// never yields a code.
pub fn create_totp(key: &str) -> (r: Result<u32, OtpError>)
    ensures
        r matches Ok(code) ==> base32_decoded(key@) is Some && code < 1_000_000 && (exists|
            s: u64,
        | #[trigger] totp_result_matches(key@, s, r)),
        r matches Err(e) ==> e == OtpError::UnixEpochError || (e == OtpError::PrivateKeyError(
            base32_fault(key@),
        ) && base32_decoded(key@) is None),
        base32_decoded(key@) is None ==> r is Err,
{
    let now = system_time_now();
    let since_epoch = match duration_since_unix_epoch(&now) {
        Some(d) => d,
        None => {
            return Err(OtpError::UnixEpochError);
        },
    };
    let secs = duration_as_secs(&since_epoch);
    let r = create_totp_from_secs(key, secs);
    proof {
        assert(totp_result_matches(key@, secs, r));
    }
    r
}

/// The time-based one-time password for an externally supplied instant, given
/// as milliseconds since the Unix epoch: the counter is the number of whole
/// 30-second steps, and the result is exactly that of the counter-based
/// generator on it.
pub fn create_totp_from_millis(key: &str, epoch_millis: u64) -> (r: Result<u32, OtpError>)
    ensures
        otp_result_matches(key@, epoch_millis / 30_000, r),
{
    create_otp(key, epoch_millis / 30_000)
}

/// Law: the counter-based generator is deterministic. Any two results its
/// contract admits for the same secret and counter are identical — the same
/// code on success, and on failure the same fault, so retrying the same input
/// fails identically.
pub proof fn lemma_otp_deterministic(
    key: Seq<char>,
    counter: u64,
    r1: Result<u32, OtpError>,
    r2: Result<u32, OtpError>,
)
    requires
        otp_result_matches(key, counter, r1),
        otp_result_matches(key, counter, r2),
    ensures
        r1 == r2,
{
}

/// Law: every code the counter-based generator can return lies in
/// [0, 999,999].
pub proof fn lemma_code_range(key: Seq<char>, counter: u64, r: Result<u32, OtpError>)
    requires
        otp_result_matches(key, counter, r),
    ensures
        r matches Ok(code) ==> 0 <= code <= 999_999,
{
}

} // verus!
