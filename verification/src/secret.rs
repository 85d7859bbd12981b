//! Session-signing key material: decoding from the accepted textual
//! encodings, length validation, and generation of fresh random keys.

use vstd::prelude::*;
use vstd::string::StringSliceAdditionalSpecFns;
use crate::ascii::{
    eq_ignore_case, is_ascii_space, lemma_trim_nonspace, spec_ascii_lower,
    spec_eq_ignore_ascii_case, spec_starts_with, spec_trim, starts_with, trim,
};
use crate::b64::{base64_decode, base64_encode, is_base64_symbol, spec_base64_decode, spec_base64_encode};
use crate::hex::{
    hex_decode, hex_encode, is_hex_digit, lemma_hex_round_trip, spec_hex_decode,
    spec_hex_digits_decode, spec_hex_encode, HexError,
};

verus! {

/// The smallest acceptable key length in bytes.
pub const MIN_KEY_LEN: usize = 64;

/// Errors of the key-material decoder.
#[derive(Clone, Copy, Debug, PartialEq, Eq, Structural)]
pub enum KeyError {
    /// The decoded material is shorter than `MIN_KEY_LEN` bytes.
    TooShort,
    /// The text after the `base64:` prefix is not valid standard base64.
    InvalidBase64,
    /// The text after the `hex:` prefix is not valid hexadecimal.
    InvalidHex(HexError),
    /// The text has no recognized prefix and is neither base64 nor
    /// hexadecimal.
    Unrecognized,
}

impl KeyError {
    /// A fixed description of the error, for startup diagnostics. It never
    /// contains key material.
    pub fn message(&self) -> (r: &'static str)
        ensures
            self is TooShort ==> r@ == "secret key must be at least 64 bytes after decoding"@,
            self is InvalidBase64 ==> r@ == "invalid base64 secret key"@,
            self is InvalidHex ==> r@ == "invalid hex secret key"@,
            self is Unrecognized ==> r@
                == "secret key must be provided as base64:<...> or hex:<...>"@,
    {
        match self {
            KeyError::TooShort => "secret key must be at least 64 bytes after decoding",
            KeyError::InvalidBase64 => "invalid base64 secret key",
            KeyError::InvalidHex(_) => "invalid hex secret key",
            KeyError::Unrecognized => "secret key must be provided as base64:<...> or hex:<...>",
        }
    }
}

/// The token that requests a freshly generated key, compared
/// case-insensitively.
pub open spec fn generate_token() -> Seq<u8> {
    seq![0x67u8, 0x65u8, 0x6eu8, 0x65u8, 0x72u8, 0x61u8, 0x74u8, 0x65u8]
}

/// The `base64:` prefix.
pub open spec fn base64_prefix() -> Seq<u8> {
    seq![0x62u8, 0x61u8, 0x73u8, 0x65u8, 0x36u8, 0x34u8, 0x3au8]
}

/// The `hex:` prefix.
pub open spec fn hex_prefix() -> Seq<u8> {
    seq![0x68u8, 0x65u8, 0x78u8, 0x3au8]
}

/// What a key-material text asks for.
pub enum KeyOutcome {
    /// Generate a fresh random key.
    Generate,
    /// Use exactly these decoded bytes.
    Material(Seq<u8>),
    /// The text is rejected with this error.
    Reject(KeyError),
}

/// Length validation applied to decoded material, whichever encoding
/// produced it.
pub open spec fn spec_check_len(b: Seq<u8>) -> KeyOutcome {
    if b.len() >= MIN_KEY_LEN {
        KeyOutcome::Material(b)
    } else {
        KeyOutcome::Reject(KeyError::TooShort)
    }
}

/// What a key-material text means, after trimming ASCII whitespace:
/// an empty text or the token `generate` (any case) asks for a fresh key;
/// a `base64:` or `hex:` prefix selects that decoder; anything else is
/// tried as base64 first, then as hexadecimal; decoded material shorter
/// than `MIN_KEY_LEN` bytes is rejected.
pub open spec fn spec_key_outcome(raw: Seq<u8>) -> KeyOutcome {
    let s = spec_trim(raw);
    if s.len() == 0 || spec_eq_ignore_ascii_case(s, generate_token()) {
        KeyOutcome::Generate
    } else if spec_starts_with(s, base64_prefix()) {
        match spec_base64_decode(s.skip(7)) {
            Some(b) => spec_check_len(b),
            None => KeyOutcome::Reject(KeyError::InvalidBase64),
        }
    } else if spec_starts_with(s, hex_prefix()) {
        match spec_hex_decode(s.skip(4)) {
            Ok(b) => spec_check_len(b),
            Err(e) => KeyOutcome::Reject(KeyError::InvalidHex(e)),
        }
    } else {
        match spec_base64_decode(s) {
            Some(b) => spec_check_len(b),
            None => match spec_hex_decode(s) {
                Ok(b) => spec_check_len(b),
                Err(_) => KeyOutcome::Reject(KeyError::Unrecognized),
            },
        }
    }
}

/// A successful digit decode means every byte was a hexadecimal digit.
proof fn lemma_hex_decode_ok_digits(s: Seq<u8>)
    requires
        spec_hex_digits_decode(s) is Ok,
    ensures
        forall|j: int| 0 <= j < s.len() ==> is_hex_digit(s[j]),
    decreases s.len(),
{
    if s.len() > 0 {
        lemma_hex_decode_ok_digits(s.skip(2));
        assert forall|j: int| 0 <= j < s.len() implies is_hex_digit(s[j]) by {
            if j >= 2 {
                assert(s.skip(2)[j - 2] == s[j]);
            }
        }
    }
}

/// A text made of a non-`g` head byte and arbitrary tail never requests
/// generation and is classified by its prefix alone; shared glue for the
/// acceptance lemmas below.
proof fn lemma_prefixed_shape(s: Seq<u8>, head: u8)
    requires
        s.len() > 0,
        s[0] == head,
        !is_ascii_space(head),
        spec_ascii_lower(head) != 0x67,
        forall|j: int| 0 <= j < s.len() ==> !is_ascii_space(s[j]),
    ensures
        spec_trim(s) == s,
        !spec_eq_ignore_ascii_case(s, generate_token()),
{
    lemma_trim_nonspace(s);
    if spec_eq_ignore_ascii_case(s, generate_token()) {
        assert(spec_ascii_lower(s[0]) == spec_ascii_lower(generate_token()[0]));
    }
}

/// A `base64:` text whose whitespace-free remainder decodes to at least
/// `MIN_KEY_LEN` bytes is accepted with exactly those bytes; a shorter
/// decode is rejected as too short.
pub proof fn lemma_base64_value_outcome(t: Seq<u8>, b: Seq<u8>)
    requires
        spec_base64_decode(t) == Some(b),
        forall|j: int| 0 <= j < t.len() ==> !is_ascii_space(t[j]),
    ensures
        spec_key_outcome(base64_prefix() + t) == spec_check_len(b),
{
    let s = base64_prefix() + t;
    assert forall|j: int| 0 <= j < s.len() implies !is_ascii_space(s[j]) by {
        if j >= 7 {
            assert(s[j] == t[j - 7]);
        }
    }
    lemma_prefixed_shape(s, 0x62);
    assert(s.take(7) =~= base64_prefix());
    assert(s.skip(7) =~= t);
}

/// A `hex:` text whose remainder is a digit text decoding to at least
/// `MIN_KEY_LEN` bytes is accepted with exactly those bytes; a shorter
/// decode is rejected as too short.
pub proof fn lemma_hex_value_outcome(h: Seq<u8>, b: Seq<u8>)
    requires
        spec_hex_digits_decode(h) == Ok::<Seq<u8>, HexError>(b),
    ensures
        spec_key_outcome(hex_prefix() + h) == spec_check_len(b),
{
    let s = hex_prefix() + h;
    lemma_hex_decode_ok_digits(h);
    assert forall|j: int| 0 <= j < s.len() implies !is_ascii_space(s[j]) by {
        if j >= 4 {
            assert(s[j] == h[j - 4]);
            assert(is_hex_digit(h[j - 4]));
        }
    }
    lemma_prefixed_shape(s, 0x68);
    if spec_starts_with(s, base64_prefix()) {
        assert(s.take(7)[0] == 0x62);
    }
    assert(s.take(4) =~= hex_prefix());
    assert(s.skip(4) =~= h);
    lemma_trim_nonspace(h);
}

/// An empty or all-whitespace text, or the token `generate` in any letter
/// case surrounded by optional whitespace, requests a fresh key.
pub proof fn lemma_generate_requested(raw: Seq<u8>)
    requires
        spec_trim(raw).len() == 0 || spec_eq_ignore_ascii_case(spec_trim(raw), generate_token()),
    ensures
        spec_key_outcome(raw) == KeyOutcome::Generate,
{
}

/// Relies on `actix_web::cookie::Key::generate` (the `cookie` crate): it
/// draws a fresh 64-byte master key from a cryptographically secure random
/// source; `master` hands those 64 bytes back.
#[verifier::external_body]
fn fresh_key_bytes() -> (r: Vec<u8>)
    ensures
        r@.len() == 64,
{
    actix_web::cookie::Key::generate().master().to_vec()
}

/// Session-signing key material of validated length.
pub struct SecretKey {
    bytes: Vec<u8>,
}

impl View for SecretKey {
    type V = Seq<u8>;

    closed spec fn view(&self) -> Seq<u8> {
        self.bytes@
    }
}

impl Clone for SecretKey {
    /// Cloning copies the key bytes exactly.
    fn clone(&self) -> (r: SecretKey)
        ensures
            r@ == self@,
    {
        SecretKey { bytes: self.bytes.clone() }
    }
}

impl SecretKey {
    /// The key holds at least `MIN_KEY_LEN` bytes.
    pub open spec fn wf(&self) -> bool {
        self@.len() >= MIN_KEY_LEN
    }

    /// Wrap raw bytes as key material, rejecting anything shorter than
    /// `MIN_KEY_LEN` bytes.
    pub fn from_bytes(bytes: Vec<u8>) -> (r: Result<SecretKey, KeyError>)
        ensures
            match r {
                Ok(k) => bytes@.len() >= MIN_KEY_LEN && k@ == bytes@ && k.wf(),
                Err(e) => bytes@.len() < MIN_KEY_LEN && e == KeyError::TooShort,
            },
    {
        if bytes.len() >= MIN_KEY_LEN {
            Ok(SecretKey { bytes })
        } else {
            Err(KeyError::TooShort)
        }
    }

    /// Generate a fresh random key of exactly 64 bytes.
    pub fn generate() -> (r: SecretKey)
        ensures
            r@.len() == 64,
            r.wf(),
    {
        SecretKey { bytes: fresh_key_bytes() }
    }

    /// A copy of the raw key bytes, for handing to the session middleware.
    pub fn clone_key(&self) -> (r: Vec<u8>)
        ensures
            r@ == self@,
    {
        self.bytes.clone()
    }

    /// The number of key bytes.
    pub fn len(&self) -> (r: usize)
        ensures
            r == self@.len(),
    {
        self.bytes.len()
    }

    /// The fixed placeholder shown wherever the key would otherwise be
    /// rendered; the material itself never appears in diagnostics.
    pub fn redacted(&self) -> (r: &'static str)
        ensures
            r@ == "SecretKey(<redacted>)"@,
    {
        "SecretKey(<redacted>)"
    }

    /// Decode key material from a byte text, as `spec_key_outcome` says:
    /// a generation request always succeeds with a fresh 64-byte key.
    pub fn from_text_bytes(raw: &[u8]) -> (r: Result<SecretKey, KeyError>)
        ensures
            match spec_key_outcome(raw@) {
                KeyOutcome::Generate => r matches Ok(k) && k@.len() == 64,
                KeyOutcome::Material(b) => r matches Ok(k) && k@ == b,
                KeyOutcome::Reject(e) => r == Err::<SecretKey, KeyError>(e),
            },
            r matches Ok(k) ==> k.wf(),
    {
        let s = trim(raw);
        let token: [u8; 8] = [0x67, 0x65, 0x6e, 0x65, 0x72, 0x61, 0x74, 0x65];
        if s.len() == 0 || eq_ignore_case(s, token.as_slice()) {
            proof {
                assert(token@ =~= generate_token());
            }
            return Ok(SecretKey::generate());
        }
        let b64_tag: [u8; 7] = [0x62, 0x61, 0x73, 0x65, 0x36, 0x34, 0x3a];
        let hex_tag: [u8; 4] = [0x68, 0x65, 0x78, 0x3a];
        proof {
            assert(b64_tag@ =~= base64_prefix());
            assert(hex_tag@ =~= hex_prefix());
        }
        if starts_with(s, b64_tag.as_slice()) {
            let rest = &s[7..s.len()];
            proof {
                assert(rest@ =~= s@.skip(7));
            }
            match base64_decode(rest) {
                Some(decoded) => SecretKey::from_bytes(decoded),
                None => Err(KeyError::InvalidBase64),
            }
        } else if starts_with(s, hex_tag.as_slice()) {
            let rest = &s[4..s.len()];
            proof {
                assert(rest@ =~= s@.skip(4));
            }
            match hex_decode(rest) {
                Ok(decoded) => SecretKey::from_bytes(decoded),
                Err(e) => Err(KeyError::InvalidHex(e)),
            }
        } else {
            match base64_decode(s) {
                Some(decoded) => SecretKey::from_bytes(decoded),
                None => match hex_decode(s) {
                    Ok(decoded) => SecretKey::from_bytes(decoded),
                    Err(_) => Err(KeyError::Unrecognized),
                },
            }
        }
    }

    /// Render raw key bytes as a `hex:` configuration value. For material
    /// of acceptable length the value decodes back to exactly those bytes,
    /// whichever of the accepted encodings a configuration uses for them.
    pub fn hex_config_value(bytes: &[u8]) -> (r: Vec<u8>)
        ensures
            r@ == hex_prefix() + spec_hex_encode(bytes@),
            spec_key_outcome(r@) == spec_check_len(bytes@),
    {
        let mut out: Vec<u8> = Vec::new();
        out.push(0x68);
        out.push(0x65);
        out.push(0x78);
        out.push(0x3a);
        let mut enc = hex_encode(bytes);
        out.append(&mut enc);
        proof {
            assert(out@ =~= hex_prefix() + spec_hex_encode(bytes@));
            lemma_hex_round_trip(bytes@);
            lemma_hex_value_outcome(spec_hex_encode(bytes@), bytes@);
        }
        out
    }

    /// Render raw key bytes as a `base64:` configuration value. For
    /// material of acceptable length the value decodes back to exactly
    /// those bytes, so the two explicit encodings of one key agree.
    pub fn base64_config_value(bytes: &[u8]) -> (r: Vec<u8>)
        requires
            bytes@.len() <= usize::MAX / 4 * 3,
        ensures
            r@ == base64_prefix() + spec_base64_encode(bytes@),
            spec_key_outcome(r@) == spec_check_len(bytes@),
    {
        let mut out: Vec<u8> = Vec::new();
        out.push(0x62);
        out.push(0x61);
        out.push(0x73);
        out.push(0x65);
        out.push(0x36);
        out.push(0x34);
        out.push(0x3a);
        let mut enc = base64_encode(bytes);
        let ghost e = enc@;
        out.append(&mut enc);
        proof {
            assert(out@ =~= base64_prefix() + e);
            assert forall|j: int| 0 <= j < e.len() implies !is_ascii_space(e[j]) by {
                assert(is_base64_symbol(e[j]));
            }
            lemma_base64_value_outcome(e, bytes@);
        }
        out
    }

    /// Decode key material from a string, as `spec_key_outcome` of its
    /// UTF-8 bytes says.
    pub fn from_text(raw: &str) -> (r: Result<SecretKey, KeyError>)
        ensures
            match spec_key_outcome(raw.spec_bytes()) {
                KeyOutcome::Generate => r matches Ok(k) && k@.len() == 64,
                KeyOutcome::Material(b) => r matches Ok(k) && k@ == b,
                KeyOutcome::Reject(e) => r == Err::<SecretKey, KeyError>(e),
            },
            r matches Ok(k) ==> k.wf(),
    {
        SecretKey::from_text_bytes(raw.as_bytes())
    }
}

} // verus!
