//! HMAC-SHA256 signatures of webhook bodies, as sent in the
//! `X-Hub-Signature-256` header (`sha256=<lower-case hex>`).
use hmac::{Hmac, Mac};
use sha2::Sha256;
use vstd::prelude::*;
use vstd::string::StringSliceAdditionalSpecFns;

verus! {

/// The ASCII character of a hexadecimal digit `n < 16`, in lower case.
pub open spec fn hex_digit(n: u8) -> u8 {
    if n < 10 {
        (48 + n) as u8
    } else {
        (87 + n) as u8
    }
}

/// Lower-case hexadecimal text of a byte string: two digits per byte,
/// the high nibble first.
pub open spec fn hex_of(b: Seq<u8>) -> Seq<u8> {
    Seq::new(
        2 * b.len(),
        |i: int|
            if i % 2 == 0 {
                hex_digit(b[i / 2] / 16)
            } else {
                hex_digit(b[i / 2] % 16)
            },
    )
}

/// The HMAC-SHA256 tag of `msg` under `key`.
pub uninterp spec fn hmac_sha256_of(key: Seq<u8>, msg: Seq<u8>) -> Seq<u8>;

/// The bytes of `sha256=`, the scheme prefix of the signature header.
pub open spec fn scheme_tag() -> Seq<u8> {
    seq![115u8, 104u8, 97u8, 50u8, 53u8, 54u8, 61u8]
}

pub open spec fn starts_with_tag(s: Seq<u8>) -> bool {
    s.len() >= 7 && s.subrange(0, 7) == scheme_tag()
}

/// `s` with every occurrence of `sha256=` removed, scanning left to right.
pub open spec fn strip_tags(s: Seq<u8>) -> Seq<u8>
    decreases s.len(),
{
    if s.len() == 0 {
        s
    } else if starts_with_tag(s) {
        strip_tags(s.subrange(7, s.len() as int))
    } else {
        seq![s[0]] + strip_tags(s.subrange(1, s.len() as int))
    }
}

/// ASCII upper-case letters mapped to lower case; every other byte kept.
pub open spec fn lower_byte(b: u8) -> u8 {
    if 65 <= b <= 90 {
        (b + 32) as u8
    } else {
        b
    }
}

pub open spec fn lower_bytes(s: Seq<u8>) -> Seq<u8> {
    Seq::new(s.len(), |i: int| lower_byte(s[i]))
}

/// The digest that a signature header claims: its text without the scheme
/// prefix, in lower case.
pub open spec fn claimed_digest(header: Seq<u8>) -> Seq<u8> {
    lower_bytes(strip_tags(header))
}

/// The digest that a body signed with `secret` must carry.
pub open spec fn expected_digest(secret: Seq<u8>, body: Seq<u8>) -> Seq<u8> {
    lower_bytes(hex_of(hmac_sha256_of(secret, body)))
}

/// Whether `header` is a valid signature of `body` under `secret`.
pub open spec fn signature_valid(secret: Seq<u8>, header: Seq<u8>, body: Seq<u8>) -> bool {
    claimed_digest(header) == expected_digest(secret, body)
}

/// The header value that signs `body` under `secret`.
pub open spec fn signature_header(secret: Seq<u8>, body: Seq<u8>) -> Seq<u8> {
    scheme_tag() + hex_of(hmac_sha256_of(secret, body))
}

/// A failure of the signature check itself, as opposed to a mismatch.
#[derive(Debug, Clone, Copy, PartialEq, Eq, Structural)]
pub enum SignatureError {
    /// The secret could not be used as an HMAC key.
    InvalidKey,
}

/// Relies on `Hmac::<Sha256>::new_from_slice`, `Mac::update` and
/// `Mac::finalize`: the HMAC-SHA256 tag of `msg` under `key`. HMAC takes keys
/// of every length, so key setup never fails.
#[verifier::external_body]
fn hmac_sha256(key: &[u8], msg: &[u8]) -> (r: Option<Vec<u8>>)
    ensures
        r is Some && r->Some_0@ == hmac_sha256_of(key@, msg@),
{
    match Hmac::<Sha256>::new_from_slice(key) {
        Ok(mut mac) => {
            mac.update(msg);
            Some(mac.finalize().into_bytes().to_vec())
        },
        Err(_) => None,
    }
}


/// Relies on `hex::encode`: lower-case hexadecimal, two digits per byte,
/// the high nibble first.
#[verifier::external_body]
fn hex_encode(b: &[u8]) -> (r: Vec<u8>)
    ensures
        r@ == hex_of(b@),
{
    hex::encode(b).into_bytes()
}

/// `s` with every `sha256=` removed, as `str::replace("sha256=", "")` does.
fn remove_tags(s: &[u8]) -> (r: Vec<u8>)
    ensures
        r@ == strip_tags(s@),
{
    let mut out: Vec<u8> = Vec::new();
    let mut i: usize = 0;
    proof {
        assert(s@.subrange(0, s@.len() as int) =~= s@);
        assert(out@ + strip_tags(s@) =~= strip_tags(s@));
    }
    while i < s.len()
        invariant
            i <= s@.len(),
            out@ + strip_tags(s@.subrange(i as int, s@.len() as int)) == strip_tags(s@),
        decreases s@.len() - i,
    {
        let rest = Ghost(s@.subrange(i as int, s@.len() as int));
        if s.len() >= 7 && i <= s.len() - 7 && s[i] == 115 && s[i + 1] == 104 && s[i + 2] == 97 && s[i + 3] == 50
            && s[i + 4] == 53 && s[i + 5] == 54 && s[i + 6] == 61 {
            proof {
                assert(rest@.subrange(0, 7) =~= scheme_tag());
                assert(rest@.subrange(7, rest@.len() as int) =~= s@.subrange(i + 7, s@.len() as int));
            }
            i = i + 7;
        } else {
            proof {
                if rest@.len() >= 7 {
                    assert(rest@.subrange(0, 7)[0] == s@[i as int]);
                    assert(rest@.subrange(0, 7)[1] == s@[i + 1]);
                    assert(rest@.subrange(0, 7)[2] == s@[i + 2]);
                    assert(rest@.subrange(0, 7)[3] == s@[i + 3]);
                    assert(rest@.subrange(0, 7)[4] == s@[i + 4]);
                    assert(rest@.subrange(0, 7)[5] == s@[i + 5]);
                    assert(rest@.subrange(0, 7)[6] == s@[i + 6]);
                    if rest@.subrange(0, 7) == scheme_tag() {
                        assert(scheme_tag()[0] == 115u8);
                        assert(false);
                    }
                }
                assert(rest@.subrange(1, rest@.len() as int) =~= s@.subrange(i + 1, s@.len() as int));
            }
            let ghost before = out@;
            out.push(s[i]);
            i = i + 1;
            proof {
                let tail = strip_tags(s@.subrange(i as int, s@.len() as int));
                assert(strip_tags(rest@) == seq![s@[i - 1]] + tail);
                assert(out@ + tail =~= before + (seq![s@[i - 1]] + tail));
            }
        }
    }
    proof {
        assert(s@.subrange(i as int, s@.len() as int) =~= Seq::<u8>::empty());
        assert(out@ + Seq::<u8>::empty() =~= out@);
    }
    out
}


/// `s` with its ASCII upper-case letters in lower case.
fn to_lower(s: &[u8]) -> (r: Vec<u8>)
    ensures
        r@ == lower_bytes(s@),
{
    let mut out: Vec<u8> = Vec::new();
    let mut i: usize = 0;
    while i < s.len()
        invariant
            i <= s@.len(),
            out@ =~= lower_bytes(s@).subrange(0, i as int),
        decreases s@.len() - i,
    {
        let b = s[i];
        if 65 <= b && b <= 90 {
            out.push(b + 32);
        } else {
            out.push(b);
        }
        i = i + 1;
    }
    out
}

proof fn lemma_xor_zero(x: u8, y: u8)
    ensures
        (x ^ y == 0) == (x == y),
{
    assert((x ^ y == 0) == (x == y)) by (bit_vector);
}

proof fn lemma_or_zero(x: u8, y: u8)
    ensures
        (x | y == 0) == (x == 0 && y == 0),
{
    assert((x | y == 0) == (x == 0 && y == 0)) by (bit_vector);
}

/// Whether `a` and `b` are equal. When their lengths agree every byte is
/// looked at, whatever the contents, so the time taken does not tell where
/// they first differ.
pub fn equal_in_constant_time(a: &[u8], b: &[u8]) -> (r: bool)
    ensures
        r == (a@ == b@),
{
    if a.len() != b.len() {
        return false;
    }
    let mut diff: u8 = 0;
    let mut i: usize = 0;
    assert(a@.subrange(0, 0) =~= b@.subrange(0, 0));
    while i < a.len()
        invariant
            i <= a@.len(),
            a@.len() == b@.len(),
            (diff == 0) == (a@.subrange(0, i as int) == b@.subrange(0, i as int)),
        decreases a@.len() - i,
    {
        let x = a[i] ^ b[i];
        proof {
            lemma_xor_zero(a@[i as int], b@[i as int]);
            lemma_or_zero(diff, x);
            let (pa, pb) = (a@.subrange(0, i as int), b@.subrange(0, i as int));
            let (na, nb) = (a@.subrange(0, i + 1), b@.subrange(0, i + 1));
            assert(na =~= pa.push(a@[i as int]));
            assert(nb =~= pb.push(b@[i as int]));
            if na == nb {
                assert(pa =~= na.subrange(0, i as int));
                assert(pb =~= nb.subrange(0, i as int));
                assert(na[i as int] == nb[i as int]);
            }
        }
        diff = diff | x;
        i = i + 1;
    }
    proof {
        assert(a@.subrange(0, i as int) =~= a@);
        assert(b@.subrange(0, i as int) =~= b@);
    }
    diff == 0
}

/// Checks the signature header of a webhook request: the HMAC-SHA256 of
/// `body` under `secret`, in hexadecimal, against the header's text without
/// its `sha256=` prefix. Both sides are compared in lower case, and a
/// mismatch is `Ok(false)`.
pub fn verify_signature(secret: &str, signature: &str, body: &[u8]) -> (r: Result<
    bool,
    SignatureError,
>)
    ensures
        r == Ok::<bool, SignatureError>(
            signature_valid(secret.spec_bytes(), signature.spec_bytes(), body@),
        ),
{
    let claimed = to_lower(&remove_tags(signature.as_bytes()));
    match hmac_sha256(secret.as_bytes(), body) {
        Some(tag) => {
            let expected = to_lower(&hex_encode(&tag));
            Ok(equal_in_constant_time(&expected, &claimed))
        },
        None => Err(SignatureError::InvalidKey),
    }
}


proof fn lemma_strip_without_equals(s: Seq<u8>)
    requires
        forall|i: int| 0 <= i < s.len() ==> s[i] != 61u8,
    ensures
        strip_tags(s) == s,
    decreases s.len(),
{
    if s.len() > 0 {
        if starts_with_tag(s) {
            assert(s.subrange(0, 7)[6] == s[6]);
            assert(scheme_tag()[6] == 61u8);
        }
        let rest = s.subrange(1, s.len() as int);
        lemma_strip_without_equals(rest);
        assert(seq![s[0]] + rest =~= s);
    }
}

proof fn lemma_hex_shape(b: Seq<u8>)
    ensures
        forall|i: int| 0 <= i < hex_of(b).len() ==> hex_of(b)[i] != 61u8,
        lower_bytes(hex_of(b)) == hex_of(b),
{
    let h = hex_of(b);
    assert forall|i: int| 0 <= i < h.len() implies h[i] != 61u8 && lower_byte(h[i]) == h[i] by {
        let n: u8 = if i % 2 == 0 { b[i / 2] / 16 } else { b[i / 2] % 16 };
        assert(n < 16);
        assert(h[i] == hex_digit(n));
    }
    assert(lower_bytes(h) =~= h);
}

proof fn lemma_hex_digit_injective(x: u8, y: u8)
    requires
        x < 16,
        y < 16,
        hex_digit(x) == hex_digit(y),
    ensures
        x == y,
{
}

proof fn lemma_hex_injective(a: Seq<u8>, b: Seq<u8>)
    requires
        hex_of(a) == hex_of(b),
    ensures
        a == b,
{
    assert(hex_of(a).len() == 2 * a.len());
    assert(hex_of(b).len() == 2 * b.len());
    assert(a.len() == b.len());
    assert forall|k: int| 0 <= k < a.len() implies a[k] == b[k] by {
        assert((2 * k) / 2 == k);
        assert((2 * k + 1) / 2 == k);
        assert((2 * k) % 2 == 0);
        assert((2 * k + 1) % 2 == 1);
        let (x, y) = (a[k], b[k]);
        assert(hex_of(a)[2 * k] == hex_digit(x / 16));
        assert(hex_of(b)[2 * k] == hex_digit(y / 16));
        assert(hex_of(a)[2 * k + 1] == hex_digit(x % 16));
        assert(hex_of(b)[2 * k + 1] == hex_digit(y % 16));
        lemma_hex_digit_injective(x / 16, y / 16);
        lemma_hex_digit_injective(x % 16, y % 16);
        assert(x == 16 * (x / 16) + x % 16);
        assert(y == 16 * (y / 16) + y % 16);
    }
    assert(a =~= b);
}

/// A body signed with the secret it is checked against passes the check:
/// `sha256=` followed by the lower-case hex HMAC-SHA256 of the body.
pub proof fn lemma_own_signature_accepted(secret: Seq<u8>, body: Seq<u8>)
    ensures
        signature_valid(secret, signature_header(secret, body), body),
{
    let hex = hex_of(hmac_sha256_of(secret, body));
    let header = signature_header(secret, body);
    lemma_hex_shape(hmac_sha256_of(secret, body));
    assert(starts_with_tag(header)) by {
        assert(header.subrange(0, 7) =~= scheme_tag());
    }
    assert(header.subrange(7, header.len() as int) =~= hex);
    lemma_strip_without_equals(hex);
}

/// A signature made for one body is refused for any other body whose
/// HMAC-SHA256 under the same secret differs.
pub proof fn lemma_other_body_refused(secret: Seq<u8>, body: Seq<u8>, other: Seq<u8>)
    requires
        hmac_sha256_of(secret, other) != hmac_sha256_of(secret, body),
    ensures
        !signature_valid(secret, signature_header(secret, body), other),
{
    lemma_own_signature_accepted(secret, body);
    lemma_hex_shape(hmac_sha256_of(secret, body));
    lemma_hex_shape(hmac_sha256_of(secret, other));
    if signature_valid(secret, signature_header(secret, body), other) {
        lemma_hex_injective(hmac_sha256_of(secret, body), hmac_sha256_of(secret, other));
    }
}

} // verus!
