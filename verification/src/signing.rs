//! Request signing.
//!
//! The signature of a request is the lowercase hexadecimal rendering of
//! HMAC-SHA256, keyed by the secret's bytes, over the exact concatenation
//! `"{timestamp}{METHOD}{path}"` — decimal timestamp first, then the method
//! verb, then the path, with no separators. `signing_message` is the spec of
//! that concatenation and `signature_chars` of the whole signature.

use hmac::{Hmac, Mac};
use sha2::Sha256;
use vstd::prelude::*;
use vstd::string::StringExecFns;
use vstd::string::StringSliceAdditionalSpecFns;
use vstd::utf8::encode_utf8;

use crate::decimal::dec_chars;
use crate::decimal::dec_digit_char;
use crate::decimal::is_dec_digit;
use crate::decimal::lemma_dec_chars_digits;
use crate::decimal::lemma_dec_chars_injective;
use crate::decimal::lemma_dec_chars_len;
use crate::decimal::u64_to_dec;

verus! {

/// The character for a single hexadecimal digit, lowercase.
pub open spec fn hex_digit_char(d: nat) -> char
    recommends
        d < 16,
{
    if d < 10 {
        dec_digit_char(d)
    } else if d == 10 {
        'a'
    } else if d == 11 {
        'b'
    } else if d == 12 {
        'c'
    } else if d == 13 {
        'd'
    } else if d == 14 {
        'e'
    } else {
        'f'
    }
}

/// Lowercase hexadecimal rendering of a byte string: two digits per byte,
/// high nibble first.
pub open spec fn hex_of(bytes: Seq<u8>) -> Seq<char>
    decreases bytes.len(),
{
    if bytes.len() == 0 {
        Seq::<char>::empty()
    } else {
        seq![
            hex_digit_char((bytes[0] / 16) as nat),
            hex_digit_char((bytes[0] % 16) as nat),
        ] + hex_of(bytes.drop_first())
    }
}

pub proof fn lemma_hex_of_len(bytes: Seq<u8>)
    ensures
        hex_of(bytes).len() == 2 * bytes.len(),
    decreases bytes.len(),
{
    if bytes.len() > 0 {
        lemma_hex_of_len(bytes.drop_first());
    }
}

/// Hexadecimal rendering loses nothing: two byte strings with the same
/// rendering are the same. Together with the injectivity of the signing
/// message this pins the signature down: equal signatures mean equal MACs,
/// and distinct (timestamp, method, path) triples put distinct texts under
/// the MAC.
pub proof fn lemma_hex_of_injective(a: Seq<u8>, b: Seq<u8>)
    requires
        hex_of(a) == hex_of(b),
    ensures
        a == b,
    decreases a.len(),
{
    lemma_hex_of_len(a);
    lemma_hex_of_len(b);
    if a.len() == 0 {
        assert(a =~= b);
    } else {
        let ha = seq![
            hex_digit_char((a[0] / 16) as nat),
            hex_digit_char((a[0] % 16) as nat),
        ];
        let hb = seq![
            hex_digit_char((b[0] / 16) as nat),
            hex_digit_char((b[0] % 16) as nat),
        ];
        let ta = hex_of(a.drop_first());
        let tb = hex_of(b.drop_first());
        assert((ha + ta)[0] == ha[0]);
        assert((hb + tb)[0] == hb[0]);
        assert((ha + ta)[1] == ha[1]);
        assert((hb + tb)[1] == hb[1]);
        assert(a[0] / 16 == b[0] / 16 && a[0] % 16 == b[0] % 16);
        assert(a[0] == b[0]);
        assert(ta =~= tb) by {
            assert forall|i: int| 0 <= i < ta.len() implies ta[i] == tb[i] by {
                assert((ha + ta)[i + 2] == ta[i]);
                assert((hb + tb)[i + 2] == tb[i]);
            }
        }
        lemma_hex_of_injective(a.drop_first(), b.drop_first());
        assert(a =~= b) by {
            assert forall|i: int| 0 <= i < a.len() implies a[i] == b[i] by {
                if i > 0 {
                    assert(a.drop_first()[i - 1] == a[i]);
                    assert(b.drop_first()[i - 1] == b[i]);
                }
            }
        }
    }
}

/// The MAC that HMAC-SHA256 assigns to a key and a message. It is a function
/// of the two byte strings alone; no short spec states its value.
pub uninterp spec fn hmac_sha256_of(key: Seq<u8>, msg: Seq<u8>) -> Seq<u8>;

/// Relies on hex::encode: lowercase hexadecimal, two digits per byte, high
/// nibble first.
#[verifier::external_body]
fn hex_encode(bytes: &[u8]) -> (r: String)
    ensures
        r@ == hex_of(bytes@),
{
    hex::encode(bytes)
}

/// Relies on hmac::Hmac with sha2::Sha256: the MAC depends on the key and
/// message bytes alone and is 32 bytes long; `new_from_slice` accepts a key
/// of any length for HMAC, so the `unwrap` never fires.
#[verifier::external_body]
fn hmac_sha256(key: &[u8], msg: &[u8]) -> (r: Vec<u8>)
    ensures
        r@ == hmac_sha256_of(key@, msg@),
        r@.len() == 32,
{
    let mut mac = <Hmac<Sha256> as Mac>::new_from_slice(key).unwrap();
    mac.update(msg);
    mac.finalize().into_bytes().to_vec()
}

/// The exact text that is authenticated: decimal timestamp, then method,
/// then path, in that fixed order, with no separators.
pub open spec fn signing_message(ts: u64, method: Seq<char>, path: Seq<char>) -> Seq<char> {
    dec_chars(ts as nat) + method + path
}

/// The signature for a request: lowercase hex of the HMAC-SHA256 of the
/// signing message's UTF-8 bytes, keyed by the secret's UTF-8 bytes.
pub open spec fn signature_chars(
    secret: Seq<char>,
    ts: u64,
    method: Seq<char>,
    path: Seq<char>,
) -> Seq<char> {
    hex_of(hmac_sha256_of(encode_utf8(secret), encode_utf8(signing_message(ts, method, path))))
}

/// Builds the text to authenticate.
pub fn build_signing_message(ts: u64, method: &str, path: &str) -> (r: String)
    ensures
        r@ == signing_message(ts, method@, path@),
{
    let mut s = u64_to_dec(ts);
    s.append(method);
    s.append(path);
    s
}

/// Computes the request signature from the secret, the timestamp, the method
/// and the path.
pub fn compute_signature(secret: &str, ts: u64, method: &str, path: &str) -> (r: String)
    ensures
        r@ == signature_chars(secret@, ts, method@, path@),
{
    let msg = build_signing_message(ts, method, path);
    let mac = hmac_sha256(secret.as_bytes(), msg.as_str().as_bytes());
    hex_encode(mac.as_slice())
}

/// An HTTP method verb as signed here: a nonempty run of uppercase letters.
pub open spec fn wf_method(m: Seq<char>) -> bool {
    m.len() > 0 && (forall|i: int| 0 <= i < m.len() ==> 'A' <= #[trigger] m[i] && m[i] <= 'Z')
}

/// A resource path: nonempty and beginning with a slash.
pub open spec fn wf_path(p: Seq<char>) -> bool {
    p.len() > 0 && p[0] == '/'
}

/// If two concatenations agree, all characters of the first parts satisfy
/// `p`, and both second parts open with a character that does not, then the
/// split point is the same on both sides.
proof fn lemma_concat_boundary(
    s1: Seq<char>,
    t1: Seq<char>,
    s2: Seq<char>,
    t2: Seq<char>,
    p: spec_fn(char) -> bool,
)
    requires
        s1 + t1 == s2 + t2,
        forall|i: int| 0 <= i < s1.len() ==> p(#[trigger] s1[i]),
        forall|i: int| 0 <= i < s2.len() ==> p(#[trigger] s2[i]),
        t1.len() > 0,
        !p(t1[0]),
        t2.len() > 0,
        !p(t2[0]),
    ensures
        s1 == s2,
        t1 == t2,
{
    if s1.len() < s2.len() {
        let j = s1.len() as int;
        assert((s1 + t1)[j] == t1[0]);
        assert((s2 + t2)[j] == s2[j]);
        assert(false);
    }
    if s2.len() < s1.len() {
        let j = s2.len() as int;
        assert((s2 + t2)[j] == t2[0]);
        assert((s1 + t1)[j] == s1[j]);
        assert(false);
    }
    assert(s1 =~= s2) by {
        assert forall|i: int| 0 <= i < s1.len() implies s1[i] == s2[i] by {
            assert((s1 + t1)[i] == s1[i]);
            assert((s2 + t2)[i] == s2[i]);
        }
    }
    assert((s1 + t1).len() == s1.len() + t1.len());
    assert((s2 + t2).len() == s2.len() + t2.len());
    assert(t1.len() == t2.len());
    assert(t1 =~= t2) by {
        assert forall|i: int| 0 <= i < t1.len() implies t1[i] == t2[i] by {
            assert((s1 + t1)[s1.len() + i] == t1[i]);
            assert((s2 + t2)[s2.len() + i] == t2[i]);
        }
    }
}

/// The signed text determines the timestamp, the method and the path: two
/// requests that differ in any of the three are authenticated over distinct
/// messages, so a change in any one of them changes what the MAC — and with
/// it the signature — is computed over.
pub proof fn lemma_signing_message_injective(
    ts1: u64,
    m1: Seq<char>,
    p1: Seq<char>,
    ts2: u64,
    m2: Seq<char>,
    p2: Seq<char>,
)
    requires
        wf_method(m1),
        wf_method(m2),
        wf_path(p1),
        wf_path(p2),
        signing_message(ts1, m1, p1) == signing_message(ts2, m2, p2),
    ensures
        ts1 == ts2,
        m1 == m2,
        p1 == p2,
{
    let d1 = dec_chars(ts1 as nat);
    let d2 = dec_chars(ts2 as nat);
    lemma_dec_chars_digits(ts1 as nat);
    lemma_dec_chars_digits(ts2 as nat);
    lemma_dec_chars_len(ts1 as nat);
    lemma_dec_chars_len(ts2 as nat);
    assert(d1 + (m1 + p1) =~= signing_message(ts1, m1, p1));
    assert(d2 + (m2 + p2) =~= signing_message(ts2, m2, p2));
    assert((m1 + p1)[0] == m1[0]);
    assert((m2 + p2)[0] == m2[0]);
    lemma_concat_boundary(d1, m1 + p1, d2, m2 + p2, |c: char| is_dec_digit(c));
    lemma_dec_chars_injective(ts1 as nat, ts2 as nat);
    lemma_concat_boundary(m1, p1, m2, p2, |c: char| c != '/');
}

/// No accidental collision: under one secret, two well-formed requests that
/// differ in timestamp, method or path carry equal signatures only if
/// HMAC-SHA256 itself collides — the signatures are computed over provably
/// distinct messages, and the hex rendering preserves MAC equality exactly.
pub proof fn lemma_equal_signatures_need_mac_collision(
    secret: Seq<char>,
    ts1: u64,
    m1: Seq<char>,
    p1: Seq<char>,
    ts2: u64,
    m2: Seq<char>,
    p2: Seq<char>,
)
    requires
        wf_method(m1),
        wf_method(m2),
        wf_path(p1),
        wf_path(p2),
        !(ts1 == ts2 && m1 == m2 && p1 == p2),
        signature_chars(secret, ts1, m1, p1) == signature_chars(secret, ts2, m2, p2),
    ensures
        signing_message(ts1, m1, p1) != signing_message(ts2, m2, p2),
        hmac_sha256_of(encode_utf8(secret), encode_utf8(signing_message(ts1, m1, p1)))
            == hmac_sha256_of(encode_utf8(secret), encode_utf8(signing_message(ts2, m2, p2))),
{
    if signing_message(ts1, m1, p1) == signing_message(ts2, m2, p2) {
        lemma_signing_message_injective(ts1, m1, p1, ts2, m2, p2);
    }
    lemma_hex_of_injective(
        hmac_sha256_of(encode_utf8(secret), encode_utf8(signing_message(ts1, m1, p1))),
        hmac_sha256_of(encode_utf8(secret), encode_utf8(signing_message(ts2, m2, p2))),
    );
}

} // verus!
