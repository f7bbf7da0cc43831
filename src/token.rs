//! Session-token issuance: random bytes from a secure source, encoded as
//! standard padded base64.
use vstd::prelude::*;
use base64::Engine;
use crate::session::SessionError;

verus! {

#[verifier::external_type_specification]
#[verifier::external_body]
pub struct ExSystemRandom(ring::rand::SystemRandom);

#[verifier::external_type_specification]
#[verifier::external_body]
pub struct ExUnspecified(ring::error::Unspecified);

/// Number of random bytes drawn for one session token.
pub const SESSION_ID_BYTES: usize = 8;

/// Length of the text of a session token: 8 bytes give 12 base64 characters.
pub const SESSION_ID_LEN: usize = 12;

/// The digit of the standard base64 alphabet for a 6-bit value:
/// `A-Z`, `a-z`, `0-9`, `+`, `/`.
pub open spec fn base64_digit(v: int) -> char {
    if v < 26 {
        ((v + 65) as u8) as char
    } else if v < 52 {
        ((v - 26 + 97) as u8) as char
    } else if v < 62 {
        ((v - 52 + 48) as u8) as char
    } else if v == 62 {
        '+'
    } else {
        '/'
    }
}

/// Standard base64 with `=` padding: each group of three bytes becomes four
/// digits, a final group of one or two bytes is padded to four characters.
pub open spec fn base64_encode(b: Seq<u8>) -> Seq<char>
    decreases b.len(),
{
    if b.len() == 0 {
        seq![]
    } else if b.len() == 1 {
        let x = b[0] as int;
        seq![base64_digit(x / 4), base64_digit((x % 4) * 16), '=', '=']
    } else if b.len() == 2 {
        let x = b[0] as int;
        let y = b[1] as int;
        seq![base64_digit(x / 4), base64_digit((x % 4) * 16 + y / 16), base64_digit((y % 16) * 4), '=']
    } else {
        let x = b[0] as int;
        let y = b[1] as int;
        let z = b[2] as int;
        seq![
            base64_digit(x / 4),
            base64_digit((x % 4) * 16 + y / 16),
            base64_digit((y % 16) * 4 + z / 64),
            base64_digit(z % 64),
        ] + base64_encode(b.subrange(3, b.len() as int))
    }
}

/// Base64 text is four characters for every started group of three bytes.
pub proof fn lemma_base64_len(b: Seq<u8>)
    ensures
        base64_encode(b).len() == 4 * ((b.len() + 2) / 3),
    decreases b.len(),
{
    if b.len() >= 3 {
        lemma_base64_len(b.subrange(3, b.len() as int));
    }
}

proof fn lemma_base64_digit_injective(u: int, v: int)
    requires
        0 <= u < 64,
        0 <= v < 64,
        base64_digit(u) == base64_digit(v),
    ensures
        u == v,
{
}

proof fn lemma_base64_groups_injective(x1: int, y1: int, z1: int, x2: int, y2: int, z2: int)
    requires
        0 <= x1 < 256,
        0 <= y1 < 256,
        0 <= z1 < 256,
        0 <= x2 < 256,
        0 <= y2 < 256,
        0 <= z2 < 256,
        x1 / 4 == x2 / 4,
        (x1 % 4) * 16 + y1 / 16 == (x2 % 4) * 16 + y2 / 16,
        (y1 % 16) * 4 + z1 / 64 == (y2 % 16) * 4 + z2 / 64,
        z1 % 64 == z2 % 64,
    ensures
        x1 == x2,
        y1 == y2,
        z1 == z2,
{
}

/// Two byte strings of the same length have the same base64 text only if they
/// are equal.
pub proof fn lemma_base64_injective(b1: Seq<u8>, b2: Seq<u8>)
    requires
        b1.len() == b2.len(),
        base64_encode(b1) == base64_encode(b2),
    ensures
        b1 == b2,
    decreases b1.len(),
{
    let e1 = base64_encode(b1);
    let e2 = base64_encode(b2);
    if b1.len() == 0 {
        assert(b1 =~= b2);
    } else {
        let x1 = b1[0] as int;
        let x2 = b2[0] as int;
        let y1 = if b1.len() >= 2 { b1[1] as int } else { 0 };
        let y2 = if b2.len() >= 2 { b2[1] as int } else { 0 };
        let z1 = if b1.len() >= 3 { b1[2] as int } else { 0 };
        let z2 = if b2.len() >= 3 { b2[2] as int } else { 0 };
        assert(e1[0] == e2[0]);
        assert(e1[1] == e2[1]);
        assert(e1[2] == e2[2]);
        assert(e1[3] == e2[3]);
        lemma_base64_digit_injective(x1 / 4, x2 / 4);
        lemma_base64_digit_injective((x1 % 4) * 16 + y1 / 16, (x2 % 4) * 16 + y2 / 16);
        if b1.len() >= 2 {
            lemma_base64_digit_injective((y1 % 16) * 4 + z1 / 64, (y2 % 16) * 4 + z2 / 64);
        }
        if b1.len() >= 3 {
            lemma_base64_digit_injective(z1 % 64, z2 % 64);
            let r1 = b1.subrange(3, b1.len() as int);
            let r2 = b2.subrange(3, b2.len() as int);
            assert(base64_encode(r1) =~= e1.subrange(4, e1.len() as int));
            assert(base64_encode(r2) =~= e2.subrange(4, e2.len() as int));
            lemma_base64_injective(r1, r2);
            assert forall|i: int| 3 <= i < b1.len() implies b1[i] == b2[i] by {
                assert(b1[i] == r1[i - 3]);
                assert(b2[i] == r2[i - 3]);
            }
        }
        lemma_base64_groups_injective(x1, y1, z1, x2, y2, z2);
        assert(b1 =~= b2);
    }
}

/// Two session tokens are equal exactly when the bytes drawn for them are
/// equal, so distinct draws from the secure source give distinct tokens.
pub proof fn lemma_session_ids_distinct(b1: Seq<u8>, b2: Seq<u8>)
    requires
        b1.len() == SESSION_ID_BYTES,
        b2.len() == SESSION_ID_BYTES,
    ensures
        (base64_encode(b1) == base64_encode(b2)) <==> (b1 == b2),
{
    if base64_encode(b1) == base64_encode(b2) {
        lemma_base64_injective(b1, b2);
    }
}

/// Relies on `base64::engine::general_purpose::STANDARD.encode`: standard alphabet, padded.
#[verifier::external_body]
fn base64_standard(b: &[u8]) -> (r: String)
    ensures
        r@ == base64_encode(b@),
{
    base64::engine::general_purpose::STANDARD.encode(b)
}

/// Relies on `ring::rand::generate`: fills eight bytes from the secure source, or
/// fails when the source cannot produce output. Nothing is known of the bytes.
#[verifier::external_body]
fn draw_random_bytes(rng: &ring::rand::SystemRandom) -> (r: Result<[u8; 8], ring::error::Unspecified>) {
    match ring::rand::generate::<[u8; 8]>(rng) {
        Ok(bytes) => Ok(bytes.expose()),
        Err(e) => Err(e),
    }
}

/// Encodes raw session-token bytes as the token's text.
pub fn encode_session_id(bytes: &[u8; 8]) -> (r: String)
    ensures
        r@ == base64_encode(bytes@),
        r@.len() == SESSION_ID_LEN,
{
    proof {
        lemma_base64_len(bytes@);
    }
    base64_standard(bytes.as_slice())
}

/// The text is the encoding of some eight bytes.
pub open spec fn is_session_id(t: Seq<char>) -> bool {
    exists|b: Seq<u8>| b.len() == SESSION_ID_BYTES && t == #[trigger] base64_encode(b)
}

/// Draws a fresh session token from the secure source.
pub fn generate_session_id(rng: &ring::rand::SystemRandom) -> (r: Result<String, SessionError>)
    ensures
        r matches Ok(t) ==> is_session_id(t@) && t@.len() == SESSION_ID_LEN,
        r matches Err(e) ==> e == SessionError::FailedToGenerateSessionID,
{
    match draw_random_bytes(rng) {
        Ok(bytes) => {
            let t = encode_session_id(&bytes);
            assert(bytes@.len() == SESSION_ID_BYTES);
            Ok(t)
        },
        Err(_) => Err(SessionError::FailedToGenerateSessionID),
    }
}

} // verus!
