//! Proof Key for Code Exchange: a random verifier and the challenge derived from it.
use vstd::prelude::*;

verus! {

/// Length of the code verifier and of the state.
pub const PKCE_TEXT_LENGTH: usize = 64;

/// A lower-case hexadecimal digit.
pub open spec fn is_hex_digit(c: char) -> bool {
    ('0' <= c && c <= '9') || ('a' <= c && c <= 'f')
}

/// `s` is `n` lower-case hexadecimal digits.
pub open spec fn is_hex_text(s: Seq<char>, n: nat) -> bool {
    s.len() == n && forall|i: int| 0 <= i < s.len() ==> is_hex_digit(#[trigger] s[i])
}

/// Relies on rand::thread_rng and Rng::gen_range: a number drawn uniformly
/// from `0..bound`, which is not empty.
#[verifier::external_body]
fn random_below(bound: usize) -> (r: usize)
    requires
        bound > 0,
    ensures
        r < bound,
{
    rand::Rng::gen_range(&mut rand::thread_rng(), 0..bound)
}

/// A fresh random string of `length` lower-case hexadecimal digits.
pub fn hex_random(length: usize) -> (r: String)
    ensures
        is_hex_text(r@, length as nat),
{
    let digits: &str = "0123456789abcdef";
    proof {
        reveal_strlit("0123456789abcdef");
    }
    assert(forall|j: int| 0 <= j < 16 ==> is_hex_digit(#[trigger] digits@[j]));
    let mut out = String::new();
    let mut i: usize = 0;
    while i < length
        invariant
            i <= length,
            digits@.len() == 16,
            forall|j: int| 0 <= j < 16 ==> is_hex_digit(#[trigger] digits@[j]),
            is_hex_text(out@, i as nat),
        decreases length - i,
    {
        let d = random_below(16);
        let digit = digits.substring_char(d, d + 1);
        assert(is_hex_digit(digits@[d as int]));
        out.append(digit);
        assert(out@.last() == digits@[d as int]);
        i = i + 1;
    }
    out
}

/// The SHA-256 digest of the UTF-8 encoding of `text`.
pub uninterp spec fn sha256_of(text: Seq<char>) -> Seq<u8>;

/// The character of the standard Base64 alphabet for the six-bit value `v`.
pub open spec fn base64_digit(v: int) -> char {
    if v < 26 {
        (65 + v) as char
    } else if v < 52 {
        (97 + v - 26) as char
    } else if v < 62 {
        (48 + v - 52) as char
    } else if v == 62 {
        '+'
    } else {
        '/'
    }
}

/// The padded, standard-alphabet Base64 encoding of `data` (RFC 4648, section
/// 4): each group of three bytes gives four characters of six bits each; a
/// last group of one or two bytes is padded with `=`.
pub open spec fn base64_of(data: Seq<u8>) -> Seq<char>
    decreases data.len(),
{
    if data.len() == 0 {
        Seq::empty()
    } else if data.len() == 1 {
        let b0 = data[0] as int;
        seq![base64_digit(b0 / 4), base64_digit((b0 % 4) * 16), '=', '=']
    } else if data.len() == 2 {
        let (b0, b1) = (data[0] as int, data[1] as int);
        seq![
            base64_digit(b0 / 4),
            base64_digit((b0 % 4) * 16 + b1 / 16),
            base64_digit((b1 % 16) * 4),
            '=',
        ]
    } else {
        let (b0, b1, b2) = (data[0] as int, data[1] as int, data[2] as int);
        seq![
            base64_digit(b0 / 4),
            base64_digit((b0 % 4) * 16 + b1 / 16),
            base64_digit((b1 % 16) * 4 + b2 / 64),
            base64_digit(b2 % 64),
        ] + base64_of(data.subrange(3, data.len() as int))
    }
}

/// Relies on sha2::Sha256::digest: the SHA-256 digest of the UTF-8 bytes of `text`.
#[verifier::external_body]
fn sha256_digest(text: &str) -> (r: Vec<u8>)
    ensures
        r@ == sha256_of(text@),
        r@.len() == 32,
{
    <sha2::Sha256 as sha2::Digest>::digest(text.as_bytes()).to_vec()
}

/// A character of the standard Base64 alphabet.
pub open spec fn is_base64_char(c: char) -> bool {
    ('A' <= c && c <= 'Z') || ('a' <= c && c <= 'z') || ('0' <= c && c <= '9') || c == '+' || c
        == '/'
}

/// A character of the URL-safe Base64 alphabet.
pub open spec fn is_url_safe_char(c: char) -> bool {
    ('A' <= c && c <= 'Z') || ('a' <= c && c <= 'z') || ('0' <= c && c <= '9') || c == '-' || c
        == '_'
}

/// Relies on base64::encode: the padded, standard-alphabet Base64 encoding of `data`.
#[verifier::external_body]
fn base64_standard(data: &Vec<u8>) -> (r: String)
    ensures
        r@ == base64_of(data@),
{
    base64::encode(data)
}

/// The URL-safe counterpart of a standard Base64 character.
pub open spec fn url_safe_char(c: char) -> char {
    if c == '+' {
        '-'
    } else if c == '/' {
        '_'
    } else {
        c
    }
}

/// Standard Base64 text turned into the URL-safe alphabet, padding dropped.
pub open spec fn url_safe(s: Seq<char>) -> Seq<char>
    decreases s.len(),
{
    if s.len() == 0 {
        s
    } else if s.last() == '=' {
        url_safe(s.drop_last())
    } else {
        url_safe(s.drop_last()).push(url_safe_char(s.last()))
    }
}

/// The PKCE challenge for `verifier`: the Base64url encoding, without padding,
/// of the SHA-256 digest of the verifier.
pub open spec fn code_challenge_of(verifier: Seq<char>) -> Seq<char> {
    url_safe(base64_of(sha256_of(verifier)))
}

/// Rewrites standard Base64 text into the URL-safe alphabet without padding.
pub fn to_url_safe(s: &str) -> (r: String)
    ensures
        r@ == url_safe(s@),
{
    let n = s.unicode_len();
    let mut out = String::new();
    let mut i: usize = 0;
    while i < n
        invariant
            i <= n,
            n == s@.len(),
            out@ == url_safe(s@.subrange(0, i as int)),
        decreases n - i,
    {
        let c = s.get_char(i);
        assert(s@.subrange(0, i as int + 1).drop_last() =~= s@.subrange(0, i as int));
        let ghost before = out@;
        assert(s@.subrange(0, i as int + 1).last() == c);
        if c == '+' {
            let one: &str = "-";
            proof {
                reveal_strlit("-");
            }
            assert(one@.len() == 1 && one@[0] == '-');
            out.append(one);
            assert(out@ =~= before.push('-'));
        } else if c == '/' {
            let one: &str = "_";
            proof {
                reveal_strlit("_");
            }
            assert(one@.len() == 1 && one@[0] == '_');
            out.append(one);
            assert(out@ =~= before.push('_'));
        } else if c != '=' {
            let one = s.substring_char(i, i + 1);
            out.append(one);
            assert(one@ =~= seq![c]);
            assert(out@ =~= before.push(c));
        }
        i = i + 1;
    }
    assert(s@.subrange(0, n as int) =~= s@);
    out
}

proof fn lemma_base64_digit(v: int)
    requires
        0 <= v < 64,
    ensures
        is_base64_char(base64_digit(v)),
{
}

/// The Base64 encoding of `data` has four characters for each three bytes
/// begun: first those that carry the bits, then `=` up to the full group.
pub proof fn lemma_base64_shape(data: Seq<u8>)
    ensures
        base64_of(data).len() == 4 * ((data.len() + 2) / 3),
        forall|i: int|
            0 <= i < base64_of(data).len() ==> if i < (4 * data.len() + 2) / 3 {
                is_base64_char(#[trigger] base64_of(data)[i])
            } else {
                base64_of(data)[i] == '='
            },
    decreases data.len(),
{
    let n = data.len() as int;
    let s = base64_of(data);
    if n == 0 {
    } else if n == 1 {
        let b0 = data[0] as int;
        lemma_base64_digit(b0 / 4);
        lemma_base64_digit((b0 % 4) * 16);
    } else if n == 2 {
        let (b0, b1) = (data[0] as int, data[1] as int);
        lemma_base64_digit(b0 / 4);
        lemma_base64_digit((b0 % 4) * 16 + b1 / 16);
        lemma_base64_digit((b1 % 16) * 4);
    } else {
        let (b0, b1, b2) = (data[0] as int, data[1] as int, data[2] as int);
        let rest = data.subrange(3, n);
        lemma_base64_shape(rest);
        lemma_base64_digit(b0 / 4);
        lemma_base64_digit((b0 % 4) * 16 + b1 / 16);
        lemma_base64_digit((b1 % 16) * 4 + b2 / 64);
        lemma_base64_digit(b2 % 64);
        assert forall|i: int| 0 <= i < s.len() implies if i < (4 * n + 2) / 3 {
            is_base64_char(#[trigger] s[i])
        } else {
            s[i] == '='
        } by {
            if i >= 4 {
                assert(s[i] == base64_of(rest)[i - 4]);
            }
        }
    }
}

/// `s` holds no padding: the rewrite keeps its length and maps it character
/// by character.
proof fn lemma_url_safe_unpadded(s: Seq<char>)
    requires
        forall|i: int| 0 <= i < s.len() ==> #[trigger] s[i] != '=',
    ensures
        url_safe(s).len() == s.len(),
        forall|i: int| 0 <= i < s.len() ==> #[trigger] url_safe(s)[i] == url_safe_char(s[i]),
    decreases s.len(),
{
    if s.len() > 0 {
        lemma_url_safe_unpadded(s.drop_last());
        assert forall|i: int| 0 <= i < s.len() implies #[trigger] url_safe(s)[i] == url_safe_char(
            s[i],
        ) by {
            if i < s.len() - 1 {
                assert(s.drop_last()[i] == s[i]);
            }
        }
    }
}

/// Padding at the end of `s`, from `k` on, is dropped.
proof fn lemma_url_safe_drops_padding(s: Seq<char>, k: int)
    requires
        0 <= k <= s.len(),
        forall|i: int| k <= i < s.len() ==> #[trigger] s[i] == '=',
    ensures
        url_safe(s) == url_safe(s.subrange(0, k)),
    decreases s.len(),
{
    if s.len() == k {
        assert(s.subrange(0, k) =~= s);
    } else {
        assert(s.drop_last().subrange(0, k) =~= s.subrange(0, k));
        lemma_url_safe_drops_padding(s.drop_last(), k);
    }
}

/// The padded Base64 text of 32 bytes becomes 43 URL-safe characters.
pub proof fn lemma_challenge_shape(s: Seq<char>)
    requires
        s.len() == 44,
        forall|i: int| 0 <= i < 43 ==> is_base64_char(#[trigger] s[i]),
        s[43] == '=',
    ensures
        url_safe(s).len() == 43,
        forall|i: int| 0 <= i < 43 ==> is_url_safe_char(#[trigger] url_safe(s)[i]),
{
    let head = s.subrange(0, 43);
    lemma_url_safe_drops_padding(s, 43);
    assert forall|i: int| 0 <= i < head.len() implies #[trigger] head[i] != '=' by {
        assert(is_base64_char(s[i]));
    }
    lemma_url_safe_unpadded(head);
    assert forall|i: int| 0 <= i < 43 implies is_url_safe_char(#[trigger] url_safe(s)[i]) by {
        assert(is_base64_char(s[i]));
        assert(url_safe(s)[i] == url_safe_char(head[i]));
    }
}

/// Derives the PKCE challenge of `verifier`: 43 characters of the URL-safe alphabet.
pub fn code_challenge(verifier: &str) -> (r: String)
    ensures
        r@ == code_challenge_of(verifier@),
        r@.len() == 43,
        forall|i: int| 0 <= i < r@.len() ==> is_url_safe_char(#[trigger] r@[i]),
{
    let digest = sha256_digest(verifier);
    let encoded = base64_standard(&digest);
    proof {
        lemma_base64_shape(digest@);
        assert(encoded@[43] == '=');
        lemma_challenge_shape(encoded@);
    }
    to_url_safe(encoded.as_str())
}

/// The URL-safe rewrite never yields `+`, `/` or `=`.
pub proof fn lemma_url_safe_alphabet(s: Seq<char>)
    ensures
        forall|i: int|
            0 <= i < url_safe(s).len() ==> #[trigger] url_safe(s)[i] != '+' && url_safe(s)[i]
                != '/' && url_safe(s)[i] != '=',
    decreases s.len(),
{
    if s.len() > 0 {
        let rest = url_safe(s.drop_last());
        lemma_url_safe_alphabet(s.drop_last());
        if s.last() != '=' {
            assert forall|i: int| 0 <= i < url_safe(s).len() implies #[trigger] url_safe(s)[i]
                != '+' && url_safe(s)[i] != '/' && url_safe(s)[i] != '=' by {
                if i < rest.len() {
                    assert(url_safe(s)[i] == rest[i]);
                }
            }
        }
    }
}

/// The PKCE challenge is a function of the verifier alone, and it never holds
/// `+`, `/` or `=`.
pub proof fn lemma_code_challenge(v1: Seq<char>, v2: Seq<char>)
    ensures
        v1 == v2 ==> code_challenge_of(v1) == code_challenge_of(v2),
        forall|i: int|
            0 <= i < code_challenge_of(v1).len() ==> #[trigger] code_challenge_of(v1)[i] != '+'
                && code_challenge_of(v1)[i] != '/' && code_challenge_of(v1)[i] != '=',
{
    lemma_url_safe_alphabet(base64_of(sha256_of(v1)));
}

/// The fresh parameters of one authorization attempt.
#[derive(Clone, Debug)]
pub struct AuthorizationParams {
    pub code_verifier: String,
    pub state: String,
    pub code_challenge: String,
}

impl AuthorizationParams {
    /// Draws a fresh verifier and state and derives the challenge.
    pub fn new() -> (r: AuthorizationParams)
        ensures
            is_hex_text(r.code_verifier@, PKCE_TEXT_LENGTH as nat),
            is_hex_text(r.state@, PKCE_TEXT_LENGTH as nat),
            r.code_challenge@ == code_challenge_of(r.code_verifier@),
            r.code_challenge@.len() == 43,
            forall|i: int|
                0 <= i < r.code_challenge@.len() ==> is_url_safe_char(
                    #[trigger] r.code_challenge@[i],
                ),
    {
        let code_verifier = hex_random(PKCE_TEXT_LENGTH);
        let code_challenge = code_challenge(code_verifier.as_str());
        let state = hex_random(PKCE_TEXT_LENGTH);
        AuthorizationParams { code_verifier, state, code_challenge }
    }
}

} // verus!
