use base64::engine::general_purpose::URL_SAFE;
use base64::engine::Engine;
use vstd::prelude::*;

verus! {

/// The character of the url-safe base64 alphabet for a six-bit value.
pub open spec fn url_safe_char(six: int) -> char {
    "ABCDEFGHIJKLMNOPQRSTUVWXYZabcdefghijklmnopqrstuvwxyz0123456789-_"@[six]
}

/// The four characters for a group of one to three bytes: each six bits
/// of the group, most significant first, and `=` for each missing byte.
pub open spec fn url_safe_group(g: Seq<u8>) -> Seq<char> {
    let b0 = g[0] as int;
    let b1 = if g.len() > 1 { g[1] as int } else { 0 };
    let b2 = if g.len() > 2 { g[2] as int } else { 0 };
    seq![
        url_safe_char(b0 / 4),
        url_safe_char((b0 % 4) * 16 + b1 / 16),
        if g.len() > 1 { url_safe_char((b1 % 16) * 4 + b2 / 64) } else { '=' },
        if g.len() > 2 { url_safe_char(b2 % 64) } else { '=' },
    ]
}

/// The padded url-safe base64 text of `bytes`: the groups of three bytes in
/// order, the last one possibly shorter.
pub open spec fn url_safe_of(bytes: Seq<u8>) -> Seq<char>
    decreases bytes.len(),
{
    if bytes.len() == 0 {
        Seq::empty()
    } else if bytes.len() <= 3 {
        url_safe_group(bytes)
    } else {
        url_safe_group(bytes.take(3)) + url_safe_of(bytes.skip(3))
    }
}

/// The length of the padded base64 text of `n` bytes: four characters for
/// each started group of three bytes.
pub open spec fn padded_len(n: nat) -> nat {
    if n % 3 == 0 {
        n / 3 * 4
    } else {
        n / 3 * 4 + 4
    }
}

/// The text of `n` bytes has the length that `padded_len` gives.
pub proof fn lemma_url_safe_len(bytes: Seq<u8>)
    ensures
        url_safe_of(bytes).len() == padded_len(bytes.len()),
    decreases bytes.len(),
{
    if bytes.len() > 3 {
        lemma_url_safe_len(bytes.skip(3));
    }
}

/// Relies on base64's URL_SAFE engine `encode`: the padded url-safe text of
/// the bytes; it panics only when the length that `encoded_len` computes for
/// it does not fit in a usize.
#[verifier::external_body]
fn encode_url_safe(bytes: &Vec<u8>) -> (r: String)
    requires
        padded_len(bytes@.len()) <= usize::MAX,
    ensures
        r@ == url_safe_of(bytes@),
{
    URL_SAFE.encode(bytes)
}

/// Relies on rand::random: one byte from the thread-local generator.
#[verifier::external_body]
fn random_byte() -> (r: u8) {
    rand::random::<u8>()
}

/// `n` copies of `byte`.
pub open spec fn repeated(byte: u8, n: nat) -> Seq<u8> {
    Seq::new(n, |i: int| byte)
}

/// The url-safe text of `n` copies of `byte`.
pub fn url_safe_repeated(byte: u8, n: usize) -> (r: String)
    requires
        padded_len(n as nat) <= usize::MAX,
    ensures
        r@ == url_safe_of(repeated(byte, n as nat)),
        r@.len() == padded_len(n as nat),
{
    let mut bytes: Vec<u8> = Vec::new();
    let mut i: usize = 0;
    while i < n
        invariant
            i <= n,
            bytes@ == repeated(byte, i as nat),
        decreases n - i,
    {
        bytes.push(byte);
        i = i + 1;
        assert(bytes@ =~= repeated(byte, i as nat));
    }
    proof {
        lemma_url_safe_len(bytes@);
    }
    encode_url_safe(&bytes)
}

/// A random url-safe string made from `n` bytes: one random byte, repeated.
pub fn gen_random_string(n: usize) -> (r: String)
    requires
        padded_len(n as nat) <= usize::MAX,
    ensures
        exists|b: u8| r@ == url_safe_of(#[trigger] repeated(b, n as nat)),
        r@.len() == padded_len(n as nat),
{
    let byte = random_byte();
    url_safe_repeated(byte, n)
}

} // verus!
