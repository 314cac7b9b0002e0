//! Method selectors: the first four bytes of the Keccak-256 digest of a
//! method's textual signature, written as `0x` and eight lowercase hex digits.
use vstd::prelude::*;

verus! {

/// The sixteen lowercase hexadecimal digits, in order.
pub open spec fn hex_chars() -> Seq<char> {
    seq!['0', '1', '2', '3', '4', '5', '6', '7', '8', '9', 'a', 'b', 'c', 'd', 'e', 'f']
}

/// Two lowercase hex digits per byte, high nibble first.
pub open spec fn hex_of(bytes: Seq<u8>) -> Seq<char>
    decreases bytes.len(),
{
    if bytes.len() == 0 {
        Seq::empty()
    } else {
        let b = bytes.last() as int;
        hex_of(bytes.drop_last()) + seq![hex_chars()[b / 16], hex_chars()[b % 16]]
    }
}

/// Decimal digits of a natural number, most significant first, without leading zeros.
pub open spec fn decimal_of(n: nat) -> Seq<char>
    decreases n,
{
    if n < 10 {
        seq![hex_chars()[n as int]]
    } else {
        decimal_of(n / 10) + seq![hex_chars()[(n % 10) as int]]
    }
}

/// The selector text for a digest: `0x` and the hex of its first four bytes.
pub open spec fn selector_of(digest: Seq<u8>) -> Seq<char> {
    seq!['0', 'x'] + hex_of(digest.take(4))
}

/// The Keccak-256 digest of the UTF-8 bytes of a text.
pub uninterp spec fn keccak_of(text: Seq<char>) -> Seq<u8>;

/// Relies on `ethers::utils::keccak256`: the 32-byte Keccak-256 digest of the
/// text's bytes, a function of the text alone.
#[verifier::external_body]
fn keccak(text: &str) -> (r: Vec<u8>)
    ensures
        r@ == keccak_of(text@),
        r@.len() == 32,
{
    ethers::utils::keccak256(text.as_bytes()).to_vec()
}

/// The one-character text holding the digit of value `n`.
fn digit_text(n: u8) -> (r: &'static str)
    requires
        n < 16,
    ensures
        r@ == seq![hex_chars()[n as int]],
{
    let digits = "0123456789abcdef";
    proof {
        reveal_strlit("0123456789abcdef");
    }
    let r = digits.substring_char(n as usize, n as usize + 1);
    assert(r@ =~= seq![hex_chars()[n as int]]);
    r
}

/// Appends the two hex digits of each byte to `out`.
pub fn push_hex(out: &mut String, bytes: &[u8])
    ensures
        final(out)@ == old(out)@ + hex_of(bytes@),
{
    let mut i: usize = 0;
    while i < bytes.len()
        invariant
            i <= bytes@.len(),
            out@ == old(out)@ + hex_of(bytes@.take(i as int)),
        decreases bytes@.len() - i,
    {
        let b = bytes[i];
        out.append(digit_text(b / 16));
        out.append(digit_text(b % 16));
        proof {
            let next = bytes@.take(i as int + 1);
            assert(next.drop_last() =~= bytes@.take(i as int));
            assert(next.last() == b);
        }
        i = i + 1;
    }
    assert(bytes@.take(bytes@.len() as int) =~= bytes@);
}

/// Appends the decimal digits of `n` to `out`.
pub fn push_decimal(out: &mut String, n: u64)
    ensures
        final(out)@ == old(out)@ + decimal_of(n as nat),
    decreases n,
{
    if n >= 10 {
        push_decimal(out, n / 10);
    }
    out.append(digit_text((n % 10) as u8));
    proof {
        if n < 10 {
            assert(n % 10 == n);
        }
    }
    assert(out@ =~= old(out)@ + decimal_of(n as nat));
}

/// The selector text of an already computed digest.
pub fn selector_from_digest(digest: &[u8]) -> (r: String)
    requires
        digest@.len() >= 4,
    ensures
        r@ == selector_of(digest@),
{
    let mut r = String::from_str("0x");
    proof {
        reveal_strlit("0x");
    }
    push_hex(&mut r, &digest[0..4]);
    assert(digest@.subrange(0, 4) =~= digest@.take(4));
    assert(r@ =~= selector_of(digest@));
    r
}

/// The method selector of a signature such as `transfer(address,uint256)`.
pub fn function_sig(function_name: &str) -> (r: String)
    ensures
        r@ == selector_of(keccak_of(function_name@)),
{
    let digest = keccak(function_name);
    selector_from_digest(digest.as_slice())
}

/// Hex text has two digits per byte.
pub proof fn lemma_hex_len(bytes: Seq<u8>)
    ensures
        hex_of(bytes).len() == 2 * bytes.len(),
    decreases bytes.len(),
{
    if bytes.len() > 0 {
        lemma_hex_len(bytes.drop_last());
    }
}

/// Selector derivation is a pure function of the signature text: equal
/// signatures give equal selectors, and every selector is `0x` followed by
/// exactly eight hex digits.
pub proof fn lemma_selector_deterministic(a: Seq<char>, b: Seq<char>)
    requires
        a == b,
    ensures
        selector_of(keccak_of(a)) == selector_of(keccak_of(b)),
        keccak_of(a).len() >= 4 ==> selector_of(keccak_of(a)).len() == 10,
{
    if keccak_of(a).len() >= 4 {
        lemma_hex_len(keccak_of(a).take(4));
    }
}

} // verus!
