//! The payload of the synthetic line sources: `n` lines `"Hello 1"`
//! through `"Hello n"`, every line but the last followed by a newline,
//! so the whole payload carries no trailing newline.

use vstd::prelude::*;

verus! {

/// The decimal digits of `n`, most significant first, as ASCII bytes.
pub open spec fn decimal_digits(n: nat) -> Seq<u8>
    decreases n,
{
    if n < 10 {
        seq![(48 + n) as u8]
    } else {
        decimal_digits(n / 10).push((48 + n % 10) as u8)
    }
}

/// The bytes of `"Hello "`.
pub open spec fn hello_prefix() -> Seq<u8> {
    seq![72u8, 101u8, 108u8, 108u8, 111u8, 32u8]
}

/// The bytes of the line numbered `i`: `"Hello i"`.
pub open spec fn line_bytes(i: nat) -> Seq<u8> {
    hello_prefix() + decimal_digits(i)
}

/// The chunk a source emits for line `i` of an `n`-line payload:
/// every line but the last carries a terminating newline.
pub open spec fn chunk_bytes(i: nat, n: nat) -> Seq<u8> {
    if i < n {
        line_bytes(i).push(10u8)
    } else {
        line_bytes(i)
    }
}

/// The first `k` chunks of an `n`-line payload, concatenated in
/// emission order.
pub open spec fn lines_prefix(k: nat, n: nat) -> Seq<u8>
    decreases k,
{
    if k == 0 {
        Seq::empty()
    } else {
        lines_prefix((k - 1) as nat, n) + chunk_bytes(k, n)
    }
}

/// The whole `n`-line payload: the lines joined by `\n`, with no
/// trailing newline.
pub open spec fn payload_bytes(n: nat) -> Seq<u8> {
    lines_prefix(n, n)
}

/// Every byte of a number's decimal form is an ASCII digit, and there
/// is at least one.
pub proof fn lemma_digits_are_ascii(n: nat)
    ensures
        decimal_digits(n).len() >= 1,
        forall|i: int|
            0 <= i < decimal_digits(n).len() ==> 48 <= #[trigger] decimal_digits(n)[i] <= 57,
    decreases n,
{
    if n >= 10 {
        lemma_digits_are_ascii(n / 10);
    }
}

/// A nonempty payload never ends in a newline: the last line carries
/// no terminator, and its final byte is a decimal digit.
pub proof fn lemma_no_trailing_newline(n: nat)
    requires
        n >= 1,
    ensures
        payload_bytes(n).len() > 0,
        payload_bytes(n).last() != 10u8,
{
    lemma_digits_are_ascii(n);
    assert(payload_bytes(n) == lines_prefix((n - 1) as nat, n) + chunk_bytes(n, n));
    assert(chunk_bytes(n, n) == line_bytes(n));
    assert(line_bytes(n).last() == decimal_digits(n).last());
    assert(payload_bytes(n).last() == chunk_bytes(n, n).last());
}

/// The decimal digits of `n` as ASCII bytes.
fn decimal_bytes(n: usize) -> (r: Vec<u8>)
    ensures
        r@ == decimal_digits(n as nat),
    decreases n,
{
    if n < 10 {
        let mut v: Vec<u8> = Vec::new();
        v.push(48 + (n as u8));
        proof {
            assert(v@ =~= decimal_digits(n as nat));
        }
        v
    } else {
        let mut v = decimal_bytes(n / 10);
        v.push(48 + ((n % 10) as u8));
        v
    }
}

/// Build the chunk for line `i` of an `n`-line payload.
pub fn line_chunk(i: usize, n: usize) -> (r: Vec<u8>)
    requires
        1 <= i <= n,
    ensures
        r@ == chunk_bytes(i as nat, n as nat),
{
    let mut v: Vec<u8> = Vec::new();
    v.push(72);
    v.push(101);
    v.push(108);
    v.push(108);
    v.push(111);
    v.push(32);
    proof {
        assert(v@ =~= hello_prefix());
    }
    let mut d = decimal_bytes(i);
    v.append(&mut d);
    if i < n {
        v.push(10);
    }
    v
}

/// Build the whole `n`-line payload eagerly, in one buffer.
pub fn all_lines(n: usize) -> (r: Vec<u8>)
    ensures
        r@ == payload_bytes(n as nat),
{
    let mut out: Vec<u8> = Vec::new();
    let mut k: usize = 0;
    while k < n
        invariant
            k <= n,
            out@ == lines_prefix(k as nat, n as nat),
        decreases n - k,
    {
        k = k + 1;
        let mut c = line_chunk(k, n);
        out.append(&mut c);
    }
    out
}

} // verus!
