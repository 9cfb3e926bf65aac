//! Framing for the editor-service transport: each message travels as a
//! `Content-Length: <n>` header, a blank line, and `n` bytes of payload.

use vstd::prelude::*;

verus! {

/// The stateless codec that frames and unframes messages.
#[derive(Copy, Clone, Debug, Eq, PartialEq, Ord, PartialOrd, Hash, Structural)]
pub struct LSPCodec;

/// The bytes of the ASCII header prefix `Content-Length: `.
pub open spec fn cl_prefix() -> Seq<u8> {
    seq![67u8, 111, 110, 116, 101, 110, 116, 45, 76, 101, 110, 103, 116, 104, 58, 32]
}

/// An ASCII decimal digit.
pub open spec fn is_digit(b: u8) -> bool {
    48 <= b <= 57
}

/// The decimal digits of `n`, most significant first.
pub open spec fn dec_digits(n: nat) -> Seq<u8>
    decreases n,
{
    if n < 10 {
        seq![(48 + n) as u8]
    } else {
        dec_digits(n / 10).push((48 + n % 10) as u8)
    }
}

/// The number a digit string denotes.
pub open spec fn dec_value(ds: Seq<u8>) -> int
    decreases ds.len(),
{
    if ds.len() == 0 {
        0
    } else {
        dec_value(ds.drop_last()) * 10 + (ds.last() - 48)
    }
}

/// A header/content separator match at `i`: the blank line `\r\n\r\n`
/// followed by at least one byte that is not a line feed.
pub open spec fn sep_match_at(s: Seq<u8>, i: int) -> bool {
    &&& 0 <= i
    &&& i + 4 < s.len()
    &&& s[i] == 13
    &&& s[i + 1] == 10
    &&& s[i + 2] == 13
    &&& s[i + 3] == 10
    &&& s[i + 4] != 10
}

/// A `Content-Length: ` header match at `i`: the prefix followed by at
/// least one digit.
pub open spec fn cl_match_at(s: Seq<u8>, i: int) -> bool {
    &&& 0 <= i
    &&& i + 16 < s.len()
    &&& s.subrange(i, i + 16) == cl_prefix()
    &&& is_digit(s[i + 16])
}

/// Some separator match exists in `s`.
pub open spec fn has_sep(s: Seq<u8>) -> bool {
    exists|i: int| sep_match_at(s, i)
}

/// The leftmost separator match.
pub open spec fn first_sep(s: Seq<u8>) -> int {
    choose|i: int| sep_match_at(s, i) && (forall|j: int| 0 <= j < i ==> !sep_match_at(s, j))
}

/// Some header match exists in `s`.
pub open spec fn has_cl(s: Seq<u8>) -> bool {
    exists|i: int| cl_match_at(s, i)
}

/// The leftmost header match.
pub open spec fn first_cl(s: Seq<u8>) -> int {
    choose|i: int| cl_match_at(s, i) && (forall|j: int| 0 <= j < i ==> !cl_match_at(s, j))
}

/// The end of the digit run that starts at `i`.
pub open spec fn digits_end(s: Seq<u8>, i: int) -> int
    decreases s.len() - i,
{
    if i < 0 || i >= s.len() || !is_digit(s[i]) {
        i
    } else {
        digits_end(s, i + 1)
    }
}

/// The declared content length of the leftmost header match of `s`.
pub open spec fn declared_len(s: Seq<u8>) -> int {
    dec_value(s.subrange(first_cl(s) + 16, digits_end(s, first_cl(s) + 16)))
}

/// What decoding a buffer yields: when both a header and a separator are
/// present and the declared length of content is available after the
/// leftmost separator, the message and the remainder; otherwise nothing
/// yet.
#[verifier::opaque]
pub open spec fn decode_spec(s: Seq<u8>) -> Option<(Seq<u8>, Seq<u8>)> {
    if has_sep(s) && has_cl(s) {
        let e = first_sep(s) + 4;
        let n = declared_len(s);
        if n <= s.len() - e {
            Some((s.subrange(e, e + n), s.subrange(e + n, s.len() as int)))
        } else {
            None
        }
    } else {
        None
    }
}

/// Append every byte of `v` to `buf`.
fn push_all(buf: &mut Vec<u8>, v: &Vec<u8>)
    ensures
        final(buf)@ =~= old(buf)@ + v@,
{
    let mut i: usize = 0;
    while i < v.len()
        invariant
            i <= v@.len(),
            buf@ =~= old(buf)@ + v@.take(i as int),
        decreases v@.len() - i,
    {
        buf.push(v[i]);
        proof {
            assert(buf@ =~= old(buf)@ + v@.take((i + 1) as int));
        }
        i = i + 1;
    }
    proof {
        assert(v@.take(v@.len() as int) =~= v@);
    }
}

/// The header prefix, as bytes.
fn cl_prefix_vec() -> (v: Vec<u8>)
    ensures
        v@ =~= cl_prefix(),
{
    let mut v: Vec<u8> = Vec::new();
    v.push(67);
    v.push(111);
    v.push(110);
    v.push(116);
    v.push(101);
    v.push(110);
    v.push(116);
    v.push(45);
    v.push(76);
    v.push(101);
    v.push(110);
    v.push(103);
    v.push(116);
    v.push(104);
    v.push(58);
    v.push(32);
    v
}

/// The decimal digits of `n`.
fn dec_of(n: usize) -> (v: Vec<u8>)
    ensures
        v@ =~= dec_digits(n as nat),
    decreases n,
{
    if n < 10 {
        let mut v: Vec<u8> = Vec::new();
        v.push(48 + n as u8);
        v
    } else {
        let mut v = dec_of(n / 10);
        v.push(48 + (n % 10) as u8);
        v
    }
}

/// Why framing or unframing failed. The codec itself never fails: the type
/// records that fact in its signatures.
#[derive(Clone, Copy, Debug, PartialEq, Eq, Structural)]
pub enum CodecError {
    Unframeable,
}

impl LSPCodec {
    /// A fresh codec.
    pub fn new() -> (c: LSPCodec)
        ensures
            c == LSPCodec,
    {
        LSPCodec
    }

    /// Frame `data`: prefix it with its `Content-Length` header and the
    /// blank line, and append the whole frame to `buf`. Empty data is not
    /// framed at all.
    pub fn encode(&mut self, data: &Vec<u8>, buf: &mut Vec<u8>) -> (r: Result<(), CodecError>)
        ensures
            r is Ok,
            data@.len() > 0 ==> final(buf)@ =~= old(buf)@ + cl_prefix() + dec_digits(
                data@.len() as nat,
            ) + seq![13u8, 10, 13, 10] + data@,
            data@.len() == 0 ==> final(buf)@ == old(buf)@,
    {
        if data.len() > 0 {
            let prefix = cl_prefix_vec();
            push_all(buf, &prefix);
            let digits = dec_of(data.len());
            push_all(buf, &digits);
            let ghost mid = buf@;
            buf.push(13);
            buf.push(10);
            buf.push(13);
            buf.push(10);
            proof {
                assert(buf@ =~= mid + seq![13u8, 10, 13, 10]);
            }
            push_all(buf, data);
        }
        Ok(())
    }
}

/// The digit run from `i` is all digits, and ends at `digits_end`.
proof fn lemma_digits_end(s: Seq<u8>, i: int)
    requires
        0 <= i <= s.len(),
    ensures
        i <= digits_end(s, i) <= s.len(),
        forall|k: int| i <= k < digits_end(s, i) ==> is_digit(s[k]),
        digits_end(s, i) < s.len() ==> !is_digit(s[digits_end(s, i)]),
    decreases s.len() - i,
{
    if i < s.len() && is_digit(s[i]) {
        lemma_digits_end(s, i + 1);
    }
}

/// Whether the 16-byte header prefix stands at `i` in `buf`.
fn prefix_at(buf: &Vec<u8>, i: usize, pat: &Vec<u8>) -> (r: bool)
    requires
        pat@.len() == 16,
        i + 16 <= buf@.len(),
    ensures
        r <==> buf@.subrange(i as int, i as int + 16) == pat@,
{
    let n = buf.len();
    let mut j: usize = 0;
    while j < 16
        invariant
            j <= 16,
            n == buf@.len(),
            i + 16 <= n,
            pat@.len() == 16,
            forall|k: int| 0 <= k < j ==> buf@[i + k] == pat@[k],
        decreases 16 - j,
    {
        if buf[i + j] != pat[j] {
            proof {
                assert(buf@.subrange(i as int, i as int + 16)[j as int] != pat@[j as int]);
            }
            return false;
        }
        j = j + 1;
    }
    proof {
        assert(buf@.subrange(i as int, i as int + 16) =~= pat@);
    }
    true
}

/// The leftmost separator match, if any.
fn find_sep(buf: &Vec<u8>) -> (r: Option<usize>)
    ensures
        r is Some <==> has_sep(buf@),
        r matches Some(i) ==> sep_match_at(buf@, i as int) && i as int == first_sep(buf@),
{
    let n = buf.len();
    let mut i: usize = 0;
    while n >= 5 && i <= n - 5
        invariant
            n == buf@.len(),
            i <= n,
            forall|j: int| 0 <= j < i ==> !sep_match_at(buf@, j),
        decreases n - i,
    {
        if buf[i] == 13 && buf[i + 1] == 10 && buf[i + 2] == 13 && buf[i + 3] == 10 && buf[i + 4]
            != 10 {
            proof {
                assert(sep_match_at(buf@, i as int));
                let j = first_sep(buf@);
                assert(sep_match_at(buf@, j) && (forall|k: int|
                    0 <= k < j ==> !sep_match_at(buf@, k))) by {
                    assert(sep_match_at(buf@, i as int) && (forall|k: int|
                        0 <= k < i ==> !sep_match_at(buf@, k)));
                }
                if j < i {
                    assert(!sep_match_at(buf@, j));
                }
                if i < j {
                    assert(!sep_match_at(buf@, i as int));
                }
            }
            return Some(i);
        }
        proof {
            assert(!sep_match_at(buf@, i as int));
        }
        i = i + 1;
    }
    proof {
        assert forall|j: int| !sep_match_at(buf@, j) by {
            if 0 <= j && j + 4 < buf@.len() {
                assert(0 <= j < i);
            }
        }
    }
    None
}

/// The leftmost header match, if any.
fn find_cl(buf: &Vec<u8>) -> (r: Option<usize>)
    ensures
        r is Some <==> has_cl(buf@),
        r matches Some(i) ==> cl_match_at(buf@, i as int) && i as int == first_cl(buf@),
{
    let pat = cl_prefix_vec();
    let n = buf.len();
    let mut i: usize = 0;
    while n >= 17 && i <= n - 17
        invariant
            n == buf@.len(),
            i <= n,
            pat@ =~= cl_prefix(),
            forall|j: int| 0 <= j < i ==> !cl_match_at(buf@, j),
        decreases n - i,
    {
        let hit = prefix_at(buf, i, &pat);
        if hit && buf[i + 16] >= 48 && buf[i + 16] <= 57 {
            proof {
                assert(cl_match_at(buf@, i as int));
                let j = first_cl(buf@);
                assert(cl_match_at(buf@, j) && (forall|k: int| 0 <= k < j ==> !cl_match_at(buf@, k)))
                    by {
                    assert(cl_match_at(buf@, i as int) && (forall|k: int|
                        0 <= k < i ==> !cl_match_at(buf@, k)));
                }
                if j < i {
                    assert(!cl_match_at(buf@, j));
                }
                if i < j {
                    assert(!cl_match_at(buf@, i as int));
                }
            }
            return Some(i);
        }
        proof {
            assert(!cl_match_at(buf@, i as int));
        }
        i = i + 1;
    }
    proof {
        assert forall|j: int| !cl_match_at(buf@, j) by {
            if 0 <= j && j + 16 < buf@.len() {
                assert(0 <= j < i);
            }
        }
    }
    None
}

/// The end of the digit run that starts at `start`.
fn scan_digits(buf: &Vec<u8>, start: usize) -> (r: usize)
    requires
        start <= buf@.len(),
    ensures
        r as int == digits_end(buf@, start as int),
        start <= r,
        r <= buf@.len(),
{
    let n = buf.len();
    let mut i = start;
    while i < n && buf[i] >= 48 && buf[i] <= 57
        invariant
            n == buf@.len(),
            start <= i <= n,
            digits_end(buf@, start as int) == digits_end(buf@, i as int),
        decreases n - i,
    {
        proof {
            assert(digits_end(buf@, i as int) == digits_end(buf@, i + 1 as int));
        }
        i = i + 1;
    }
    proof {
        assert(digits_end(buf@, i as int) == i as int);
    }
    i
}

/// The number the digit run `[d0, d1)` denotes, or nothing when it exceeds
/// the machine's size limit.
fn digits_value(buf: &Vec<u8>, d0: usize, d1: usize) -> (r: Option<usize>)
    requires
        d0 <= buf@.len(),
        d1 as int == digits_end(buf@, d0 as int),
    ensures
        r matches Some(v) ==> v as int == dec_value(buf@.subrange(d0 as int, d1 as int)),
        r is None ==> dec_value(buf@.subrange(d0 as int, d1 as int)) > usize::MAX,
{
    proof {
        lemma_digits_end(buf@, d0 as int);
    }
    let mut acc: u128 = 0;
    let mut huge = false;
    let mut i = d0;
    while i < d1
        invariant
            d0 <= i <= d1 <= buf@.len(),
            forall|k: int| d0 <= k < d1 ==> is_digit(buf@[k]),
            !huge ==> acc as int == dec_value(buf@.subrange(d0 as int, i as int)) && acc
                <= usize::MAX,
            huge ==> dec_value(buf@.subrange(d0 as int, i as int)) > usize::MAX,
        decreases d1 - i,
    {
        let ghost pre = buf@.subrange(d0 as int, i as int);
        let ghost post = buf@.subrange(d0 as int, (i + 1) as int);
        proof {
            assert(post.drop_last() =~= pre);
            assert(post.last() == buf@[i as int]);
            assert(dec_value(post) == dec_value(pre) * 10 + (buf@[i as int] - 48));
        }
        let d = buf[i] - 48;
        if !huge {
            let next = acc * 10 + (d as u128);
            if next > usize::MAX as u128 {
                huge = true;
            } else {
                acc = next;
            }
        } else {
            proof {
                assert(dec_value(pre) >= 1);
                assert(dec_value(post) > usize::MAX);
            }
        }
        i = i + 1;
    }
    if huge {
        None
    } else {
        Some(acc as usize)
    }
}
/// Remove the bytes before `e` and take the `n` bytes from `e` out of the
/// buffer, leaving what follows them.
fn split_off_front(buf: &mut Vec<u8>, e: usize, n: usize) -> (msg: Vec<u8>)
    requires
        e + n <= old(buf)@.len(),
    ensures
        msg@ =~= old(buf)@.subrange(e as int, (e + n) as int),
        final(buf)@ =~= old(buf)@.subrange((e + n) as int, old(buf)@.len() as int),
{
    let len = buf.len();
    let mut msg: Vec<u8> = Vec::new();
    let mut k = e;
    while k < e + n
        invariant
            e + n <= len,
            len == buf@.len(),
            buf@ == old(buf)@,
            e <= k <= e + n,
            msg@ =~= buf@.subrange(e as int, k as int),
        decreases e + n - k,
    {
        msg.push(buf[k]);
        proof {
            assert(msg@ =~= buf@.subrange(e as int, (k + 1) as int));
        }
        k = k + 1;
    }
    let mut rest: Vec<u8> = Vec::new();
    let mut k = e + n;
    while k < len
        invariant
            e + n <= len,
            len == buf@.len(),
            buf@ == old(buf)@,
            e + n <= k <= len,
            rest@ =~= buf@.subrange((e + n) as int, k as int),
        decreases len - k,
    {
        rest.push(buf[k]);
        proof {
            assert(rest@ =~= buf@.subrange((e + n) as int, (k + 1) as int));
        }
        k = k + 1;
    }
    *buf = rest;
    msg
}

/// Without both matches nothing is decodable.
proof fn lemma_decode_none_unmatched(s: Seq<u8>)
    requires
        !has_sep(s) || !has_cl(s),
    ensures
        decode_spec(s) is None,
{
    reveal(decode_spec);
}

/// With both matches but not enough content yet, nothing is decodable.
proof fn lemma_decode_none_short(s: Seq<u8>)
    requires
        has_sep(s),
        has_cl(s),
        declared_len(s) > s.len() - (first_sep(s) + 4),
    ensures
        decode_spec(s) is None,
{
    reveal(decode_spec);
}

/// With both matches and the content present, the message and remainder
/// are determined.
proof fn lemma_decode_some(s: Seq<u8>)
    requires
        has_sep(s),
        has_cl(s),
        declared_len(s) <= s.len() - (first_sep(s) + 4),
    ensures
        decode_spec(s) == Some(
            (
                s.subrange(first_sep(s) + 4, first_sep(s) + 4 + declared_len(s)),
                s.subrange(first_sep(s) + 4 + declared_len(s), s.len() as int),
            ),
        ),
{
    reveal(decode_spec);
}

impl LSPCodec {
    /// Unframe the next message from `buf`: when a `Content-Length` header
    /// and the header/content separator are both present and the declared
    /// number of content bytes has arrived after the separator, take the
    /// message out of the buffer, leaving the remainder; otherwise leave
    /// the buffer untouched and report that nothing is decodable yet.
    #[verifier::rlimit(100)]
    pub fn decode(&mut self, buf: &mut Vec<u8>) -> (r: Result<Option<Vec<u8>>, CodecError>)
        ensures
            r is Ok,
            decode_spec(old(buf)@) matches Some(p) ==> (r matches Ok(q) && q matches Some(m)
                && m@ == p.0 && final(buf)@ == p.1),
            decode_spec(old(buf)@) is None ==> r == Result::<Option<Vec<u8>>, CodecError>::Ok(
                None,
            ) && final(buf)@ == old(buf)@,
    {
        let blen = buf.len();
        let sep = find_sep(buf);
        let sep_i = match sep {
            None => {
                proof {
                    lemma_decode_none_unmatched(buf@);
                }
                return Ok(None);
            },
            Some(i) => i,
        };
        let cl_i = match find_cl(buf) {
            None => {
                proof {
                    lemma_decode_none_unmatched(buf@);
                }
                return Ok(None);
            },
            Some(i) => i,
        };
        let e = sep_i + 4;
        let d0 = cl_i + 16;
        let d1 = scan_digits(buf, d0);
        proof {
            lemma_digits_end(buf@, d0 as int);
        }
        let n = match digits_value(buf, d0, d1) {
            None => {
                proof {
                    assert(declared_len(buf@) > usize::MAX);
                    assert(buf@.len() == blen as int);
                    lemma_decode_none_short(buf@);
                }
                return Ok(None);
            },
            Some(v) => v,
        };
        proof {
            assert(n as int == declared_len(buf@));
        }
        if n > buf.len() - e {
            proof {
                lemma_decode_none_short(buf@);
            }
            return Ok(None);
        }
        proof {
            lemma_decode_some(buf@);
        }
        let msg = split_off_front(buf, e, n);
        Ok(Some(msg))
    }
}

} // verus!
