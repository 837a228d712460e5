//! URL slugs: short, deterministic identifiers for releases, albums and
//! posts, derived by hashing stable fields so that a page keeps its URL when
//! the site is rebuilt.
//!
//! A slug is the URL-safe, unpadded base64 form of a 128-bit value whose high
//! 64 bits are the seahash of the first field and whose low 64 bits are the
//! seahash of the second, written in little-endian byte order.

use vstd::prelude::*;
use vstd::utf8::encode_utf8;

use base64::Engine;

use crate::date::{lemma_iso_injective, Date};
use crate::post::PostMeta;

verus! {

/// The seahash of a byte string.
pub uninterp spec fn seahash_of(bytes: Seq<u8>) -> u64;

/// Relies on `seahash::hash`: a 64-bit hash that depends on the bytes alone.
#[verifier::external_body]
fn seahash(bytes: &[u8]) -> (r: u64)
    ensures
        r == seahash_of(bytes@),
{
    seahash::hash(bytes)
}

/// The digit of value `v` (0 to 63) in the URL-safe base64 alphabet:
/// `A` to `Z`, `a` to `z`, `0` to `9`, then `-` and `_`.
pub open spec fn b64_digit(v: int) -> char {
    if v < 26 {
        ((65 + v) as u8) as char
    } else if v < 52 {
        ((97 + v - 26) as u8) as char
    } else if v < 62 {
        ((48 + v - 52) as u8) as char
    } else if v == 62 {
        '-'
    } else {
        '_'
    }
}

/// URL-safe base64 without padding: each group of three bytes becomes four
/// digits, a final group of one or two bytes becomes two or three.
pub open spec fn b64_url_nopad(b: Seq<u8>) -> Seq<char>
    decreases b.len(),
{
    if b.len() == 0 {
        Seq::empty()
    } else if b.len() == 1 {
        seq![b64_digit((b[0] >> 2) as int), b64_digit(((b[0] & 3) << 4) as int)]
    } else if b.len() == 2 {
        seq![
            b64_digit((b[0] >> 2) as int),
            b64_digit((((b[0] & 3) << 4) | (b[1] >> 4)) as int),
            b64_digit(((b[1] & 15) << 2) as int),
        ]
    } else {
        seq![
            b64_digit((b[0] >> 2) as int),
            b64_digit((((b[0] & 3) << 4) | (b[1] >> 4)) as int),
            b64_digit((((b[1] & 15) << 2) | (b[2] >> 6)) as int),
            b64_digit((b[2] & 63) as int),
        ] + b64_url_nopad(b.skip(3))
    }
}

/// Relies on `base64`'s `URL_SAFE_NO_PAD` engine and its `encode`: the
/// standard URL-safe alphabet, without `=` padding. `encode` panics when the
/// output length overflows or cannot be allocated, which the bound rules out.
#[verifier::external_body]
fn base64_url_no_pad(bytes: &[u8]) -> (r: String)
    requires
        4 * (bytes@.len() / 3 + 1) <= isize::MAX,
    ensures
        r@ == b64_url_nopad(bytes@),
{
    base64::prelude::BASE64_URL_SAFE_NO_PAD.encode(bytes)
}

/// The eight bytes of `x`, least significant first.
pub open spec fn le_bytes(x: u64) -> Seq<u8> {
    Seq::new(8, |i: int| ((x >> (8 * i) as u64) & 0xff) as u8)
}

/// The slug of two hash values, the first taking the high half.
pub open spec fn slug_of_hashes(first: u64, second: u64) -> Seq<char> {
    b64_url_nopad(le_bytes(second) + le_bytes(first))
}

/// The slug of two fields.
pub open spec fn slug_spec(first: Seq<char>, second: Seq<char>) -> Seq<char> {
    slug_of_hashes(seahash_of(encode_utf8(first)), seahash_of(encode_utf8(second)))
}

fn push_le_bytes(out: &mut Vec<u8>, x: u64)
    ensures
        final(out)@ == old(out)@ + le_bytes(x),
{
    let mut i: u64 = 0;
    while i < 8
        invariant
            i <= 8,
            out@ == old(out)@ + le_bytes(x).take(i as int),
        decreases 8 - i,
    {
        out.push(((x >> (8 * i)) & 0xff) as u8);
        assert(out@ =~= old(out)@ + le_bytes(x).take(i as int + 1));
        i = i + 1;
    }
    assert(le_bytes(x).take(8) =~= le_bytes(x));
}

/// The slug of two already computed hash values.
pub fn slug_from_hashes(first: u64, second: u64) -> (r: String)
    ensures
        r@ == slug_of_hashes(first, second),
{
    let mut bytes: Vec<u8> = Vec::new();
    push_le_bytes(&mut bytes, second);
    push_le_bytes(&mut bytes, first);
    assert(bytes@ =~= le_bytes(second) + le_bytes(first));
    base64_url_no_pad(bytes.as_slice())
}

/// The slug of two fields.
pub fn slug(first: &str, second: &str) -> (r: String)
    ensures
        r@ == slug_spec(first@, second@),
{
    let a = seahash(first.as_bytes());
    let b = seahash(second.as_bytes());
    slug_from_hashes(a, b)
}

/// The slug of a release: its author's handle, then its title.
pub fn work_reference(title: &str, author_ascii: &str) -> (r: String)
    ensures
        r@ == slug_spec(author_ascii@, title@),
{
    slug(author_ascii, title)
}

/// The slug of an album: its title, then its front cover.
pub fn album_reference(title: &str, cover: &str) -> (r: String)
    ensures
        r@ == slug_spec(title@, cover@),
{
    slug(title, cover)
}

/// The slug of a post: its author's handle, then its title followed by its
/// date in `YYYY-MM-DD` form. The date has a fixed width, so the second
/// field determines both title and date.
pub fn post_reference(meta: &PostMeta) -> (r: String)
    requires
        meta.date.wf(),
    ensures
        r@ == slug_spec(meta.author@, meta.title@ + meta.date.iso_spec()),
{
    let date = meta.date.to_iso_string();
    let mut key = meta.title.clone();
    key.append(date.as_str());
    slug(meta.author.as_str(), key.as_str())
}

/// The same fields always give the same slug, so a page keeps its URL from
/// one build to the next.
pub proof fn lemma_slug_deterministic(a1: Seq<char>, b1: Seq<char>, a2: Seq<char>, b2: Seq<char>)
    requires
        a1 == a2,
        b1 == b2,
    ensures
        slug_spec(a1, b1) == slug_spec(a2, b2),
{
}

proof fn lemma_digit_injective(v: int, w: int)
    requires
        0 <= v < 64,
        0 <= w < 64,
        b64_digit(v) == b64_digit(w),
    ensures
        v == w,
{
}

proof fn lemma_group_injective(a0: u8, a1: u8, a2: u8, b0: u8, b1: u8, b2: u8)
    requires
        (a0 >> 2) == (b0 >> 2),
        (((a0 & 3) << 4) | (a1 >> 4)) == (((b0 & 3) << 4) | (b1 >> 4)),
        (((a1 & 15) << 2) | (a2 >> 6)) == (((b1 & 15) << 2) | (b2 >> 6)),
        (a2 & 63) == (b2 & 63),
    ensures
        a0 == b0 && a1 == b1 && a2 == b2,
{
    assert(a0 == b0 && a1 == b1 && a2 == b2) by (bit_vector)
        requires
            (a0 >> 2) == (b0 >> 2),
            (((a0 & 3) << 4) | (a1 >> 4)) == (((b0 & 3) << 4) | (b1 >> 4)),
            (((a1 & 15) << 2) | (a2 >> 6)) == (((b1 & 15) << 2) | (b2 >> 6)),
            (a2 & 63) == (b2 & 63);
}

proof fn lemma_b64_injective(x: Seq<u8>, y: Seq<u8>)
    requires
        x.len() == y.len(),
        b64_url_nopad(x) == b64_url_nopad(y),
    ensures
        x == y,
    decreases x.len(),
{
    let ex = b64_url_nopad(x);
    let ey = b64_url_nopad(y);
    if x.len() == 0 {
        assert(x =~= y);
    } else {
        let (a0, b0) = (x[0], y[0]);
        assert(ex[0] == ey[0]);
        assert(0 <= (a0 >> 2) < 64 && 0 <= (b0 >> 2) < 64) by (bit_vector);
        lemma_digit_injective((a0 >> 2) as int, (b0 >> 2) as int);
        if x.len() == 1 {
            assert(ex[1] == ey[1]);
            assert(((a0 & 3) << 4) < 64 && ((b0 & 3) << 4) < 64) by (bit_vector);
            lemma_digit_injective(((a0 & 3) << 4) as int, ((b0 & 3) << 4) as int);
            assert(a0 == b0) by (bit_vector)
                requires
                    (a0 >> 2) == (b0 >> 2),
                    ((a0 & 3) << 4) == ((b0 & 3) << 4);
            assert(x =~= y);
        } else {
            let (a1, b1) = (x[1], y[1]);
            assert(ex[1] == ey[1]);
            assert((((a0 & 3) << 4) | (a1 >> 4)) < 64 && (((b0 & 3) << 4) | (b1 >> 4)) < 64)
                by (bit_vector);
            lemma_digit_injective(
                (((a0 & 3) << 4) | (a1 >> 4)) as int,
                (((b0 & 3) << 4) | (b1 >> 4)) as int,
            );
            if x.len() == 2 {
                assert(ex[2] == ey[2]);
                assert(((a1 & 15) << 2) < 64 && ((b1 & 15) << 2) < 64) by (bit_vector);
                lemma_digit_injective(((a1 & 15) << 2) as int, ((b1 & 15) << 2) as int);
                assert(a0 == b0 && a1 == b1) by (bit_vector)
                    requires
                        (a0 >> 2) == (b0 >> 2),
                        (((a0 & 3) << 4) | (a1 >> 4)) == (((b0 & 3) << 4) | (b1 >> 4)),
                        ((a1 & 15) << 2) == ((b1 & 15) << 2);
                assert(x =~= y);
            } else {
                let (a2, b2) = (x[2], y[2]);
                assert(ex[2] == ey[2]);
                assert(ex[3] == ey[3]);
                assert((((a1 & 15) << 2) | (a2 >> 6)) < 64 && (((b1 & 15) << 2) | (b2 >> 6)) < 64)
                    by (bit_vector);
                assert((a2 & 63) < 64 && (b2 & 63) < 64) by (bit_vector);
                lemma_digit_injective(
                    (((a1 & 15) << 2) | (a2 >> 6)) as int,
                    (((b1 & 15) << 2) | (b2 >> 6)) as int,
                );
                lemma_digit_injective((a2 & 63) as int, (b2 & 63) as int);
                lemma_group_injective(a0, a1, a2, b0, b1, b2);
                assert(b64_url_nopad(x.skip(3)) =~= ex.skip(4));
                assert(b64_url_nopad(y.skip(3)) =~= ey.skip(4));
                lemma_b64_injective(x.skip(3), y.skip(3));
                assert(x =~= y) by {
                    assert forall|i: int| 0 <= i < x.len() implies x[i] == y[i] by {
                        if i >= 3 {
                            assert(x[i] == x.skip(3)[i - 3]);
                            assert(y[i] == y.skip(3)[i - 3]);
                        }
                    }
                }
            }
        }
    }
}

proof fn lemma_le_bytes_injective(x: u64, y: u64)
    requires
        le_bytes(x) == le_bytes(y),
    ensures
        x == y,
{
    assert(le_bytes(x)[0] == ((x >> 0u64) & 0xff) as u8);
    assert(le_bytes(y)[0] == ((y >> 0u64) & 0xff) as u8);
    assert(le_bytes(x)[1] == ((x >> 8u64) & 0xff) as u8);
    assert(le_bytes(y)[1] == ((y >> 8u64) & 0xff) as u8);
    assert(le_bytes(x)[2] == ((x >> 16u64) & 0xff) as u8);
    assert(le_bytes(y)[2] == ((y >> 16u64) & 0xff) as u8);
    assert(le_bytes(x)[3] == ((x >> 24u64) & 0xff) as u8);
    assert(le_bytes(y)[3] == ((y >> 24u64) & 0xff) as u8);
    assert(le_bytes(x)[4] == ((x >> 32u64) & 0xff) as u8);
    assert(le_bytes(y)[4] == ((y >> 32u64) & 0xff) as u8);
    assert(le_bytes(x)[5] == ((x >> 40u64) & 0xff) as u8);
    assert(le_bytes(y)[5] == ((y >> 40u64) & 0xff) as u8);
    assert(le_bytes(x)[6] == ((x >> 48u64) & 0xff) as u8);
    assert(le_bytes(y)[6] == ((y >> 48u64) & 0xff) as u8);
    assert(le_bytes(x)[7] == ((x >> 56u64) & 0xff) as u8);
    assert(le_bytes(y)[7] == ((y >> 56u64) & 0xff) as u8);
    assert(le_bytes(x)[0] == le_bytes(y)[0]);
    assert(le_bytes(x)[1] == le_bytes(y)[1]);
    assert(le_bytes(x)[2] == le_bytes(y)[2]);
    assert(le_bytes(x)[3] == le_bytes(y)[3]);
    assert(le_bytes(x)[4] == le_bytes(y)[4]);
    assert(le_bytes(x)[5] == le_bytes(y)[5]);
    assert(le_bytes(x)[6] == le_bytes(y)[6]);
    assert(le_bytes(x)[7] == le_bytes(y)[7]);
    assert(x == y) by (bit_vector)
        requires
            ((x >> 0u64) & 0xff) as u8 == ((y >> 0u64) & 0xff) as u8,
            ((x >> 8u64) & 0xff) as u8 == ((y >> 8u64) & 0xff) as u8,
            ((x >> 16u64) & 0xff) as u8 == ((y >> 16u64) & 0xff) as u8,
            ((x >> 24u64) & 0xff) as u8 == ((y >> 24u64) & 0xff) as u8,
            ((x >> 32u64) & 0xff) as u8 == ((y >> 32u64) & 0xff) as u8,
            ((x >> 40u64) & 0xff) as u8 == ((y >> 40u64) & 0xff) as u8,
            ((x >> 48u64) & 0xff) as u8 == ((y >> 48u64) & 0xff) as u8,
            ((x >> 56u64) & 0xff) as u8 == ((y >> 56u64) & 0xff) as u8;
}

/// Two slugs are equal only when the two hash pairs behind them are equal:
/// the encoding keeps all 128 bits, so fields whose hashes differ get
/// different slugs, and two slugs collide only where seahash itself does.
pub proof fn lemma_slug_keeps_hashes(a1: u64, b1: u64, a2: u64, b2: u64)
    requires
        slug_of_hashes(a1, b1) == slug_of_hashes(a2, b2),
    ensures
        a1 == a2,
        b1 == b2,
{
    let x = le_bytes(b1) + le_bytes(a1);
    let y = le_bytes(b2) + le_bytes(a2);
    lemma_b64_injective(x, y);
    assert(x.take(8) =~= le_bytes(b1));
    assert(y.take(8) =~= le_bytes(b2));
    assert(x.skip(8) =~= le_bytes(a1));
    assert(y.skip(8) =~= le_bytes(a2));
    lemma_le_bytes_injective(b1, b2);
    lemma_le_bytes_injective(a1, a2);
}

/// Fields with equal slugs have equal hashes, field by field.
pub proof fn lemma_equal_slugs_equal_hashes(
    first1: Seq<char>,
    second1: Seq<char>,
    first2: Seq<char>,
    second2: Seq<char>,
)
    requires
        slug_spec(first1, second1) == slug_spec(first2, second2),
    ensures
        seahash_of(encode_utf8(first1)) == seahash_of(encode_utf8(first2)),
        seahash_of(encode_utf8(second1)) == seahash_of(encode_utf8(second2)),
{
    lemma_slug_keeps_hashes(
        seahash_of(encode_utf8(first1)),
        seahash_of(encode_utf8(second1)),
        seahash_of(encode_utf8(first2)),
        seahash_of(encode_utf8(second2)),
    );
}

/// Two posts by the same author with the same title and different valid
/// dates are slugged from different keys, whose UTF-8 bytes differ; their
/// slugs can only be equal where seahash maps those two byte strings to the
/// same value.
pub proof fn lemma_post_dates_separate(author: Seq<char>, title: Seq<char>, d1: Date, d2: Date)
    requires
        d1.wf(),
        d2.wf(),
        d1 != d2,
    ensures
        title + d1.iso_spec() != title + d2.iso_spec(),
        encode_utf8(title + d1.iso_spec()) != encode_utf8(title + d2.iso_spec()),
        slug_spec(author, title + d1.iso_spec()) == slug_spec(author, title + d2.iso_spec())
            ==> seahash_of(encode_utf8(title + d1.iso_spec())) == seahash_of(
            encode_utf8(title + d2.iso_spec()),
        ),
{
    let k1 = title + d1.iso_spec();
    let k2 = title + d2.iso_spec();
    if k1 == k2 {
        assert(k1.skip(title.len() as int) =~= d1.iso_spec());
        assert(k2.skip(title.len() as int) =~= d2.iso_spec());
        lemma_iso_injective(d1, d2);
    }
    vstd::utf8::encode_utf8_decode_utf8(k1);
    vstd::utf8::encode_utf8_decode_utf8(k2);
    if slug_spec(author, k1) == slug_spec(author, k2) {
        lemma_equal_slugs_equal_hashes(author, k1, author, k2);
    }
}

} // verus!
