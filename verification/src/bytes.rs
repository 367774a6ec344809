//! Small verified helpers over byte vectors.
use vstd::prelude::*;

verus! {

/// Copies a byte vector element by element.
pub fn clone_bytes(v: &Vec<u8>) -> (r: Vec<u8>)
    ensures
        r@ == v@,
{
    let mut out: Vec<u8> = Vec::new();
    let mut i: usize = 0;
    assert(out@ =~= v@.subrange(0, 0));
    while i < v.len()
        invariant
            i <= v.len(),
            out@ == v@.subrange(0, i as int),
        decreases v.len() - i,
    {
        out.push(v[i]);
        assert(out@ =~= v@.subrange(0, i as int + 1));
        i = i + 1;
    }
    assert(out@ =~= v@);
    out
}

/// Compares two byte vectors by content.
pub fn bytes_eq(a: &Vec<u8>, b: &Vec<u8>) -> (r: bool)
    ensures
        r <==> a@ == b@,
{
    if a.len() != b.len() {
        return false;
    }
    let mut i: usize = 0;
    while i < a.len()
        invariant
            i <= a.len(),
            a@.len() == b@.len(),
            forall|j: int| 0 <= j < i ==> a@[j] == b@[j],
        decreases a.len() - i,
    {
        if a[i] != b[i] {
            return false;
        }
        i = i + 1;
    }
    assert(a@ =~= b@);
    true
}

/// Strict lexicographic order on byte strings: the order of the store's
/// keys. On strings of one length — the identity keys — it is the plain
/// big-endian numeric order.
pub open spec fn key_lt(a: Seq<u8>, b: Seq<u8>) -> bool
    decreases a.len(),
{
    if b.len() == 0 {
        false
    } else if a.len() == 0 {
        true
    } else if a[0] < b[0] {
        true
    } else if a[0] > b[0] {
        false
    } else {
        key_lt(a.drop_first(), b.drop_first())
    }
}

/// The key order is irreflexive.
pub proof fn lemma_key_lt_irrefl(a: Seq<u8>)
    ensures
        !key_lt(a, a),
    decreases a.len(),
{
    if a.len() > 0 {
        lemma_key_lt_irrefl(a.drop_first());
    }
}

/// The key order is transitive.
pub proof fn lemma_key_lt_trans(a: Seq<u8>, b: Seq<u8>, c: Seq<u8>)
    requires
        key_lt(a, b),
        key_lt(b, c),
    ensures
        key_lt(a, c),
    decreases b.len(),
{
    if a.len() > 0 && b.len() > 0 && c.len() > 0 && a[0] == b[0] && b[0] == c[0] {
        lemma_key_lt_trans(a.drop_first(), b.drop_first(), c.drop_first());
    }
}

/// On strings of one length the key order is total: two distinct keys are
/// strictly ordered one way or the other.
pub proof fn lemma_key_lt_total(a: Seq<u8>, b: Seq<u8>)
    requires
        a.len() == b.len(),
    ensures
        key_lt(a, b) || key_lt(b, a) || a == b,
    decreases a.len(),
{
    if a.len() == 0 {
        assert(a =~= b);
    } else if a[0] == b[0] {
        lemma_key_lt_total(a.drop_first(), b.drop_first());
        if !key_lt(a, b) && !key_lt(b, a) {
            assert(a.drop_first() == b.drop_first());
            assert forall|i: int| 0 <= i < a.len() implies a[i] == b[i] by {
                if i > 0 {
                    assert(a.drop_first()[i - 1] == a[i]);
                    assert(b.drop_first()[i - 1] == b[i]);
                }
            }
            assert(a =~= b);
        }
    }
}

/// Two strings that agree on a prefix compare as their remainders do.
proof fn lemma_key_lt_skip(a: Seq<u8>, b: Seq<u8>, i: int)
    requires
        0 <= i <= a.len(),
        i <= b.len(),
        forall|j: int| 0 <= j < i ==> a[j] == b[j],
    ensures
        key_lt(a, b) == key_lt(a.skip(i), b.skip(i)),
    decreases i,
{
    if i > 0 {
        let ta = a.drop_first();
        let tb = b.drop_first();
        assert(ta =~= a.skip(1));
        assert(tb =~= b.skip(1));
        assert(forall|j: int| 0 <= j < i - 1 ==> ta[j] == tb[j]);
        lemma_key_lt_skip(ta, tb, i - 1);
        assert(ta.skip(i - 1) =~= a.skip(i));
        assert(tb.skip(i - 1) =~= b.skip(i));
    } else {
        assert(a.skip(0) =~= a);
        assert(b.skip(0) =~= b);
    }
}

/// Compares two byte vectors in the key order.
pub fn bytes_lt(a: &Vec<u8>, b: &Vec<u8>) -> (r: bool)
    ensures
        r == key_lt(a@, b@),
{
    let mut i: usize = 0;
    while i < a.len() && i < b.len()
        invariant
            i <= a@.len(),
            i <= b@.len(),
            forall|j: int| 0 <= j < i ==> a@[j] == b@[j],
        decreases a@.len() - i,
    {
        if a[i] < b[i] {
            proof {
                lemma_key_lt_skip(a@, b@, i as int);
                assert(a@.skip(i as int)[0] == a@[i as int]);
                assert(b@.skip(i as int)[0] == b@[i as int]);
            }
            return true;
        }
        if a[i] > b[i] {
            proof {
                lemma_key_lt_skip(a@, b@, i as int);
                assert(a@.skip(i as int)[0] == a@[i as int]);
                assert(b@.skip(i as int)[0] == b@[i as int]);
            }
            return false;
        }
        i = i + 1;
    }
    proof {
        lemma_key_lt_skip(a@, b@, i as int);
    }
    a.len() < b.len()
}

/// Whether `v` is a valid UTF-8 encoding, judged against the UTF-8
/// specification: a run of well-formed scalar encodings, none overlong and
/// none in the surrogate range.
pub fn is_valid_utf8(v: &Vec<u8>) -> (r: bool)
    ensures
        r == vstd::utf8::valid_utf8(v@),
{
    let n = v.len();
    let mut i: usize = 0;
    assert(v@.skip(0) =~= v@);
    while i < n
        invariant
            n == v.len(),
            i <= n,
            vstd::utf8::valid_utf8(v@) == vstd::utf8::valid_utf8(v@.skip(i as int)),
        decreases n - i,
    {
        let ghost rest = v@.skip(i as int);
        proof {
            assert(rest.len() == n - i);
            assert(rest[0] == v@[i as int]);
        }
        let b0 = v[i];
        if b0 <= 0x7f {
            proof {
                assert(b0 & 0x7f <= 0x7f) by (bit_vector);
                assert(vstd::utf8::valid_first_scalar(rest));
                assert(vstd::utf8::pop_first_scalar(rest) =~= v@.skip(i as int + 1));
            }
            i = i + 1;
        } else if 0xc0 <= b0 && b0 <= 0xdf {
            if n - i < 2 {
                return false;
            }
            let b1 = v[i + 1];
            proof {
                assert(rest[1] == v@[i as int + 1]);
            }
            if !(0x80 <= b1 && b1 <= 0xbf) {
                return false;
            }
            let cp: u32 = (((b0 & 0x1f) as u32) << 6) | ((b1 & 0x3f) as u32);
            if cp < 0x80 {
                return false;
            }
            proof {
                assert((((b0 & 0x1f) as u32) << 6 | ((b1 & 0x3f) as u32)) <= 0x7ff)
                    by (bit_vector);
                assert(vstd::utf8::valid_first_scalar(rest));
                assert(vstd::utf8::pop_first_scalar(rest) =~= v@.skip(i as int + 2));
            }
            i = i + 2;
        } else if 0xe0 <= b0 && b0 <= 0xef {
            if n - i < 3 {
                return false;
            }
            let b1 = v[i + 1];
            let b2 = v[i + 2];
            proof {
                assert(rest[1] == v@[i as int + 1]);
                assert(rest[2] == v@[i as int + 2]);
            }
            if !(0x80 <= b1 && b1 <= 0xbf) || !(0x80 <= b2 && b2 <= 0xbf) {
                return false;
            }
            let cp: u32 = (((b0 & 0x0f) as u32) << 12) | (((b1 & 0x3f) as u32) << 6) | ((b2
                & 0x3f) as u32);
            if cp < 0x800 {
                return false;
            }
            if 0xd800 <= cp && cp <= 0xdfff {
                return false;
            }
            proof {
                assert(vstd::utf8::valid_first_scalar(rest));
                assert(vstd::utf8::pop_first_scalar(rest) =~= v@.skip(i as int + 3));
            }
            i = i + 3;
        } else if 0xf0 <= b0 && b0 <= 0xf7 {
            if n - i < 4 {
                return false;
            }
            let b1 = v[i + 1];
            let b2 = v[i + 2];
            let b3 = v[i + 3];
            proof {
                assert(rest[1] == v@[i as int + 1]);
                assert(rest[2] == v@[i as int + 2]);
                assert(rest[3] == v@[i as int + 3]);
            }
            if !(0x80 <= b1 && b1 <= 0xbf) || !(0x80 <= b2 && b2 <= 0xbf) || !(0x80 <= b3 && b3
                <= 0xbf) {
                return false;
            }
            let cp: u32 = (((b0 & 0x07) as u32) << 18) | (((b1 & 0x3f) as u32) << 12) | (((b2
                & 0x3f) as u32) << 6) | ((b3 & 0x3f) as u32);
            if cp < 0x10000 || cp > 0x10ffff {
                return false;
            }
            proof {
                assert(vstd::utf8::valid_first_scalar(rest));
                assert(vstd::utf8::pop_first_scalar(rest) =~= v@.skip(i as int + 4));
            }
            i = i + 4;
        } else {
            return false;
        }
    }
    proof {
        assert(v@.skip(n as int) =~= Seq::<u8>::empty());
    }
    true
}

/// Appends every byte of `src` to `dst`, in order.
pub fn push_all(dst: &mut Vec<u8>, src: &[u8])
    ensures
        final(dst)@ == old(dst)@ + src@,
{
    let mut i: usize = 0;
    assert(dst@ =~= old(dst)@ + src@.subrange(0, 0));
    while i < src.len()
        invariant
            i <= src@.len(),
            dst@ == old(dst)@ + src@.subrange(0, i as int),
        decreases src@.len() - i,
    {
        let b: u8 = src[i];
        dst.push(b);
        assert(dst@ =~= old(dst)@ + src@.subrange(0, i as int + 1));
        i = i + 1;
    }
    assert(dst@ =~= old(dst)@ + src@);
}

} // verus!
