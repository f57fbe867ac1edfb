//! Verified byte-sequence utilities: substring search, leftmost
//! find-and-replace, and the content-addressed name hash used by the
//! transform context.

use vstd::prelude::*;

verus! {

/// `needle` occurs in `hay` starting at position `i`.
pub open spec fn matches_at(hay: Seq<u8>, needle: Seq<u8>, i: int) -> bool {
    0 <= i && i + needle.len() <= hay.len() && hay.subrange(i, i + needle.len()) == needle
}

/// `needle` occurs somewhere in `hay`.
pub open spec fn contains_seq(hay: Seq<u8>, needle: Seq<u8>) -> bool {
    exists|i: int| matches_at(hay, needle, i)
}

/// Whether `needle` occurs in `hay` at position `i`; false when it would
/// run past the end of `hay`.
pub fn matches_at_exec(hay: &Vec<u8>, needle: &Vec<u8>, i: usize) -> (r: bool)
    requires
        i <= hay@.len(),
    ensures
        r == matches_at(hay@, needle@, i as int),
{
    if needle.len() > hay.len() - i {
        assert(!matches_at(hay@, needle@, i as int));
        return false;
    }
    let mut j: usize = 0;
    while j < needle.len()
        invariant
            hay@.len() <= usize::MAX,
            i + needle@.len() <= hay@.len(),
            0 <= j <= needle@.len(),
            hay@.subrange(i as int, i + j) == needle@.subrange(0, j as int),
        decreases needle@.len() - j,
    {
        if hay[i + j] != needle[j] {
            assert(hay@.subrange(i as int, i + needle@.len())[j as int] != needle@[j as int]);
            return false;
        }
        assert(hay@.subrange(i as int, i + j + 1) == needle@.subrange(0, j + 1));
        j = j + 1;
    }
    assert(needle@.subrange(0, needle@.len() as int) == needle@);
    true
}

/// The position of the leftmost occurrence of `needle` in `hay`, if any.
pub fn find_first(hay: &Vec<u8>, needle: &Vec<u8>) -> (r: Option<usize>)
    ensures
        r matches Some(i) ==> matches_at(hay@, needle@, i as int)
            && (forall|j: int| 0 <= j < i ==> !matches_at(hay@, needle@, j)),
        r is None ==> !contains_seq(hay@, needle@),
{
    if needle.len() == 0 {
        assert(matches_at(hay@, needle@, 0)) by {
            assert(hay@.subrange(0, 0) =~= needle@);
        }
        return Some(0);
    }
    let mut i: usize = 0;
    while i < hay.len()
        invariant
            0 <= i <= hay@.len(),
            forall|j: int| 0 <= j < i ==> !matches_at(hay@, needle@, j),
        decreases hay@.len() - i,
    {
        if matches_at_exec(hay, needle, i) {
            return Some(i);
        }
        i = i + 1;
    }
    assert(forall|j: int| j >= hay@.len() ==> !matches_at(hay@, needle@, j));
    None
}

/// `needle` occurs somewhere in `hay`.
pub fn contains_exec(hay: &Vec<u8>, needle: &Vec<u8>) -> (r: bool)
    ensures
        r == contains_seq(hay@, needle@),
{
    match find_first(hay, needle) {
        Some(_) => true,
        None => false,
    }
}

/// Appends all of `src` to `dst`.
pub fn push_all(dst: &mut Vec<u8>, src: &Vec<u8>)
    ensures
        final(dst)@ == old(dst)@ + src@,
{
    let mut k: usize = 0;
    assert(old(dst)@ + src@.subrange(0, 0) =~= old(dst)@);
    while k < src.len()
        invariant
            0 <= k <= src@.len(),
            dst@ == old(dst)@ + src@.subrange(0, k as int),
        decreases src@.len() - k,
    {
        let b = src[k];
        dst.push(b);
        assert(old(dst)@ + src@.subrange(0, k + 1)
            =~= old(dst)@ + src@.subrange(0, k as int) + seq![src@[k as int]]);
        k = k + 1;
    }
    assert(src@.subrange(0, src@.len() as int) =~= src@);
}

/// A fresh copy of the bytes.
pub fn clone_bytes(src: &Vec<u8>) -> (r: Vec<u8>)
    ensures
        r@ == src@,
{
    let mut r: Vec<u8> = Vec::new();
    push_all(&mut r, src);
    assert(Seq::<u8>::empty() + src@ =~= src@);
    r
}

/// The bytes of `hay` with every occurrence of `from` replaced by `to`,
/// scanning left to right without overlap; `hay` unchanged when `from` is
/// empty.
pub open spec fn replace_all_spec(hay: Seq<u8>, from: Seq<u8>, to: Seq<u8>) -> Seq<u8>
    decreases hay.len(),
{
    if from.len() == 0 || hay.len() < from.len() {
        hay
    } else if hay.subrange(0, from.len() as int) == from {
        to + replace_all_spec(hay.subrange(from.len() as int, hay.len() as int), from, to)
    } else {
        seq![hay[0]] + replace_all_spec(hay.subrange(1, hay.len() as int), from, to)
    }
}

/// Replaces every occurrence of `from` in `hay` by `to`, leftmost first.
pub fn replace_all(hay: &Vec<u8>, from: &Vec<u8>, to: &Vec<u8>) -> (r: Vec<u8>)
    ensures
        r@ == replace_all_spec(hay@, from@, to@),
{
    if from.len() == 0 {
        return clone_bytes(hay);
    }
    let mut out: Vec<u8> = Vec::new();
    let mut i: usize = 0;
    let hay_len: usize = hay.len();
    assert(hay@.len() == hay_len);
    assert(Seq::<u8>::empty() + replace_all_spec(hay@.subrange(0, hay@.len() as int), from@, to@)
        =~= replace_all_spec(hay@, from@, to@)) by {
        assert(hay@.subrange(0, hay@.len() as int) =~= hay@);
    }
    while i < hay.len()
        invariant
            hay@.len() <= usize::MAX,
            from@.len() >= 1,
            0 <= i <= hay@.len(),
            replace_all_spec(hay@, from@, to@)
                == out@ + replace_all_spec(hay@.subrange(i as int, hay@.len() as int), from@, to@),
        decreases hay@.len() - i,
    {
        let ghost rest = hay@.subrange(i as int, hay@.len() as int);
        if matches_at_exec(hay, from, i) {
            push_all(&mut out, to);
            proof {
                assert(rest.subrange(0, from@.len() as int)
                    =~= hay@.subrange(i as int, i + from@.len()));
                assert(rest.subrange(from@.len() as int, rest.len() as int)
                    =~= hay@.subrange(i + from@.len(), hay@.len() as int));
            }
            i = i + from.len();
        } else {
            let b = hay[i];
            out.push(b);
            proof {
                if rest.len() >= from@.len() {
                    assert(rest.subrange(0, from@.len() as int)
                        =~= hay@.subrange(i as int, i + from@.len()));
                    assert(rest.subrange(1, rest.len() as int)
                        =~= hay@.subrange(i + 1, hay@.len() as int));
                    assert(seq![rest[0]] =~= seq![hay@[i as int]]);
                } else {
                    assert(rest =~= seq![hay@[i as int]]
                        + hay@.subrange(i + 1, hay@.len() as int));
                    assert(hay@.subrange(i + 1, hay@.len() as int).len() < from@.len());
                }
            }
            i = i + 1;
        }
    }
    assert(hay@.subrange(hay@.len() as int, hay@.len() as int) =~= Seq::<u8>::empty());
    assert(out@ + Seq::<u8>::empty() =~= out@);
    out
}

/// The 64-bit FNV-1a hash of the bytes, folded in left to right with
/// wrapping multiplication.
pub open spec fn fnv1a_spec(bytes: Seq<u8>) -> u64
    decreases bytes.len(),
{
    if bytes.len() == 0 {
        0xcbf29ce484222325u64
    } else {
        vstd::wrapping::u64_specs::wrapping_mul(
            fnv1a_spec(bytes.drop_last()) ^ (bytes.last() as u64),
            0x100000001b3u64,
        )
    }
}

/// The content-addressed hash of a logical name.
pub fn fnv1a(bytes: &Vec<u8>) -> (r: u64)
    ensures
        r == fnv1a_spec(bytes@),
{
    let mut h: u64 = 0xcbf29ce484222325u64;
    let mut i: usize = 0;
    assert(bytes@.subrange(0, 0) =~= Seq::<u8>::empty());
    while i < bytes.len()
        invariant
            0 <= i <= bytes@.len(),
            h == fnv1a_spec(bytes@.subrange(0, i as int)),
        decreases bytes@.len() - i,
    {
        h = (h ^ (bytes[i] as u64)).wrapping_mul(0x100000001b3u64);
        proof {
            assert(bytes@.subrange(0, i + 1).drop_last() =~= bytes@.subrange(0, i as int));
            assert(bytes@.subrange(0, i + 1).last() == bytes@[i as int]);
        }
        i = i + 1;
    }
    assert(bytes@.subrange(0, bytes@.len() as int) =~= bytes@);
    h
}

} // verus!
