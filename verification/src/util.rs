use vstd::prelude::*;

verus! {

/// The byte views of a sequence of 32-byte words.
pub open spec fn views_of(s: Seq<[u8; 32]>) -> Seq<Seq<u8>> {
    Seq::new(s.len(), |i: int| s[i]@)
}

/// The byte views of a sequence of byte vectors.
pub open spec fn byte_views(s: Seq<Vec<u8>>) -> Seq<Seq<u8>> {
    Seq::new(s.len(), |i: int| s[i]@)
}

/// The all-zero 32-byte word.
pub open spec fn zero32() -> Seq<u8> {
    Seq::new(32, |i: int| 0u8)
}

pub proof fn lemma_views_of_push(s: Seq<[u8; 32]>, x: [u8; 32])
    ensures
        views_of(s.push(x)) =~= views_of(s).push(x@),
{
    assert forall|i: int| 0 <= i < s.len() + 1 implies views_of(s.push(x))[i]
        == views_of(s).push(x@)[i] by {
        if i < s.len() {
            assert(s.push(x)[i] == s[i]);
        } else {
            assert(s.push(x)[i] == x);
        }
    }
}

/// Two 32-byte words are equal exactly when their byte views are.
pub fn eq32(a: &[u8; 32], b: &[u8; 32]) -> (r: bool)
    ensures
        r == (a@ == b@),
{
    let mut i: usize = 0;
    while i < 32
        invariant
            0 <= i <= 32,
            forall|j: int| 0 <= j < i ==> a@[j] == b@[j],
        decreases 32 - i,
    {
        if a[i] != b[i] {
            return false;
        }
        i += 1;
    }
    proof {
        assert(a@ =~= b@);
    }
    true
}

/// Byte-slice equality, over the views.
pub fn bytes_eq(a: &[u8], b: &[u8]) -> (r: bool)
    ensures
        r == (a@ == b@),
{
    if a.len() != b.len() {
        return false;
    }
    let n = a.len();
    let mut i: usize = 0;
    while i < n
        invariant
            0 <= i <= n,
            n == a@.len(),
            a@.len() == b@.len(),
            forall|j: int| 0 <= j < i ==> a@[j] == b@[j],
        decreases n - i,
    {
        if a[i] != b[i] {
            return false;
        }
        i += 1;
    }
    proof {
        assert(a@ =~= b@);
    }
    true
}

/// The 32 bytes of `d` at offset `off`, as a fixed word.
pub fn read32(d: &[u8], off: usize) -> (r: [u8; 32])
    requires
        off + 32 <= d@.len(),
    ensures
        r@ == d@.subrange(off as int, off as int + 32),
{
    let n = d.len();
    let mut r: [u8; 32] = [0u8; 32];
    let mut i: usize = 0;
    while i < 32
        invariant
            0 <= i <= 32,
            n == d@.len(),
            off + 32 <= n,
            forall|j: int| 0 <= j < i ==> r@[j] == d@[off + j],
        decreases 32 - i,
    {
        r[i] = d[off + i];
        i += 1;
    }
    proof {
        assert(r@ =~= d@.subrange(off as int, off as int + 32));
    }
    r
}

/// A 32-byte word copied into a fresh vector.
pub fn word_to_vec(a: &[u8; 32]) -> (r: Vec<u8>)
    ensures
        r@ == a@,
{
    let mut r: Vec<u8> = Vec::new();
    let mut i: usize = 0;
    while i < 32
        invariant
            0 <= i <= 32,
            r@ =~= a@.subrange(0, i as int),
        decreases 32 - i,
    {
        r.push(a[i]);
        i += 1;
    }
    proof {
        assert(r@ =~= a@);
    }
    r
}

/// Append all of `src` to `dst`.
pub fn append_bytes(dst: &mut Vec<u8>, src: &[u8])
    ensures
        final(dst)@ == old(dst)@ + src@,
{
    let n = src.len();
    let mut i: usize = 0;
    while i < n
        invariant
            0 <= i <= n,
            n == src@.len(),
            dst@ =~= old(dst)@ + src@.subrange(0, i as int),
        decreases n - i,
    {
        dst.push(src[i]);
        i += 1;
    }
    proof {
        assert(dst@ =~= old(dst)@ + src@);
    }
}

/// The bytes of `d` from `start`, `len` long, as a fresh vector.
pub fn copy_range(d: &[u8], start: usize, len: usize) -> (r: Vec<u8>)
    requires
        start + len <= d@.len(),
    ensures
        r@ == d@.subrange(start as int, start as int + len as int),
{
    let n = d.len();
    let mut r: Vec<u8> = Vec::new();
    let mut i: usize = 0;
    while i < len
        invariant
            0 <= i <= len,
            n == d@.len(),
            start + len <= n,
            r@ =~= d@.subrange(start as int, start as int + i as int),
        decreases len - i,
    {
        r.push(d[start + i]);
        i += 1;
    }
    proof {
        assert(r@ =~= d@.subrange(start as int, start as int + len as int));
    }
    r
}

/// Append a 32-byte word to `dst`.
pub fn append_word(dst: &mut Vec<u8>, w: &[u8; 32])
    ensures
        final(dst)@ == old(dst)@ + w@,
{
    let mut i: usize = 0;
    while i < 32
        invariant
            0 <= i <= 32,
            dst@ =~= old(dst)@ + w@.subrange(0, i as int),
        decreases 32 - i,
    {
        dst.push(w[i]);
        i += 1;
    }
    proof {
        assert(dst@ =~= old(dst)@ + w@);
    }
}

/// Whether the byte view of `x` occurs among the views of the words of `v`.
pub fn contains_word(v: &Vec<[u8; 32]>, x: &[u8; 32]) -> (r: bool)
    ensures
        r == views_of(v@).contains(x@),
{
    let n = v.len();
    let mut i: usize = 0;
    while i < n
        invariant
            0 <= i <= n,
            n == v@.len(),
            forall|j: int| 0 <= j < i ==> views_of(v@)[j] != x@,
        decreases n - i,
    {
        let e = v[i];
        if eq32(&e, x) {
            proof {
                assert(views_of(v@)[i as int] == x@);
            }
            return true;
        }
        i += 1;
    }
    proof {
        assert forall|j: int| 0 <= j < views_of(v@).len() implies views_of(v@)[j] != x@ by {}
        assert(!views_of(v@).contains(x@));
    }
    false
}

/// The all-zero 32-byte word.
pub fn zero_word() -> (r: [u8; 32])
    ensures
        r@ == zero32(),
{
    let r: [u8; 32] = [0u8; 32];
    proof {
        assert(r@ =~= zero32());
    }
    r
}

/// The eight little-endian bytes of a 64-bit value.
pub open spec fn spec_u64_le(v: u64) -> Seq<u8> {
    seq![
        (v as int % 256) as u8,
        (v as int / 256 % 256) as u8,
        (v as int / 65536 % 256) as u8,
        (v as int / 16777216 % 256) as u8,
        (v as int / 4294967296 % 256) as u8,
        (v as int / 1099511627776 % 256) as u8,
        (v as int / 281474976710656 % 256) as u8,
        (v as int / 72057594037927936 % 256) as u8,
    ]
}

/// Encode a 64-bit value as its eight little-endian bytes.
pub fn u64_le_bytes(v: u64) -> (r: Vec<u8>)
    ensures
        r@ == spec_u64_le(v),
        r@.len() == 8,
{
    let mut r: Vec<u8> = Vec::new();
    r.push((v % 256) as u8);
    r.push((v / 256 % 256) as u8);
    r.push((v / 65536 % 256) as u8);
    r.push((v / 16777216 % 256) as u8);
    r.push((v / 4294967296 % 256) as u8);
    r.push((v / 1099511627776 % 256) as u8);
    r.push((v / 281474976710656 % 256) as u8);
    r.push((v / 72057594037927936 % 256) as u8);
    proof {
        assert(r@ =~= spec_u64_le(v));
    }
    r
}

/// The view of an optional 32-byte word.
pub open spec fn option_word_view(o: Option<[u8; 32]>) -> Option<Seq<u8>> {
    match o {
        Some(a) => Some(a@),
        None => None,
    }
}

} // verus!
