//! From a commitment hash to a derivation path, without losing a bit.
//!
//! A hash is eight big-endian 32-bit words. A path index may only use 31 bits,
//! so each word gives one index with its top bit cleared, and a ninth index
//! collects the eight top bits, bit `w` for word `w`.

use vstd::prelude::*;

verus! {

/// Number of indices in a derivation path.
pub const PATH_LEN: usize = 9;

/// First value that no longer fits in the 31 bits of a path index.
pub const INDEX_LIMIT: u32 = 0x8000_0000;

/// Word `w` of the hash, read big-endian.
pub open spec fn word_at(h: Seq<u8>, w: int) -> int {
    h[4 * w] * 0x100_0000 + h[4 * w + 1] * 0x1_0000 + h[4 * w + 2] * 0x100 + h[4 * w + 3]
}

/// Word `w` without its top bit.
pub open spec fn low_bits(h: Seq<u8>, w: int) -> int {
    word_at(h, w) % 0x8000_0000
}

/// The top bit of word `w`, as 0 or 1.
pub open spec fn top_bit(h: Seq<u8>, w: int) -> int {
    word_at(h, w) / 0x8000_0000
}

/// The top bits of words `0..n`, bit `w` holding the top bit of word `w`.
pub open spec fn top_bits(h: Seq<u8>, n: int) -> int
    decreases n,
{
    if n <= 0 {
        0
    } else {
        top_bits(h, n - 1) + top_bit(h, n - 1) * pow2(n - 1)
    }
}

/// Two to the power `k`, for `k` from 0 to 8: the weight of bit `k`.
pub open spec fn pow2(k: int) -> int {
    if k <= 0 {
        1
    } else if k == 1 {
        2
    } else if k == 2 {
        4
    } else if k == 3 {
        8
    } else if k == 4 {
        16
    } else if k == 5 {
        32
    } else if k == 6 {
        64
    } else if k == 7 {
        128
    } else {
        256
    }
}

/// Index `i` of the path of `h`.
pub open spec fn index_at(h: Seq<u8>, i: int) -> u32 {
    if i < 8 {
        low_bits(h, i) as u32
    } else {
        top_bits(h, 8) as u32
    }
}

/// The derivation path of a hash: nine indices.
pub open spec fn path_of(h: Seq<u8>) -> Seq<u32> {
    Seq::new(9, |i: int| index_at(h, i))
}

/// A path as `path_of` produces them: nine indices, the first eight below
/// 2^31 and the ninth below 2^8.
pub open spec fn is_hash_path(p: Seq<u32>) -> bool {
    &&& p.len() == PATH_LEN
    &&& forall|i: int| 0 <= i < 8 ==> #[trigger] p[i] < INDEX_LIMIT
    &&& p[8] < 0x100
}

proof fn lemma_word_bounds(h: Seq<u8>, w: int)
    requires
        h.len() == 32,
        0 <= w < 8,
    ensures
        0 <= word_at(h, w) < 0x1_0000_0000,
        0 <= low_bits(h, w) < 0x8000_0000,
        0 <= top_bit(h, w) <= 1,
        word_at(h, w) == top_bit(h, w) * 0x8000_0000 + low_bits(h, w),
{
}

proof fn lemma_top_bits_bounds(h: Seq<u8>, n: int)
    requires
        h.len() == 32,
        0 <= n <= 8,
    ensures
        0 <= top_bits(h, n) < pow2(n),
    decreases n,
{
    if n > 0 {
        lemma_top_bits_bounds(h, n - 1);
        lemma_word_bounds(h, n - 1);
        assert(pow2(n) == 2 * pow2(n - 1));
        if top_bit(h, n - 1) == 0 {
            assert(top_bit(h, n - 1) * pow2(n - 1) == 0);
        } else {
            assert(top_bit(h, n - 1) * pow2(n - 1) == pow2(n - 1));
        }
    }
}

/// The ninth index, written out: each top bit with its weight.
proof fn lemma_top_bits_sum(h: Seq<u8>)
    requires
        h.len() == 32,
    ensures
        top_bits(h, 8) == top_bit(h, 0) + 2 * top_bit(h, 1) + 4 * top_bit(h, 2) + 8 * top_bit(h, 3)
            + 16 * top_bit(h, 4) + 32 * top_bit(h, 5) + 64 * top_bit(h, 6) + 128 * top_bit(h, 7),
{
    assert(top_bits(h, 0) == 0);
    assert(top_bits(h, 1) == top_bits(h, 0) + top_bit(h, 0) * pow2(0));
    assert(top_bits(h, 2) == top_bits(h, 1) + top_bit(h, 1) * pow2(1));
    assert(top_bits(h, 3) == top_bits(h, 2) + top_bit(h, 2) * pow2(2));
    assert(top_bits(h, 4) == top_bits(h, 3) + top_bit(h, 3) * pow2(3));
    assert(top_bits(h, 5) == top_bits(h, 4) + top_bit(h, 4) * pow2(4));
    assert(top_bits(h, 6) == top_bits(h, 5) + top_bit(h, 5) * pow2(5));
    assert(top_bits(h, 7) == top_bits(h, 6) + top_bit(h, 6) * pow2(6));
    assert(top_bits(h, 8) == top_bits(h, 7) + top_bit(h, 7) * pow2(7));
}

/// Four bytes are determined by the word that they spell.
proof fn lemma_bytes_of_word(a0: u8, a1: u8, a2: u8, a3: u8, b0: u8, b1: u8, b2: u8, b3: u8)
    by (bit_vector)
    requires
        a0 * 0x100_0000 + a1 * 0x1_0000 + a2 * 0x100 + a3 == b0 * 0x100_0000 + b1 * 0x1_0000 + b2
            * 0x100 + b3,
    ensures
        a0 == b0,
        a1 == b1,
        a2 == b2,
        a3 == b3,
{
}

/// Eight bits are determined by the number that they spell.
proof fn lemma_bits_of_number(
    a0: u8,
    a1: u8,
    a2: u8,
    a3: u8,
    a4: u8,
    a5: u8,
    a6: u8,
    a7: u8,
    b0: u8,
    b1: u8,
    b2: u8,
    b3: u8,
    b4: u8,
    b5: u8,
    b6: u8,
    b7: u8,
)
    by (bit_vector)
    requires
        a0 <= 1 && a1 <= 1 && a2 <= 1 && a3 <= 1 && a4 <= 1 && a5 <= 1 && a6 <= 1 && a7 <= 1,
        b0 <= 1 && b1 <= 1 && b2 <= 1 && b3 <= 1 && b4 <= 1 && b5 <= 1 && b6 <= 1 && b7 <= 1,
        a0 + 2 * a1 + 4 * a2 + 8 * a3 + 16 * a4 + 32 * a5 + 64 * a6 + 128 * a7 == b0 + 2 * b1 + 4
            * b2 + 8 * b3 + 16 * b4 + 32 * b5 + 64 * b6 + 128 * b7,
    ensures
        a0 == b0 && a1 == b1 && a2 == b2 && a3 == b3 && a4 == b4 && a5 == b5 && a6 == b6 && a7
            == b7,
{
}

/// A number below 256 is the sum of its eight bits, each with its weight.
proof fn lemma_number_of_bits(x: u32)
    by (bit_vector)
    requires
        x < 0x100,
    ensures
        x == x % 2 + 2 * (x / 2 % 2) + 4 * (x / 4 % 2) + 8 * (x / 8 % 2) + 16 * (x / 16 % 2) + 32
            * (x / 32 % 2) + 64 * (x / 64 % 2) + 128 * (x / 128 % 2),
{
}

/// The shifts and masks that read a word, in arithmetic.
proof fn lemma_word_of_bytes(b0: u8, b1: u8, b2: u8, b3: u8)
    by (bit_vector)
    ensures
        ({
            let word = ((b0 as u32) << 24) | ((b1 as u32) << 16) | ((b2 as u32) << 8) | (b3 as u32);
            &&& word == b0 * 0x100_0000 + b1 * 0x1_0000 + b2 * 0x100 + b3
            &&& (word << 1) >> 1 == word % 0x8000_0000
            &&& word >> 31 == word / 0x8000_0000
            &&& word >> 31 <= 1
        }),
{
}

/// The top bit of a word, shifted to its place in the ninth index, is the bit
/// times its weight.
proof fn lemma_weighted_bit(word: u32, shift: u32)
    requires
        shift < 8,
    ensures
        (word >> 31) << shift == (word >> 31) * pow2(shift as int),
{
    let top = word >> 31;
    assert(top <= 1) by (bit_vector)
        requires
            top == word >> 31,
    ;
    assert(top << 0 == top && (top == 1 ==> top << 1 == 2 && top << 2 == 4 && top << 3 == 8 && top
        << 4 == 16 && top << 5 == 32 && top << 6 == 64 && top << 7 == 128) && (top == 0 ==> top
        << shift == 0)) by (bit_vector);
}

/// Computes the derivation path of a commitment hash.
pub fn hash_to_child_vec(h: &[u8; 32]) -> (c: Vec<u32>)
    ensures
        c@ == path_of(h@),
        is_hash_path(c@),
{
    let mut c: Vec<u32> = Vec::new();
    let mut msbs: u32 = 0;
    let mut w: usize = 0;
    while w < 8
        invariant
            w <= 8,
            h@.len() == 32,
            c@.len() == w,
            forall|i: int| 0 <= i < w ==> #[trigger] c@[i] == index_at(h@, i),
            msbs == top_bits(h@, w as int),
        decreases 8 - w,
    {
        let b0: u8 = h[4 * w];
        let b1: u8 = h[4 * w + 1];
        let b2: u8 = h[4 * w + 2];
        let b3: u8 = h[4 * w + 3];
        let word: u32 = ((b0 as u32) << 24) | ((b1 as u32) << 16) | ((b2 as u32) << 8) | (b3 as u32);
        let low: u32 = (word << 1) >> 1;
        let top: u32 = word >> 31;
        let shift: u32 = w as u32;
        let bit: u32 = top << shift;
        proof {
            lemma_word_of_bytes(b0, b1, b2, b3);
            lemma_weighted_bit(word, shift);
            lemma_top_bits_bounds(h@, w as int);
            lemma_top_bits_bounds(h@, w as int + 1);
        }
        c.push(low);
        msbs = msbs + bit;
        w += 1;
    }
    c.push(msbs);
    proof {
        lemma_top_bits_bounds(h@, 8);
        assert(c@ =~= path_of(h@));
        assert forall|i: int| 0 <= i < 8 implies #[trigger] c@[i] < 0x8000_0000 by {
            lemma_word_bounds(h@, i);
        }
    }
    c
}

proof fn lemma_word_determines_bytes(a: Seq<u8>, b: Seq<u8>, w: int)
    requires
        a.len() == 32,
        b.len() == 32,
        0 <= w < 8,
        word_at(a, w) == word_at(b, w),
    ensures
        a[4 * w] == b[4 * w],
        a[4 * w + 1] == b[4 * w + 1],
        a[4 * w + 2] == b[4 * w + 2],
        a[4 * w + 3] == b[4 * w + 3],
{
    lemma_bytes_of_word(
        a[4 * w],
        a[4 * w + 1],
        a[4 * w + 2],
        a[4 * w + 3],
        b[4 * w],
        b[4 * w + 1],
        b[4 * w + 2],
        b[4 * w + 3],
    );
}

proof fn lemma_top_bits_determine_each(a: Seq<u8>, b: Seq<u8>)
    requires
        a.len() == 32,
        b.len() == 32,
        top_bits(a, 8) == top_bits(b, 8),
    ensures
        forall|w: int| 0 <= w < 8 ==> #[trigger] top_bit(a, w) == top_bit(b, w),
{
    lemma_top_bits_sum(a);
    lemma_top_bits_sum(b);
    assert forall|w: int| 0 <= w < 8 implies 0 <= #[trigger] top_bit(a, w) <= 1 && 0 <= top_bit(
        b,
        w,
    ) <= 1 by {
        lemma_word_bounds(a, w);
        lemma_word_bounds(b, w);
    }
    lemma_bits_of_number(
        top_bit(a, 0) as u8,
        top_bit(a, 1) as u8,
        top_bit(a, 2) as u8,
        top_bit(a, 3) as u8,
        top_bit(a, 4) as u8,
        top_bit(a, 5) as u8,
        top_bit(a, 6) as u8,
        top_bit(a, 7) as u8,
        top_bit(b, 0) as u8,
        top_bit(b, 1) as u8,
        top_bit(b, 2) as u8,
        top_bit(b, 3) as u8,
        top_bit(b, 4) as u8,
        top_bit(b, 5) as u8,
        top_bit(b, 6) as u8,
        top_bit(b, 7) as u8,
    );
}

/// Two hashes with the same path are the same hash: the path keeps all 256
/// bits.
pub proof fn lemma_path_determines_hash(h1: Seq<u8>, h2: Seq<u8>)
    requires
        h1.len() == 32,
        h2.len() == 32,
        path_of(h1) == path_of(h2),
    ensures
        h1 == h2,
{
    assert forall|i: int| 0 <= i < 9 implies index_at(h1, i) == index_at(h2, i) by {
        assert(path_of(h1)[i] == index_at(h1, i));
        assert(path_of(h2)[i] == index_at(h2, i));
    }
    lemma_top_bits_bounds(h1, 8);
    lemma_top_bits_bounds(h2, 8);
    assert(index_at(h1, 8) == index_at(h2, 8));
    lemma_top_bits_determine_each(h1, h2);
    assert forall|k: int| 0 <= k < 32 implies h1[k] == h2[k] by {
        let w = k / 4;
        lemma_word_bounds(h1, w);
        lemma_word_bounds(h2, w);
        assert(index_at(h1, w) == index_at(h2, w));
        assert(top_bit(h1, w) == top_bit(h2, w));
        lemma_word_determines_bytes(h1, h2, w);
    }
    assert(h1 =~= h2);
}

/// Bit `w` of `x`, as 0 or 1.
pub open spec fn bit_of(x: int, w: int) -> int {
    x / pow2(w) % 2
}

/// The word that a path stands for at position `w`: the index, with the top
/// bit that the ninth index keeps for it.
pub open spec fn word_of_path(p: Seq<u32>, w: int) -> int {
    bit_of(p[8] as int, w) * 0x8000_0000 + p[w]
}

/// Byte `k` of the hash that a path stands for.
#[verifier::opaque]
pub open spec fn byte_of_path(p: Seq<u32>, k: int) -> u8 {
    let word = word_of_path(p, k / 4);
    if k % 4 == 0 {
        (word / 0x100_0000) as u8
    } else if k % 4 == 1 {
        (word / 0x1_0000 % 0x100) as u8
    } else if k % 4 == 2 {
        (word / 0x100 % 0x100) as u8
    } else {
        (word % 0x100) as u8
    }
}

/// The hash that a path stands for.
pub open spec fn hash_of(p: Seq<u32>) -> Seq<u8> {
    Seq::new(32, |k: int| byte_of_path(p, k))
}

/// A word is spelled by its four bytes.
proof fn lemma_bytes_spell_word(word: u32)
    by (bit_vector)
    ensures
        word / 0x100_0000 < 0x100,
        (word / 0x100_0000) * 0x100_0000 + (word / 0x1_0000 % 0x100) * 0x1_0000 + (word / 0x100
            % 0x100) * 0x100 + word % 0x100 == word,
{
}

/// A top bit and 31 low bits make a word, which gives both back.
proof fn lemma_bit_and_index(bit: u32, index: u32)
    by (bit_vector)
    requires
        bit <= 1,
        index < 0x8000_0000,
    ensures
        bit * 0x8000_0000 + index < 0x1_0000_0000,
        (bit * 0x8000_0000 + index) % 0x8000_0000 == index,
        (bit * 0x8000_0000 + index) / 0x8000_0000 == bit,
{
}

proof fn lemma_word_of_hash_of(p: Seq<u32>, w: int)
    requires
        is_hash_path(p),
        0 <= w < 8,
    ensures
        word_at(hash_of(p), w) == word_of_path(p, w),
        low_bits(hash_of(p), w) == p[w],
        top_bit(hash_of(p), w) == bit_of(p[8] as int, w),
{
    let h = hash_of(p);
    let bit = bit_of(p[8] as int, w);
    let word = word_of_path(p, w);
    assert(0 <= bit <= 1);
    assert(p[w] < 0x8000_0000);
    lemma_bit_and_index(bit as u32, p[w]);
    lemma_bytes_spell_word(word as u32);
    assert(h[4 * w] == (word / 0x100_0000) as u8) by {
        reveal(byte_of_path);
        assert((4 * w) / 4 == w && (4 * w) % 4 == 0);
    }
    assert(h[4 * w + 1] == (word / 0x1_0000 % 0x100) as u8) by {
        reveal(byte_of_path);
        assert((4 * w + 1) / 4 == w && (4 * w + 1) % 4 == 1);
    }
    assert(h[4 * w + 2] == (word / 0x100 % 0x100) as u8) by {
        reveal(byte_of_path);
        assert((4 * w + 2) / 4 == w && (4 * w + 2) % 4 == 2);
    }
    assert(h[4 * w + 3] == (word % 0x100) as u8) by {
        reveal(byte_of_path);
        assert((4 * w + 3) / 4 == w && (4 * w + 3) % 4 == 3);
    }
    assert(word_at(h, w) == word);
}

proof fn lemma_top_bits_of_bits(h: Seq<u8>, x: u32)
    requires
        h.len() == 32,
        x < 0x100,
        forall|w: int| #![trigger top_bit(h, w)] 0 <= w < 8 ==> top_bit(h, w) == bit_of(x as int, w),
    ensures
        top_bits(h, 8) == x,
{
    lemma_top_bits_sum(h);
    lemma_number_of_bits(x);
    assert(top_bit(h, 0) == x % 2);
    assert(top_bit(h, 1) == x / 2 % 2);
    assert(top_bit(h, 2) == x / 4 % 2);
    assert(top_bit(h, 3) == x / 8 % 2);
    assert(top_bit(h, 4) == x / 16 % 2);
    assert(top_bit(h, 5) == x / 32 % 2);
    assert(top_bit(h, 6) == x / 64 % 2);
    assert(top_bit(h, 7) == x / 128 % 2);
}

proof fn lemma_words_of_hash_of(p: Seq<u32>)
    requires
        is_hash_path(p),
    ensures
        forall|w: int|
            #![trigger top_bit(hash_of(p), w)]
            0 <= w < 8 ==> top_bit(hash_of(p), w) == bit_of(p[8] as int, w),
        forall|w: int|
            #![trigger low_bits(hash_of(p), w)]
            0 <= w < 8 ==> low_bits(hash_of(p), w) == p[w],
{
    assert forall|w: int| #![trigger top_bit(hash_of(p), w)] 0 <= w < 8 implies top_bit(
        hash_of(p),
        w,
    ) == bit_of(p[8] as int, w) by {
        lemma_word_of_hash_of(p, w);
    }
    assert forall|w: int| #![trigger low_bits(hash_of(p), w)] 0 <= w < 8 implies low_bits(
        hash_of(p),
        w,
    ) == p[w] by {
        lemma_word_of_hash_of(p, w);
    }
}

proof fn lemma_path_of_parts(h: Seq<u8>, p: Seq<u32>)
    requires
        h.len() == 32,
        p.len() == 9,
        forall|w: int| #![trigger low_bits(h, w)] 0 <= w < 8 ==> low_bits(h, w) == p[w],
        top_bits(h, 8) == p[8],
    ensures
        path_of(h) == p,
{
    assert forall|i: int| 0 <= i < 9 implies path_of(h)[i] == p[i] by {
        assert(path_of(h)[i] == index_at(h, i));
        if i < 8 {
            assert(low_bits(h, i) == p[i]);
        }
    }
    assert(path_of(h) =~= p);
}

/// Every path of nine indices in their ranges is the path of a hash: the hash
/// that it stands for.
pub proof fn lemma_hash_of_path(p: Seq<u32>)
    requires
        is_hash_path(p),
    ensures
        hash_of(p).len() == 32,
        path_of(hash_of(p)) == p,
{
    lemma_words_of_hash_of(p);
    lemma_top_bits_of_bits(hash_of(p), p[8]);
    lemma_path_of_parts(hash_of(p), p);
}

/// The hash that the path of a hash stands for is that hash.
pub proof fn lemma_hash_of_path_of(h: Seq<u8>)
    requires
        h.len() == 32,
    ensures
        is_hash_path(path_of(h)),
        hash_of(path_of(h)) == h,
{
    let p = path_of(h);
    lemma_top_bits_bounds(h, 8);
    assert forall|i: int| 0 <= i < 9 implies p[i] == index_at(h, i) by {}
    assert forall|i: int| 0 <= i < 8 implies #[trigger] p[i] < 0x8000_0000 by {
        lemma_word_bounds(h, i);
    }
    lemma_hash_of_path(p);
    lemma_path_determines_hash(hash_of(p), h);
}

/// Different hashes have different paths.
pub proof fn lemma_distinct_hashes_distinct_paths(h1: Seq<u8>, h2: Seq<u8>)
    requires
        h1.len() == 32,
        h2.len() == 32,
        h1 != h2,
    ensures
        path_of(h1) != path_of(h2),
{
    if path_of(h1) == path_of(h2) {
        lemma_path_determines_hash(h1, h2);
    }
}

} // verus!
