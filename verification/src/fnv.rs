use vstd::prelude::*;

verus! {

/// Starting value of the 64-bit FNV-1a hash.
pub const FNV_OFFSET_BASIS: u64 = 0xcbf29ce484222325;

/// Multiplier of the 64-bit FNV-1a hash.
pub const FNV_PRIME: u64 = 0x100000001b3;

/// One FNV-1a round on a whole 64-bit word: xor it in, then multiply modulo 2^64.
pub open spec fn fnv_mix(h: u64, w: u64) -> u64 {
    (((h ^ w) as nat * FNV_PRIME as nat) % 0x1_0000_0000_0000_0000nat) as u64
}

/// The hash state after mixing the words of `ws` into `h`, first word first.
pub open spec fn fnv_fold(h: u64, ws: Seq<u64>) -> u64
    decreases ws.len(),
{
    if ws.len() == 0 {
        h
    } else {
        fnv_mix(fnv_fold(h, ws.drop_last()), ws.last())
    }
}

/// FNV-1a hash of a sequence of 64-bit words (such as the bit patterns of the
/// simulation parameters), used as the key that tells when a cached result is stale.
pub fn hash_words(words: &[u64]) -> (h: u64)
    ensures
        h == fnv_fold(FNV_OFFSET_BASIS, words@),
{
    let mut h: u64 = FNV_OFFSET_BASIS;
    let n = words.len();
    let mut i: usize = 0;
    while i < n
        invariant
            n == words@.len(),
            i <= n,
            h == fnv_fold(FNV_OFFSET_BASIS, words@.take(i as int)),
        decreases n - i,
    {
        assert(words@.take(i + 1).drop_last() =~= words@.take(i as int));
        h = (h ^ words[i]).wrapping_mul(FNV_PRIME);
        i += 1;
    }
    assert(words@.take(n as int) =~= words@);
    h
}

/// The FNV-1a laws: hashing nothing gives the offset basis 0xcbf29ce484222325, and
/// every further word, whatever its position, is xored into the hash so far, which is
/// then multiplied by 0x100000001b3 modulo 2^64.
pub proof fn lemma_fnv_fold_laws(ws: Seq<u64>, w: u64)
    ensures
        fnv_fold(FNV_OFFSET_BASIS, Seq::<u64>::empty()) == 0xcbf29ce484222325u64,
        fnv_fold(FNV_OFFSET_BASIS, ws.push(w)) as nat == ((fnv_fold(FNV_OFFSET_BASIS, ws) ^ w) as nat
            * 0x100000001b3nat) % 0x1_0000_0000_0000_0000nat,
{
    assert(ws.push(w).drop_last() =~= ws);
}

/// Two sequences of words that agree up to one position and differ in the word there
/// hash to different states after that word: mixing a word in is one-to-one.
pub proof fn lemma_fnv_mix_injective(h: u64, a: u64, b: u64)
    requires
        a != b,
    ensures
        fnv_mix(h, a) != fnv_mix(h, b),
{
    assert(fnv_mix(h, a) != fnv_mix(h, b)) by (bit_vector)
        requires
            a != b,
            fnv_mix(h, a) == (h ^ a).wrapping_mul(0x100000001b3u64),
            fnv_mix(h, b) == (h ^ b).wrapping_mul(0x100000001b3u64),
    ;
}

/// Mixing the same word into two different hash states keeps them different.
proof fn lemma_fnv_mix_injective_state(g: u64, h: u64, w: u64)
    requires
        g != h,
    ensures
        fnv_mix(g, w) != fnv_mix(h, w),
{
    assert(fnv_mix(g, w) != fnv_mix(h, w)) by (bit_vector)
        requires
            g != h,
            fnv_mix(g, w) == (g ^ w).wrapping_mul(0x100000001b3u64),
            fnv_mix(h, w) == (h ^ w).wrapping_mul(0x100000001b3u64),
    ;
}

/// Hashing the same words from two different states keeps them different.
proof fn lemma_fnv_fold_injective_state(g: u64, h: u64, ws: Seq<u64>)
    requires
        g != h,
    ensures
        fnv_fold(g, ws) != fnv_fold(h, ws),
    decreases ws.len(),
{
    if ws.len() > 0 {
        lemma_fnv_fold_injective_state(g, h, ws.drop_last());
        lemma_fnv_mix_injective_state(fnv_fold(g, ws.drop_last()), fnv_fold(h, ws.drop_last()), ws.last());
    }
}

/// Hashing `a` then `b` is hashing `b` from the state that hashing `a` left.
proof fn lemma_fnv_fold_concat(h: u64, a: Seq<u64>, b: Seq<u64>)
    ensures
        fnv_fold(h, a + b) == fnv_fold(fnv_fold(h, a), b),
    decreases b.len(),
{
    if b.len() > 0 {
        assert((a + b).drop_last() =~= a + b.drop_last());
        lemma_fnv_fold_concat(h, a, b.drop_last());
    } else {
        assert(a + b =~= a);
    }
}

/// Two word sequences of the same length that differ in exactly one position hash
/// differently, whichever position that is: changing any one parameter changes the key.
pub proof fn lemma_one_changed_word_changes_hash(ws: Seq<u64>, k: int, w: u64)
    requires
        0 <= k < ws.len(),
        ws[k] != w,
    ensures
        fnv_fold(FNV_OFFSET_BASIS, ws) != fnv_fold(FNV_OFFSET_BASIS, ws.update(k, w)),
{
    let vs = ws.update(k, w);
    let pre = ws.take(k);
    let post = ws.skip(k + 1);
    assert(ws =~= pre.push(ws[k]) + post);
    assert(vs =~= pre.push(w) + post);
    lemma_fnv_fold_concat(FNV_OFFSET_BASIS, pre.push(ws[k]), post);
    lemma_fnv_fold_concat(FNV_OFFSET_BASIS, pre.push(w), post);
    assert(pre.push(ws[k]).drop_last() =~= pre);
    assert(pre.push(w).drop_last() =~= pre);
    lemma_fnv_mix_injective(fnv_fold(FNV_OFFSET_BASIS, pre), ws[k], w);
    lemma_fnv_fold_injective_state(
        fnv_fold(FNV_OFFSET_BASIS, pre.push(ws[k])),
        fnv_fold(FNV_OFFSET_BASIS, pre.push(w)),
        post,
    );
}

} // verus!
