//! Single bits of machine words.

use vstd::prelude::*;

verus! {

/// Whether bit `index` of `word` is set.
pub open spec fn bit(word: u64, index: int) -> bool {
    0 <= index < 64 && (word >> (index as u64)) & 1 == 1
}

/// No bit of zero is set.
pub proof fn lemma_zero_holds_no_bit()
    ensures
        forall|i: int| !bit(0, i),
{
    assert forall|i: int| !bit(0, i) by {
        if 0 <= i < 64 {
            let at = i as u64;
            assert((0u64 >> at) & 1 == 0) by (bit_vector);
        }
    }
}

/// A union of words holds the bits of both.
pub proof fn lemma_union(a: u64, b: u64)
    ensures
        forall|i: int| bit(a | b, i) <==> bit(a, i) || bit(b, i),
{
    assert forall|i: int| bit(a | b, i) <==> bit(a, i) || bit(b, i) by {
        if 0 <= i < 64 {
            let at = i as u64;
            assert(((a | b) >> at) & 1 == 1 <==> (a >> at) & 1 == 1 || (b >> at) & 1 == 1)
                by (bit_vector)
                requires
                    at < 64,
            ;
        }
    }
}

/// One shifted into place is that bit and no other.
pub proof fn lemma_single(at: u64)
    requires
        at < 64,
    ensures
        forall|i: int| bit(1u64 << at, i) <==> i == at,
{
    assert forall|i: int| bit(1u64 << at, i) <==> i == at by {
        if 0 <= i < 64 {
            let other = i as u64;
            assert(((1u64 << at) >> other) & 1 == 1 <==> other == at) by (bit_vector)
                requires
                    at < 64,
                    other < 64,
            ;
        }
    }
}

/// Whether `rest` is `word` without its bits below `from`.
pub open spec fn residue(rest: u64, word: u64, from: int) -> bool {
    forall|i: int|
        #![trigger bit(rest, i)]
        #![trigger bit(word, i)]
        bit(rest, i) <==> bit(word, i) && i >= from
}

/// The trailing-zero count names the lowest set bit.
pub proof fn lemma_lowest(word: u64)
    requires
        word != 0,
    ensures
        ({
            let low = vstd::std_specs::bits::u64_trailing_zeros(word);
            &&& 0 <= low < 64
            &&& bit(word, low as int)
            &&& forall|i: int| 0 <= i < low ==> !bit(word, i)
        }),
{
    vstd::std_specs::bits::axiom_u64_trailing_zeros(word);
    let low = vstd::std_specs::bits::u64_trailing_zeros(word) as u64;
    assert forall|i: int| 0 <= i < low implies !bit(word, i) by {
        let at = i as u64;
        assert((word >> at) & 1 == 0);
    }
}

/// Masking a word with its predecessor takes its lowest set bit out and no
/// other.
pub proof fn lemma_mask_lowest(word: u64, rest: u64)
    requires
        word != 0,
        rest == word & (word - 1) as u64,
    ensures
        residue(rest, word, vstd::std_specs::bits::u64_trailing_zeros(word) + 1),
{
    lemma_lowest(word);
    vstd::std_specs::bits::axiom_u64_trailing_zeros(word);
    let low = vstd::std_specs::bits::u64_trailing_zeros(word) as u64;
    let less = (word - 1) as u64;
    assert forall|i: int| bit(rest, i) <==> bit(word, i) && i >= low + 1 by {
        if 0 <= i < 64 {
            let at = i as u64;
            let above = (64 - low) as u64;
            assert(((word & less) >> at) & 1 == 1 <==> (word >> at) & 1 == 1 && at > low)
                by (bit_vector)
                requires
                    at < 64,
                    low < 64,
                    word != 0,
                    above == 64u64 - low,
                    less == word - 1u64,
                    (word >> low) & 1 == 1,
                    word << above == 0,
            ;
        }
    }
}

} // verus!
