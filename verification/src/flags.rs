//! Words as sets of flags.
//!
//! A flag is a word with one bit set, and a word holds a flag when the two
//! share it. Two words that hold the same flags are the same word.

use vstd::prelude::*;

verus! {

/// Whether `word` has exactly one bit set.
pub open spec fn single(word: u64) -> bool {
    word != 0 && word & ((word - 1) as u64) == 0
}

/// Whether `set` holds any flag of `flags`.
pub open spec fn holds(set: u64, flags: u64) -> bool {
    set & flags != 0
}

/// Whether `set` holds any flag of `flags`.
pub open spec fn holds_u32(set: u32, flags: u32) -> bool {
    set & flags != 0
}

/// Either `flags` or nothing.
pub open spec fn pick(taken: bool, flags: u64) -> u64 {
    if taken {
        flags
    } else {
        0
    }
}

/// Either `flags` or nothing.
pub open spec fn pick_u32(taken: bool, flags: u32) -> u32 {
    if taken {
        flags
    } else {
        0
    }
}

/// A union holds what either side holds, and nothing holds nothing.
pub broadcast proof fn lemma_holds_union(a: u64, b: u64, flags: u64)
    ensures
        #[trigger] holds(a | b, flags) <==> holds(a, flags) || holds(b, flags),
{
    assert((a | b) & flags != 0 <==> a & flags != 0 || b & flags != 0) by (bit_vector);
}

/// A union holds what either side holds.
pub broadcast proof fn lemma_holds_union_u32(a: u32, b: u32, flags: u32)
    ensures
        #[trigger] holds_u32(a | b, flags) <==> holds_u32(a, flags) || holds_u32(b, flags),
{
    assert((a | b) & flags != 0 <==> a & flags != 0 || b & flags != 0) by (bit_vector);
}

/// The empty set holds nothing.
pub broadcast proof fn lemma_empty_has_none(flags: u64)
    ensures
        !#[trigger] holds(0, flags),
{
    assert(0 & flags == 0) by (bit_vector);
}

/// The empty set holds nothing.
pub broadcast proof fn lemma_empty_has_none_u32(flags: u32)
    ensures
        !#[trigger] holds_u32(0, flags),
{
    assert(0 & flags == 0) by (bit_vector);
}

/// A flag holds itself and no other flag.
pub proof fn lemma_single_has_itself(flag: u64, other: u64)
    requires
        single(flag),
        single(other),
    ensures
        holds(flag, other) <==> flag == other,
{
    let less = (flag - 1) as u64;
    let other_less = (other - 1) as u64;
    assert(flag & other != 0 <==> flag == other) by (bit_vector)
        requires
            flag != 0,
            other != 0,
            less == flag - 1u64,
            other_less == other - 1u64,
            flag & less == 0,
            other & other_less == 0,
    ;
}

/// Holding a flag and containing it are the same.
pub proof fn lemma_contains_single(set: u64, flag: u64)
    requires
        single(flag),
    ensures
        set & flag == flag <==> holds(set, flag),
{
    let less = (flag - 1) as u64;
    assert(set & flag == flag <==> set & flag != 0) by (bit_vector)
        requires
            flag != 0,
            less == flag - 1u64,
            flag & less == 0,
    ;
}

/// The lowest flag of a word that is not empty.
pub open spec fn lowest(word: u64) -> u64 {
    word & !((word - 1) as u64)
}

/// A word that is not empty holds its lowest flag.
pub proof fn lemma_lowest_is_held(word: u64)
    requires
        word != 0,
    ensures
        single(lowest(word)),
        holds(word, lowest(word)),
{
    let less = (word - 1) as u64;
    let low = word & !less;
    let low_less = (low - 1) as u64;
    assert(low != 0 && word & low != 0) by (bit_vector)
        requires
            word != 0,
            less == word - 1u64,
            low == word & !less,
    ;
    assert(low & low_less == 0) by (bit_vector)
        requires
            word != 0,
            low != 0,
            less == word - 1u64,
            low == word & !less,
            low_less == low - 1u64,
    ;
}

/// Words that hold the same flags are equal.
pub proof fn lemma_same_flags(a: u64, b: u64)
    requires
        forall|flag: u64| single(flag) ==> (#[trigger] holds(a, flag) <==> holds(b, flag)),
    ensures
        a == b,
{
    if a != b {
        let apart = a ^ b;
        assert(apart != 0) by (bit_vector)
            requires
                a != b,
                apart == a ^ b,
        ;
        lemma_lowest_is_held(apart);
        let flag = lowest(apart);
        let less = (flag - 1) as u64;
        assert((a & flag != 0) != (b & flag != 0)) by (bit_vector)
            requires
                apart == a ^ b,
                flag != 0,
                less == flag - 1u64,
                flag & less == 0,
                apart & flag != 0,
        ;
        assert(holds(a, flag) <==> holds(b, flag));
    }
}

/// What is left of `set` outside `covered` is exactly the flags `covered` does
/// not hold.
pub proof fn lemma_outside(set: u64, covered: u64, flag: u64)
    requires
        single(flag),
    ensures
        holds(set & !covered, flag) <==> holds(set, flag) && !holds(covered, flag),
{
    let less = (flag - 1) as u64;
    assert((set & !covered) & flag != 0 <==> set & flag != 0 && covered & flag == 0)
        by (bit_vector)
        requires
            flag != 0,
            less == flag - 1u64,
            flag & less == 0,
    ;
}

/// Whether `set` holds `flag`.
pub fn contains(set: u64, flag: u64) -> (held: bool)
    requires
        single(flag),
    ensures
        held == holds(set, flag),
{
    proof {
        lemma_contains_single(set, flag);
    }
    set & flag == flag
}

} // verus!
