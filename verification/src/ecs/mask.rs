//! Component masks: one machine word per entity, bit `i` standing for the
//! component type with index `i`.

use vstd::prelude::*;

verus! {

/// Whether bit `index` of `mask` is set.
pub open spec fn has_bit(mask: usize, index: usize) -> bool {
    mask & (1usize << index) != 0
}

/// The type indices that a mask records.
pub open spec fn mask_types(mask: usize) -> Set<usize> {
    Set::new(|index: usize| index < usize::BITS && has_bit(mask, index))
}

/// `mask` with bit `index` set.
pub open spec fn with_bit(mask: usize, index: usize) -> usize {
    mask | (1usize << index)
}

/// `mask` with bit `index` cleared.
pub open spec fn without_bit(mask: usize, index: usize) -> usize {
    mask & !(1usize << index)
}

/// Whether every bit of `required` is also set in `mask`.
pub open spec fn includes(mask: usize, required: usize) -> bool {
    required & mask == required
}

/// How many component types a mask can tell apart: the width of the word.
pub fn mask_width() -> (width: usize)
    ensures
        width == usize::BITS,
{
    usize::BITS as usize
}

/// Tests whether `mask` records the type with index `index`.
pub fn mask_contains(mask: usize, index: usize) -> (present: bool)
    requires
        index < usize::BITS,
    ensures
        present == has_bit(mask, index),
        present == mask_types(mask).contains(index),
{
    mask & (1usize << index) != 0
}

/// Returns `mask` with the type of index `index` recorded as well.
pub fn mask_insert(mask: usize, index: usize) -> (result: usize)
    requires
        index < usize::BITS,
    ensures
        result == with_bit(mask, index),
        mask_types(result) == mask_types(mask).insert(index),
{
    proof {
        lemma_with_bit_types(mask, index);
    }
    mask | (1usize << index)
}

/// Returns `mask` with the type of index `index` no longer recorded.
pub fn mask_remove(mask: usize, index: usize) -> (result: usize)
    requires
        index < usize::BITS,
    ensures
        result == without_bit(mask, index),
        mask_types(result) == mask_types(mask).remove(index),
{
    proof {
        lemma_without_bit_types(mask, index);
    }
    mask & !(1usize << index)
}

/// Tests whether an entity with mask `mask` owns every type that `required`
/// records. The empty `required` is matched by every mask.
pub fn mask_matches(required: usize, mask: usize) -> (matched: bool)
    ensures
        matched == includes(mask, required),
        matched == mask_types(required).subset_of(mask_types(mask)),
{
    proof {
        lemma_includes_iff_subset(mask, required);
    }
    required & mask == required
}

/// The empty mask records no type.
pub proof fn lemma_empty_mask(index: usize)
    requires
        index < usize::BITS,
    ensures
        !has_bit(0, index),
{
    assert(0usize & (1usize << index) == 0) by (bit_vector);
}

/// Setting bit `index` changes that bit and no other.
pub proof fn lemma_with_bit(mask: usize, index: usize, other: usize)
    requires
        index < usize::BITS,
        other < usize::BITS,
    ensures
        has_bit(with_bit(mask, index), other) == (other == index || has_bit(mask, other)),
{
    assert(((mask | (1usize << index)) & (1usize << other) != 0) == (other == index || mask & (
    1usize << other) != 0)) by (bit_vector)
        requires
            index < usize::BITS,
            other < usize::BITS,
    ;
}

/// Clearing bit `index` changes that bit and no other.
pub proof fn lemma_without_bit(mask: usize, index: usize, other: usize)
    requires
        index < usize::BITS,
        other < usize::BITS,
    ensures
        has_bit(without_bit(mask, index), other) == (other != index && has_bit(mask, other)),
{
    assert(((mask & !(1usize << index)) & (1usize << other) != 0) == (other != index && mask & (
    1usize << other) != 0)) by (bit_vector)
        requires
            index < usize::BITS,
            other < usize::BITS,
    ;
}

/// The types of a mask with one more bit set.
pub proof fn lemma_with_bit_types(mask: usize, index: usize)
    requires
        index < usize::BITS,
    ensures
        mask_types(with_bit(mask, index)) == mask_types(mask).insert(index),
{
    assert forall|other: usize| mask_types(with_bit(mask, index)).contains(other) == mask_types(
        mask,
    ).insert(index).contains(other) by {
        if other < usize::BITS {
            lemma_with_bit(mask, index, other);
        }
    }
    assert(mask_types(with_bit(mask, index)) =~= mask_types(mask).insert(index));
}

/// The types of a mask with one bit cleared.
pub proof fn lemma_without_bit_types(mask: usize, index: usize)
    requires
        index < usize::BITS,
    ensures
        mask_types(without_bit(mask, index)) == mask_types(mask).remove(index),
{
    assert forall|other: usize| mask_types(without_bit(mask, index)).contains(other)
        == mask_types(mask).remove(index).contains(other) by {
        if other < usize::BITS {
            lemma_without_bit(mask, index, other);
        }
    }
    assert(mask_types(without_bit(mask, index)) =~= mask_types(mask).remove(index));
}

/// A mask with a bit at or above `from` has such a bit at a known place.
proof fn lemma_bit_at_or_above(mask: usize, from: usize) -> (index: usize)
    requires
        from < usize::BITS,
        mask >> from != 0,
    ensures
        from <= index < usize::BITS,
        has_bit(mask, index),
    decreases usize::BITS - from,
{
    if has_bit(mask, from) {
        from
    } else {
        let next: usize = (from + 1) as usize;
        assert(next < usize::BITS && mask >> next != 0) by (bit_vector)
            requires
                from < usize::BITS,
                next == from + 1,
                mask >> from != 0,
                mask & (1usize << from) == 0,
        ;
        lemma_bit_at_or_above(mask, next)
    }
}

/// A mask other than the empty one records some type.
pub proof fn lemma_nonempty_mask(mask: usize) -> (index: usize)
    requires
        mask != 0,
    ensures
        index < usize::BITS,
        has_bit(mask, index),
{
    assert(mask >> 0usize != 0) by (bit_vector)
        requires
            mask != 0,
    ;
    lemma_bit_at_or_above(mask, 0)
}

/// A mask includes another exactly when it records every type the other does.
pub proof fn lemma_includes_iff_subset(mask: usize, required: usize)
    ensures
        includes(mask, required) <==> mask_types(required).subset_of(mask_types(mask)),
{
    if includes(mask, required) {
        assert forall|index: usize| mask_types(required).contains(index) implies mask_types(
            mask,
        ).contains(index) by {
            assert(mask & (1usize << index) != 0) by (bit_vector)
                requires
                    required & mask == required,
                    required & (1usize << index) != 0,
            ;
        }
    } else {
        let missing: usize = required & !mask;
        assert(missing != 0) by (bit_vector)
            requires
                required & mask != required,
                missing == required & !mask,
        ;
        let index = lemma_nonempty_mask(missing);
        assert(required & (1usize << index) != 0 && mask & (1usize << index) == 0) by (bit_vector)
            requires
                missing == required & !mask,
                missing & (1usize << index) != 0,
        ;
        assert(mask_types(required).contains(index));
        assert(!mask_types(mask).contains(index));
    }
}

/// Two masks that record the same types are the same mask.
pub proof fn lemma_mask_extensional(a: usize, b: usize)
    requires
        mask_types(a) == mask_types(b),
    ensures
        a == b,
{
    lemma_includes_iff_subset(a, b);
    lemma_includes_iff_subset(b, a);
    assert(a == b) by (bit_vector)
        requires
            b & a == b,
            a & b == a,
    ;
}

} // verus!
