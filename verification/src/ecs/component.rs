//! Component types and the registry that numbers them.

use crate::ecs::error::EcsError;
use std::any::TypeId;
use vstd::prelude::*;

verus! {

/// Data that can be attached to an entity.
pub trait Component {
    /// The entity this component says it belongs to.
    fn get_entity_id(&self) -> usize;
}

/// `std::any::TypeId`, the token by which the standard library tells types
/// apart. Nothing inside it is visible here.
#[verifier::external_type_specification]
#[verifier::external_body]
pub struct ExTypeId(TypeId);

/// Calls `TypeId::of::<T>()`. Nothing is claimed of the token it returns.
#[verifier::external_body]
pub(crate) fn type_token<T: 'static>() -> TypeId {
    TypeId::of::<T>()
}

/// Calls `TypeId::eq`. The claim: its answer is `true` exactly when the two
/// tokens are the same value.
#[verifier::external_body]
pub(crate) fn same_token(a: &TypeId, b: &TypeId) -> (same: bool)
    ensures
        same == (*a == *b),
{
    a == b
}

/// Where `ty` stands in `types`, if it does.
pub open spec fn position(types: Seq<TypeId>, ty: TypeId) -> Option<usize> {
    if types.contains(ty) {
        Some(types.index_of(ty) as usize)
    } else {
        None
    }
}

/// The list of seen types after `ty` has asked for an index: `ty` is appended
/// when it is new and a bit is still free, and nothing changes otherwise.
pub open spec fn register(types: Seq<TypeId>, ty: TypeId) -> Seq<TypeId> {
    if types.contains(ty) || types.len() >= usize::BITS {
        types
    } else {
        types.push(ty)
    }
}

/// The index that `ty` is given when it asks for one against `types`: its
/// place if it was seen before, the next free index if it is new, and an
/// error if it is new and no bit is left.
pub open spec fn assigned(types: Seq<TypeId>, ty: TypeId) -> Result<usize, EcsError> {
    match position(types, ty) {
        Some(index) => Ok(index),
        None => if types.len() < usize::BITS {
            Ok(types.len() as usize)
        } else {
            Err(EcsError::TypeLimitExceeded)
        },
    }
}

/// The list of seen types after each type of `wanted` has asked for an index,
/// in order.
pub open spec fn register_all(types: Seq<TypeId>, wanted: Seq<TypeId>) -> Seq<TypeId>
    decreases wanted.len(),
{
    if wanted.len() == 0 {
        types
    } else {
        register(register_all(types, wanted.drop_last()), wanted.last())
    }
}

/// Whether every type of `wanted` stands in `types`.
pub open spec fn all_known(types: Seq<TypeId>, wanted: Seq<TypeId>) -> bool {
    forall|i: int| 0 <= i < wanted.len() ==> types.contains(#[trigger] wanted[i])
}

/// The indices of those types of `types` that `wanted` names.
pub open spec fn indices_of(types: Seq<TypeId>, wanted: Seq<TypeId>) -> Set<usize> {
    Set::new(|t: usize| t < types.len() && wanted.contains(types[t as int]))
}

/// A registry's list is sound when no type stands in it twice and every
/// index fits in a mask.
pub open spec fn registry_wf(types: Seq<TypeId>) -> bool {
    &&& types.no_duplicates()
    &&& types.len() <= usize::BITS
}

/// The append-only list of component types seen so far. A type's index is its
/// place in the list.
pub struct TypeRegistry {
    seen: Vec<TypeId>,
}

impl View for TypeRegistry {
    type V = Seq<TypeId>;

    closed spec fn view(&self) -> Seq<TypeId> {
        self.seen@
    }
}

impl TypeRegistry {
    /// The registry's invariant.
    pub open spec fn wf(&self) -> bool {
        registry_wf(self@)
    }

    /// A registry that has seen no type.
    pub fn new() -> (registry: Self)
        ensures
            registry@ == Seq::<TypeId>::empty(),
            registry.wf(),
    {
        TypeRegistry { seen: Vec::new() }
    }

    /// The number of types seen so far.
    pub fn len(&self) -> (count: usize)
        ensures
            count == self@.len(),
    {
        self.seen.len()
    }

    /// Looks `ty` up without registering it.
    pub fn find(&self, ty: TypeId) -> (found: Option<usize>)
        requires
            self.wf(),
        ensures
            found == position(self@, ty),
    {
        let mut index: usize = 0;
        while index < self.seen.len()
            invariant
                self.wf(),
                index <= self.seen.len(),
                forall|k: int| 0 <= k < index ==> self.seen@[k] != ty,
            decreases self.seen.len() - index,
        {
            if same_token(&self.seen[index], &ty) {
                proof {
                    lemma_position_at(self@, ty, index as int);
                }
                return Some(index);
            }
            index += 1;
        }
        None
    }

    /// The index of `ty`, which is registered first if it is new.
    pub fn type_index(&mut self, ty: TypeId) -> (result: Result<usize, EcsError>)
        requires
            old(self).wf(),
        ensures
            final(self).wf(),
            final(self)@ == register(old(self)@, ty),
            result == assigned(old(self)@, ty),
    {
        match self.find(ty) {
            Some(index) => Ok(index),
            None => {
                let index = self.seen.len();
                if index < crate::ecs::mask::mask_width() {
                    self.seen.push(ty);
                    Ok(index)
                } else {
                    Err(EcsError::TypeLimitExceeded)
                }
            },
        }
    }
}

/// The index of the component type `T`, which is registered first if it is
/// new. The type stands in the registry as the token that the standard library
/// gives for it, so the outcome is that of `TypeRegistry::type_index` on some
/// token.
pub fn get_component_t_id<T: Component + 'static>(registry: &mut TypeRegistry) -> (result: Result<
    usize,
    EcsError,
>)
    requires
        old(registry).wf(),
    ensures
        final(registry).wf(),
        exists|ty: TypeId|
            final(registry)@ == register(old(registry)@, ty) && result == #[trigger] assigned(
                old(registry)@,
                ty,
            ),
{
    let ty = type_token::<T>();
    registry.type_index(ty)
}

/// In a list without duplicates, a type found at a place has that position.
pub proof fn lemma_position_at(types: Seq<TypeId>, ty: TypeId, index: int)
    requires
        types.no_duplicates(),
        0 <= index < types.len(),
        types[index] == ty,
    ensures
        position(types, ty) == Some(index as usize),
{
    assert(types.contains(ty));
    let chosen = types.index_of(ty);
    assert(0 <= chosen < types.len() && types[chosen] == ty);
}

/// Registering a type keeps the list sound, and the index it is given is in
/// range and the type's place afterwards.
pub proof fn lemma_register(types: Seq<TypeId>, ty: TypeId)
    requires
        registry_wf(types),
    ensures
        registry_wf(register(types, ty)),
        types.len() <= register(types, ty).len(),
        forall|other: TypeId| #[trigger]
            position(types, other) is Some ==> position(register(types, ty), other) == position(
                types,
                other,
            ),
        match assigned(types, ty) {
            Ok(t) => t < usize::BITS && t < register(types, ty).len() && position(
                register(types, ty),
                ty,
            ) == Some(t),
            Err(_) => register(types, ty) == types && position(types, ty) is None,
        },
{
    let after = register(types, ty);
    assert forall|other: TypeId| #[trigger] position(types, other) is Some implies position(
        after,
        other,
    ) == position(types, other) by {
        let at = types.index_of(other);
        assert(after[at] == other);
        assert(after.contains(other));
        let now = after.index_of(other);
        assert(now == at);
    }
    if types.contains(ty) {
        let at = types.index_of(ty);
        assert(0 <= at < types.len());
    } else if types.len() < usize::BITS {
        assert(after[types.len() as int] == ty);
        assert(after.contains(ty));
        let now = after.index_of(ty);
        assert(now == types.len());
    }
}

/// Once no bit is left, asking for further indices changes nothing.
pub proof fn lemma_register_all_full(types: Seq<TypeId>, wanted: Seq<TypeId>)
    requires
        types.len() >= usize::BITS,
    ensures
        register_all(types, wanted) == types,
    decreases wanted.len(),
{
    if wanted.len() > 0 {
        lemma_register_all_full(types, wanted.drop_last());
    }
}

/// Asking for the indices of a list of types is asking for those of a front
/// part and then for those of the rest.
pub proof fn lemma_register_all_split(types: Seq<TypeId>, wanted: Seq<TypeId>, at: int)
    requires
        0 <= at <= wanted.len(),
    ensures
        register_all(types, wanted) == register_all(
            register_all(types, wanted.take(at)),
            wanted.skip(at),
        ),
    decreases wanted.len(),
{
    if at == wanted.len() {
        assert(wanted.take(at) =~= wanted);
        assert(wanted.skip(at) =~= Seq::<TypeId>::empty());
    } else {
        lemma_register_all_split(types, wanted.drop_last(), at);
        assert(wanted.drop_last().take(at) =~= wanted.take(at));
        assert(wanted.drop_last().skip(at) =~= wanted.skip(at).drop_last());
        assert(wanted.skip(at).last() == wanted.last());
    }
}

/// Asking for the indices of a list of types keeps the list sound and no
/// seen type changes its place.
pub proof fn lemma_register_all(types: Seq<TypeId>, wanted: Seq<TypeId>)
    requires
        registry_wf(types),
    ensures
        registry_wf(register_all(types, wanted)),
        forall|other: TypeId| #[trigger]
            position(types, other) is Some ==> position(register_all(types, wanted), other)
                == position(types, other),
    decreases wanted.len(),
{
    if wanted.len() > 0 {
        let before = register_all(types, wanted.drop_last());
        lemma_register_all(types, wanted.drop_last());
        lemma_register(before, wanted.last());
        assert forall|other: TypeId| #[trigger] position(types, other) is Some implies position(
            register_all(types, wanted),
            other,
        ) == position(types, other) by {
            assert(position(before, other) is Some);
        }
    }
}

/// One more type in a query: its index joins the indices asked for.
pub proof fn lemma_indices_push(types: Seq<TypeId>, seen: Seq<TypeId>, ty: TypeId)
    requires
        registry_wf(types),
        all_known(types, seen),
        assigned(types, ty) is Ok,
    ensures
        all_known(register(types, ty), seen.push(ty)),
        indices_of(register(types, ty), seen.push(ty)) == indices_of(types, seen).insert(
            assigned(types, ty)->Ok_0,
        ),
{
    let after = register(types, ty);
    let more = seen.push(ty);
    let t = assigned(types, ty)->Ok_0;
    lemma_register(types, ty);
    assert forall|i: int| 0 <= i < more.len() implies after.contains(#[trigger] more[i]) by {
        if i < seen.len() {
            assert(types.contains(seen[i]));
            assert(position(types, seen[i]) is Some);
            assert(position(after, seen[i]) is Some);
        } else {
            assert(position(after, ty) is Some);
        }
    }
    assert forall|u: usize| indices_of(after, more).contains(u) == indices_of(types, seen).insert(
        t,
    ).contains(u) by {
        if u < types.len() {
            assert(after[u as int] == types[u as int]);
            if types[u as int] == ty {
                lemma_position_at(types, ty, u as int);
                assert(more[seen.len() as int] == ty);
            } else if seen.contains(types[u as int]) {
                let at = seen.index_of(types[u as int]);
                assert(more[at] == types[u as int]);
            } else if more.contains(after[u as int]) {
                let at = more.index_of(after[u as int]);
                assert(at < seen.len());
                assert(seen[at] == types[u as int]);
            }
        } else if u < after.len() {
            assert(u == t);
            assert(after[u as int] == ty);
            assert(more[seen.len() as int] == ty);
        }
    }
    assert(indices_of(after, more) =~= indices_of(types, seen).insert(t));
}

} // verus!
