//! What holds of the scene across its operations.

use crate::ecs::component::{
    assigned, lemma_position_at, lemma_register, lemma_register_all, position, register,
    register_all, registry_wf,
};
use crate::ecs::error::EcsError;
use crate::ecs::mask::{
    has_bit, lemma_includes_iff_subset, lemma_with_bit, lemma_without_bit, mask_types,
};
use crate::ecs::model::SceneView;
use crate::ecs::preserve::{lemma_add_wf, lemma_create_wf, lemma_destroy_wf};
use std::any::TypeId;
use vstd::prelude::*;

verus! {

/// Attaching succeeds exactly for a live entity and a type that has or can
/// get an index. After it the entity's mask has the type's bit set, and the
/// component read back is the one attached, unless the entity had one of
/// that type before, which then stays.
pub proof fn theorem_add_then_get<V>(scene: SceneView<V>, entity: usize, ty: TypeId, value: V)
    requires
        scene.wf(),
    ensures
        scene.add(entity, ty, value).1 is Ok <==> scene.is_live(entity) && assigned(
            scene.types,
            ty,
        ) is Ok,
        scene.add(entity, ty, value).1 is Ok ==> scene.add(entity, ty, value).0.has(entity, ty),
        scene.add(entity, ty, value).1 is Ok && !scene.has(entity, ty) ==> scene.add(
            entity,
            ty,
            value,
        ).0.get(entity, ty) == Some(value),
        scene.add(entity, ty, value).1 is Ok && scene.has(entity, ty) ==> scene.add(
            entity,
            ty,
            value,
        ).0.get(entity, ty) == scene.get(entity, ty) && scene.get(entity, ty) is Some,
{
    lemma_register(scene.types, ty);
    if scene.is_live(entity) {
        if let Ok(t) = assigned(scene.types, ty) {
            let mask = scene.masks[entity];
            lemma_with_bit(mask, t, t);
            if position(scene.types, ty) is Some {
                assert(position(scene.types, ty) == Some(t));
            }
            assert(has_bit(mask, t) <==> scene.components.contains_key((t, entity)));
            if !has_bit(mask, t) {
                assert(!scene.has(entity, ty));
            } else {
                assert(t < scene.types.len());
                assert(scene.types.contains(ty)) by {
                    if !scene.types.contains(ty) {
                        assert(t == scene.types.len());
                    }
                }
            }
        }
    }
}

/// Attaching a second component of a type to an entity that has one changes
/// nothing: the first value stays.
pub proof fn theorem_add_twice<V>(
    scene: SceneView<V>,
    entity: usize,
    ty: TypeId,
    first: V,
    second: V,
)
    requires
        scene.wf(),
        scene.add(entity, ty, first).1 is Ok,
        !scene.has(entity, ty),
    ensures
        scene.add(entity, ty, first).0.add(entity, ty, second) == (
            scene.add(entity, ty, first).0,
            Ok::<(), EcsError>(()),
        ),
        scene.add(entity, ty, first).0.add(entity, ty, second).0.get(entity, ty) == Some(first),
{
    let once = scene.add(entity, ty, first).0;
    theorem_add_then_get(scene, entity, ty, first);
    lemma_add_wf(scene, entity, ty, first);
    lemma_register(scene.types, ty);
    lemma_register(once.types, ty);
    assert(once.add(entity, ty, second).0 =~= once);
}

/// Detaching succeeds exactly for a live entity and a type that has or can
/// get an index. After it the entity has no component of that type and the
/// type's bit is clear in its mask.
pub proof fn theorem_remove_then_get<V>(scene: SceneView<V>, entity: usize, ty: TypeId)
    requires
        scene.wf(),
    ensures
        scene.remove(entity, ty).1 is Ok <==> scene.is_live(entity) && assigned(scene.types, ty)
            is Ok,
        scene.remove(entity, ty).1 is Ok ==> scene.remove(entity, ty).0.get(entity, ty) is None
            && !scene.remove(entity, ty).0.has(entity, ty),
{
    lemma_register(scene.types, ty);
    if scene.is_live(entity) {
        if let Ok(t) = assigned(scene.types, ty) {
            let mask = scene.masks[entity];
            lemma_without_bit(mask, t, t);
            assert(has_bit(mask, t) <==> scene.components.contains_key((t, entity)));
        }
    }
}

/// A component that was attached can be detached again, and is gone then.
pub proof fn theorem_add_then_remove<V>(scene: SceneView<V>, entity: usize, ty: TypeId, value: V)
    requires
        scene.wf(),
        scene.add(entity, ty, value).1 is Ok,
    ensures
        scene.add(entity, ty, value).0.remove(entity, ty).1 is Ok,
        scene.add(entity, ty, value).0.remove(entity, ty).0.get(entity, ty) is None,
        !scene.add(entity, ty, value).0.remove(entity, ty).0.has(entity, ty),
{
    let once = scene.add(entity, ty, value).0;
    lemma_add_wf(scene, entity, ty, value);
    lemma_register(scene.types, ty);
    theorem_remove_then_get(once, entity, ty);
}

/// The id of a destroyed entity is the next to be handed out, and the
/// creation after that one hands out an id that no live entity has.
pub proof fn theorem_id_recycled<V>(scene: SceneView<V>, entity: usize)
    requires
        scene.wf(),
        scene.is_live(entity),
    ensures
        scene.destroy(entity).0.create().1 == entity,
        scene.destroy(entity).0.create().0.create().1 != entity,
        !scene.destroy(entity).0.create().0.is_live(
            scene.destroy(entity).0.create().0.create().1,
        ),
{
    let destroyed = scene.destroy(entity).0;
    lemma_destroy_wf(scene, entity);
    lemma_create_wf(destroyed);
    let (reused, id) = destroyed.create();
    assert(destroyed.freed.last() == entity);
    assert(id == entity);
    assert(reused.is_live(entity));
    if reused.freed.len() > 0 {
        assert(!reused.masks.contains_key(reused.freed[reused.freed.len() - 1]));
    } else {
        assert(!reused.masks.contains_key(reused.next_id));
    }
}

/// No two live entities share an id: a created entity gets an id that no
/// live entity has.
pub proof fn theorem_created_id_is_new<V>(scene: SceneView<V>)
    requires
        scene.wf(),
    ensures
        !scene.is_live(scene.create().1),
        scene.create().0.is_live(scene.create().1),
        scene.create().0.masks[scene.create().1] == 0,
{
    if scene.freed.len() > 0 {
        assert(!scene.masks.contains_key(scene.freed[scene.freed.len() - 1]));
    }
}

/// A type keeps the index it was given, whatever asks for an index
/// afterwards.
pub proof fn theorem_type_index_stable(types: Seq<TypeId>, ty: TypeId, later: Seq<TypeId>)
    requires
        registry_wf(types),
        assigned(types, ty) is Ok,
    ensures
        assigned(register_all(register(types, ty), later), ty) == assigned(types, ty),
{
    lemma_register(types, ty);
    lemma_register_all(register(types, ty), later);
}

/// Two types that differ are given indices that differ.
pub proof fn theorem_type_indices_differ(types: Seq<TypeId>, a: TypeId, b: TypeId)
    requires
        registry_wf(types),
        a != b,
        assigned(types, a) is Ok,
        assigned(register(types, a), b) is Ok,
    ensures
        assigned(types, a) != assigned(register(types, a), b),
{
    let after = register(types, a);
    lemma_register(types, a);
    lemma_register(after, b);
    let t = assigned(types, a)->Ok_0;
    let u = assigned(after, b)->Ok_0;
    if t == u {
        assert(position(after, a) == Some(t));
        if position(after, b) is Some {
            let at = after.index_of(b);
            assert(after[at] == b);
            let at_a = after.index_of(a);
            assert(after.contains(a));
            assert(after[at_a] == a);
        } else {
            assert(u == after.len());
        }
    }
}

/// A query matches an entity exactly when the entity's mask has the bit of
/// every type asked for.
pub proof fn theorem_query_matches<V>(scene: SceneView<V>, wanted: Seq<TypeId>, entity: usize)
    requires
        scene.wf(),
        scene.is_live(entity),
        scene.can_require(wanted),
    ensures
        scene.mask_satisfies(wanted, scene.masks[entity]) <==> forall|i: int|
            0 <= i < wanted.len() ==> #[trigger] scene.index_types(wanted).has(entity, wanted[i]),
{
    let after = scene.index_types(wanted);
    let mask = scene.masks[entity];
    lemma_register_all(scene.types, wanted);
    if scene.mask_satisfies(wanted, mask) {
        assert forall|i: int| 0 <= i < wanted.len() implies #[trigger] after.has(
            entity,
            wanted[i],
        ) by {
            assert(after.types.contains(wanted[i]));
            let at = after.types.index_of(wanted[i]);
            assert(after.types[at] == wanted[i]);
            assert(scene.required_types(wanted).contains(at as usize));
            assert(mask_types(mask).contains(at as usize));
        }
    }
    if forall|i: int| 0 <= i < wanted.len() ==> #[trigger] after.has(entity, wanted[i]) {
        assert forall|t: usize| scene.required_types(wanted).contains(t) implies mask_types(
            mask,
        ).contains(t) by {
            let ty = after.types[t as int];
            let i = wanted.index_of(ty);
            assert(wanted[i] == ty);
            assert(after.has(entity, wanted[i]));
            lemma_position_at(after.types, ty, t as int);
        }
    }
}

/// A query that asks for no type matches every entity.
pub proof fn theorem_empty_query<V>(scene: SceneView<V>, mask: usize)
    ensures
        scene.can_require(Seq::<TypeId>::empty()),
        scene.mask_satisfies(Seq::<TypeId>::empty(), mask),
        scene.index_types(Seq::<TypeId>::empty()) == scene,
{
    let none = Seq::<TypeId>::empty();
    assert forall|t: usize| !scene.required_types(none).contains(t) by {
        if t < scene.types.len() && none.contains(scene.types[t as int]) {
            let i = none.index_of(scene.types[t as int]);
        }
    }
    assert(scene.index_types(none) =~= scene);
}

/// The entities that match a mask are those whose mask records every type
/// that the mask asks for.
pub proof fn theorem_matching_by_types<V>(scene: SceneView<V>, required: usize, entity: usize)
    ensures
        scene.matching(required).contains(entity) <==> scene.is_live(entity) && mask_types(
            required,
        ).subset_of(mask_types(scene.masks[entity])),
{
    lemma_includes_iff_subset(scene.masks[entity], required);
}

} // verus!
