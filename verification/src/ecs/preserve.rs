//! Every operation of the scene keeps the scene's invariant.

use crate::ecs::component::{assigned, lemma_register};
use crate::ecs::mask::{has_bit, lemma_empty_mask, lemma_with_bit, lemma_without_bit};
use crate::ecs::model::SceneView;
use std::any::TypeId;
use vstd::prelude::*;

verus! {

/// Creating an entity keeps the invariant, as long as an id is left to give.
pub proof fn lemma_create_wf<V>(scene: SceneView<V>)
    requires
        scene.wf(),
        scene.freed.len() > 0 || scene.next_id < usize::MAX,
    ensures
        scene.create().0.wf(),
        !scene.is_live(scene.create().1),
{
    let (after, id) = scene.create();
    if scene.freed.len() > 0 {
        let last = scene.freed.len() - 1;
        assert(scene.freed[last] == id);
        assert forall|entity: usize| entity < after.next_id implies #[trigger]
            after.masks.contains_key(entity) || after.freed.contains(entity) by {
            if entity != id && !scene.masks.contains_key(entity) {
                let at = scene.freed.index_of(entity);
                assert(scene.freed.contains(entity));
                assert(at != last);
                assert(after.freed[at] == entity);
            }
        }
    } else {
        assert forall|entity: usize| entity < after.next_id implies #[trigger]
            after.masks.contains_key(entity) || after.freed.contains(entity) by {
            if entity != id {
                assert(scene.masks.contains_key(entity) || scene.freed.contains(entity));
            }
        }
    }
    assert forall|t: usize, entity: usize|
        #![trigger after.components.contains_key((t, entity))]
        #![trigger has_bit(after.masks[entity], t)]
        t < usize::BITS && after.masks.contains_key(entity) implies (has_bit(
        after.masks[entity],
        t,
    ) <==> after.components.contains_key((t, entity))) by {
        if entity == id {
            lemma_empty_mask(t);
            assert(!scene.components.contains_key((t, entity)));
        }
    }
}

/// Destroying an entity keeps the invariant.
pub proof fn lemma_destroy_wf<V>(scene: SceneView<V>, entity: usize)
    requires
        scene.wf(),
    ensures
        scene.destroy(entity).0.wf(),
{
    let after = scene.destroy(entity).0;
    if scene.masks.contains_key(entity) {
        assert forall|i: int, j: int|
            0 <= i < after.freed.len() && 0 <= j < after.freed.len() && i != j implies after.freed[i]
            != after.freed[j] by {
            if i < scene.freed.len() && j < scene.freed.len() {
                assert(scene.freed[i] != scene.freed[j]);
            } else if i < scene.freed.len() {
                assert(!scene.masks.contains_key(scene.freed[i]));
            } else if j < scene.freed.len() {
                assert(!scene.masks.contains_key(scene.freed[j]));
            }
        }
        assert forall|other: usize| other < after.next_id implies #[trigger]
            after.masks.contains_key(other) || after.freed.contains(other) by {
            if other == entity {
                assert(after.freed[scene.freed.len() as int] == entity);
            } else if !scene.masks.contains_key(other) {
                let at = scene.freed.index_of(other);
                assert(scene.freed.contains(other));
                assert(after.freed[at] == other);
            }
        }
    }
}

/// Asking for a type's index keeps the invariant.
pub proof fn lemma_index_type_wf<V>(scene: SceneView<V>, ty: TypeId)
    requires
        scene.wf(),
    ensures
        scene.index_type(ty).0.wf(),
{
    lemma_register(scene.types, ty);
}

/// Attaching a component keeps the invariant.
pub proof fn lemma_add_wf<V>(scene: SceneView<V>, entity: usize, ty: TypeId, value: V)
    requires
        scene.wf(),
    ensures
        scene.add(entity, ty, value).0.wf(),
{
    let after = scene.add(entity, ty, value).0;
    lemma_register(scene.types, ty);
    if scene.masks.contains_key(entity) {
        if let Ok(t) = assigned(scene.types, ty) {
            if !has_bit(scene.masks[entity], t) {
                assert forall|u: usize, other: usize|
                    #![trigger after.components.contains_key((u, other))]
                    #![trigger has_bit(after.masks[other], u)]
                    u < usize::BITS && after.masks.contains_key(other) implies (has_bit(
                    after.masks[other],
                    u,
                ) <==> after.components.contains_key((u, other))) by {
                    if other == entity {
                        lemma_with_bit(scene.masks[entity], t, u);
                        assert(scene.components.contains_key((u, other)) <==> has_bit(
                            scene.masks[other],
                            u,
                        ));
                    } else {
                        assert(scene.components.contains_key((u, other)) <==> has_bit(
                            scene.masks[other],
                            u,
                        ));
                    }
                }
            }
        }
    }
}

/// Detaching a component keeps the invariant.
pub proof fn lemma_remove_wf<V>(scene: SceneView<V>, entity: usize, ty: TypeId)
    requires
        scene.wf(),
    ensures
        scene.remove(entity, ty).0.wf(),
{
    let after = scene.remove(entity, ty).0;
    lemma_register(scene.types, ty);
    if scene.masks.contains_key(entity) {
        if let Ok(t) = assigned(scene.types, ty) {
            if has_bit(scene.masks[entity], t) {
                assert forall|u: usize, other: usize|
                    #![trigger after.components.contains_key((u, other))]
                    #![trigger has_bit(after.masks[other], u)]
                    u < usize::BITS && after.masks.contains_key(other) implies (has_bit(
                    after.masks[other],
                    u,
                ) <==> after.components.contains_key((u, other))) by {
                    if other == entity {
                        lemma_without_bit(scene.masks[entity], t, u);
                        assert(scene.components.contains_key((u, other)) <==> has_bit(
                            scene.masks[other],
                            u,
                        ));
                    } else {
                        assert(scene.components.contains_key((u, other)) <==> has_bit(
                            scene.masks[other],
                            u,
                        ));
                    }
                }
            }
        }
    }
}

/// Changing a component in place keeps the invariant.
pub proof fn lemma_replace_wf<V>(scene: SceneView<V>, entity: usize, ty: TypeId, value: V)
    requires
        scene.wf(),
    ensures
        scene.replace(entity, ty, value).wf(),
{
    let after = scene.replace(entity, ty, value);
    assert forall|u: usize, other: usize|
        #![trigger after.components.contains_key((u, other))]
        #![trigger has_bit(after.masks[other], u)]
        u < usize::BITS && after.masks.contains_key(other) implies (has_bit(
        after.masks[other],
        u,
    ) <==> after.components.contains_key((u, other))) by {
        assert(scene.components.contains_key((u, other)) <==> has_bit(scene.masks[other], u));
    }
}

} // verus!
