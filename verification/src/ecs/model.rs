//! The scene as a mathematical value: which types are known, which entities
//! live, which ids wait for reuse, and which components are attached.

use crate::ecs::component::{
    all_known, assigned, indices_of, position, register, register_all, registry_wf,
};
use crate::ecs::error::EcsError;
use crate::ecs::mask::{has_bit, includes, mask_types, with_bit, without_bit};
use std::any::TypeId;
use vstd::prelude::*;

verus! {

/// What a scene holds.
#[verifier::ext_equal]
pub struct SceneView<V> {
    /// The component types seen so far; a type's index is its place here.
    pub types: Seq<TypeId>,
    /// The live entities, each with its component mask.
    pub masks: Map<usize, usize>,
    /// The ids given back, the one freed last standing last.
    pub freed: Seq<usize>,
    /// The smallest id never handed out.
    pub next_id: usize,
    /// The attached components, by type index and entity id.
    pub components: Map<(usize, usize), V>,
}

impl<V> SceneView<V> {
    /// The scene with no type, no entity and no component.
    pub open spec fn empty() -> Self {
        SceneView {
            types: Seq::empty(),
            masks: Map::empty(),
            freed: Seq::empty(),
            next_id: 0,
            components: Map::empty(),
        }
    }

    /// Whether `entity` is the id of a live entity.
    pub open spec fn is_live(self, entity: usize) -> bool {
        self.masks.contains_key(entity)
    }

    /// Every id below `next_id` is live or waits for reuse, and never both;
    /// no id waits twice.
    pub open spec fn ids_wf(self) -> bool {
        &&& self.masks.dom().finite()
        &&& forall|entity: usize| #[trigger] self.masks.contains_key(entity) ==> entity < self.next_id
        &&& forall|i: int|
            0 <= i < self.freed.len() ==> #[trigger] self.freed[i] < self.next_id
                && !self.masks.contains_key(self.freed[i])
        &&& self.freed.no_duplicates()
        &&& forall|entity: usize|
            entity < self.next_id ==> #[trigger] self.masks.contains_key(entity)
                || self.freed.contains(entity)
    }

    /// A component belongs to a known type and a live entity, and an entity's
    /// mask has bit `t` set exactly when a component of type `t` is attached.
    pub open spec fn components_wf(self) -> bool {
        &&& forall|t: usize, entity: usize| #[trigger]
            self.components.contains_key((t, entity)) ==> t < self.types.len()
                && self.masks.contains_key(entity)
        &&& forall|t: usize, entity: usize|
            #![trigger self.components.contains_key((t, entity))]
            #![trigger has_bit(self.masks[entity], t)]
            t < usize::BITS && self.masks.contains_key(entity) ==> (has_bit(
                self.masks[entity],
                t,
            ) <==> self.components.contains_key((t, entity)))
    }

    /// The scene's invariant.
    pub open spec fn wf(self) -> bool {
        &&& registry_wf(self.types)
        &&& self.ids_wf()
        &&& self.components_wf()
    }

    /// Creating an entity: the id freed last is taken again if one waits,
    /// else the smallest id never handed out. The entity starts with the
    /// empty mask.
    pub open spec fn create(self) -> (Self, usize) {
        if self.freed.len() > 0 {
            let id = self.freed.last();
            (SceneView { masks: self.masks.insert(id, 0), freed: self.freed.drop_last(), ..self }, id)
        } else {
            let id = self.next_id;
            (
                SceneView {
                    masks: self.masks.insert(id, 0),
                    next_id: (id + 1) as usize,
                    ..self
                },
                id,
            )
        }
    }

    /// Destroying an entity: its components leave with it and its id waits
    /// for reuse. An id that is not live is refused and nothing changes.
    pub open spec fn destroy(self, entity: usize) -> (Self, Result<(), EcsError>) {
        if !self.masks.contains_key(entity) {
            (self, Err(EcsError::UnknownEntity))
        } else {
            (
                SceneView {
                    masks: self.masks.remove(entity),
                    freed: self.freed.push(entity),
                    components: self.components.remove_keys(
                        Set::new(|key: (usize, usize)| key.1 == entity),
                    ),
                    ..self
                },
                Ok(()),
            )
        }
    }

    /// Asking for the index of `ty`, which is registered first if it is new.
    pub open spec fn index_type(self, ty: TypeId) -> (Self, Result<usize, EcsError>) {
        (SceneView { types: register(self.types, ty), ..self }, assigned(self.types, ty))
    }

    /// Attaching `value` as the component of type `ty` of `entity`. An entity
    /// that is not live is refused, and so is a new type when no bit is left;
    /// nothing changes then. Where the entity has such a component already,
    /// that one stays and `value` is dropped.
    pub open spec fn add(self, entity: usize, ty: TypeId, value: V) -> (Self, Result<(), EcsError>) {
        if !self.masks.contains_key(entity) {
            (self, Err(EcsError::UnknownEntity))
        } else {
            match assigned(self.types, ty) {
                Err(error) => (self, Err(error)),
                Ok(t) => {
                    let seen = SceneView { types: register(self.types, ty), ..self };
                    if has_bit(self.masks[entity], t) {
                        (seen, Ok(()))
                    } else {
                        (
                            SceneView {
                                masks: self.masks.insert(entity, with_bit(self.masks[entity], t)),
                                components: self.components.insert((t, entity), value),
                                ..seen
                            },
                            Ok(()),
                        )
                    }
                },
            }
        }
    }

    /// Detaching the component of type `ty` from `entity`. An entity that is
    /// not live is refused, and so is a new type when no bit is left; nothing
    /// changes then. Where the entity has no such component, only the type is
    /// registered.
    pub open spec fn remove(self, entity: usize, ty: TypeId) -> (Self, Result<(), EcsError>) {
        if !self.masks.contains_key(entity) {
            (self, Err(EcsError::UnknownEntity))
        } else {
            match assigned(self.types, ty) {
                Err(error) => (self, Err(error)),
                Ok(t) => {
                    let seen = SceneView { types: register(self.types, ty), ..self };
                    if !has_bit(self.masks[entity], t) {
                        (seen, Ok(()))
                    } else {
                        (
                            SceneView {
                                masks: self.masks.insert(
                                    entity,
                                    without_bit(self.masks[entity], t),
                                ),
                                components: self.components.remove((t, entity)),
                                ..seen
                            },
                            Ok(()),
                        )
                    }
                },
            }
        }
    }

    /// The component of type `ty` attached to `entity`, if there is one.
    pub open spec fn get(self, entity: usize, ty: TypeId) -> Option<V> {
        match position(self.types, ty) {
            Some(t) => if self.components.contains_key((t, entity)) {
                Some(self.components[(t, entity)])
            } else {
                None
            },
            None => None,
        }
    }

    /// The scene in which the component of type `ty` attached to `entity`
    /// has become `value`. Where there is no such component nothing changes.
    pub open spec fn replace(self, entity: usize, ty: TypeId, value: V) -> Self {
        match position(self.types, ty) {
            Some(t) => if self.components.contains_key((t, entity)) {
                SceneView { components: self.components.insert((t, entity), value), ..self }
            } else {
                self
            },
            None => self,
        }
    }

    /// Whether the mask of `entity` has the bit of type `ty` set.
    pub open spec fn has(self, entity: usize, ty: TypeId) -> bool {
        match position(self.types, ty) {
            Some(t) => self.masks.contains_key(entity) && has_bit(self.masks[entity], t),
            None => false,
        }
    }

    /// The scene after each type of `wanted` has asked for an index, in order.
    pub open spec fn index_types(self, wanted: Seq<TypeId>) -> Self {
        SceneView { types: register_all(self.types, wanted), ..self }
    }

    /// Whether every type of `wanted` has an index once each has asked for
    /// one: none of them is a new type that found no bit left.
    pub open spec fn can_require(self, wanted: Seq<TypeId>) -> bool {
        all_known(register_all(self.types, wanted), wanted)
    }

    /// The type indices that a query for `wanted` asks of an entity.
    pub open spec fn required_types(self, wanted: Seq<TypeId>) -> Set<usize> {
        indices_of(register_all(self.types, wanted), wanted)
    }

    /// Whether an entity with mask `mask` owns a component of every type of
    /// `wanted`.
    pub open spec fn mask_satisfies(self, wanted: Seq<TypeId>, mask: usize) -> bool {
        self.required_types(wanted).subset_of(mask_types(mask))
    }

    /// The live entities whose mask includes `required`.
    pub open spec fn matching(self, required: usize) -> Set<usize> {
        Set::new(
            |entity: usize|
                self.masks.contains_key(entity) && includes(self.masks[entity], required),
        )
    }
}

} // verus!
