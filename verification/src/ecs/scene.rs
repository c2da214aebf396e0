//! The scene: the store that owns the entities, their masks and their
//! components.

use crate::ecs::component::{
    all_known, indices_of, lemma_indices_push, lemma_register, lemma_register_all_full,
    lemma_register_all_split, type_token, Component, TypeRegistry,
};
use crate::ecs::error::EcsError;
use crate::ecs::mask::{
    has_bit, lemma_empty_mask, mask_contains, mask_insert, mask_matches, mask_remove, mask_types,
};
use crate::ecs::model::SceneView;
use crate::ecs::preserve::{
    lemma_add_wf, lemma_create_wf, lemma_destroy_wf, lemma_index_type_wf, lemma_remove_wf,
};
use std::any::TypeId;
use std::collections::hash_map::Entry;
use std::collections::HashMap;
use vstd::prelude::*;

verus! {

/// The ids below `bound`.
spec fn ids_below(bound: nat) -> Set<usize> {
    Set::new(|id: usize| id < bound)
}

/// There are `bound` ids below `bound`.
proof fn lemma_ids_below(bound: nat)
    requires
        bound <= usize::MAX + 1,
    ensures
        ids_below(bound).finite(),
        ids_below(bound).len() == bound,
    decreases bound,
{
    if bound == 0 {
        assert(ids_below(bound) =~= Set::<usize>::empty());
    } else {
        let rest = (bound - 1) as nat;
        lemma_ids_below(rest);
        assert(ids_below(bound) =~= ids_below(rest).insert(rest as usize));
    }
}

/// The store of entities and components. Each entity has a mask with one bit
/// per component type, and each component type has a pool that maps the
/// entities owning such a component to it. `V` is what a component is stored
/// as: one type for the components of every component type.
pub struct Scene<V> {
    registry: TypeRegistry,
    component_pools: Vec<HashMap<usize, V>>,
    entities: HashMap<usize, usize>,
    freed_ids: Vec<usize>,
    next_entity_id: usize,
}

impl<V> View for Scene<V> {
    type V = SceneView<V>;

    closed spec fn view(&self) -> SceneView<V> {
        SceneView {
            types: self.registry@,
            masks: self.entities@,
            freed: self.freed_ids@,
            next_id: self.next_entity_id,
            components: Map::new(
                |key: (usize, usize)|
                    key.0 < self.component_pools.len()
                        && self.component_pools[key.0 as int]@.contains_key(key.1),
                |key: (usize, usize)| self.component_pools[key.0 as int]@[key.1],
            ),
        }
    }
}

impl<V> Scene<V> {
    /// The scene's invariant: there is one pool for each known type, and what
    /// the scene holds is sound.
    pub closed spec fn wf(&self) -> bool {
        &&& self.component_pools.len() == self.registry@.len()
        &&& self@.wf()
    }

    /// A sound scene holds a sound value.
    pub proof fn lemma_wf_view(&self)
        requires
            self.wf(),
        ensures
            self@.wf(),
    {
    }

    /// A scene with no entity.
    pub fn new() -> (scene: Self)
        ensures
            scene.wf(),
            scene@ == SceneView::<V>::empty(),
    {
        broadcast use vstd::std_specs::hash::group_hash_axioms;

        let scene = Scene {
            registry: TypeRegistry::new(),
            component_pools: Vec::new(),
            entities: HashMap::new(),
            freed_ids: Vec::new(),
            next_entity_id: 0,
        };
        assert(scene@.components =~= Map::empty());
        assert(scene@ =~= SceneView::<V>::empty());
        scene
    }

    /// Creates an entity with no component and returns its id: the id freed
    /// last if one waits for reuse, else a fresh one.
    pub fn create_entity(&mut self) -> (id: usize)
        requires
            old(self).wf(),
        ensures
            final(self).wf(),
            (final(self)@, id) == old(self)@.create(),
    {
        broadcast use vstd::std_specs::hash::group_hash_axioms;

        match self.freed_ids.pop() {
            Some(id) => {
                self.entities.insert(id, 0);
                proof {
                    lemma_create_wf(old(self)@);
                    assert(self@.components =~= old(self)@.components);
                    assert(self@ =~= old(self)@.create().0);
                }
                id
            },
            None => {
                let id = self.next_entity_id;
                self.entities.insert(id, 0);
                // Every id up to `id` is live now, so the table's length is the next id.
                let live = self.entities.len();
                proof {
                    assert(old(self)@.masks.dom() =~= ids_below(id as nat)) by {
                        assert forall|entity: usize| entity < id implies old(
                            self,
                        )@.masks.contains_key(entity) by {
                            assert(old(self)@.masks.contains_key(entity) || old(
                                self,
                            )@.freed.contains(entity));
                        }
                    }
                    assert(self@.masks.dom() =~= ids_below((id + 1) as nat));
                    lemma_ids_below((id + 1) as nat);
                    assert(live == id + 1);
                }
                self.next_entity_id = live;
                proof {
                    lemma_create_wf(old(self)@);
                    assert(self@.components =~= old(self)@.components);
                    assert(self@ =~= old(self)@.create().0);
                }
                id
            },
        }
    }

    /// Destroys `id`: detaches its components from every pool, takes it out
    /// of the entity table and keeps its id for reuse. An id that is not live
    /// is refused.
    pub fn remove_entity(&mut self, id: usize) -> (result: Result<(), EcsError>)
        requires
            old(self).wf(),
        ensures
            final(self).wf(),
            (final(self)@, result) == old(self)@.destroy(id),
    {
        broadcast use vstd::std_specs::hash::group_hash_axioms;

        let mask = match self.entities.remove(&id) {
            Some(mask) => mask,
            None => {
                assert(self@.components =~= old(self)@.components);
                assert(self@ =~= old(self)@);
                return Err(EcsError::UnknownEntity);
            },
        };
        let mut t: usize = 0;
        while t < self.component_pools.len()
            invariant
                old(self).wf(),
                old(self).entities@.contains_key(id),
                mask == old(self).entities@[id],
                t <= self.component_pools.len(),
                self.component_pools.len() == old(self).component_pools.len(),
                self.registry == old(self).registry,
                self.entities@ == old(self).entities@.remove(id),
                self.freed_ids == old(self).freed_ids,
                self.next_entity_id == old(self).next_entity_id,
                forall|k: int|
                    0 <= k < t ==> #[trigger] self.component_pools[k]@ == old(
                        self,
                    ).component_pools[k]@.remove(id),
                forall|k: int|
                    t <= k < self.component_pools.len() ==> #[trigger] self.component_pools[k]
                        == old(self).component_pools[k],
            decreases self.component_pools.len() - t,
        {
            if mask_contains(mask, t) {
                self.component_pools[t].remove(&id);
            } else {
                proof {
                    assert(!old(self)@.components.contains_key((t, id)));
                    assert(self.component_pools[t as int]@ =~= old(
                        self,
                    ).component_pools[t as int]@.remove(id));
                }
            }
            t += 1;
        }
        self.freed_ids.push(id);
        proof {
            lemma_destroy_wf(old(self)@, id);
            assert(self@.components =~= old(self)@.destroy(id).0.components);
            assert(self@ =~= old(self)@.destroy(id).0);
        }
        Ok(())
    }

    /// The index of the component type `ty`, which is registered first if it
    /// is new. A new type is refused when every bit of the mask is taken.
    pub fn type_index(&mut self, ty: TypeId) -> (result: Result<usize, EcsError>)
        requires
            old(self).wf(),
        ensures
            final(self).wf(),
            (final(self)@, result) == old(self)@.index_type(ty),
    {
        let result = self.registry.type_index(ty);
        if self.component_pools.len() < self.registry.len() {
            self.component_pools.push(HashMap::new());
        }
        proof {
            broadcast use vstd::std_specs::hash::group_hash_axioms;

            lemma_register(old(self)@.types, ty);
            lemma_index_type_wf(old(self)@, ty);
            assert(self@.components =~= old(self)@.components);
            assert(self@ =~= old(self)@.index_type(ty).0);
        }
        result
    }

    /// Attaches `component` to `entity` as its component of type `ty`. Where
    /// the entity has one already, that one stays and nothing changes.
    pub fn add_component_by_type(&mut self, entity: usize, ty: TypeId, component: V) -> (result:
        Result<(), EcsError>)
        requires
            old(self).wf(),
        ensures
            final(self).wf(),
            (final(self)@, result) == old(self)@.add(entity, ty, component),
    {
        broadcast use vstd::std_specs::hash::group_hash_axioms;

        let mask = match self.entities.get(&entity) {
            Some(mask) => *mask,
            None => {
                return Err(EcsError::UnknownEntity);
            },
        };
        proof {
            lemma_register(old(self)@.types, ty);
            lemma_add_wf(old(self)@, entity, ty, component);
        }
        let t = match self.type_index(ty) {
            Ok(t) => t,
            Err(error) => {
                return Err(error);
            },
        };
        if mask_contains(mask, t) {
            return Ok(());
        }
        self.entities.insert(entity, mask_insert(mask, t));
        self.component_pools[t].insert(entity, component);
        proof {
            assert(self@.components =~= old(self)@.components.insert((t, entity), component));
            assert(self@ =~= old(self)@.add(entity, ty, component).0);
        }
        Ok(())
    }

    /// Detaches the component of type `ty` from `entity` and drops it. Where
    /// the entity has none, nothing is detached.
    pub fn remove_component_by_type(&mut self, entity: usize, ty: TypeId) -> (result: Result<
        (),
        EcsError,
    >)
        requires
            old(self).wf(),
        ensures
            final(self).wf(),
            (final(self)@, result) == old(self)@.remove(entity, ty),
    {
        broadcast use vstd::std_specs::hash::group_hash_axioms;

        let mask = match self.entities.get(&entity) {
            Some(mask) => *mask,
            None => {
                return Err(EcsError::UnknownEntity);
            },
        };
        proof {
            lemma_register(old(self)@.types, ty);
            lemma_remove_wf(old(self)@, entity, ty);
        }
        let t = match self.type_index(ty) {
            Ok(t) => t,
            Err(error) => {
                return Err(error);
            },
        };
        if !mask_contains(mask, t) {
            return Ok(());
        }
        self.entities.insert(entity, mask_remove(mask, t));
        self.component_pools[t].remove(&entity);
        proof {
            assert(self@.components =~= old(self)@.components.remove((t, entity)));
            assert(self@ =~= old(self)@.remove(entity, ty).0);
        }
        Ok(())
    }

    /// The component of type `ty` attached to `entity`, if there is one.
    pub fn get_component_by_type(&self, entity: usize, ty: TypeId) -> (found: Option<&V>)
        requires
            self.wf(),
        ensures
            match found {
                Some(component) => self@.get(entity, ty) == Some(*component),
                None => self@.get(entity, ty) is None,
            },
    {
        broadcast use vstd::std_specs::hash::group_hash_axioms;

        match self.registry.find(ty) {
            Some(t) => self.component_pools[t].get(&entity),
            None => None,
        }
    }

    /// Whether `after` is `self` but for the pool of type index `t`, in which
    /// at most the component of `entity` has another value.
    spec fn pool_changed(&self, after: Self, t: usize, entity: usize) -> bool {
        &&& after.registry == self.registry
        &&& after.entities == self.entities
        &&& after.freed_ids == self.freed_ids
        &&& after.next_entity_id == self.next_entity_id
        &&& after.component_pools.len() == self.component_pools.len()
        &&& forall|k: int|
            0 <= k < self.component_pools.len() && k != t ==> after.component_pools[k]
                == self.component_pools[k]
        &&& {
            ||| after.component_pools[t as int]@ == self.component_pools[t as int]@
            ||| self.component_pools[t as int]@.contains_key(entity)
                && after.component_pools[t as int]@ == self.component_pools[t as int]@.insert(
                entity,
                after.component_pools[t as int]@[entity],
            )
        }
    }

    /// A change of one component's value keeps the scene sound.
    proof fn lemma_pool_changed(&self, after: Self, t: usize, entity: usize)
        requires
            self.wf(),
            t < self.component_pools.len(),
            self.pool_changed(after, t, entity),
        ensures
            after.wf(),
    {
        assert(after@.components.dom() =~= self@.components.dom());
        assert forall|u: usize, other: usize| #[trigger]
            after@.components.contains_key((u, other)) implies u < after@.types.len()
            && after@.masks.contains_key(other) by {
            assert(self@.components.contains_key((u, other)));
        }
        assert forall|u: usize, other: usize|
            #![trigger after@.components.contains_key((u, other))]
            #![trigger has_bit(after@.masks[other], u)]
            u < usize::BITS && after@.masks.contains_key(other) implies (has_bit(
            after@.masks[other],
            u,
        ) <==> after@.components.contains_key((u, other))) by {
            assert(self@.components.contains_key((u, other)) <==> has_bit(self@.masks[other], u));
        }
    }

    /// The component of type `ty` attached to `entity`, if there is one, to
    /// be changed in place.
    pub fn get_component_mut_by_type(&mut self, entity: usize, ty: TypeId) -> (found: Option<
        &mut V,
    >)
        requires
            old(self).wf(),
        ensures
            final(self).wf(),
            match found {
                Some(component) => old(self)@.get(entity, ty) == Some(*component) && final(self)@
                    == old(self)@.replace(entity, ty, *final(component)),
                None => old(self)@.get(entity, ty) is None && final(self)@ == old(self)@,
            },
    {
        broadcast use vstd::std_specs::hash::group_hash_axioms;

        match self.registry.find(ty) {
            Some(t) => {
                proof {
                    assert forall|after: Self| old(self).pool_changed(after, t, entity) implies #[trigger]
                        after.wf() by {
                        old(self).lemma_pool_changed(after, t, entity);
                    }
                    assert(!old(self).component_pools[t as int]@.contains_key(entity) ==> old(
                        self,
                    ).component_pools[t as int]@.remove(entity) =~= old(
                        self,
                    ).component_pools[t as int]@);
                }
                match self.component_pools[t].entry(entity) {
                    Entry::Occupied(slot) => Some(slot.into_mut()),
                    Entry::Vacant(_) => None,
                }
            },
            None => None,
        }
    }

    /// The mask that a query for the types of `wanted` asks for: one bit for
    /// each of them. Each type is registered first if it is new, in the order
    /// of `wanted`; a new type that finds no bit left is refused.
    pub fn required_mask(&mut self, wanted: &Vec<TypeId>) -> (result: Result<usize, EcsError>)
        requires
            old(self).wf(),
        ensures
            final(self).wf(),
            final(self)@ == old(self)@.index_types(wanted@),
            match result {
                Ok(mask) => old(self)@.can_require(wanted@) && mask_types(mask) == old(
                    self,
                )@.required_types(wanted@),
                Err(error) => error == EcsError::TypeLimitExceeded && !old(self)@.can_require(
                    wanted@,
                ),
            },
    {
        let mut mask: usize = 0;
        let mut i: usize = 0;
        proof {
            assert(wanted@.take(0) =~= Seq::<TypeId>::empty());
            assert(self@ =~= old(self)@.index_types(wanted@.take(0)));
            assert forall|t: usize| !mask_types(0).contains(t) by {
                if t < usize::BITS {
                    lemma_empty_mask(t);
                }
            }
            assert(mask_types(mask) =~= indices_of(self@.types, wanted@.take(0)));
        }
        while i < wanted.len()
            invariant
                i <= wanted.len(),
                self.wf(),
                self@ == old(self)@.index_types(wanted@.take(i as int)),
                all_known(self@.types, wanted@.take(i as int)),
                mask_types(mask) == indices_of(self@.types, wanted@.take(i as int)),
            decreases wanted.len() - i,
        {
            let ghost before = self@;
            let ghost seen = wanted@.take(i as int);
            let ty = wanted[i];
            proof {
                lemma_register(before.types, ty);
                assert(wanted@.take(i + 1).drop_last() =~= seen);
                assert(wanted@.take(i + 1) =~= seen.push(ty));
            }
            let t = match self.type_index(ty) {
                Ok(t) => t,
                Err(error) => {
                    proof {
                        lemma_register_all_split(old(self)@.types, wanted@, i as int);
                        lemma_register_all_full(before.types, wanted@.skip(i as int));
                        assert(!before.types.contains(wanted@[i as int]));
                        assert(self@ =~= old(self)@.index_types(wanted@));
                    }
                    return Err(error);
                },
            };
            proof {
                lemma_indices_push(before.types, seen, ty);
                assert(self@ =~= old(self)@.index_types(wanted@.take(i + 1)));
            }
            mask = mask_insert(mask, t);
            i += 1;
        }
        proof {
            assert(wanted@.take(i as int) =~= wanted@);
        }
        Ok(mask)
    }

    /// The live entities whose mask includes `required`, by ascending id.
    pub fn query(&self, required: usize) -> (found: Vec<usize>)
        requires
            self.wf(),
        ensures
            forall|i: int, j: int| 0 <= i < j < found.len() ==> found[i] < found[j],
            found@.to_set() == self@.matching(required),
    {
        broadcast use vstd::std_specs::hash::group_hash_axioms;

        let mut found: Vec<usize> = Vec::new();
        let mut id: usize = 0;
        while id < self.next_entity_id
            invariant
                self.wf(),
                id <= self.next_entity_id,
                forall|i: int, j: int| 0 <= i < j < found.len() ==> found[i] < found[j],
                forall|i: int| 0 <= i < found.len() ==> found[i] < id,
                forall|entity: usize|
                    found@.contains(entity) <==> entity < id && self@.matching(required).contains(
                        entity,
                    ),
            decreases self.next_entity_id - id,
        {
            let ghost earlier = found@;
            let matched = match self.entities.get(&id) {
                Some(mask) => mask_matches(required, *mask),
                None => false,
            };
            if matched {
                found.push(id);
            }
            proof {
                assert forall|entity: usize|
                    found@.contains(entity) <==> entity < id + 1 && self@.matching(
                        required,
                    ).contains(entity) by {
                    if found@.contains(entity) {
                        let at = found@.index_of(entity);
                        if at < earlier.len() {
                            assert(earlier[at] == entity);
                            assert(earlier.contains(entity));
                        }
                    }
                    if entity < id && self@.matching(required).contains(entity) {
                        assert(earlier.contains(entity));
                        let at = earlier.index_of(entity);
                        assert(found@[at] == entity);
                    }
                    if entity == id && matched {
                        assert(found@[earlier.len() as int] == entity);
                    }
                }
            }
            id += 1;
        }
        proof {
            assert(found@.to_set() =~= self@.matching(required));
        }
        found
    }

    /// Attaches `component` to `entity` as its component of type `C`. The
    /// type stands in the scene as the token that the standard library gives
    /// for it, so the outcome is that of `add_component_by_type` on some token.
    pub fn add_component<C: Component + 'static>(&mut self, entity: usize, component: V) -> (result:
        Result<(), EcsError>)
        requires
            old(self).wf(),
        ensures
            final(self).wf(),
            exists|ty: TypeId|
                (final(self)@, result) == #[trigger] old(self)@.add(entity, ty, component),
            !old(self)@.is_live(entity) ==> result == Err::<(), EcsError>(EcsError::UnknownEntity)
                && final(self)@ == old(self)@,
    {
        let ty = type_token::<C>();
        self.add_component_by_type(entity, ty, component)
    }

    /// Detaches the component of type `C` from `entity`. The outcome is that
    /// of `remove_component_by_type` on the token of `C`.
    pub fn remove_component<C: Component + 'static>(&mut self, entity: usize) -> (result: Result<
        (),
        EcsError,
    >)
        requires
            old(self).wf(),
        ensures
            final(self).wf(),
            exists|ty: TypeId| (final(self)@, result) == #[trigger] old(self)@.remove(entity, ty),
            !old(self)@.is_live(entity) ==> result == Err::<(), EcsError>(EcsError::UnknownEntity)
                && final(self)@ == old(self)@,
    {
        let ty = type_token::<C>();
        self.remove_component_by_type(entity, ty)
    }

    /// The component of type `C` attached to `entity`, if there is one. The
    /// outcome is that of `get_component_by_type` on the token of `C`.
    pub fn get_component<C: Component + 'static>(&self, entity: usize) -> (found: Option<&V>)
        requires
            self.wf(),
        ensures
            exists|ty: TypeId|
                match found {
                    Some(component) => #[trigger] self@.get(entity, ty) == Some(*component),
                    None => self@.get(entity, ty) is None,
                },
    {
        let ty = type_token::<C>();
        self.get_component_by_type(entity, ty)
    }

    /// The component of type `C` attached to `entity`, if there is one, to be
    /// changed in place. The outcome is that of `get_component_mut_by_type` on
    /// the token of `C`.
    pub fn get_component_mut<C: Component + 'static>(&mut self, entity: usize) -> (found: Option<
        &mut V,
    >)
        requires
            old(self).wf(),
        ensures
            final(self).wf(),
            exists|ty: TypeId|
                match found {
                    Some(component) => #[trigger] old(self)@.get(entity, ty) == Some(*component)
                        && final(self)@ == old(self)@.replace(entity, ty, *final(component)),
                    None => old(self)@.get(entity, ty) is None && final(self)@ == old(self)@,
                },
    {
        let ty = type_token::<C>();
        self.get_component_mut_by_type(entity, ty)
    }

    /// The mask of `entity`, if it is live.
    pub fn mask_of(&self, entity: usize) -> (found: Option<usize>)
        ensures
            found == self@.masks.get(entity),
    {
        broadcast use vstd::std_specs::hash::group_hash_axioms;

        match self.entities.get(&entity) {
            Some(mask) => Some(*mask),
            None => None,
        }
    }
}

} // verus!
