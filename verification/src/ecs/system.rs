//! Queries: which entities own a component of every type that is asked for.

use crate::ecs::component::{type_token, Component};
use crate::ecs::error::EcsError;
use crate::ecs::mask::mask_matches;
use crate::ecs::model::SceneView;
use crate::ecs::scene::Scene;
use std::any::TypeId;
use vstd::prelude::*;

verus! {

/// What a query for the types of `wanted` says of an entity with mask `mask`:
/// the scene after the types have asked for their indices, and whether the
/// entity owns a component of each. A new type that finds no bit left makes
/// the query fail.
pub open spec fn match_outcome<V>(scene: SceneView<V>, wanted: Seq<TypeId>, mask: usize) -> (
    SceneView<V>,
    Result<bool, EcsError>,
) {
    (
        scene.index_types(wanted),
        if scene.can_require(wanted) {
            Ok(scene.mask_satisfies(wanted, mask))
        } else {
            Err(EcsError::TypeLimitExceeded)
        },
    )
}

/// Tests whether an entity with mask `mask` owns a component of every type
/// of `wanted`. Only masks are read, never the pools. An empty `wanted` is
/// matched by every entity.
pub fn match_types<V>(scene: &mut Scene<V>, wanted: &Vec<TypeId>, mask: usize) -> (result: Result<
    bool,
    EcsError,
>)
    requires
        old(scene).wf(),
    ensures
        final(scene).wf(),
        (final(scene)@, result) == match_outcome(old(scene)@, wanted@, mask),
{
    match scene.required_mask(wanted) {
        Ok(required) => Ok(mask_matches(required, mask)),
        Err(error) => Err(error),
    }
}

/// A query for up to five component types. The slots left out repeat the
/// first type, so a query for one type asks for one bit.
pub trait System<
    A: Component + 'static,
    B: Component + 'static = A,
    C: Component + 'static = A,
    D: Component + 'static = A,
    E: Component + 'static = A,
> {
    /// Tests whether an entity with mask `entity` owns a component of each of
    /// the types `A` to `E`. The types stand in the scene as the tokens that
    /// the standard library gives for them, so the outcome is that of
    /// `match_types` on some five tokens.
    fn match_entity<V>(scene: &mut Scene<V>, entity: usize) -> (result: Result<bool, EcsError>)
        requires
            old(scene).wf(),
        ensures
            final(scene).wf(),
            exists|wanted: Seq<TypeId>|
                wanted.len() == 5 && (final(scene)@, result) == #[trigger] match_outcome(
                    old(scene)@,
                    wanted,
                    entity,
                ),
    {
        let mut wanted: Vec<TypeId> = Vec::new();
        wanted.push(type_token::<A>());
        wanted.push(type_token::<B>());
        wanted.push(type_token::<C>());
        wanted.push(type_token::<D>());
        wanted.push(type_token::<E>());
        match_types(scene, &wanted, entity)
    }
}

} // verus!
