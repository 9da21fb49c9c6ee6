//! The bodies of the sandbox and the layers each of them is given.

use vstd::prelude::*;
use crate::layers::{CollisionLayers, GameLayer};

verus! {

/// As a set, a sequence of two layers holds those two.
proof fn lemma_pair_to_set(layers: Seq<GameLayer>, first: GameLayer, second: GameLayer)
    requires
        layers.len() == 2,
        layers[0] == first,
        layers[1] == second,
    ensures
        layers.to_set() == set![first, second],
{
    assert(layers.contains(first));
    assert(layers.contains(second));
    assert(layers.to_set() =~= set![first, second]);
}

/// The layers of the ground: it is part of the first world, and the player
/// and the enemies collide with it.
pub fn ground_layers() -> (layers: CollisionLayers)
    ensures
        layers.groups() == set![GameLayer::World1],
        layers.masks() == set![GameLayer::Player, GameLayer::Enemies],
{
    let masks = [GameLayer::Player, GameLayer::Enemies];
    proof {
        lemma_pair_to_set(masks@, GameLayer::Player, GameLayer::Enemies);
    }
    let layers = CollisionLayers::none().with_group(GameLayer::World1).with_masks(&masks);
    assert(layers.masks() =~= set![GameLayer::Player, GameLayer::Enemies]);
    layers
}

/// The layers of the steered cube: it is the player, and collides with the
/// first world and with the enemies.
pub fn wheel_layers() -> (layers: CollisionLayers)
    ensures
        layers.groups() == set![GameLayer::Player],
        layers.masks() == set![GameLayer::World1, GameLayer::Enemies],
{
    let masks = [GameLayer::World1, GameLayer::Enemies];
    proof {
        lemma_pair_to_set(masks@, GameLayer::World1, GameLayer::Enemies);
    }
    let layers = CollisionLayers::none().with_group(GameLayer::Player).with_masks(&masks);
    assert(layers.masks() =~= set![GameLayer::World1, GameLayer::Enemies]);
    layers
}

/// The layers of a falling cube: it is an enemy, and collides with the second
/// world and with the other enemies.
pub fn falling_cube_layers() -> (layers: CollisionLayers)
    ensures
        layers.groups() == set![GameLayer::Enemies],
        layers.masks() == set![GameLayer::World2, GameLayer::Enemies],
{
    let masks = [GameLayer::World2, GameLayer::Enemies];
    proof {
        lemma_pair_to_set(masks@, GameLayer::World2, GameLayer::Enemies);
    }
    let layers = CollisionLayers::none().with_group(GameLayer::Enemies).with_masks(&masks);
    assert(layers.masks() =~= set![GameLayer::World2, GameLayer::Enemies]);
    layers
}

} // verus!
