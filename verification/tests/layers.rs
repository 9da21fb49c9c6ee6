use cube_sandbox::layers::{CollisionLayers, GameLayer};

const ALL: [GameLayer; 4] =
    [GameLayer::Enemies, GameLayer::World1, GameLayer::World2, GameLayer::Player];

/// The layers whose bit is set in `bits`.
fn layers_of(bits: u32) -> Vec<GameLayer> {
    ALL.iter().copied().filter(|l| bits & l.to_bits() != 0).collect()
}

/// Layers with the groups and masks that `groups` and `masks` hold.
fn layers_from(groups: u32, masks: u32) -> CollisionLayers {
    let mut layers = CollisionLayers::none();
    for g in layers_of(groups) {
        layers = layers.with_group(g);
    }
    layers.with_masks(&layers_of(masks))
}

#[test]
fn each_layer_has_the_bit_of_its_position() {
    assert_eq!(GameLayer::Enemies.to_bits(), 1);
    assert_eq!(GameLayer::World1.to_bits(), 2);
    assert_eq!(GameLayer::World2.to_bits(), 4);
    assert_eq!(GameLayer::Player.to_bits(), 8);
}

#[test]
fn none_has_no_bits() {
    let layers = CollisionLayers::none();
    assert_eq!(layers.groups_bits(), 0);
    assert_eq!(layers.masks_bits(), 0);
}

#[test]
fn with_group_adds_to_the_groups_only() {
    let layers = CollisionLayers::none().with_group(GameLayer::World2);
    assert_eq!(layers.groups_bits(), 4);
    assert_eq!(layers.masks_bits(), 0);
    let layers = layers.with_group(GameLayer::Player);
    assert_eq!(layers.groups_bits(), 12);
    assert_eq!(layers.masks_bits(), 0);
}

#[test]
fn with_group_twice_is_with_group_once() {
    let once = CollisionLayers::none().with_group(GameLayer::World1);
    let twice = once.with_group(GameLayer::World1);
    assert_eq!(once, twice);
    assert_eq!(twice.groups_bits(), 2);
}

#[test]
fn with_masks_adds_to_the_masks_only() {
    let layers = CollisionLayers::none()
        .with_group(GameLayer::Enemies)
        .with_masks(&[GameLayer::Player, GameLayer::World1]);
    assert_eq!(layers.groups_bits(), 1);
    assert_eq!(layers.masks_bits(), 10);
    let layers = layers.with_masks(&[GameLayer::World2]);
    assert_eq!(layers.groups_bits(), 1);
    assert_eq!(layers.masks_bits(), 14);
}

#[test]
fn with_masks_of_nothing_changes_nothing() {
    let layers = CollisionLayers::none().with_group(GameLayer::Player).with_masks(&[GameLayer::Enemies]);
    assert_eq!(layers.with_masks(&[]), layers);
}

#[test]
fn with_masks_takes_a_layer_named_twice_once() {
    let layers = CollisionLayers::none().with_masks(&[
        GameLayer::World1,
        GameLayer::World1,
        GameLayer::Enemies,
        GameLayer::World1,
    ]);
    assert_eq!(layers.masks_bits(), 3);
}

#[test]
fn none_interacts_with_nothing() {
    let none = CollisionLayers::none();
    for groups in 0..16 {
        for masks in 0..16 {
            let other = layers_from(groups, masks);
            assert!(!none.interacts_with(other));
            assert!(!other.interacts_with(none));
        }
    }
}

#[test]
fn groups_alone_and_masks_alone_do_not_interact() {
    let groups = layers_from(15, 0);
    let masks = layers_from(0, 15);
    assert!(!groups.interacts_with(masks));
    assert!(!masks.interacts_with(groups));
}

#[test]
fn each_must_have_a_group_among_the_masks_of_the_other() {
    let one = CollisionLayers::none().with_group(GameLayer::Enemies).with_masks(&[GameLayer::World1]);
    let two = CollisionLayers::none().with_group(GameLayer::World1).with_masks(&[GameLayer::Enemies]);
    assert!(one.interacts_with(two));
    assert!(two.interacts_with(one));
    assert!(!one.interacts_with(one));
    assert!(!two.interacts_with(two));
}

#[test]
fn one_sided_match_is_no_interaction() {
    let seen = CollisionLayers::none().with_group(GameLayer::Player);
    let seer = CollisionLayers::none().with_group(GameLayer::World1).with_masks(&[GameLayer::Player]);
    assert!(!seen.interacts_with(seer));
    assert!(!seer.interacts_with(seen));
}

#[test]
fn interaction_is_symmetric() {
    for a in 0..256u32 {
        for b in 0..256u32 {
            let x = layers_from(a & 15, a >> 4);
            let y = layers_from(b & 15, b >> 4);
            assert_eq!(x.interacts_with(y), y.interacts_with(x));
        }
    }
}

#[test]
fn bits_name_the_layers_that_were_added() {
    for groups in 0..16 {
        for masks in 0..16 {
            let layers = layers_from(groups, masks);
            assert_eq!(layers.groups_bits(), groups);
            assert_eq!(layers.masks_bits(), masks);
        }
    }
}
