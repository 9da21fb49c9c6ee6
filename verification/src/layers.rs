//! Collision layers: which bodies belong to which layer, and which layers a
//! body collides with.
//!
//! A body carries two sets of layers, its groups and its masks, each stored as
//! a bit mask with one bit per [`GameLayer`]. Two bodies interact only if each
//! has a group among the masks of the other.

use vstd::prelude::*;

verus! {

/// The layers of the sandbox, in the order of their bits.
#[derive(Clone, Copy, Debug, PartialEq, Eq, Structural)]
pub enum GameLayer {
    Enemies,
    World1,
    World2,
    Player,
}

impl GameLayer {
    /// The bit that stands for this layer: one shifted left by the layer's
    /// position in the enum.
    pub open spec fn bit(self) -> u32 {
        match self {
            GameLayer::Enemies => 1,
            GameLayer::World1 => 2,
            GameLayer::World2 => 4,
            GameLayer::Player => 8,
        }
    }

    /// The layer's bit.
    pub fn to_bits(&self) -> (bits: u32)
        ensures
            bits == self.bit(),
    {
        match self {
            GameLayer::Enemies => 1,
            GameLayer::World1 => 2,
            GameLayer::World2 => 4,
            GameLayer::Player => 8,
        }
    }
}

/// The layers whose bit is set in `bits`.
pub open spec fn layers_in(bits: u32) -> Set<GameLayer> {
    Set::new(|layer: GameLayer| bits & layer.bit() != 0)
}

/// The bit mask that holds exactly the bits of `layers`.
pub open spec fn mask_of(layers: Set<GameLayer>) -> u32 {
    ((if layers.contains(GameLayer::Enemies) { 1int } else { 0 })
        + (if layers.contains(GameLayer::World1) { 2int } else { 0 })
        + (if layers.contains(GameLayer::World2) { 4int } else { 0 })
        + (if layers.contains(GameLayer::Player) { 8int } else { 0 })) as u32
}

/// Whether some layer lies in both sets.
pub open spec fn share_layer(a: Set<GameLayer>, b: Set<GameLayer>) -> bool {
    exists|layer: GameLayer| a.contains(layer) && b.contains(layer)
}

/// Setting one layer's bit adds that layer and no other.
proof fn lemma_set_bit(bits: u32, layer: GameLayer)
    requires
        bits < 16,
    ensures
        bits | layer.bit() < 16,
        layers_in(bits | layer.bit()) == layers_in(bits).insert(layer),
{
    let b = layer.bit();
    assert(bits | b < 16) by (bit_vector)
        requires
            bits < 16,
            b == 1 || b == 2 || b == 4 || b == 8,
    ;
    assert forall|other: GameLayer|
        layers_in(bits | b).contains(other) == layers_in(bits).insert(layer).contains(
            other,
        ) by {
        let o = other.bit();
        assert(((bits | b) & o != 0) == (b == o || bits & o != 0)) by (bit_vector)
            requires
                b == 1 || b == 2 || b == 4 || b == 8,
                o == 1 || o == 2 || o == 4 || o == 8,
        ;
    }
    assert(layers_in(bits | b) =~= layers_in(bits).insert(layer));
}

/// A mask within the four layers is the mask of the layers it holds.
proof fn lemma_mask_of_layers_in(bits: u32)
    requires
        bits < 16,
    ensures
        mask_of(layers_in(bits)) == bits,
{
    assert(bits == (if bits & 1 != 0 { 1u32 } else { 0 }) + (if bits & 2 != 0 { 2u32 } else { 0 })
        + (if bits & 4 != 0 { 4u32 } else { 0 }) + (if bits & 8 != 0 { 8u32 } else { 0 }))
        by (bit_vector)
        requires
            bits < 16,
    ;
    assert(layers_in(bits).contains(GameLayer::Enemies) == (bits & 1 != 0));
    assert(layers_in(bits).contains(GameLayer::World1) == (bits & 2 != 0));
    assert(layers_in(bits).contains(GameLayer::World2) == (bits & 4 != 0));
    assert(layers_in(bits).contains(GameLayer::Player) == (bits & 8 != 0));
}

/// Two masks within the four layers have a common bit exactly when they hold
/// a common layer.
proof fn lemma_common_bit(a: u32, b: u32)
    requires
        a < 16,
        b < 16,
    ensures
        (a & b != 0) == share_layer(layers_in(a), layers_in(b)),
{
    assert((a & b != 0) == ((a & 1 != 0 && b & 1 != 0) || (a & 2 != 0 && b & 2 != 0) || (a & 4 != 0
        && b & 4 != 0) || (a & 8 != 0 && b & 8 != 0))) by (bit_vector)
        requires
            a < 16,
            b < 16,
    ;
    if a & b != 0 {
        let layer = if a & 1 != 0 && b & 1 != 0 {
            GameLayer::Enemies
        } else if a & 2 != 0 && b & 2 != 0 {
            GameLayer::World1
        } else if a & 4 != 0 && b & 4 != 0 {
            GameLayer::World2
        } else {
            GameLayer::Player
        };
        assert(layers_in(a).contains(layer) && layers_in(b).contains(layer));
    }
}

/// The groups a body belongs to and the masks it collides with.
#[derive(Clone, Copy, Debug, PartialEq, Eq)]
pub struct CollisionLayers {
    groups: u32,
    masks: u32,
}

impl CollisionLayers {
    /// No bit beyond those of the four layers is ever set.
    #[verifier::type_invariant]
    spec fn within_layers(self) -> bool {
        self.groups < 16 && self.masks < 16
    }

    /// The layers the body belongs to.
    pub closed spec fn groups(self) -> Set<GameLayer> {
        layers_in(self.groups)
    }

    /// The layers the body collides with.
    pub closed spec fn masks(self) -> Set<GameLayer> {
        layers_in(self.masks)
    }

    /// Whether a body with these layers and one with `other` interact: each
    /// has a group among the masks of the other.
    pub open spec fn interacts(self, other: CollisionLayers) -> bool {
        share_layer(self.groups(), other.masks()) && share_layer(other.groups(), self.masks())
    }

    /// Layers with no group and no mask: such a body interacts with nothing.
    pub fn none() -> (result: CollisionLayers)
        ensures
            result.groups() == Set::<GameLayer>::empty(),
            result.masks() == Set::<GameLayer>::empty(),
    {
        proof {
            assert forall|layer: GameLayer| !layers_in(0).contains(layer) by {
                let b = layer.bit();
                assert(0u32 & b == 0) by (bit_vector);
            }
            assert(layers_in(0) =~= Set::<GameLayer>::empty());
        }
        CollisionLayers { groups: 0, masks: 0 }
    }

    /// Adds `layer` to the groups.
    pub fn with_group(self, layer: GameLayer) -> (result: CollisionLayers)
        ensures
            result.groups() == self.groups().insert(layer),
            result.masks() == self.masks(),
    {
        proof {
            use_type_invariant(self);
            lemma_set_bit(self.groups, layer);
        }
        CollisionLayers { groups: self.groups | layer.to_bits(), masks: self.masks }
    }

    /// Adds every layer of `layers` to the masks.
    pub fn with_masks(self, layers: &[GameLayer]) -> (result: CollisionLayers)
        ensures
            result.groups() == self.groups(),
            result.masks() == self.masks().union(layers@.to_set()),
    {
        proof {
            use_type_invariant(self);
        }
        let mut masks: u32 = self.masks;
        let mut i: usize = 0;
        while i < layers.len()
            invariant
                i <= layers.len(),
                masks < 16,
                layers_in(masks) == layers_in(self.masks).union(layers@.take(i as int).to_set()),
            decreases layers.len() - i,
        {
            let layer = layers[i];
            proof {
                lemma_set_bit(masks, layer);
                assert(layers@.take(i + 1) == layers@.take(i as int).push(layer));
                layers@.take(i as int).lemma_push_to_set_commute(layer);
                assert(layers_in(masks).insert(layer) =~= layers_in(self.masks).union(
                    layers@.take(i + 1).to_set(),
                ));
            }
            masks = masks | layer.to_bits();
            i += 1;
        }
        proof {
            assert(layers@.take(layers.len() as int) == layers@);
        }
        CollisionLayers { groups: self.groups, masks }
    }

    /// The groups as a bit mask.
    pub fn groups_bits(self) -> (bits: u32)
        ensures
            bits == mask_of(self.groups()),
    {
        proof {
            use_type_invariant(self);
            lemma_mask_of_layers_in(self.groups);
        }
        self.groups
    }

    /// The masks as a bit mask.
    pub fn masks_bits(self) -> (bits: u32)
        ensures
            bits == mask_of(self.masks()),
    {
        proof {
            use_type_invariant(self);
            lemma_mask_of_layers_in(self.masks);
        }
        self.masks
    }

    /// Whether a body with these layers interacts with one with `other`.
    pub fn interacts_with(self, other: CollisionLayers) -> (result: bool)
        ensures
            result == self.interacts(other),
    {
        proof {
            use_type_invariant(self);
            use_type_invariant(other);
            lemma_common_bit(self.groups, other.masks);
            lemma_common_bit(other.groups, self.masks);
        }
        (self.groups & other.masks) != 0 && (other.groups & self.masks) != 0
    }
}

/// Interaction has no direction: if one body interacts with another, the
/// other interacts with it.
pub proof fn lemma_interacts_symmetric(a: CollisionLayers, b: CollisionLayers)
    ensures
        a.interacts(b) == b.interacts(a),
{
}

/// A body without groups, and one without masks, interacts with nothing.
pub proof fn lemma_empty_never_interacts(a: CollisionLayers, b: CollisionLayers)
    requires
        a.groups() == Set::<GameLayer>::empty() || a.masks() == Set::<GameLayer>::empty(),
    ensures
        !a.interacts(b),
        !b.interacts(a),
{
}

} // verus!
