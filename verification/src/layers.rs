//! Collision layers: who can touch whom.
//!
//! Every collider is a member of one layer and names the layers it is
//! willing to touch. Two colliders touch when each is willing to touch
//! the other's layer.

use vstd::prelude::*;

verus! {

/// The layers of the game.
#[derive(Clone, Copy, Debug, PartialEq, Eq, Structural)]
pub enum GameLayer {
    /// Scenery, and whatever names no layer.
    Default,
    /// The player.
    Player,
    /// Signals in flight.
    Signal,
    /// Devices.
    Device,
    /// What is out of play, such as an object in the player's hand.
    Ignore,
}

/// A set of layers.
#[derive(Clone, Copy, Debug, PartialEq, Eq, Structural)]
pub struct LayerSet {
    /// Whether `Default` is in the set.
    pub default: bool,
    /// Whether `Player` is in the set.
    pub player: bool,
    /// Whether `Signal` is in the set.
    pub signal: bool,
    /// Whether `Device` is in the set.
    pub device: bool,
    /// Whether `Ignore` is in the set.
    pub ignore: bool,
}

/// The layer of a collider and the layers it is willing to touch.
#[derive(Clone, Copy, Debug, PartialEq, Eq, Structural)]
pub struct CollisionLayers {
    /// The layer that the collider is a member of.
    pub membership: GameLayer,
    /// The layers that the collider is willing to touch.
    pub filters: LayerSet,
}

/// What a collider is part of.
#[derive(Clone, Copy, Debug, PartialEq, Eq, Structural)]
pub enum ColliderRole {
    /// A signal in flight.
    Signal,
    /// The player.
    Player,
    /// A pole of a door.
    DoorPole,
    /// A weighted cube.
    WeightedCube,
    /// A cube spitter on a wall.
    CubeSpitter,
    /// A cube spitter that stands on the floor.
    StandingCubeSpitter,
    /// A signal spitter.
    SignalSpitter,
    /// An inert device.
    Inert,
    /// A dissolve gate or a discharge gate.
    Gate,
    /// An object in the player's hand.
    HeldObject,
    /// An object that the player has put down.
    ReleasedObject,
}

impl LayerSet {
    /// Whether `layer` is in the set.
    pub open spec fn has(&self, layer: GameLayer) -> bool {
        match layer {
            GameLayer::Default => self.default,
            GameLayer::Player => self.player,
            GameLayer::Signal => self.signal,
            GameLayer::Device => self.device,
            GameLayer::Ignore => self.ignore,
        }
    }

    /// Whether `layer` is in the set.
    pub fn contains(&self, layer: GameLayer) -> (found: bool)
        ensures
            found == self.has(layer),
    {
        match layer {
            GameLayer::Default => self.default,
            GameLayer::Player => self.player,
            GameLayer::Signal => self.signal,
            GameLayer::Device => self.device,
            GameLayer::Ignore => self.ignore,
        }
    }
}

/// The layers of a collider by its role.
pub open spec fn layers_spec(role: ColliderRole) -> CollisionLayers {
    match role {
        ColliderRole::Signal => CollisionLayers {
            membership: GameLayer::Signal,
            filters: LayerSet {
                default: false,
                player: false,
                signal: false,
                device: true,
                ignore: false,
            },
        },
        ColliderRole::Player => CollisionLayers {
            membership: GameLayer::Player,
            filters: LayerSet {
                default: true,
                player: false,
                signal: false,
                device: true,
                ignore: false,
            },
        },
        ColliderRole::DoorPole | ColliderRole::Inert => CollisionLayers {
            membership: GameLayer::Device,
            filters: LayerSet {
                default: false,
                player: true,
                signal: true,
                device: true,
                ignore: false,
            },
        },
        ColliderRole::WeightedCube | ColliderRole::StandingCubeSpitter | ColliderRole::SignalSpitter
        | ColliderRole::ReleasedObject => CollisionLayers {
            membership: GameLayer::Device,
            filters: LayerSet {
                default: true,
                player: true,
                signal: true,
                device: true,
                ignore: false,
            },
        },
        ColliderRole::CubeSpitter => CollisionLayers {
            membership: GameLayer::Device,
            filters: LayerSet {
                default: true,
                player: true,
                signal: true,
                device: false,
                ignore: false,
            },
        },
        ColliderRole::Gate => CollisionLayers {
            membership: GameLayer::Default,
            filters: LayerSet {
                default: false,
                player: true,
                signal: false,
                device: true,
                ignore: false,
            },
        },
        ColliderRole::HeldObject => CollisionLayers {
            membership: GameLayer::Ignore,
            filters: LayerSet {
                default: true,
                player: false,
                signal: false,
                device: false,
                ignore: false,
            },
        },
    }
}

/// The layers that a collider gets when it takes up `role`.
pub fn collision_layers(role: ColliderRole) -> (layers: CollisionLayers)
    ensures
        layers == layers_spec(role),
{
    let none = LayerSet { default: false, player: false, signal: false, device: false, ignore: false };
    match role {
        ColliderRole::Signal => CollisionLayers {
            membership: GameLayer::Signal,
            filters: LayerSet { device: true, ..none },
        },
        ColliderRole::Player => CollisionLayers {
            membership: GameLayer::Player,
            filters: LayerSet { default: true, device: true, ..none },
        },
        ColliderRole::DoorPole | ColliderRole::Inert => CollisionLayers {
            membership: GameLayer::Device,
            filters: LayerSet { player: true, signal: true, device: true, ..none },
        },
        ColliderRole::WeightedCube | ColliderRole::StandingCubeSpitter | ColliderRole::SignalSpitter
        | ColliderRole::ReleasedObject => CollisionLayers {
            membership: GameLayer::Device,
            filters: LayerSet { default: true, player: true, signal: true, device: true, ..none },
        },
        ColliderRole::CubeSpitter => CollisionLayers {
            membership: GameLayer::Device,
            filters: LayerSet { default: true, player: true, signal: true, ..none },
        },
        ColliderRole::Gate => CollisionLayers {
            membership: GameLayer::Default,
            filters: LayerSet { player: true, device: true, ..none },
        },
        ColliderRole::HeldObject => CollisionLayers {
            membership: GameLayer::Ignore,
            filters: LayerSet { default: true, ..none },
        },
    }
}

/// Whether two colliders touch: each is willing to touch the other's
/// layer.
pub open spec fn touches(a: CollisionLayers, b: CollisionLayers) -> bool {
    a.filters.has(b.membership) && b.filters.has(a.membership)
}

/// Whether two colliders touch: each is willing to touch the other's
/// layer.
pub fn interacts(a: &CollisionLayers, b: &CollisionLayers) -> (touching: bool)
    ensures
        touching == touches(*a, *b),
{
    a.filters.contains(b.membership) && b.filters.contains(a.membership)
}

/// Whether a role is that of a device that answers signals.
pub open spec fn receives_signals(role: ColliderRole) -> bool {
    role == ColliderRole::DoorPole || role == ColliderRole::WeightedCube || role
        == ColliderRole::CubeSpitter || role == ColliderRole::StandingCubeSpitter || role
        == ColliderRole::SignalSpitter || role == ColliderRole::Inert || role
        == ColliderRole::ReleasedObject
}

/// A signal touches exactly the devices that answer signals: it passes
/// through gates, the player, other signals and whatever the player
/// holds.
pub proof fn lemma_signals_touch_devices_only(role: ColliderRole)
    ensures
        touches(layers_spec(ColliderRole::Signal), layers_spec(role)) <==> receives_signals(role),
{
}

/// Touching goes both ways.
pub proof fn lemma_touching_is_mutual(a: CollisionLayers, b: CollisionLayers)
    ensures
        touches(a, b) == touches(b, a),
{
}

/// What the player holds touches nothing that moves: no device, no
/// signal, no gate, and not the player.
pub proof fn lemma_held_object_is_out_of_play(role: ColliderRole)
    ensures
        !touches(layers_spec(ColliderRole::HeldObject), layers_spec(role)),
{
}

/// Whether a role is that of something that moves through the level:
/// the player, and what can be carried or thrown.
pub open spec fn moves_about(role: ColliderRole) -> bool {
    role == ColliderRole::Player || role == ColliderRole::WeightedCube || role
        == ColliderRole::StandingCubeSpitter || role == ColliderRole::SignalSpitter || role
        == ColliderRole::ReleasedObject
}

/// A gate is touched by everything that moves through the level, so that
/// whatever walks or is thrown through it is caught.
pub proof fn lemma_gates_catch_what_moves(role: ColliderRole)
    requires
        moves_about(role),
    ensures
        touches(layers_spec(ColliderRole::Gate), layers_spec(role)),
{
}

} // verus!
