use vstd::prelude::*;

verus! {

/// Collision layer masks of one body: the layers it belongs to and the layers it accepts.
#[derive(Clone, Copy, Debug, PartialEq, Eq, Structural)]
pub struct Layers {
    pub memberships: u32,
    pub filters: u32,
}

/// The kinds of physical bodies in the arena.
#[derive(Clone, Copy, Debug, PartialEq, Eq, Structural)]
pub enum Body {
    Player,
    Sword,
    Wall,
    Obstacle,
}

pub const PLAYER_LAYER: u32 = 0b0001;

pub const SWORD_LAYER: u32 = 0b0010;

pub const WALL_LAYER: u32 = 0b0100;

pub const OBSTACLE_LAYER: u32 = 0b1000;

/// Two bodies interact when each belongs to a layer that the other accepts.
pub open spec fn interacts(a: Layers, b: Layers) -> bool {
    (a.memberships & b.filters) != 0 && (b.memberships & a.filters) != 0
}

/// The masks each kind of body is spawned with: every body sits on its own layer;
/// player and sword accept walls and obstacles, walls accept everything but walls,
/// obstacles accept everything but obstacles.
pub open spec fn body_layers(b: Body) -> Layers {
    match b {
        Body::Player => Layers { memberships: 0b0001, filters: 0b1100 },
        Body::Sword => Layers { memberships: 0b0010, filters: 0b1100 },
        Body::Wall => Layers { memberships: 0b0100, filters: 0b1011 },
        Body::Obstacle => Layers { memberships: 0b1000, filters: 0b0111 },
    }
}

/// The intended contact rule: distinct kinds touch, except the player and its own sword.
pub open spec fn contact_allowed(a: Body, b: Body) -> bool {
    a != b && !((a == Body::Player && b == Body::Sword) || (a == Body::Sword && b
        == Body::Player))
}

/// Relies on avian2d's `CollisionLayers::interacts_with`, which tests
/// `memberships & other.filters` and `other.memberships & filters` against zero.
#[verifier::external_body]
fn layers_interact(a: Layers, b: Layers) -> (r: bool)
    ensures
        r == interacts(a, b),
{
    let la = avian2d::collision::CollisionLayers::from_bits(a.memberships, a.filters);
    let lb = avian2d::collision::CollisionLayers::from_bits(b.memberships, b.filters);
    la.interacts_with(lb)
}

impl Body {
    /// The collision masks of this kind of body.
    pub fn layers(self) -> (r: Layers)
        ensures
            r == body_layers(self),
    {
        proof {
            assert(0b0100u32 | 0b1000u32 == 0b1100u32) by (bit_vector);
            assert(0b0001u32 | 0b0010u32 | 0b1000u32 == 0b1011u32) by (bit_vector);
            assert(0b0001u32 | 0b0010u32 | 0b0100u32 == 0b0111u32) by (bit_vector);
        }
        match self {
            Body::Player => Layers { memberships: PLAYER_LAYER, filters: WALL_LAYER | OBSTACLE_LAYER },
            Body::Sword => Layers { memberships: SWORD_LAYER, filters: WALL_LAYER | OBSTACLE_LAYER },
            Body::Wall => Layers {
                memberships: WALL_LAYER,
                filters: PLAYER_LAYER | SWORD_LAYER | OBSTACLE_LAYER,
            },
            Body::Obstacle => Layers {
                memberships: OBSTACLE_LAYER,
                filters: PLAYER_LAYER | SWORD_LAYER | WALL_LAYER,
            },
        }
    }
}

/// Whether the physics engine lets two bodies of these kinds touch.
pub fn bodies_collide(a: Body, b: Body) -> (r: bool)
    ensures
        r == interacts(body_layers(a), body_layers(b)),
        r == contact_allowed(a, b),
{
    let r = layers_interact(a.layers(), b.layers());
    proof {
        lemma_layers_match_contact_rule(a, b);
    }
    r
}

/// The layer masks of the four kinds realise the contact rule exactly.
pub proof fn lemma_layers_match_contact_rule(a: Body, b: Body)
    ensures
        interacts(body_layers(a), body_layers(b)) == contact_allowed(a, b),
{
    assert(0b0001u32 & 0b1100u32 == 0) by (bit_vector);
    assert(0b0010u32 & 0b1100u32 == 0) by (bit_vector);
    assert(0b0100u32 & 0b1011u32 == 0) by (bit_vector);
    assert(0b1000u32 & 0b0111u32 == 0) by (bit_vector);
    assert(0b0001u32 & 0b1011u32 != 0) by (bit_vector);
    assert(0b0001u32 & 0b0111u32 != 0) by (bit_vector);
    assert(0b0010u32 & 0b1011u32 != 0) by (bit_vector);
    assert(0b0010u32 & 0b0111u32 != 0) by (bit_vector);
    assert(0b0100u32 & 0b1100u32 != 0) by (bit_vector);
    assert(0b0100u32 & 0b0111u32 != 0) by (bit_vector);
    assert(0b1000u32 & 0b1100u32 != 0) by (bit_vector);
    assert(0b1000u32 & 0b1011u32 != 0) by (bit_vector);
}

/// Interaction does not depend on which body is named first.
pub proof fn lemma_interacts_symmetric(a: Layers, b: Layers)
    ensures
        interacts(a, b) == interacts(b, a),
{
}

/// The sword never strikes the player that wields it.
pub proof fn lemma_sword_spares_player()
    ensures
        !interacts(body_layers(Body::Sword), body_layers(Body::Player)),
        !interacts(body_layers(Body::Player), body_layers(Body::Sword)),
{
    lemma_layers_match_contact_rule(Body::Sword, Body::Player);
    lemma_layers_match_contact_rule(Body::Player, Body::Sword);
}

/// Player and sword both meet walls and obstacles.
pub proof fn lemma_fighters_meet_arena(a: Body, b: Body)
    requires
        a == Body::Player || a == Body::Sword,
        b == Body::Wall || b == Body::Obstacle,
    ensures
        interacts(body_layers(a), body_layers(b)),
        interacts(body_layers(b), body_layers(a)),
{
    lemma_layers_match_contact_rule(a, b);
    lemma_layers_match_contact_rule(b, a);
}

} // verus!
