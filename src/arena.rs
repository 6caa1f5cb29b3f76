use vstd::prelude::*;

verus! {

pub const ARENA_WIDTH: i32 = 800;

pub const ARENA_HEIGHT: i32 = 600;

pub const WALL_THICKNESS: i32 = 20;

pub const OBSTACLE_SIZE: i32 = 30;

/// An axis-aligned box in world units, given by its centre and its size.
#[derive(Clone, Copy, Debug, PartialEq, Eq, Structural)]
pub struct Block {
    pub x: i32,
    pub y: i32,
    pub width: i32,
    pub height: i32,
}

pub open spec fn block(x: int, y: int, width: int, height: int) -> Block {
    Block { x: x as i32, y: y as i32, width: width as i32, height: height as i32 }
}

/// Top, bottom, left and right walls, centred on the arena's edges.
pub open spec fn wall_layout() -> Seq<Block> {
    seq![
        block(0, 300, 800, 20),
        block(0, -300, 800, 20),
        block(-400, 0, 20, 600),
        block(400, 0, 20, 600),
    ]
}

/// The obstacles' starting boxes.
pub open spec fn obstacle_layout() -> Seq<Block> {
    seq![
        block(150, 100, 30, 30),
        block(-150, -100, 30, 30),
        block(200, -150, 30, 30),
        block(-200, 150, 30, 30),
        block(0, 200, 30, 30),
    ]
}

/// The box around the player's starting circle (radius 20 at the origin).
pub open spec fn player_start() -> Block {
    block(0, 0, 40, 40)
}

/// The sword's starting box, to the right of the player.
pub open spec fn sword_start() -> Block {
    block(60, 0, 90, 10)
}

pub open spec fn abs(v: int) -> int {
    if v < 0 {
        -v
    } else {
        v
    }
}

/// Two boxes share interior points.
pub open spec fn overlaps(a: Block, b: Block) -> bool {
    2 * abs(a.x - b.x) < a.width + b.width && 2 * abs(a.y - b.y) < a.height + b.height
}

/// The box lies strictly between the inner faces of the four walls.
pub open spec fn inside_walls(b: Block) -> bool {
    2 * abs(b.x as int) + b.width < ARENA_WIDTH - WALL_THICKNESS && 2 * abs(b.y as int) + b.height
        < ARENA_HEIGHT - WALL_THICKNESS
}

fn centred(x: i32, y: i32, width: i32, height: i32) -> (r: Block)
    ensures
        r == block(x as int, y as int, width as int, height as int),
{
    Block { x, y, width, height }
}

/// The four walls that close the arena.
pub fn walls() -> (r: Vec<Block>)
    ensures
        r@ == wall_layout(),
{
    let half_w: i32 = ARENA_WIDTH / 2;
    let half_h: i32 = ARENA_HEIGHT / 2;
    let mut r: Vec<Block> = Vec::new();
    r.push(centred(0, half_h, ARENA_WIDTH, WALL_THICKNESS));
    r.push(centred(0, -half_h, ARENA_WIDTH, WALL_THICKNESS));
    r.push(centred(-half_w, 0, WALL_THICKNESS, ARENA_HEIGHT));
    r.push(centred(half_w, 0, WALL_THICKNESS, ARENA_HEIGHT));
    assert(r@ =~= wall_layout());
    r
}

/// The dynamic obstacles scattered over the arena.
pub fn obstacles() -> (r: Vec<Block>)
    ensures
        r@ == obstacle_layout(),
{
    let mut r: Vec<Block> = Vec::new();
    r.push(centred(150, 100, OBSTACLE_SIZE, OBSTACLE_SIZE));
    r.push(centred(-150, -100, OBSTACLE_SIZE, OBSTACLE_SIZE));
    r.push(centred(200, -150, OBSTACLE_SIZE, OBSTACLE_SIZE));
    r.push(centred(-200, 150, OBSTACLE_SIZE, OBSTACLE_SIZE));
    r.push(centred(0, 200, OBSTACLE_SIZE, OBSTACLE_SIZE));
    assert(r@ =~= obstacle_layout());
    r
}

/// Where the player starts.
pub fn player_spawn() -> (r: Block)
    ensures
        r == player_start(),
{
    centred(0, 0, 40, 40)
}

/// Where the sword starts.
pub fn sword_spawn() -> (r: Block)
    ensures
        r == sword_start(),
{
    centred(60, 0, 90, 10)
}

/// Every obstacle, the player and the sword start inside the walls.
pub proof fn lemma_bodies_start_inside(i: int)
    requires
        0 <= i < obstacle_layout().len(),
    ensures
        inside_walls(obstacle_layout()[i]),
        inside_walls(player_start()),
        inside_walls(sword_start()),
{
}

/// No obstacle starts on top of the player, the sword or another obstacle.
pub proof fn lemma_bodies_start_apart(i: int, j: int)
    requires
        0 <= i < obstacle_layout().len(),
        0 <= j < obstacle_layout().len(),
        i != j,
    ensures
        !overlaps(obstacle_layout()[i], obstacle_layout()[j]),
        !overlaps(obstacle_layout()[i], player_start()),
        !overlaps(obstacle_layout()[i], sword_start()),
{
}

/// The walls do not cut into the starting boxes of the player or the sword.
pub proof fn lemma_walls_clear_of_fighters(i: int)
    requires
        0 <= i < wall_layout().len(),
    ensures
        !overlaps(wall_layout()[i], player_start()),
        !overlaps(wall_layout()[i], sword_start()),
{
}

/// The arena is closed: each side wall meets the top and the bottom wall.
pub proof fn lemma_walls_meet_at_corners(side: int, end: int)
    requires
        side == 2 || side == 3,
        end == 0 || end == 1,
    ensures
        overlaps(wall_layout()[side], wall_layout()[end]),
{
}

} // verus!
