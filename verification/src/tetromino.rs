//! The active piece: its position, orientation, per-orientation block
//! layouts, and the legality checks for moving and rotating it against the
//! playing field.
//!
//! The playing field is the canonical 22-row, 10-column matrix; its top two
//! rows are the hidden spawn buffer. A piece is a 4x4 bounding box anchored
//! at `(x, y)` (top-left corner, grid coordinates); the box may hang over
//! the field's edges as long as every *occupied* cell stays inside.

use vstd::prelude::*;

use crate::block::Block;
use crate::config::Config;

verus! {

#[derive(Copy, Clone, PartialEq, Eq, Structural, Debug)]
pub enum Direction {
    North,
    East,
    South,
    West,
}

/// Outcome of a movement legality check.
/// `Deny`: the move would push a cell past the field's side walls; a no-op.
/// `Blocked`: the move would hit the floor or a locked block; downward this
/// starts the lock-in path, sideways it forces an immediate lock-in.
#[derive(Copy, Clone, PartialEq, Eq, Structural, Debug)]
pub enum MoveResult {
    Allow,
    Deny,
    Blocked,
}

#[derive(Copy, Clone, PartialEq, Eq, Structural, Debug)]
pub enum Rotation {
    Clockwise,
    CounterClockwise,
}

/// Outcome of a rotation legality check: rotation is rejected outright if
/// the target layout collides or leaves the field (no wall kicks).
#[derive(Copy, Clone, PartialEq, Eq, Structural, Debug)]
pub enum RotationResult {
    Allow,
    Deny,
}

/// A 4x4 block layout.
pub type Layout = [[Option<Block>; 4]; 4];

/// The four orientation layouts of one shape, in the order
/// North, East, South, West.
pub struct TetrominoShape(pub Layout, pub Layout, pub Layout, pub Layout);

/// Whether the layout occupies cell `(r, c)` of its 4x4 box.
pub open spec fn occ(b: Layout, r: int, c: int) -> bool {
    0 <= r < 4 && 0 <= c < 4 && b[r][c] is Some
}

/// Whether `(cx, ry)` is a cell of the playing field.
pub open spec fn in_field(cx: int, ry: int) -> bool {
    0 <= cx < 10 && 0 <= ry < 22
}

/// The playing field as a matrix of cells: 22 rows of 10 columns.
pub open spec fn field_wf(g: Seq<Seq<Option<Block>>>) -> bool {
    g.len() == 22 && forall|r: int| 0 <= r < 22 ==> (#[trigger] g[r]).len() == 10
}

/// The field matrix described by a vector of rows.
pub open spec fn grid_view(g: &Vec<Vec<Option<Block>>>) -> Seq<Seq<Option<Block>>> {
    Seq::new(g@.len(), |r: int| g@[r]@)
}

/// Every occupied cell of `b`, anchored at `(x, y)`, lies inside the field.
pub open spec fn blocks_fit(b: Layout, x: int, y: int) -> bool {
    forall|r: int, c: int| #[trigger] occ(b, r, c) ==> in_field(x + c, y + r)
}

/// Every occupied cell of `b`, anchored at `(x, y)`, lies inside the field
/// *and* on an empty cell of `g`.
pub open spec fn blocks_clear(b: Layout, g: Seq<Seq<Option<Block>>>, x: int, y: int) -> bool {
    forall|r: int, c: int| #[trigger] occ(b, r, c)
        ==> in_field(x + c, y + r) && g[y + r][x + c] is None
}

/// The layout occupies at least one cell.
pub open spec fn shape_nonempty(b: Layout) -> bool {
    exists|r: int, c: int| occ(b, r, c)
}

/// Two layouts occupy exactly the same cells.
pub open spec fn same_geometry(a: Layout, b: Layout) -> bool {
    forall|r: int, c: int| #[trigger] occ(a, r, c) == #[trigger] occ(b, r, c)
}

/// A shape catalog entry is usable if every orientation occupies at least
/// one cell (a piece with no cells would fall forever), and the shadow
/// variant shares the geometry of the normal variant in every orientation.
pub open spec fn shape_wf(shape: TetrominoShape, shadow: TetrominoShape) -> bool {
    &&& shape_nonempty(shape.0)
    &&& shape_nonempty(shape.1)
    &&& shape_nonempty(shape.2)
    &&& shape_nonempty(shape.3)
    &&& same_geometry(shadow.0, shape.0)
    &&& same_geometry(shadow.1, shape.1)
    &&& same_geometry(shadow.2, shape.2)
    &&& same_geometry(shadow.3, shape.3)
}

/// Column delta of a move in direction `d`.
pub open spec fn spec_x_dir(d: Direction) -> int {
    match d {
        Direction::East => 1,
        Direction::West => -1,
        _ => 0,
    }
}

/// Row delta of a move in direction `d`.
pub open spec fn spec_y_dir(d: Direction) -> int {
    match d {
        Direction::North => -1,
        Direction::South => 1,
        _ => 0,
    }
}

/// The orientation reached from `d` by one turn: North, East, South, West
/// and back to North for clockwise turns, the reverse order for
/// counter-clockwise ones.
pub open spec fn rotated_dir(d: Direction, rot: Rotation) -> Direction {
    match rot {
        Rotation::Clockwise => match d {
            Direction::North => Direction::East,
            Direction::East => Direction::South,
            Direction::South => Direction::West,
            Direction::West => Direction::North,
        },
        Rotation::CounterClockwise => match d {
            Direction::North => Direction::West,
            Direction::West => Direction::South,
            Direction::South => Direction::East,
            Direction::East => Direction::North,
        },
    }
}

#[derive(Copy, Clone)]
pub struct Tetromino {
    pub x: i32,
    pub y: i32,
    pub blocks: Layout,
    pub shadow: Layout,
    pub north: Layout,
    pub east: Layout,
    pub south: Layout,
    pub west: Layout,
    pub shadow_north: Layout,
    pub shadow_east: Layout,
    pub shadow_south: Layout,
    pub shadow_west: Layout,
    pub direction: Direction,
}

impl Tetromino {
    /// The piece's current orientation.
    pub open spec fn dir(self) -> Direction {
        self.direction
    }

    /// The piece's layout table for orientation `d`.
    pub open spec fn layout(self, d: Direction) -> Layout {
        match d {
            Direction::North => self.north,
            Direction::East => self.east,
            Direction::South => self.south,
            Direction::West => self.west,
        }
    }

    /// The piece's shadow (ghost) layout table for orientation `d`.
    pub open spec fn shadow_layout(self, d: Direction) -> Layout {
        match d {
            Direction::North => self.shadow_north,
            Direction::East => self.shadow_east,
            Direction::South => self.shadow_south,
            Direction::West => self.shadow_west,
        }
    }

    /// The piece's layout tables are usable in every orientation.
    pub open spec fn shapes_wf(self) -> bool {
        &&& shape_nonempty(self.layout(Direction::North))
        &&& shape_nonempty(self.layout(Direction::East))
        &&& shape_nonempty(self.layout(Direction::South))
        &&& shape_nonempty(self.layout(Direction::West))
        &&& same_geometry(self.shadow_layout(Direction::North), self.layout(Direction::North))
        &&& same_geometry(self.shadow_layout(Direction::East), self.layout(Direction::East))
        &&& same_geometry(self.shadow_layout(Direction::South), self.layout(Direction::South))
        &&& same_geometry(self.shadow_layout(Direction::West), self.layout(Direction::West))
    }

    /// Well-formedness: the current block arrays are the table entries for
    /// the current orientation, the tables are usable, and the piece sits
    /// inside the field.
    pub open spec fn wf(self) -> bool {
        &&& self.blocks == self.layout(self.dir())
        &&& self.shadow == self.shadow_layout(self.dir())
        &&& self.shapes_wf()
        &&& blocks_fit(self.blocks, self.x as int, self.y as int)
        &&& -3 <= self.x <= 9
        &&& 0 <= self.y <= 21
    }

    /// Some occupied cell of a move in direction `d` would end up past the
    /// field's side walls.
    pub open spec fn move_off_sides(self, d: Direction) -> bool {
        exists|r: int, c: int| #[trigger] occ(self.blocks, r, c)
            && !(0 <= self.x + c + spec_x_dir(d) < 10)
    }

    /// A new piece: anchored horizontally centred (`cols / 2 - 2`) at the
    /// top of the hidden spawn buffer, facing North.
    pub fn new(shape: TetrominoShape, shadow: TetrominoShape, config: &Config) -> (t: Tetromino)
        requires
            config.wf(),
            shape_wf(shape, shadow),
        ensures
            t.wf(),
            t.x == 3,
            t.y == 0,
            t.dir() == Direction::North,
            t.layout(Direction::North) == shape.0,
            t.layout(Direction::East) == shape.1,
            t.layout(Direction::South) == shape.2,
            t.layout(Direction::West) == shape.3,
            t.shadow_layout(Direction::North) == shadow.0,
            t.shadow_layout(Direction::East) == shadow.1,
            t.shadow_layout(Direction::South) == shadow.2,
            t.shadow_layout(Direction::West) == shadow.3,
            t.blocks == shape.0,
            t.shadow == shadow.0,
    {
        Tetromino {
            x: (config.grid_size.0 as i32 / 2) - 2,
            y: 0,
            blocks: shape.0,
            shadow: shadow.0,
            north: shape.0,
            east: shape.1,
            south: shape.2,
            west: shape.3,
            shadow_north: shadow.0,
            shadow_east: shadow.1,
            shadow_south: shadow.2,
            shadow_west: shadow.3,
            direction: Direction::North,
        }
    }

    /// Movement legality of one step in `direction` against the field `grid`.
    ///
    /// `Deny` iff some occupied cell would end up past a side wall;
    /// otherwise `Blocked` iff some occupied cell would hit the floor or a
    /// locked block; `Allow` otherwise. Upward movement is not part of the
    /// game and is excluded.
    pub fn can_move(&self, direction: Direction, grid: &Vec<Vec<Option<Block>>>) -> (res:
        MoveResult)
        requires
            self.wf(),
            field_wf(grid_view(grid)),
            direction != Direction::North,
        ensures
            (res == MoveResult::Deny) == self.move_off_sides(direction),
            (res == MoveResult::Allow) == (!self.move_off_sides(direction) && blocks_clear(
                self.blocks,
                grid_view(grid),
                self.x + spec_x_dir(direction),
                self.y + spec_y_dir(direction),
            )),
            res == MoveResult::Blocked || res == MoveResult::Deny || res == MoveResult::Allow,
    {
        let x_dir = Self::get_x_direction(direction);
        let y_dir = Self::get_y_direction(direction);

        // First check the side walls: a move that would leave the field
        // sideways is denied outright, wherever else the piece may touch.
        for r in 0..4usize
            invariant
                forall|rr: int, cc: int| rr < r && #[trigger] occ(self.blocks, rr, cc)
                    ==> 0 <= self.x + cc + spec_x_dir(direction) < 10,
        {
            for c in 0..4usize
                invariant
                    forall|rr: int, cc: int| rr < r && #[trigger] occ(self.blocks, rr, cc)
                        ==> 0 <= self.x + cc + spec_x_dir(direction) < 10,
                    forall|cc: int| cc < c && #[trigger] occ(self.blocks, r as int, cc)
                        ==> 0 <= self.x + cc + spec_x_dir(direction) < 10,
            {
                if self.blocks[r][c].is_some() {
                    let tx = self.x + c as i32 + x_dir;
                    if tx < 0 || tx > 9 {
                        proof {
                            assert(occ(self.blocks, r as int, c as int));
                        }
                        return MoveResult::Deny;
                    }
                }
            }
        }

        // Then the floor and the stack: compare each occupied cell to the
        // field cell it would move onto.
        for r in 0..4usize
            invariant
                !self.move_off_sides(direction),
                forall|rr: int, cc: int| rr < r && #[trigger] occ(self.blocks, rr, cc)
                    ==> self.y + rr + spec_y_dir(direction) < 22 && grid_view(grid)[self.y + rr
                    + spec_y_dir(direction)][self.x + cc + spec_x_dir(direction)] is None,
        {
            for c in 0..4usize
                invariant
                    !self.move_off_sides(direction),
                    forall|rr: int, cc: int| rr < r && #[trigger] occ(self.blocks, rr, cc)
                        ==> self.y + rr + spec_y_dir(direction) < 22 && grid_view(grid)[self.y + rr
                        + spec_y_dir(direction)][self.x + cc + spec_x_dir(direction)] is None,
                    forall|cc: int| cc < c && #[trigger] occ(self.blocks, r as int, cc)
                        ==> self.y + r + spec_y_dir(direction) < 22 && grid_view(grid)[self.y + r
                        + spec_y_dir(direction)][self.x + cc + spec_x_dir(direction)] is None,
            {
                if self.blocks[r][c].is_some() {
                    proof {
                        assert(occ(self.blocks, r as int, c as int));
                        assert(0 <= self.x + c + spec_x_dir(direction) < 10);
                    }
                    let tx = self.x + c as i32 + x_dir;
                    let ty = self.y + r as i32 + y_dir;

                    // Hitting the floor blocks the move.
                    if ty > 21 {
                        return MoveResult::Blocked;
                    }
                    // Running into a locked block blocks it too.
                    if grid[ty as usize][tx as usize].is_some() {
                        return MoveResult::Blocked;
                    }
                }
            }
        }

        MoveResult::Allow
    }

    /// Rotation legality: the target orientation's layout, kept at the
    /// piece's current `(x, y)`, must lie inside the field on empty cells;
    /// otherwise the rotation is rejected (no kick/offset search).
    pub fn can_rotate(&self, rotation: Rotation, grid: &Vec<Vec<Option<Block>>>) -> (res:
        RotationResult)
        requires
            self.wf(),
            field_wf(grid_view(grid)),
        ensures
            (res == RotationResult::Allow) == blocks_clear(
                self.layout(rotated_dir(self.dir(), rotation)),
                grid_view(grid),
                self.x as int,
                self.y as int,
            ),
            res == RotationResult::Allow || res == RotationResult::Deny,
    {
        let new_dir = self.get_rotated_position(rotation);
        let desired_blocks = self.get_blocks_for_direction(new_dir, false);

        for r in 0..4usize
            invariant
                forall|rr: int, cc: int| rr < r && #[trigger] occ(
                    self.layout(rotated_dir(self.dir(), rotation)),
                    rr,
                    cc,
                ) ==> in_field(self.x + cc, self.y + rr) && grid_view(grid)[self.y + rr][self.x
                    + cc] is None,
                desired_blocks == self.layout(rotated_dir(self.dir(), rotation)),
        {
            for c in 0..4usize
                invariant
                    forall|rr: int, cc: int| rr < r && #[trigger] occ(
                        self.layout(rotated_dir(self.dir(), rotation)),
                        rr,
                        cc,
                    ) ==> in_field(self.x + cc, self.y + rr) && grid_view(grid)[self.y + rr][self.x
                        + cc] is None,
                    forall|cc: int| cc < c && #[trigger] occ(
                        self.layout(rotated_dir(self.dir(), rotation)),
                        r as int,
                        cc,
                    ) ==> in_field(self.x + cc, self.y + r) && grid_view(grid)[self.y + r][self.x
                        + cc] is None,
                    desired_blocks == self.layout(rotated_dir(self.dir(), rotation)),
            {
                if desired_blocks[r][c].is_some() {
                    proof {
                        assert(occ(self.layout(rotated_dir(self.dir(), rotation)), r as int,
                            c as int));
                    }
                    let tx = self.x + c as i32;
                    let ty = self.y + r as i32;

                    // The rotated layout may not leave the field downward...
                    if ty > 21 {
                        return RotationResult::Deny;
                    }
                    // ...nor sideways...
                    if tx < 0 || tx > 9 {
                        return RotationResult::Deny;
                    }
                    // ...nor land on a locked block.
                    if grid[ty as usize][tx as usize].is_some() {
                        return RotationResult::Deny;
                    }
                }
            }
        }

        RotationResult::Allow
    }

    /// Where the piece would come to rest if dropped straight down: the
    /// first position at or below the current one from which a further
    /// downward step is not clear. Pure query; the piece itself is not
    /// moved.
    pub fn find_landing_xy(&self, grid: &Vec<Vec<Option<Block>>>) -> (res: (i32, i32))
        requires
            self.wf(),
            field_wf(grid_view(grid)),
        ensures
            res.0 == self.x,
            self.y <= res.1 <= 21,
            !blocks_clear(self.blocks, grid_view(grid), self.x as int, res.1 + 1),
            forall|yy: int| self.y < yy <= res.1 ==> blocks_clear(
                self.blocks,
                grid_view(grid),
                self.x as int,
                yy,
            ),
    {
        let mut probe = *self;

        loop
            invariant
                probe.wf(),
                field_wf(grid_view(grid)),
                probe.x == self.x,
                probe.blocks == self.blocks,
                self.y <= probe.y <= 21,
                forall|yy: int| self.y < yy <= probe.y ==> blocks_clear(
                    self.blocks,
                    grid_view(grid),
                    self.x as int,
                    yy,
                ),
            decreases 21 - probe.y,
        {
            if let MoveResult::Allow = probe.can_move(Direction::South, grid) {
                probe.drop_down();
            } else {
                return (probe.x, probe.y);
            }
        }
    }

    /// The orientation the piece would face after one turn.
    fn get_rotated_position(&self, rotation: Rotation) -> (d: Direction)
        ensures
            d == rotated_dir(self.dir(), rotation),
    {
        match rotation {
            Rotation::Clockwise => match self.direction {
                Direction::North => Direction::East,
                Direction::East => Direction::South,
                Direction::South => Direction::West,
                Direction::West => Direction::North,
            },
            Rotation::CounterClockwise => match self.direction {
                Direction::North => Direction::West,
                Direction::West => Direction::South,
                Direction::South => Direction::East,
                Direction::East => Direction::North,
            },
        }
    }

    /// Commits a rotation: replaces the current block and shadow arrays by
    /// the table entries for the turned orientation. The caller is expected
    /// to have checked legality; the turned layout must at least fit the
    /// field for the piece to stay well-formed.
    pub fn rotate(&mut self, rotation: Rotation)
        requires
            old(self).wf(),
            blocks_fit(
                old(self).layout(rotated_dir(old(self).dir(), rotation)),
                old(self).x as int,
                old(self).y as int,
            ),
        ensures
            final(self).wf(),
            final(self).dir() == rotated_dir(old(self).dir(), rotation),
            final(self).x == old(self).x,
            final(self).y == old(self).y,
            final(self).blocks == old(self).layout(final(self).dir()),
            final(self).shadow == old(self).shadow_layout(final(self).dir()),
            forall|d: Direction| #![auto] final(self).layout(d) == old(self).layout(d)
                && final(self).shadow_layout(d) == old(self).shadow_layout(d),
    {
        let new_dir = self.get_rotated_position(rotation);
        self.blocks = self.get_blocks_for_direction(new_dir, false);
        self.shadow = self.get_blocks_for_direction(new_dir, true);
        self.direction = new_dir;
    }

    /// The stored table entry for orientation `direction`: the shadow
    /// variant if `shadow` is set, the normal one otherwise.
    fn get_blocks_for_direction(&self, direction: Direction, shadow: bool) -> (b: Layout)
        ensures
            b == if shadow {
                self.shadow_layout(direction)
            } else {
                self.layout(direction)
            },
    {
        if shadow {
            match direction {
                Direction::North => self.shadow_north,
                Direction::East => self.shadow_east,
                Direction::South => self.shadow_south,
                Direction::West => self.shadow_west,
            }
        } else {
            match direction {
                Direction::North => self.north,
                Direction::East => self.east,
                Direction::South => self.south,
                Direction::West => self.west,
            }
        }
    }

    /// Row delta of direction `direction`.
    fn get_y_direction(direction: Direction) -> (d: i32)
        ensures
            d == spec_y_dir(direction),
    {
        match direction {
            Direction::North => -1,
            Direction::South => 1,
            _ => 0,
        }
    }

    /// Column delta of direction `direction`.
    fn get_x_direction(direction: Direction) -> (d: i32)
        ensures
            d == spec_x_dir(direction),
    {
        match direction {
            Direction::East => 1,
            Direction::West => -1,
            _ => 0,
        }
    }

    /// Moves the piece one row down. The target position must fit the
    /// field; callers check legality with `can_move` first.
    pub fn drop_down(&mut self)
        requires
            old(self).wf(),
            blocks_fit(old(self).blocks, old(self).x as int, old(self).y + 1),
        ensures
            final(self).wf(),
            *final(self) == (Tetromino { y: (old(self).y + 1) as i32, ..*old(self) }),
    {
        proof {
            let (r, c) = choose|r: int, c: int| occ(self.blocks, r, c);
            assert(in_field(self.x + c, self.y + 1 + r));
        }
        self.y = self.y + 1;
    }

    /// Moves the piece one column to the left. The target position must
    /// fit the field; callers check legality with `can_move` first.
    pub fn move_left(&mut self)
        requires
            old(self).wf(),
            blocks_fit(old(self).blocks, old(self).x - 1, old(self).y as int),
        ensures
            final(self).wf(),
            *final(self) == (Tetromino { x: (old(self).x - 1) as i32, ..*old(self) }),
    {
        proof {
            let (r, c) = choose|r: int, c: int| occ(self.blocks, r, c);
            assert(in_field(self.x - 1 + c, self.y + r));
        }
        self.x = self.x - 1;
    }

    /// Moves the piece one column to the right. The target position must
    /// fit the field; callers check legality with `can_move` first.
    pub fn move_right(&mut self)
        requires
            old(self).wf(),
            blocks_fit(old(self).blocks, old(self).x + 1, old(self).y as int),
        ensures
            final(self).wf(),
            *final(self) == (Tetromino { x: (old(self).x + 1) as i32, ..*old(self) }),
    {
        proof {
            let (r, c) = choose|r: int, c: int| occ(self.blocks, r, c);
            assert(in_field(self.x + 1 + c, self.y + r));
        }
        self.x = self.x + 1;
    }
}

/// Law: four turns in the same direction bring a piece back to its
/// original orientation, and with it its original block layout.
pub proof fn lemma_rotation_cycle(t: Tetromino, rot: Rotation)
    requires
        t.wf(),
    ensures
        rotated_dir(rotated_dir(rotated_dir(rotated_dir(t.dir(), rot), rot), rot), rot)
            == t.dir(),
        t.layout(rotated_dir(rotated_dir(rotated_dir(rotated_dir(t.dir(), rot), rot), rot), rot))
            == t.blocks,
{
}

} // verus!
