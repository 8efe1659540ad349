//! The shape catalog and the piece factory.
//!
//! Seven kinds, each with four fixed 4x4 orientation layouts, plus a
//! shadow (ghost) variant sharing the same geometry. The catalog is
//! described twice: as executable tables (what the factory builds) and as
//! the specification predicate `kind_occ` (which cells each layout
//! occupies); each constructor's contract ties the two together, cell by
//! cell. Spawn selection is uniform-random across all seven kinds.

use rand::Rng;
use vstd::prelude::*;

use crate::block::{Block, ShapeKind};
use crate::config::Config;
use crate::tetromino::{occ, shape_nonempty, Direction, Layout, Tetromino, TetrominoShape};

verus! {

/// Which cells of the 4x4 box the catalog layout for `(k, d)` occupies.
pub open spec fn kind_occ(k: ShapeKind, d: Direction, r: int, c: int) -> bool {
    0 <= r < 4 && 0 <= c < 4 && match k {
        ShapeKind::I => match d {
            Direction::North => r == 1,
            Direction::East => c == 2,
            Direction::South => r == 2,
            Direction::West => c == 1,
        },
        ShapeKind::J => match d {
            Direction::North => (r == 0 && c == 0) || (r == 1 && c <= 2),
            Direction::East => (r == 0 && (c == 1 || c == 2)) || (r == 1 && c == 1) || (r == 2
                && c == 1),
            Direction::South => (r == 1 && c <= 2) || (r == 2 && c == 2),
            Direction::West => (r == 0 && c == 1) || (r == 1 && c == 1) || (r == 2 && (c == 0 || c
                == 1)),
        },
        ShapeKind::L => match d {
            Direction::North => (r == 0 && c == 2) || (r == 1 && c <= 2),
            Direction::East => (r == 0 && c == 1) || (r == 1 && c == 1) || (r == 2 && (c == 1 || c
                == 2)),
            Direction::South => (r == 1 && c <= 2) || (r == 2 && c == 0),
            Direction::West => (r == 0 && (c == 0 || c == 1)) || (r == 1 && c == 1) || (r == 2
                && c == 1),
        },
        ShapeKind::O => (r == 0 || r == 1) && (c == 1 || c == 2),
        ShapeKind::S => match d {
            Direction::North => (r == 0 && (c == 1 || c == 2)) || (r == 1 && (c == 0 || c == 1)),
            Direction::East => (r == 0 && c == 1) || (r == 1 && (c == 1 || c == 2)) || (r == 2
                && c == 2),
            Direction::South => (r == 1 && (c == 1 || c == 2)) || (r == 2 && (c == 0 || c == 1)),
            Direction::West => (r == 0 && c == 0) || (r == 1 && (c == 0 || c == 1)) || (r == 2
                && c == 1),
        },
        ShapeKind::T => match d {
            Direction::North => (r == 0 && c == 1) || (r == 1 && c <= 2),
            Direction::East => (r == 0 && c == 1) || (r == 1 && (c == 1 || c == 2)) || (r == 2
                && c == 1),
            Direction::South => (r == 1 && c <= 2) || (r == 2 && c == 1),
            Direction::West => (r == 0 && c == 1) || (r == 1 && (c == 0 || c == 1)) || (r == 2
                && c == 1),
        },
        ShapeKind::Z => match d {
            Direction::North => (r == 0 && (c == 0 || c == 1)) || (r == 1 && (c == 1 || c == 2)),
            Direction::East => (r == 0 && c == 3) || (r == 1 && (c == 2 || c == 3)) || (r == 2
                && c == 2),
            Direction::South => (r == 1 && (c == 0 || c == 1)) || (r == 2 && (c == 1 || c == 2)),
            Direction::West => (r == 0 && c == 1) || (r == 1 && (c == 0 || c == 1)) || (r == 2
                && c == 0),
        },
    }
}

/// The cell content the catalog prescribes at `(r, c)` of layout `(k, d)`:
/// a block tagged with the kind (and the shadow flag for the ghost
/// variant) on occupied cells, nothing elsewhere.
pub open spec fn spec_cell(k: ShapeKind, d: Direction, r: int, c: int, shadow: bool) -> Option<
    Block,
> {
    if kind_occ(k, d, r, c) {
        Some(Block { kind: k, shadow })
    } else {
        None
    }
}

/// `b` is, cell for cell, the catalog layout for `(k, d)`.
pub open spec fn layout_cells(b: Layout, k: ShapeKind, d: Direction, shadow: bool) -> bool {
    forall|r: int, c: int| 0 <= r < 4 && 0 <= c < 4 ==> #[trigger] b[r][c] == spec_cell(
        k,
        d,
        r,
        c,
        shadow,
    )
}

/// `s` is the full four-orientation catalog entry for kind `k`.
pub open spec fn shape_cells(s: TetrominoShape, k: ShapeKind, shadow: bool) -> bool {
    &&& layout_cells(s.0, k, Direction::North, shadow)
    &&& layout_cells(s.1, k, Direction::East, shadow)
    &&& layout_cells(s.2, k, Direction::South, shadow)
    &&& layout_cells(s.3, k, Direction::West, shadow)
}

/// The piece `t` carries the catalog layouts of kind `k`, normal and
/// shadow, in all four orientations.
pub open spec fn piece_of_kind(t: Tetromino, k: ShapeKind) -> bool {
    &&& layout_cells(t.layout(Direction::North), k, Direction::North, false)
    &&& layout_cells(t.layout(Direction::East), k, Direction::East, false)
    &&& layout_cells(t.layout(Direction::South), k, Direction::South, false)
    &&& layout_cells(t.layout(Direction::West), k, Direction::West, false)
    &&& layout_cells(t.shadow_layout(Direction::North), k, Direction::North, true)
    &&& layout_cells(t.shadow_layout(Direction::East), k, Direction::East, true)
    &&& layout_cells(t.shadow_layout(Direction::South), k, Direction::South, true)
    &&& layout_cells(t.shadow_layout(Direction::West), k, Direction::West, true)
}

/// A freshly spawned piece: horizontally centred at the top of the
/// hidden buffer, facing North, carrying the catalog layouts of one of
/// the seven kinds.
pub open spec fn is_spawn_piece(t: Tetromino) -> bool {
    &&& t.wf()
    &&& t.x == 3
    &&& t.y == 0
    &&& t.dir() == Direction::North
    &&& exists|k: ShapeKind| #[trigger] piece_of_kind(t, k)
}

/// 1 if the catalog layout for `(k, d)` occupies `(r, c)`, else 0.
pub open spec fn cell_weight(k: ShapeKind, d: Direction, r: int, c: int) -> int {
    if kind_occ(k, d, r, c) {
        1
    } else {
        0
    }
}

/// How many of the 16 cells of the 4x4 box the catalog layout for
/// `(k, d)` occupies.
pub open spec fn kind_occ_count(k: ShapeKind, d: Direction) -> int {
    cell_weight(k, d, 0, 0) + cell_weight(k, d, 0, 1) + cell_weight(k, d, 0, 2) + cell_weight(
        k,
        d,
        0,
        3,
    ) + cell_weight(k, d, 1, 0) + cell_weight(k, d, 1, 1) + cell_weight(k, d, 1, 2) + cell_weight(
        k,
        d,
        1,
        3,
    ) + cell_weight(k, d, 2, 0) + cell_weight(k, d, 2, 1) + cell_weight(k, d, 2, 2) + cell_weight(
        k,
        d,
        2,
        3,
    ) + cell_weight(k, d, 3, 0) + cell_weight(k, d, 3, 1) + cell_weight(k, d, 3, 2) + cell_weight(
        k,
        d,
        3,
        3,
    )
}

/// Law: every catalog layout — all seven kinds, all four orientations —
/// occupies exactly four cells of its 4x4 box.
pub proof fn lemma_four_blocks_per_layout(k: ShapeKind, d: Direction)
    ensures
        kind_occ_count(k, d) == 4,
{
}

/// Every orientation of a catalog entry occupies at least one cell.
proof fn lemma_catalog_nonempty(s: TetrominoShape, k: ShapeKind, shadow: bool)
    requires
        shape_cells(s, k, shadow),
    ensures
        shape_nonempty(s.0),
        shape_nonempty(s.1),
        shape_nonempty(s.2),
        shape_nonempty(s.3),
{
    match k {
        ShapeKind::I => {
            assert(occ(s.0, 1, 0));
            assert(occ(s.1, 0, 2));
            assert(occ(s.2, 2, 0));
            assert(occ(s.3, 0, 1));
        },
        ShapeKind::J => {
            assert(occ(s.0, 0, 0));
            assert(occ(s.1, 0, 1));
            assert(occ(s.2, 1, 0));
            assert(occ(s.3, 0, 1));
        },
        ShapeKind::L => {
            assert(occ(s.0, 0, 2));
            assert(occ(s.1, 0, 1));
            assert(occ(s.2, 1, 0));
            assert(occ(s.3, 0, 0));
        },
        ShapeKind::O => {
            assert(occ(s.0, 0, 1));
            assert(occ(s.1, 0, 1));
            assert(occ(s.2, 0, 1));
            assert(occ(s.3, 0, 1));
        },
        ShapeKind::S => {
            assert(occ(s.0, 0, 1));
            assert(occ(s.1, 0, 1));
            assert(occ(s.2, 1, 1));
            assert(occ(s.3, 0, 0));
        },
        ShapeKind::T => {
            assert(occ(s.0, 0, 1));
            assert(occ(s.1, 0, 1));
            assert(occ(s.2, 1, 0));
            assert(occ(s.3, 0, 1));
        },
        ShapeKind::Z => {
            assert(occ(s.0, 0, 0));
            assert(occ(s.1, 0, 3));
            assert(occ(s.2, 1, 0));
            assert(occ(s.3, 0, 1));
        },
    }
}

/// Relies on `rand::Rng::gen_range` (via `rand::thread_rng`) on the range
/// `0..7`: it panics only on an empty range and returns a value within
/// the given range, here one of the seven kind indices.
#[verifier::external_body]
fn random_shape_index() -> (idx: usize)
    ensures
        idx < 7,
{
    rand::thread_rng().gen_range(0..7)
}

/// The kind selected by index `idx`, in catalog order.
pub open spec fn spec_kind_of_index(idx: int) -> ShapeKind {
    if idx == 0 {
        ShapeKind::I
    } else if idx == 1 {
        ShapeKind::J
    } else if idx == 2 {
        ShapeKind::L
    } else if idx == 3 {
        ShapeKind::O
    } else if idx == 4 {
        ShapeKind::S
    } else if idx == 5 {
        ShapeKind::T
    } else {
        ShapeKind::Z
    }
}

fn kind_of_index(idx: usize) -> (k: ShapeKind)
    requires
        idx < 7,
    ensures
        k == spec_kind_of_index(idx as int),
{
    match idx {
        0 => ShapeKind::I,
        1 => ShapeKind::J,
        2 => ShapeKind::L,
        3 => ShapeKind::O,
        4 => ShapeKind::S,
        5 => ShapeKind::T,
        _ => ShapeKind::Z,
    }
}

pub struct TetrominoFactory {}

impl TetrominoFactory {
    pub fn new() -> (f: TetrominoFactory) {
        TetrominoFactory {  }
    }

    /// A new piece of a uniformly random kind, spawned horizontally
    /// centred at the top of the hidden buffer, facing North, carrying
    /// the catalog layouts of its kind.
    pub fn create(&self, config: &Config) -> (t: Tetromino)
        requires
            config.wf(),
        ensures
            t.wf(),
            t.x == 3,
            t.y == 0,
            t.dir() == Direction::North,
            exists|k: ShapeKind| #[trigger] piece_of_kind(t, k),
    {
        let idx = random_shape_index();
        let kind = kind_of_index(idx);
        let t = self.create_of_kind(kind, config);
        proof {
            assert(piece_of_kind(t, kind));
        }
        t
    }

    /// A new piece of the given kind, spawned horizontally centred at the
    /// top of the hidden buffer, facing North, carrying the catalog
    /// layouts of its kind.
    pub fn create_of_kind(&self, kind: ShapeKind, config: &Config) -> (t: Tetromino)
        requires
            config.wf(),
        ensures
            t.wf(),
            t.x == 3,
            t.y == 0,
            t.dir() == Direction::North,
            piece_of_kind(t, kind),
    {
        let shape = Self::create_shape(kind, false);
        let shadow = Self::create_shape(kind, true);
        proof {
            lemma_catalog_nonempty(shape, kind, false);
        }
        Tetromino::new(shape, shadow, config)
    }

    /// The catalog entry for `kind`: its four orientation layouts, in the
    /// shadow variant if `shadow` is set.
    fn create_shape(kind: ShapeKind, shadow: bool) -> (s: TetrominoShape)
        ensures
            shape_cells(s, kind, shadow),
    {
        match kind {
            ShapeKind::I => Self::create_i(shadow),
            ShapeKind::J => Self::create_j(shadow),
            ShapeKind::L => Self::create_l(shadow),
            ShapeKind::O => Self::create_o(shadow),
            ShapeKind::S => Self::create_s(shadow),
            ShapeKind::T => Self::create_t(shadow),
            ShapeKind::Z => Self::create_z(shadow),
        }
    }

    fn create_i(shadow: bool) -> (s: TetrominoShape)
        ensures
            shape_cells(s, ShapeKind::I, shadow),
    {
        let i = Some(Block { kind: ShapeKind::I, shadow });

        TetrominoShape(
            // North
            [
                [None, None, None, None],
                [i, i, i, i],
                [None, None, None, None],
                [None, None, None, None],
            ],
            // East
            [
                [None, None, i, None],
                [None, None, i, None],
                [None, None, i, None],
                [None, None, i, None],
            ],
            // South
            [
                [None, None, None, None],
                [None, None, None, None],
                [i, i, i, i],
                [None, None, None, None],
            ],
            // West
            [
                [None, i, None, None],
                [None, i, None, None],
                [None, i, None, None],
                [None, i, None, None],
            ],
        )
    }

    fn create_j(shadow: bool) -> (s: TetrominoShape)
        ensures
            shape_cells(s, ShapeKind::J, shadow),
    {
        let j = Some(Block { kind: ShapeKind::J, shadow });

        TetrominoShape(
            // North
            [
                [j, None, None, None],
                [j, j, j, None],
                [None, None, None, None],
                [None, None, None, None],
            ],
            // East
            [
                [None, j, j, None],
                [None, j, None, None],
                [None, j, None, None],
                [None, None, None, None],
            ],
            // South
            [
                [None, None, None, None],
                [j, j, j, None],
                [None, None, j, None],
                [None, None, None, None],
            ],
            // West
            [
                [None, j, None, None],
                [None, j, None, None],
                [j, j, None, None],
                [None, None, None, None],
            ],
        )
    }

    fn create_l(shadow: bool) -> (s: TetrominoShape)
        ensures
            shape_cells(s, ShapeKind::L, shadow),
    {
        let l = Some(Block { kind: ShapeKind::L, shadow });

        TetrominoShape(
            // North
            [
                [None, None, l, None],
                [l, l, l, None],
                [None, None, None, None],
                [None, None, None, None],
            ],
            // East
            [
                [None, l, None, None],
                [None, l, None, None],
                [None, l, l, None],
                [None, None, None, None],
            ],
            // South
            [
                [None, None, None, None],
                [l, l, l, None],
                [l, None, None, None],
                [None, None, None, None],
            ],
            // West
            [
                [l, l, None, None],
                [None, l, None, None],
                [None, l, None, None],
                [None, None, None, None],
            ],
        )
    }

    fn create_o(shadow: bool) -> (s: TetrominoShape)
        ensures
            shape_cells(s, ShapeKind::O, shadow),
    {
        let o = Some(Block { kind: ShapeKind::O, shadow });

        TetrominoShape(
            // North
            [
                [None, o, o, None],
                [None, o, o, None],
                [None, None, None, None],
                [None, None, None, None],
            ],
            // East
            [
                [None, o, o, None],
                [None, o, o, None],
                [None, None, None, None],
                [None, None, None, None],
            ],
            // South
            [
                [None, o, o, None],
                [None, o, o, None],
                [None, None, None, None],
                [None, None, None, None],
            ],
            // West
            [
                [None, o, o, None],
                [None, o, o, None],
                [None, None, None, None],
                [None, None, None, None],
            ],
        )
    }

    fn create_s(shadow: bool) -> (s: TetrominoShape)
        ensures
            shape_cells(s, ShapeKind::S, shadow),
    {
        let b = Some(Block { kind: ShapeKind::S, shadow });

        TetrominoShape(
            // North
            [
                [None, b, b, None],
                [b, b, None, None],
                [None, None, None, None],
                [None, None, None, None],
            ],
            // East
            [
                [None, b, None, None],
                [None, b, b, None],
                [None, None, b, None],
                [None, None, None, None],
            ],
            // South
            [
                [None, None, None, None],
                [None, b, b, None],
                [b, b, None, None],
                [None, None, None, None],
            ],
            // West
            [
                [b, None, None, None],
                [b, b, None, None],
                [None, b, None, None],
                [None, None, None, None],
            ],
        )
    }

    fn create_t(shadow: bool) -> (s: TetrominoShape)
        ensures
            shape_cells(s, ShapeKind::T, shadow),
    {
        let t = Some(Block { kind: ShapeKind::T, shadow });

        TetrominoShape(
            // North
            [
                [None, t, None, None],
                [t, t, t, None],
                [None, None, None, None],
                [None, None, None, None],
            ],
            // East
            [
                [None, t, None, None],
                [None, t, t, None],
                [None, t, None, None],
                [None, None, None, None],
            ],
            // South
            [
                [None, None, None, None],
                [t, t, t, None],
                [None, t, None, None],
                [None, None, None, None],
            ],
            // West
            [
                [None, t, None, None],
                [t, t, None, None],
                [None, t, None, None],
                [None, None, None, None],
            ],
        )
    }

    fn create_z(shadow: bool) -> (s: TetrominoShape)
        ensures
            shape_cells(s, ShapeKind::Z, shadow),
    {
        let z = Some(Block { kind: ShapeKind::Z, shadow });

        TetrominoShape(
            // North
            [
                [z, z, None, None],
                [None, z, z, None],
                [None, None, None, None],
                [None, None, None, None],
            ],
            // East
            [
                [None, None, None, z],
                [None, None, z, z],
                [None, None, z, None],
                [None, None, None, None],
            ],
            // South
            [
                [None, None, None, None],
                [z, z, None, None],
                [None, z, z, None],
                [None, None, None, None],
            ],
            // West
            [
                [None, z, None, None],
                [z, z, None, None],
                [z, None, None, None],
                [None, None, None, None],
            ],
        )
    }
}

} // verus!
