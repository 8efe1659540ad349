//! The playing field: the permanent cell matrix, the transient per-frame
//! overlay (active piece plus optional ghost), lock-in of a piece, and
//! line-clear compaction.

use vstd::prelude::*;

use crate::block::Block;
use crate::config::Config;
use crate::tetromino::{blocks_clear, field_wf, grid_view, occ, Layout, Tetromino};

verus! {

/// The field cells that layout `b`, anchored at `(ax, ay)`, occupies.
pub open spec fn cells_at(b: Layout, ay: int, ax: int, gr: int, gc: int) -> bool {
    exists|r: int, c: int| #[trigger] occ(b, r, c) && gr == ay + r && gc == ax + c
}

/// The block that layout `b`, anchored at `(ax, ay)`, puts on field cell
/// `(gr, gc)` (meaningful where `cells_at` holds).
pub open spec fn cell_block(b: Layout, ay: int, ax: int, gr: int, gc: int) -> Option<Block> {
    b[gr - ay][gc - ax]
}

/// The field cells the piece's occupied cells lie on.
pub open spec fn covers(t: Tetromino, gr: int, gc: int) -> bool {
    cells_at(t.blocks, t.y as int, t.x as int, gr, gc)
}

/// The block the piece puts on field cell `(gr, gc)`.
pub open spec fn cover_block(t: Tetromino, gr: int, gc: int) -> Option<Block> {
    cell_block(t.blocks, t.y as int, t.x as int, gr, gc)
}

/// The field cells the piece's shadow lies on once the piece has dropped
/// to row `ly`.
pub open spec fn shadow_covers(t: Tetromino, ly: int, gr: int, gc: int) -> bool {
    cells_at(t.shadow, ly, t.x as int, gr, gc)
}

/// The shadow block the dropped piece puts on field cell `(gr, gc)`.
pub open spec fn shadow_cover_block(t: Tetromino, ly: int, gr: int, gc: int) -> Option<Block> {
    cell_block(t.shadow, ly, t.x as int, gr, gc)
}

/// `ly` is the row at which the piece, dropped straight down from its
/// current position, comes to rest: every intermediate position is clear
/// and one further step down is not.
pub open spec fn is_landing_y(t: Tetromino, g: Seq<Seq<Option<Block>>>, ly: int) -> bool {
    &&& t.y <= ly <= 21
    &&& !blocks_clear(t.blocks, g, t.x as int, ly + 1)
    &&& forall|yy: int| t.y < yy <= ly ==> blocks_clear(t.blocks, g, t.x as int, yy)
}

/// What one frame's overlay holds: the live piece's blocks on the cells
/// it covers; where the ghost is enabled, the shadow blocks on the cells
/// the piece would cover after falling to `ly` (the live piece taking
/// precedence); nothing anywhere else.
pub open spec fn overlay_cells(
    t: Tetromino,
    ov: Seq<Seq<Option<Block>>>,
    shadow_enabled: bool,
    ly: int,
) -> bool {
    forall|gr: int, gc: int| 0 <= gr < 22 && 0 <= gc < 10 ==> #[trigger] ov[gr][gc] == (if covers(
        t,
        gr,
        gc,
    ) {
        cover_block(t, gr, gc)
    } else if shadow_enabled && shadow_covers(t, ly, gr, gc) {
        shadow_cover_block(t, ly, gr, gc)
    } else {
        None
    })
}

/// The field after a piece is locked in: the piece's blocks on the cells
/// it covers, the previous contents everywhere else.
pub open spec fn stored_cells(
    pre: Seq<Seq<Option<Block>>>,
    post: Seq<Seq<Option<Block>>>,
    t: Tetromino,
) -> bool {
    forall|gr: int, gc: int| 0 <= gr < 22 && 0 <= gc < 10 ==> #[trigger] post[gr][gc] == (if covers(
        t,
        gr,
        gc,
    ) {
        cover_block(t, gr, gc)
    } else {
        pre[gr][gc]
    })
}

/// A row with a block in every column.
pub open spec fn row_complete(row: Seq<Option<Block>>) -> bool {
    row.len() == 10 && forall|c: int| 0 <= c < 10 ==> (#[trigger] row[c]) is Some
}

/// A row with no block in any column.
pub open spec fn row_empty(row: Seq<Option<Block>>) -> bool {
    row.len() == 10 && forall|c: int| 0 <= c < 10 ==> (#[trigger] row[c]) is None
}

/// The rows that survive a line clear, in their original top-to-bottom
/// order: exactly those that are not complete.
pub open spec fn kept_rows(g: Seq<Seq<Option<Block>>>) -> Seq<Seq<Option<Block>>> {
    g.filter(|row: Seq<Option<Block>>| !row_complete(row))
}

/// A row of ten empty cells, as a sequence.
pub open spec fn empty_row_view() -> Seq<Option<Block>> {
    Seq::new(10, |c: int| None::<Block>)
}

/// The field after a piece is locked in, as a function of the field and
/// the piece.
pub open spec fn stored_view(pre: Seq<Seq<Option<Block>>>, t: Tetromino) -> Seq<
    Seq<Option<Block>>,
> {
    Seq::new(
        22,
        |gr: int|
            Seq::new(
                10,
                |gc: int|
                    if covers(t, gr, gc) {
                        cover_block(t, gr, gc)
                    } else {
                        pre[gr][gc]
                    },
            ),
    )
}

/// How many rows of `g` are complete.
pub open spec fn spec_cleared_count(g: Seq<Seq<Option<Block>>>) -> int {
    22 - kept_rows(g).len()
}

/// The field after line-clear compaction: the surviving rows at the
/// bottom in their original order, freshly emptied rows above them.
pub open spec fn cleared_view(g: Seq<Seq<Option<Block>>>) -> Seq<Seq<Option<Block>>> {
    Seq::new(
        22,
        |r: int|
            if r < spec_cleared_count(g) {
                empty_row_view()
            } else {
                kept_rows(g)[r - spec_cleared_count(g)]
            },
    )
}

/// `(r, c)` comes strictly before `(rl, cl)` in row-major scan order.
spec fn lex_before(r: int, c: int, rl: int, cl: int) -> bool {
    r < rl || (r == rl && c < cl)
}

/// `cells_at`, restricted to the layout cells scanned before `(rl, cl)`.
spec fn cells_upto(b: Layout, ay: int, ax: int, gr: int, gc: int, rl: int, cl: int) -> bool {
    exists|r: int, c: int| #[trigger] occ(b, r, c) && lex_before(r, c, rl, cl) && gr == ay + r
        && gc == ax + c
}

/// Scanning one occupied cell extends the painted region by exactly that
/// cell's target.
proof fn lemma_cells_upto_step(b: Layout, ay: int, ax: int, rl: int, cl: int)
    requires
        0 <= rl < 4,
        0 <= cl < 4,
    ensures
        forall|gr: int, gc: int| #[trigger] cells_upto(b, ay, ax, gr, gc, rl, cl + 1) <==> (
        cells_upto(b, ay, ax, gr, gc, rl, cl) || (occ(b, rl, cl) && gr == ay + rl && gc == ax
            + cl)),
{
    assert forall|gr: int, gc: int| #[trigger] cells_upto(b, ay, ax, gr, gc, rl, cl + 1) implies (
    cells_upto(b, ay, ax, gr, gc, rl, cl) || (occ(b, rl, cl) && gr == ay + rl && gc == ax
        + cl)) by {
        let (r, c) = choose|r: int, c: int| #[trigger] occ(b, r, c) && lex_before(r, c, rl, cl + 1)
            && gr == ay + r && gc == ax + c;
        if r == rl && c == cl {
        } else {
            assert(lex_before(r, c, rl, cl));
        }
    }
}

/// After the whole 4x4 box is scanned, the painted region is the whole
/// footprint of the layout.
proof fn lemma_cells_upto_full(b: Layout, ay: int, ax: int)
    ensures
        forall|gr: int, gc: int| #[trigger] cells_upto(b, ay, ax, gr, gc, 4, 0) <==> cells_at(
            b,
            ay,
            ax,
            gr,
            gc,
        ),
{
    assert forall|gr: int, gc: int| #[trigger] cells_at(b, ay, ax, gr, gc) implies cells_upto(
        b,
        ay,
        ax,
        gr,
        gc,
        4,
        0,
    ) by {
        let (r, c) = choose|r: int, c: int| #[trigger] occ(b, r, c) && gr == ay + r && gc == ax
            + c;
        assert(lex_before(r, c, 4, 0));
    }
}

/// Two landing rows for the same piece on the same field are the same row.
pub(crate) proof fn lemma_landing_unique(t: Tetromino, g: Seq<Seq<Option<Block>>>, ly1: int, ly2: int)
    requires
        is_landing_y(t, g, ly1),
        is_landing_y(t, g, ly2),
    ensures
        ly1 == ly2,
{
    if ly1 < ly2 {
        assert(blocks_clear(t.blocks, g, t.x as int, ly1 + 1));
        assert(false);
    }
    if ly2 < ly1 {
        assert(blocks_clear(t.blocks, g, t.x as int, ly2 + 1));
        assert(false);
    }
}

pub struct Grid {
    /// The permanent cells: a cell is occupied iff a locked block is there.
    pub boxes: Vec<Vec<Option<Block>>>,
    /// The transient render layer, rebuilt from the active piece each tick.
    pub overlay: Vec<Vec<Option<Block>>>,
}

impl Grid {
    /// Both layers are full 22x10 matrices.
    pub open spec fn wf(self) -> bool {
        field_wf(grid_view(&self.boxes)) && field_wf(grid_view(&self.overlay))
    }

    /// A fresh, empty field.
    pub fn new() -> (g: Grid)
        ensures
            g.wf(),
            forall|r: int| 0 <= r < 22 ==> row_empty(#[trigger] grid_view(&g.boxes)[r]),
            forall|r: int| 0 <= r < 22 ==> row_empty(#[trigger] grid_view(&g.overlay)[r]),
    {
        Grid { boxes: Self::empty_field(), overlay: Self::empty_field() }
    }

    /// A row of ten empty cells.
    fn empty_row() -> (row: Vec<Option<Block>>)
        ensures
            row@.len() == 10,
            row_empty(row@),
    {
        let mut row: Vec<Option<Block>> = Vec::new();
        for c in 0..10usize
            invariant
                row@.len() == c,
                forall|i: int| 0 <= i < c ==> (#[trigger] row@[i]) is None,
        {
            row.push(None);
        }
        row
    }

    /// Twenty-two empty rows.
    fn empty_field() -> (g: Vec<Vec<Option<Block>>>)
        ensures
            field_wf(grid_view(&g)),
            forall|r: int| 0 <= r < 22 ==> row_empty(#[trigger] grid_view(&g)[r]),
    {
        let mut g: Vec<Vec<Option<Block>>> = Vec::new();
        for r in 0..22usize
            invariant
                g@.len() == r,
                forall|i: int| 0 <= i < r ==> (#[trigger] g@[i])@.len() == 10 && row_empty(
                    g@[i]@,
                ),
        {
            g.push(Self::empty_row());
        }
        g
    }

    /// Writes `v` into cell `(gy, gx)` of the matrix, leaving every other
    /// cell as it was.
    fn set_cell(g: &mut Vec<Vec<Option<Block>>>, gy: usize, gx: usize, v: Option<Block>)
        requires
            field_wf(grid_view(old(g))),
            gy < 22,
            gx < 10,
        ensures
            field_wf(grid_view(final(g))),
            forall|r: int, c: int| 0 <= r < 22 && 0 <= c < 10 ==> #[trigger] grid_view(
                final(g),
            )[r][c] == (if r == gy as int && c == gx as int {
                v
            } else {
                grid_view(old(g))[r][c]
            }),
    {
        proof {
            assert(grid_view(old(g))[gy as int].len() == 10);
        }
        g[gy][gx] = v;
        proof {
            assert forall|r: int| 0 <= r < 22 implies (#[trigger] grid_view(&*g)[r]).len()
                == 10 by {
                assert(grid_view(&*g)[r] == g@[r]@);
                assert(grid_view(old(g))[r] == old(g)@[r]@);
                assert(grid_view(old(g))[r].len() == 10);
            }
            assert forall|r: int, c: int| 0 <= r < 22 && 0 <= c < 10 implies #[trigger] grid_view(
                &*g,
            )[r][c] == (if r == gy as int && c == gx as int {
                v
            } else {
                grid_view(old(g))[r][c]
            }) by {
                assert(grid_view(&*g)[r] == g@[r]@);
                assert(grid_view(old(g))[r] == old(g)@[r]@);
            }
        }
    }

    /// Replaces row `r` of the matrix by `row`.
    fn set_row(g: &mut Vec<Vec<Option<Block>>>, r: usize, row: Vec<Option<Block>>)
        requires
            field_wf(grid_view(old(g))),
            r < 22,
            row@.len() == 10,
        ensures
            field_wf(grid_view(final(g))),
            grid_view(final(g)) == grid_view(old(g)).update(r as int, row@),
    {
        g[r] = row;
        proof {
            assert(grid_view(&*g) =~= grid_view(old(g)).update(r as int, row@));
        }
    }

    /// Paints layout `b`, anchored at `(ax, ay)`, into the matrix: each
    /// occupied cell of the layout is written to the field cell it lies
    /// on; a cell that falls outside the field is skipped (defensive
    /// clamp, not an error); all other cells keep their contents.
    fn paint_cells(g: &mut Vec<Vec<Option<Block>>>, b: &Layout, ay: i32, ax: i32)
        requires
            field_wf(grid_view(old(g))),
            0 <= ay <= 21,
            -3 <= ax <= 9,
        ensures
            field_wf(grid_view(final(g))),
            forall|gr: int, gc: int| 0 <= gr < 22 && 0 <= gc < 10 ==> #[trigger] grid_view(
                final(g),
            )[gr][gc] == (if cells_at(*b, ay as int, ax as int, gr, gc) {
                cell_block(*b, ay as int, ax as int, gr, gc)
            } else {
                grid_view(old(g))[gr][gc]
            }),
    {
        for r in 0..4usize
            invariant
                field_wf(grid_view(&*g)),
                forall|gr: int, gc: int| 0 <= gr < 22 && 0 <= gc < 10 ==> #[trigger] grid_view(
                    &*g,
                )[gr][gc] == (if cells_upto(*b, ay as int, ax as int, gr, gc, r as int, 0) {
                    cell_block(*b, ay as int, ax as int, gr, gc)
                } else {
                    grid_view(old(g))[gr][gc]
                }),
        {
            for c in 0..4usize
                invariant
                    field_wf(grid_view(&*g)),
                    forall|gr: int, gc: int| 0 <= gr < 22 && 0 <= gc < 10 ==> #[trigger] grid_view(
                        &*g,
                    )[gr][gc] == (if cells_upto(
                        *b,
                        ay as int,
                        ax as int,
                        gr,
                        gc,
                        r as int,
                        c as int,
                    ) {
                        cell_block(*b, ay as int, ax as int, gr, gc)
                    } else {
                        grid_view(old(g))[gr][gc]
                    }),
            {
                let ghost pre_step = grid_view(&*g);
                if let Some(block) = b[r][c] {
                    proof {
                        assert(occ(*b, r as int, c as int));
                    }
                    let gx = ax + c as i32;
                    let gy = ay + r as i32;
                    if gx >= 0 && gx < 10 && gy >= 0 && gy < 22 {
                        Self::set_cell(g, gy as usize, gx as usize, Some(block));
                    }
                }
                proof {
                    lemma_cells_upto_step(*b, ay as int, ax as int, r as int, c as int);
                    if occ(*b, r as int, c as int) {
                        assert(cell_block(*b, ay as int, ax as int, ay + r, ax + c) == b[
                            r as int][c as int]);
                    }
                    assert forall|gr: int, gc: int| 0 <= gr < 22 && 0 <= gc < 10 implies
                        #[trigger] grid_view(&*g)[gr][gc] == (if cells_upto(
                        *b,
                        ay as int,
                        ax as int,
                        gr,
                        gc,
                        r as int,
                        c + 1,
                    ) {
                        cell_block(*b, ay as int, ax as int, gr, gc)
                    } else {
                        grid_view(old(g))[gr][gc]
                    }) by {
                        if !(occ(*b, r as int, c as int) && gr == ay + r && gc == ax + c) {
                            assert(grid_view(&*g)[gr][gc] == pre_step[gr][gc]);
                        }
                    }
                }
            }
        }
        proof {
            lemma_cells_upto_full(*b, ay as int, ax as int);
        }
    }

    /// Rebuilds the overlay from the active piece: clears it, then writes
    /// the ghost blocks at the piece's landing position (shadow first,
    /// where enabled), then the live piece's blocks on top.
    pub fn apply_tetromino(&mut self, tetromino: &Tetromino, config: &Config)
        requires
            old(self).wf(),
            tetromino.wf(),
            config.wf(),
        ensures
            final(self).wf(),
            final(self).boxes == old(self).boxes,
            !config.shadow_enabled ==> overlay_cells(
                *tetromino,
                grid_view(&final(self).overlay),
                false,
                0,
            ),
            config.shadow_enabled ==> forall|ly: int| is_landing_y(
                *tetromino,
                grid_view(&old(self).boxes),
                ly,
            ) ==> overlay_cells(*tetromino, grid_view(&final(self).overlay), true, ly),
    {
        // Clear the overlay.
        self.overlay = Self::empty_field();

        let ghost painted_ly: int = 0;

        // Where the ghost is enabled, write the shadow blocks where the
        // piece would come to rest, before the live piece so that the
        // live piece takes visual precedence.
        if config.shadow_enabled {
            let (shadow_x, shadow_y) = tetromino.find_landing_xy(&self.boxes);
            proof {
                painted_ly = shadow_y as int;
            }
            Self::paint_cells(&mut self.overlay, &tetromino.shadow, shadow_y, shadow_x);
        }
        let ghost mid = grid_view(&self.overlay);

        // Write the live piece's blocks into the overlay.
        Self::paint_cells(&mut self.overlay, &tetromino.blocks, tetromino.y, tetromino.x);

        proof {
            if config.shadow_enabled {
                assert(is_landing_y(*tetromino, grid_view(&old(self).boxes), painted_ly));
                assert forall|ly: int| is_landing_y(
                    *tetromino,
                    grid_view(&old(self).boxes),
                    ly,
                ) implies overlay_cells(
                    *tetromino,
                    grid_view(&self.overlay),
                    true,
                    ly,
                ) by {
                    lemma_landing_unique(
                        *tetromino,
                        grid_view(&old(self).boxes),
                        ly,
                        painted_ly,
                    );
                }
            }
        }
    }

    /// Permanently copies the active piece's occupied cells into the
    /// field at the same coordinates.
    pub fn store_tetromino(&mut self, tetromino: &Tetromino)
        requires
            old(self).wf(),
            tetromino.wf(),
        ensures
            final(self).wf(),
            final(self).overlay == old(self).overlay,
            stored_cells(grid_view(&old(self).boxes), grid_view(&final(self).boxes), *tetromino),
    {
        Self::paint_cells(&mut self.boxes, &tetromino.blocks, tetromino.y, tetromino.x);
    }

    /// Whether every column of `row` holds a block.
    fn row_is_complete(row: &Vec<Option<Block>>) -> (b: bool)
        requires
            row@.len() == 10,
        ensures
            b == row_complete(row@),
    {
        for c in 0..10usize
            invariant
                forall|i: int| 0 <= i < c ==> (#[trigger] row@[i]) is Some,
        {
            if row[c].is_none() {
                proof {
                    assert(row@[c as int] is None);
                }
                return false;
            }
        }
        true
    }

    /// A copy of `src` by value.
    fn clone_row(src: &Vec<Option<Block>>) -> (row: Vec<Option<Block>>)
        ensures
            row@ == src@,
    {
        let mut row: Vec<Option<Block>> = Vec::new();
        let n = src.len();
        for i in 0..n
            invariant
                n == src@.len(),
                row@ == src@.subrange(0, i as int),
        {
            row.push(src[i]);
            proof {
                assert(row@ =~= src@.subrange(0, i + 1));
            }
        }
        proof {
            assert(row@ =~= src@);
        }
        row
    }

    /// Removes every complete row, shifting the rows above each one down
    /// while keeping their relative order, and leaves freshly emptied
    /// rows at the top. Returns how many rows were removed.
    pub fn remove_complete_lines(&mut self, config: &Config) -> (cleared: u32)
        requires
            old(self).wf(),
            config.wf(),
        ensures
            final(self).wf(),
            final(self).overlay == old(self).overlay,
            cleared as int == 22 - kept_rows(grid_view(&old(self).boxes)).len(),
            grid_view(&final(self).boxes).subrange(cleared as int, 22) == kept_rows(
                grid_view(&old(self).boxes),
            ),
            forall|r: int| 0 <= r < cleared ==> row_empty(
                #[trigger] grid_view(&final(self).boxes)[r],
            ),
    {
        let ghost pre = grid_view(&old(self).boxes);
        let ghost pred = |row: Seq<Option<Block>>| !row_complete(row);

        let rows = config.grid_size.1 as usize;
        let mut cleared: u32 = 0;
        let mut w: usize = rows;
        let mut y: usize = rows;

        proof {
            assert(pre.subrange(22, 22) =~= Seq::<Seq<Option<Block>>>::empty());
            reveal_with_fuel(Seq::filter, 2);
        }

        while y > 0
            invariant
                rows == 22,
                self.wf(),
                self.overlay == old(self).overlay,
                y <= w <= 22,
                w as int == 22 - pre.subrange(y as int, 22).filter(pred).len(),
                cleared as int == (22 - y) - pre.subrange(y as int, 22).filter(pred).len(),
                grid_view(&self.boxes).subrange(w as int, 22) == pre.subrange(
                    y as int,
                    22,
                ).filter(pred),
                forall|i: int| 0 <= i < y ==> #[trigger] grid_view(&self.boxes)[i] == pre[i],
            decreases y,
        {
            let ghost tail_kept = pre.subrange(y as int, 22).filter(pred);
            y = y - 1;

            proof {
                assert(grid_view(&self.boxes)[y as int] == pre[y as int]);
                assert(grid_view(&self.boxes)[y as int].len() == 10);
                assert(pre.subrange(y as int, 22) =~= seq![pre[y as int]] + pre.subrange(
                    y + 1,
                    22,
                ));
                Seq::filter_distributes_over_add(
                    seq![pre[y as int]],
                    pre.subrange(y + 1, 22),
                    pred,
                );
                reveal_with_fuel(Seq::filter, 2);
                assert(seq![pre[y as int]].drop_last() =~= Seq::<Seq<Option<Block>>>::empty());
                assert(seq![pre[y as int]].filter(pred) == (if pred(pre[y as int]) {
                    Seq::<Seq<Option<Block>>>::empty().push(pre[y as int])
                } else {
                    Seq::<Seq<Option<Block>>>::empty()
                }));
            }

            let complete = Self::row_is_complete(&self.boxes[y]);

            if !complete {
                w = w - 1;
                let row = Self::clone_row(&self.boxes[y]);
                Self::set_row(&mut self.boxes, w, row);
                proof {
                    assert(seq![pre[y as int]].filter(pred) =~= seq![pre[y as int]]);
                    assert(grid_view(&self.boxes).subrange(w as int, 22) =~= seq![pre[y as int]]
                        + tail_kept);
                    assert(pre.subrange(y as int, 22).filter(pred) =~= seq![pre[y as int]]
                        + tail_kept);
                }
            } else {
                cleared = cleared + 1;
                proof {
                    assert(seq![pre[y as int]].filter(pred) =~= Seq::<Seq<Option<Block>>>::empty());
                    assert(pre.subrange(y as int, 22).filter(pred) =~= tail_kept);
                }
            }
        }

        proof {
            assert(pre.subrange(0, 22) =~= pre);
        }

        // Blank the vacated rows at the top.
        let ghost compacted = grid_view(&self.boxes);
        let mut i: usize = 0;
        while i < w
            invariant
                w <= 22,
                i <= w,
                self.wf(),
                self.overlay == old(self).overlay,
                forall|r: int| 0 <= r < i ==> row_empty(#[trigger] grid_view(&self.boxes)[r]),
                forall|r: int| i <= r < 22 ==> #[trigger] grid_view(&self.boxes)[r] == compacted[r],
            decreases w - i,
        {
            let row = Self::empty_row();
            Self::set_row(&mut self.boxes, i, row);
            i = i + 1;
        }

        proof {
            assert(grid_view(&self.boxes).subrange(cleared as int, 22) =~= compacted.subrange(
                cleared as int,
                22,
            ));
        }

        cleared
    }
}

} // verus!
