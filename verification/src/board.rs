//! The 6x6 board: per-cell routing tiles, stack heights, tile identifiers,
//! placement validation and the edge-to-edge signal traversal.

use crate::game::PasstallyError;
use crate::piece::{PartialPiece, PositionedPiece, RotatedPartialPiece, Side};
use vstd::prelude::*;

verus! {

/// Position on the board. `x` and `y` are `0..=5` when on the board;
/// `(0, 0)` is the top-left corner, `x` grows rightward, `y` downward.
#[derive(Copy, Clone, Debug, PartialEq, Eq, Structural)]
pub struct BoardPosition {
    pub x: i8,
    pub y: i8,
}

impl BoardPosition {
    pub open spec fn spec_valid(self) -> bool {
        0 <= self.x <= 5 && 0 <= self.y <= 5
    }

    pub open spec fn spec_on_edge(self) -> bool {
        self.x == 0 || self.y == 0 || self.x == 5 || self.y == 5
    }

    pub fn new(x: i8, y: i8) -> (r: BoardPosition)
        ensures
            r == (BoardPosition { x, y }),
    {
        BoardPosition { x, y }
    }

    /// Whether both coordinates lie within the board.
    pub fn valid(&self) -> (r: bool)
        ensures
            r == self.spec_valid(),
    {
        self.x <= 5 && self.x >= 0 && self.y <= 5 && self.y >= 0
    }

    /// Whether the position lies on the outermost ring of the board.
    pub fn on_edge(&self) -> (r: bool)
        ensures
            r == self.spec_on_edge(),
    {
        self.x == 0 || self.y == 0 || self.x == 5 || self.y == 5
    }

    /// Componentwise addition.
    pub fn add(self, rhs: BoardPosition) -> (r: BoardPosition)
        requires
            i8::MIN <= self.x + rhs.x <= i8::MAX,
            i8::MIN <= self.y + rhs.y <= i8::MAX,
        ensures
            r.x == self.x + rhs.x,
            r.y == self.y + rhs.y,
    {
        BoardPosition { x: self.x + rhs.x, y: self.y + rhs.y }
    }
}

/// The flat index of cell `(x, y)` in the row of columns: column `x` holds
/// the six cells `x * 6` through `x * 6 + 5`.
pub open spec fn cell(x: int, y: int) -> int {
    x * 6 + y
}

/// The mathematical state of a board: the exposed routing tile, tile
/// identifier and stack height of each of the 36 cells, and the identifier
/// for the next placement.
#[verifier::ext_equal]
pub struct BoardView {
    pub tops: Seq<RotatedPartialPiece>,
    pub ids: Seq<u32>,
    pub heights: Seq<u32>,
    pub next_id: u32,
}

impl BoardView {
    /// Well-formedness: 36 cells per grid, every exposed tile's rotation
    /// within a full turn, and every height below `next_id` (each placement
    /// covering a cell also bumped the counter).
    pub open spec fn wf(self) -> bool {
        &&& self.tops.len() == 36
        &&& self.ids.len() == 36
        &&& self.heights.len() == 36
        &&& self.next_id >= 1
        &&& forall|i: int| 0 <= i < 36 ==> (#[trigger] self.tops[i]).wf()
        &&& forall|i: int| 0 <= i < 36 ==> (#[trigger] self.heights[i]) < self.next_id
    }

    /// The board before any placement: every cell shows an unrotated
    /// straight-through tile, is bare, and has height zero.
    pub open spec fn empty() -> BoardView {
        BoardView {
            tops: Seq::new(
                36,
                |i: int| RotatedPartialPiece {
                    partial_piece: PartialPiece::TopBottom_LeftRight,
                    rotation: 0,
                },
            ),
            ids: Seq::new(36, |i: int| 0u32),
            heights: Seq::new(36, |i: int| 0u32),
            next_id: 1,
        }
    }
}

/// What placing `piece` on board `b` does: the first failed check wins, and
/// on success both cells gain one height, share the freshly stamped
/// identifier, and expose the piece's two rotated shapes.
pub open spec fn spec_place_piece(b: BoardView, piece: PositionedPiece) -> Result<
    BoardView,
    PasstallyError,
> {
    let (p1, p2) = piece.spec_positions();
    if !p1.spec_valid() {
        Err(PasstallyError::InvalidPosition(p1))
    } else if !p2.spec_valid() {
        Err(PasstallyError::InvalidPosition(p2))
    } else {
        let i1 = cell(p1.x as int, p1.y as int);
        let i2 = cell(p2.x as int, p2.y as int);
        if b.heights[i1] != b.heights[i2] {
            Err(PasstallyError::BadHeight)
        } else if b.ids[i1] != 0 && b.ids[i2] != 0 && b.ids[i1] == b.ids[i2] {
            Err(PasstallyError::BadPiece)
        } else {
            let (rp1, rp2) = piece.spec_rotated_partial_pieces();
            Ok(
                BoardView {
                    tops: b.tops.update(i1, rp1).update(i2, rp2),
                    ids: b.ids.update(i1, b.next_id).update(i2, b.next_id),
                    heights: b.heights.update(i1, (b.heights[i1] + 1) as u32).update(
                        i2,
                        (b.heights[i2] + 1) as u32,
                    ),
                    next_id: (b.next_id + 1) as u32,
                },
            )
        }
    }
}

/// The one-cell offset a signal takes when it leaves a cell through `exit`.
pub open spec fn spec_step_offset(exit: Side) -> (int, int) {
    match exit {
        Side::Top => (0, -1),
        Side::Bottom => (0, 1),
        Side::Left => (-1, 0),
        Side::Right => (1, 0),
    }
}

/// Bound on traversal steps; larger than the 144 possible cell/side states,
/// so a traversal that runs this long has revisited a state and cycles.
pub const TRACE_FUEL: u32 = 256;

/// One signal trace: from `pos`, entered at `side`, follow the routing tiles
/// until reaching an edge cell other than `entry` (the start always counts as
/// "not yet arrived"). `None` when the signal leaves the grid without
/// stopping on the edge ring or when `fuel` runs out.
pub open spec fn spec_trace(
    b: BoardView,
    entry: BoardPosition,
    pos: BoardPosition,
    side: Side,
    fuel: nat,
) -> Option<BoardPosition>
    decreases fuel,
{
    if pos != entry && pos.spec_on_edge() {
        Some(pos)
    } else if fuel == 0 {
        None
    } else if !pos.spec_valid() {
        None
    } else {
        let exit = b.tops[cell(pos.x as int, pos.y as int)].spec_pass(side);
        let (dx, dy) = spec_step_offset(exit);
        let next = BoardPosition { x: (pos.x + dx) as i8, y: (pos.y + dy) as i8 };
        spec_trace(b, entry, next, exit.spec_opposite(), (fuel - 1) as nat)
    }
}

/// Where a signal entering the board at `entry` from `side` comes out.
pub open spec fn spec_enter(b: BoardView, entry: BoardPosition, side: Side) -> Option<
    BoardPosition,
> {
    spec_trace(b, entry, entry, side, TRACE_FUEL as nat)
}

/// The 6x6 grid of placed pipe-tiles: per cell the currently exposed routing
/// tile, the identifier of the piece instance occupying it, and the stack
/// height, plus the monotonically increasing identifier counter.
pub struct Board {
    top_pieces: Vec<RotatedPartialPiece>,  // Used to direct lines
    tile_id: Vec<u32>,  // Used to tell when you are moving from one piece to another
    next_id: u32,  // Id of the next piece, assured to be unique
    height: Vec<u32>,  // Height of specific partial piece, used to calculate score
}

impl View for Board {
    type V = BoardView;

    closed spec fn view(&self) -> BoardView {
        BoardView {
            tops: self.top_pieces@,
            ids: self.tile_id@,
            heights: self.height@,
            next_id: self.next_id,
        }
    }
}

impl Board {
    pub open spec fn wf(self) -> bool {
        self@.wf()
    }

    pub fn new() -> (b: Board)
        ensures
            b@ == BoardView::empty(),
            b.wf(),
    {
        let mut top_pieces: Vec<RotatedPartialPiece> = Vec::new();
        let mut tile_id: Vec<u32> = Vec::new();
        let mut height: Vec<u32> = Vec::new();
        for i in 0..36
            invariant
                top_pieces@.len() == i,
                tile_id@.len() == i,
                height@.len() == i,
                forall|j: int| 0 <= j < i ==> top_pieces@[j] == (RotatedPartialPiece {
                    partial_piece: PartialPiece::TopBottom_LeftRight,
                    rotation: 0u8,
                }),
                forall|j: int| 0 <= j < i ==> tile_id@[j] == 0u32,
                forall|j: int| 0 <= j < i ==> height@[j] == 0u32,
        {
            top_pieces.push(
                RotatedPartialPiece::new(PartialPiece::TopBottom_LeftRight, 0),
            );
            tile_id.push(0);
            height.push(0);
        }
        let b = Board { top_pieces, tile_id, next_id: 1, height };
        proof {
            assert(b@ =~= BoardView::empty());
        }
        b
    }

    /// The flat index of an on-board position.
    fn grid_index(i: BoardPosition) -> (r: usize)
        requires
            i.spec_valid(),
        ensures
            r as int == cell(i.x as int, i.y as int),
            r < 36,
    {
        (i.x as usize) * 6 + (i.y as usize)
    }

    /// The routing tile currently exposed at cell `i`.
    pub fn top_piece(&self, i: BoardPosition) -> (r: RotatedPartialPiece)
        requires
            self.wf(),
            i.spec_valid(),
        ensures
            r == self@.tops[cell(i.x as int, i.y as int)],
            r.wf(),
    {
        self.top_pieces[Self::grid_index(i)]
    }

    /// The identifier of the piece instance occupying cell `i`; 0 for the
    /// bare board.
    pub fn tile_id(&self, i: BoardPosition) -> (r: u32)
        requires
            self.wf(),
            i.spec_valid(),
        ensures
            r == self@.ids[cell(i.x as int, i.y as int)],
    {
        self.tile_id[Self::grid_index(i)]
    }

    /// The number of pieces ever placed covering cell `i`.
    pub fn height(&self, i: BoardPosition) -> (r: u32)
        requires
            self.wf(),
            i.spec_valid(),
        ensures
            r == self@.heights[cell(i.x as int, i.y as int)],
    {
        self.height[Self::grid_index(i)]
    }

    /// A copy of the board with the same state, used to roll a turn back.
    pub fn snapshot(&self) -> (b: Board)
        ensures
            b@ == self@,
    {
        let top_pieces = self.top_pieces.clone();
        let tile_id = self.tile_id.clone();
        let height = self.height.clone();
        proof {
            assert(top_pieces@ =~= self.top_pieces@);
            assert(tile_id@ =~= self.tile_id@);
            assert(height@ =~= self.height@);
        }
        Board { top_pieces, tile_id, next_id: self.next_id, height }
    }

    /// Validates and performs one placement; on any failure the board is
    /// untouched.
    pub fn place_piece(&mut self, piece: PositionedPiece) -> (r: Result<(), PasstallyError>)
        requires
            old(self).wf(),
            piece.wf(),
            old(self)@.next_id < u32::MAX,
        ensures
            final(self).wf(),
            match r {
                Ok(()) => spec_place_piece(old(self)@, piece) == Ok::<_, PasstallyError>(
                    final(self)@,
                ),
                Err(e) => final(self)@ == old(self)@ && spec_place_piece(old(self)@, piece)
                    == Err::<BoardView, _>(e),
            },
    {
        // Assert position is within board. The first cell is checked before
        // the second cell is even computed, so the offset arithmetic cannot
        // leave the i8 range.
        let pos1 = piece.position;
        if !pos1.valid() {
            return Err(PasstallyError::InvalidPosition(pos1));
        }
        let (pos1, pos2) = piece.positions();
        if !pos2.valid() {
            return Err(PasstallyError::InvalidPosition(pos2));
        }
        let idx1 = Self::grid_index(pos1);
        let idx2 = Self::grid_index(pos2);

        // Assert height for the positions are the same.
        let h1 = self.height[idx1];
        let h2 = self.height[idx2];
        if h1 != h2 {
            return Err(PasstallyError::BadHeight);
        }

        // Assert the pieces we're placing the piece on are different. But
        // only if they aren't the board, i.e. we aren't placing this piece
        // directly ontop of another one.
        let id1 = self.tile_id[idx1];
        let id2 = self.tile_id[idx2];
        if id1 != 0 && id2 != 0 && id1 == id2 {
            return Err(PasstallyError::BadPiece);
        }

        // This is a valid move, so we do it
        self.height.set(idx1, h1 + 1);
        self.height.set(idx2, h2 + 1);

        self.tile_id.set(idx1, self.next_id);
        self.tile_id.set(idx2, self.next_id);
        self.next_id = self.next_id + 1;

        let (piece1, piece2) = piece.rotated_partial_pieces();
        self.top_pieces.set(idx1, piece1);
        self.top_pieces.set(idx2, piece2);

        Ok(())
    }

    /// Traces a signal entering the board at `entry` from `side` cell by
    /// cell until it exits at an edge cell, and returns that cell. `None`
    /// when the signal escapes the grid past the edge ring or fails to
    /// settle within `TRACE_FUEL` steps (a closed pipe loop).
    pub fn enter(&self, entry: BoardPosition, side: Side) -> (r: Option<BoardPosition>)
        requires
            self.wf(),
            entry.spec_valid(),
        ensures
            r == spec_enter(self@, entry, side),
    {
        let mut pos = entry;
        let mut enter_side = side;
        let mut fuel: u32 = TRACE_FUEL;
        while pos == entry || !pos.on_edge()
            invariant
                self.wf(),
                spec_trace(self@, entry, pos, enter_side, fuel as nat) == spec_enter(
                    self@,
                    entry,
                    side,
                ),
            decreases fuel,
        {
            if fuel == 0 {
                return None;
            }
            if !pos.valid() {
                return None;
            }
            // Where does this piece take us?
            let exit_side = self.top_piece(pos).pass(enter_side);
            // Calculate delta_position
            let delta_position: (i8, i8) = match exit_side {
                Side::Top => (0, -1),
                Side::Bottom => (0, 1),
                Side::Left => (-1, 0),
                Side::Right => (1, 0),
            };
            pos = BoardPosition { x: pos.x + delta_position.0, y: pos.y + delta_position.1 };
            // Next enter side is the opposite of exit side
            enter_side = exit_side.opposite();
            fuel = fuel - 1;
        }
        Some(pos)
    }
}

impl Default for Board {
    /// The board before any placement.
    fn default() -> (b: Board)
        ensures
            b@ == BoardView::empty(),
            b.wf(),
    {
        Board::new()
    }
}

} // verus!
