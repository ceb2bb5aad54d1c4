//! Geometry of the pipe-routing pieces: board sides, the three pipe shapes,
//! and their composition under clockwise quarter-turn rotation.

use crate::board::BoardPosition;
use vstd::prelude::*;

verus! {

/// One of the four sides of a board cell, in clockwise order starting from
/// the top.
#[derive(Copy, Clone, Debug, PartialEq, Eq, Structural)]
pub enum Side {
    Top,
    Right,
    Bottom,
    Left,
}

/// Ordinal of a side in the clockwise order Top, Right, Bottom, Left.
pub open spec fn side_index(s: Side) -> int {
    match s {
        Side::Top => 0,
        Side::Right => 1,
        Side::Bottom => 2,
        Side::Left => 3,
    }
}

/// The side whose ordinal is `i`; intended for `0 <= i < 4`.
pub open spec fn side_from_index(i: int) -> Side {
    if i == 0 {
        Side::Top
    } else if i == 1 {
        Side::Right
    } else if i == 2 {
        Side::Bottom
    } else {
        Side::Left
    }
}

impl Side {
    /// The side facing this one: Top and Bottom swap, Left and Right swap.
    pub open spec fn spec_opposite(self) -> Side {
        match self {
            Side::Top => Side::Bottom,
            Side::Bottom => Side::Top,
            Side::Left => Side::Right,
            Side::Right => Side::Left,
        }
    }

    /// This side rotated clockwise by `n` quarter-turns.
    pub open spec fn spec_rotate(self, n: int) -> Side {
        side_from_index((side_index(self) + n) % 4)
    }

    pub fn opposite(self) -> (r: Side)
        ensures
            r == self.spec_opposite(),
    {
        match self {
            Side::Top => Side::Bottom,
            Side::Bottom => Side::Top,
            Side::Left => Side::Right,
            Side::Right => Side::Left,
        }
    }

    /// Rotation is clockwise, by `n` quarter-turns, modulo a full turn.
    pub fn rotate(self, n: u8) -> (r: Side)
        ensures
            r == self.spec_rotate(n as int),
    {
        let i: u16 = (self.index() as u16 + n as u16) % 4;
        Side::from_index(i as u8)
    }

    fn index(self) -> (r: u8)
        ensures
            r as int == side_index(self),
    {
        match self {
            Side::Top => 0,
            Side::Right => 1,
            Side::Bottom => 2,
            Side::Left => 3,
        }
    }

    fn from_index(i: u8) -> (r: Side)
        requires
            i < 4,
        ensures
            r == side_from_index(i as int),
    {
        if i == 0 {
            Side::Top
        } else if i == 1 {
            Side::Right
        } else if i == 2 {
            Side::Bottom
        } else {
            Side::Left
        }
    }
}

/// One of the three unrotated pipe shapes a single cell can expose.
#[derive(Copy, Clone, Debug, PartialEq, Eq, Structural)]
#[allow(non_camel_case_types)]
pub enum PartialPiece {
    /// Pipes top to bottom and left to right.
    TopBottom_LeftRight,
    /// Pipes top to left and bottom to right.
    TopLeft_BottomRight,
    /// Pipes top to right and bottom to left.
    TopRight_BottomLeft,
}

impl PartialPiece {
    /// The side a signal leaves from when it enters this shape at `side`.
    pub open spec fn spec_pass(self, side: Side) -> Side {
        match self {
            PartialPiece::TopBottom_LeftRight => side.spec_opposite(),
            PartialPiece::TopLeft_BottomRight => match side {
                Side::Top => Side::Left,
                Side::Left => Side::Top,
                Side::Bottom => Side::Right,
                Side::Right => Side::Bottom,
            },
            PartialPiece::TopRight_BottomLeft => match side {
                Side::Top => Side::Right,
                Side::Right => Side::Top,
                Side::Bottom => Side::Left,
                Side::Left => Side::Bottom,
            },
        }
    }

    /// Returns which side we are leaving from when we pass through this
    /// partial piece.
    pub fn pass(&self, side: Side) -> (r: Side)
        ensures
            r == self.spec_pass(side),
    {
        match self {
            PartialPiece::TopBottom_LeftRight => side.opposite(),
            PartialPiece::TopLeft_BottomRight => match side {
                Side::Top => Side::Left,
                Side::Left => Side::Top,
                Side::Bottom => Side::Right,
                Side::Right => Side::Bottom,
            },
            PartialPiece::TopRight_BottomLeft => match side {
                Side::Top => Side::Right,
                Side::Right => Side::Top,
                Side::Bottom => Side::Left,
                Side::Left => Side::Bottom,
            },
        }
    }
}

/// Every pipe shape's pass mapping is an involution: entering again from the
/// exit side leads back out of the original side.
pub proof fn lemma_pass_involution(p: PartialPiece, s: Side)
    ensures
        p.spec_pass(p.spec_pass(s)) == s,
{
}

/// A pipe shape rotated clockwise by `rotation` quarter-turns, occupying one
/// grid cell.
#[derive(Copy, Clone, Debug, PartialEq, Eq, Structural)]
pub struct RotatedPartialPiece {
    pub partial_piece: PartialPiece,
    pub rotation: u8,
}

impl RotatedPartialPiece {
    /// The rotation amount stays within a single full turn.
    pub open spec fn wf(self) -> bool {
        self.rotation < 4
    }

    /// The side a signal leaves from: rotate the entry side backward into the
    /// shape's local frame, pass through the shape, rotate the exit forward.
    pub open spec fn spec_pass(self, side: Side) -> Side {
        self.partial_piece.spec_pass(side.spec_rotate(4 - self.rotation))
            .spec_rotate(self.rotation as int)
    }

    pub fn new(partial_piece: PartialPiece, rotation: u8) -> (r: RotatedPartialPiece)
        requires
            rotation < 4,
        ensures
            r == (RotatedPartialPiece { partial_piece, rotation }),
            r.wf(),
    {
        RotatedPartialPiece { partial_piece, rotation }
    }

    pub fn pass(&self, side: Side) -> (r: Side)
        requires
            self.wf(),
        ensures
            r == self.spec_pass(side),
    {
        // Rotate into local side
        let local_side = side.rotate(4 - self.rotation);
        // Pass through piece
        let exit_side = self.partial_piece.pass(local_side);
        // Rotate back to global
        exit_side.rotate(self.rotation)
    }
}

/// Rotating by `a` and then by `b` quarter-turns is rotating by `a + b`.
pub proof fn lemma_rotate_compose(s: Side, a: int, b: int)
    requires
        a >= 0,
        b >= 0,
    ensures
        s.spec_rotate(a).spec_rotate(b) == s.spec_rotate(a + b),
{
    let i = side_index(s);
    vstd::arithmetic::div_mod::lemma_add_mod_noop_right(i + a, b, 4);
    assert(side_index(s.spec_rotate(a)) == (i + a) % 4);
    assert(((i + a) % 4 + b) % 4 == (i + a + b) % 4);
}

/// A full turn leaves every side unchanged.
pub proof fn lemma_rotate_full_turn(s: Side, n: int)
    requires
        n % 4 == 0,
        n >= 0,
    ensures
        s.spec_rotate(n) == s,
{
    let i = side_index(s);
    vstd::arithmetic::div_mod::lemma_add_mod_noop_right(i, n, 4);
    assert((i + n) % 4 == i % 4);
}

/// The pass mapping of a rotated pipe shape is an involution for every shape
/// and every rotation amount.
pub proof fn lemma_rotated_pass_involution(rp: RotatedPartialPiece, s: Side)
    requires
        rp.wf(),
    ensures
        rp.spec_pass(rp.spec_pass(s)) == s,
{
    let r = rp.rotation as int;
    let s1 = s.spec_rotate(4 - r);
    let s2 = rp.partial_piece.spec_pass(s1);
    // rp.spec_pass(s) == s2.spec_rotate(r); rotating it back into the local
    // frame undoes the rotation, so the shape sees its own previous exit.
    lemma_rotate_compose(s2, r, 4 - r);
    lemma_rotate_full_turn(s2, 4);
    assert(rp.spec_pass(s).spec_rotate(4 - r) == s2);
    lemma_pass_involution(rp.partial_piece, s1);
    lemma_rotate_compose(s1, 4 - r, r);
    lemma_rotate_full_turn(s1, 4);
}

/// One of the six piece colors. Each color is a fixed pair of pipe shapes
/// occupied by the piece's two cells.
#[derive(Copy, Clone, Debug, PartialEq, Eq, Structural)]
pub enum Piece {
    // A is TopBottom_LeftRight,
    // B is TopLeft_BottomRight,
    // C is TopRight_BottomLeft
    Red,     // A A
    Green,   // B B
    Yellow,  // C C
    Blue,    // A B
    Cyan,    // A C
    Pink,    // C B
}

impl Piece {
    /// The pair of unrotated pipe shapes of this color, first cell then
    /// second cell.
    pub open spec fn spec_partial_pieces(self) -> (PartialPiece, PartialPiece) {
        match self {
            Piece::Red => (PartialPiece::TopBottom_LeftRight, PartialPiece::TopBottom_LeftRight),
            Piece::Green => (PartialPiece::TopLeft_BottomRight, PartialPiece::TopLeft_BottomRight),
            Piece::Yellow => (PartialPiece::TopRight_BottomLeft, PartialPiece::TopRight_BottomLeft),
            Piece::Blue => (PartialPiece::TopBottom_LeftRight, PartialPiece::TopLeft_BottomRight),
            Piece::Cyan => (PartialPiece::TopBottom_LeftRight, PartialPiece::TopRight_BottomLeft),
            Piece::Pink => (PartialPiece::TopRight_BottomLeft, PartialPiece::TopLeft_BottomRight),
        }
    }
}

/// A piece color together with the board position of its first cell and its
/// clockwise rotation in quarter-turns.
#[derive(Copy, Clone, Debug, PartialEq, Eq, Structural)]
pub struct PositionedPiece {
    pub piece: Piece,
    pub rotation: u8,
    pub position: BoardPosition,
}

impl PositionedPiece {
    /// The rotation stays within a single full turn.
    pub open spec fn wf(self) -> bool {
        self.rotation < 4
    }

    /// The offset from the first cell to the second: to the right at rotation
    /// 0, and turning clockwise with the rotation.
    pub open spec fn spec_offset(self) -> (int, int) {
        if self.rotation == 0 {
            (1, 0)
        } else if self.rotation == 1 {
            (0, 1)
        } else if self.rotation == 2 {
            (-1, 0)
        } else {
            (0, -1)
        }
    }

    /// The two cells this piece occupies, first cell then second cell.
    pub open spec fn spec_positions(self) -> (BoardPosition, BoardPosition) {
        let (dx, dy) = self.spec_offset();
        (
            self.position,
            BoardPosition { x: (self.position.x + dx) as i8, y: (self.position.y + dy) as i8 },
        )
    }

    /// The two rotated pipe shapes this piece exposes, first cell then
    /// second cell.
    pub open spec fn spec_rotated_partial_pieces(self) -> (
        RotatedPartialPiece,
        RotatedPartialPiece,
    ) {
        let (first, second) = self.piece.spec_partial_pieces();
        (
            RotatedPartialPiece { partial_piece: first, rotation: self.rotation },
            RotatedPartialPiece { partial_piece: second, rotation: self.rotation },
        )
    }

    pub fn positions(&self) -> (r: (BoardPosition, BoardPosition))
        requires
            self.wf(),
            i8::MIN <= self.position.x + self.spec_offset().0 <= i8::MAX,
            i8::MIN <= self.position.y + self.spec_offset().1 <= i8::MAX,
        ensures
            r == self.spec_positions(),
    {
        let second_position = if self.rotation == 0 {
            // Unrotated pieces are horizontal, and the second part is to the right
            self.position.add(BoardPosition::new(1, 0))
        } else if self.rotation == 1 {
            self.position.add(BoardPosition::new(0, 1))
        } else if self.rotation == 2 {
            self.position.add(BoardPosition::new(-1, 0))
        } else {
            self.position.add(BoardPosition::new(0, -1))
        };
        (self.position, second_position)
    }

    pub fn rotated_partial_pieces(&self) -> (r: (RotatedPartialPiece, RotatedPartialPiece))
        requires
            self.wf(),
        ensures
            r == self.spec_rotated_partial_pieces(),
            r.0.wf(),
            r.1.wf(),
    {
        let (first_piece, second_piece) = self.partial_pieces();
        (
            RotatedPartialPiece::new(first_piece, self.rotation),
            RotatedPartialPiece::new(second_piece, self.rotation),
        )
    }

    pub fn partial_pieces(&self) -> (r: (PartialPiece, PartialPiece))
        ensures
            r == self.piece.spec_partial_pieces(),
    {
        match self.piece {
            Piece::Red => (
                PartialPiece::TopBottom_LeftRight,
                PartialPiece::TopBottom_LeftRight,
            ),
            Piece::Green => (
                PartialPiece::TopLeft_BottomRight,
                PartialPiece::TopLeft_BottomRight,
            ),
            Piece::Yellow => (
                PartialPiece::TopRight_BottomLeft,
                PartialPiece::TopRight_BottomLeft,
            ),
            Piece::Blue => (
                PartialPiece::TopBottom_LeftRight,
                PartialPiece::TopLeft_BottomRight,
            ),
            Piece::Cyan => (
                PartialPiece::TopBottom_LeftRight,
                PartialPiece::TopRight_BottomLeft,
            ),
            Piece::Pink => (
                PartialPiece::TopRight_BottomLeft,
                PartialPiece::TopLeft_BottomRight,
            ),
        }
    }
}

} // verus!

