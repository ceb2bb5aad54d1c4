//! The full match state: board, 24-slot perimeter marker track, decks and
//! round counter, with atomic two-action turns and rollback.

use crate::board::{Board, BoardView, spec_place_piece};
use crate::piece::{Piece, PositionedPiece};
use rand::seq::SliceRandom;
use vstd::prelude::*;

verus! {

/// Every way a placement or a marker move can be illegal. All variants are
/// recoverable: the caller learns the reason and the state is unchanged.
#[derive(Copy, Clone, Debug, PartialEq, Eq, Structural)]
pub enum PasstallyError {
    /// The piece is outside of the board; carries the offending cell.
    InvalidPosition(crate::board::BoardPosition),
    /// The height for the two positions aren't the same.
    BadHeight,
    /// You cannot place a piece directly ontop of another piece.
    BadPiece,
    /// There is no player marker at the from position.
    NoPlayerMarker,
    /// There is already a player marker at the to position.
    HasPlayerMarker,
    /// There is more than one empty player marker field between the from and
    /// to position.
    TooFar,
}

/// One of the two halves of a turn.
#[derive(Copy, Clone, Debug, PartialEq, Eq, Structural)]
pub enum Action {
    PlacePiece(PositionedPiece),
    MovePlayerMarker(u8, u8),  // 0..=23
}

impl Action {
    pub open spec fn wf(self) -> bool {
        match self {
            Action::PlacePiece(piece) => piece.wf(),
            Action::MovePlayerMarker(from, to) => from < 24 && to < 24,
        }
    }
}

/// A turn is exactly two actions, applied as a unit.
#[derive(Copy, Clone, Debug, PartialEq, Eq, Structural)]
pub struct Turn(pub Action, pub Action);

impl Turn {
    pub open spec fn wf(self) -> bool {
        self.0.wf() && self.1.wf()
    }
}

/// The number of empty marker slots at the track indices `a..b`, each taken
/// modulo the 24-slot cycle.
pub open spec fn spec_empties_between(m: Seq<Option<u8>>, a: int, b: int) -> int
    decreases b - a,
{
    if a >= b {
        0
    } else {
        (if m[a % 24] is None {
            1int
        } else {
            0int
        }) + spec_empties_between(m, a + 1, b)
    }
}

/// Counting empties over `a..b + 1` is counting over `a..b` plus slot `b`.
proof fn lemma_empties_snoc(m: Seq<Option<u8>>, a: int, b: int)
    requires
        a <= b,
    ensures
        spec_empties_between(m, a, b + 1) == spec_empties_between(m, a, b) + (if m[b % 24] is None {
            1int
        } else {
            0int
        }),
    decreases b - a,
{
    if a < b {
        lemma_empties_snoc(m, a + 1, b);
    } else {
        assert(spec_empties_between(m, a + 1, b + 1) == 0);
    }
}

/// The distance rule: of the two arcs strictly between `from` and `to`, at
/// least one contains at most one empty slot.
pub open spec fn spec_marker_move_allowed(m: Seq<Option<u8>>, from: u8, to: u8) -> bool {
    let lo = if from < to {
        from as int
    } else {
        to as int
    };
    let hi = if from < to {
        to as int
    } else {
        from as int
    };
    spec_empties_between(m, lo + 1, hi) <= 1 || spec_empties_between(m, hi + 1, lo + 24) <= 1
}

/// What moving a marker does to the track: the source must hold a marker,
/// the destination must be empty, the distance rule must allow the move, and
/// then the occupant changes slots.
pub open spec fn spec_move_marker(m: Seq<Option<u8>>, from: u8, to: u8) -> Result<
    Seq<Option<u8>>,
    PasstallyError,
> {
    if m[from as int] is None {
        Err(PasstallyError::NoPlayerMarker)
    } else if m[to as int] is Some {
        Err(PasstallyError::HasPlayerMarker)
    } else if !spec_marker_move_allowed(m, from, to) {
        Err(PasstallyError::TooFar)
    } else {
        Ok(m.update(to as int, m[from as int]).update(from as int, None))
    }
}

/// What one action does to the board and the marker track.
pub open spec fn spec_apply_action(b: BoardView, m: Seq<Option<u8>>, action: Action) -> Result<
    (BoardView, Seq<Option<u8>>),
    PasstallyError,
> {
    match action {
        Action::PlacePiece(piece) => match spec_place_piece(b, piece) {
            Ok(b2) => Ok((b2, m)),
            Err(e) => Err(e),
        },
        Action::MovePlayerMarker(from, to) => match spec_move_marker(m, from, to) {
            Ok(m2) => Ok((b, m2)),
            Err(e) => Err(e),
        },
    }
}

/// One copy of each piece color, in a fixed order.
pub open spec fn spec_color_run() -> Seq<Piece> {
    seq![Piece::Red, Piece::Green, Piece::Yellow, Piece::Blue, Piece::Cyan, Piece::Pink]
}

/// `k` copies of each piece color: the first `6 * k` cards of the pool.
pub open spec fn spec_pool_prefix(k: nat) -> Seq<Piece>
    decreases k,
{
    if k == 0 {
        Seq::empty()
    } else {
        spec_pool_prefix((k - 1) as nat) + spec_color_run()
    }
}

/// The 42-card pool a match starts from: seven copies of each of the six
/// colors.
pub open spec fn spec_full_pool() -> Seq<Piece> {
    spec_pool_prefix(7)
}

/// The mathematical state of a match.
#[verifier::ext_equal]
pub struct GameView {
    pub board: BoardView,
    pub markers: Seq<Option<u8>>,
    pub player_count: u8,
    pub round: u32,
    pub decks: Seq<Seq<Piece>>,
}

/// What a whole turn does: both actions in order, and the round counter
/// advances; the first failure is the turn's failure and nothing changes.
pub open spec fn spec_play_turn(g: GameView, turn: Turn) -> Result<GameView, PasstallyError> {
    match spec_apply_action(g.board, g.markers, turn.0) {
        Ok((b1, m1)) => match spec_apply_action(b1, m1, turn.1) {
            Ok((b2, m2)) => Ok(
                GameView { board: b2, markers: m2, round: (g.round + 1) as u32, ..g },
            ),
            Err(e) => Err(e),
        },
        Err(e) => Err(e),
    }
}

/// A complete passtally game.
pub struct Game {
    board: Board,
    player_markers: Vec<Option<u8>>,
    player_count: u8,
    /// Amount of rounds played
    round: u32,
    /// The three decks. Each deck starts at 14 cards for a total of 42.
    decks: Vec<Vec<Piece>>,
}

impl View for Game {
    type V = GameView;

    closed spec fn view(&self) -> GameView {
        GameView {
            board: self.board@,
            markers: self.player_markers@,
            player_count: self.player_count,
            round: self.round,
            decks: self.decks@.map_values(|d: Vec<Piece>| d@),
        }
    }
}

/// Relies on rand's `SliceRandom::shuffle` (a Fisher-Yates shuffle built
/// from in-place swaps): it permutes the deck, so the length and the
/// multiset of cards are unchanged; the order is up to the thread's rng.
#[verifier::external_body]
fn shuffle_pieces(deck: &mut Vec<Piece>)
    ensures
        final(deck)@.len() == old(deck)@.len(),
        final(deck)@.to_multiset() == old(deck)@.to_multiset(),
{
    deck.shuffle(&mut rand::thread_rng());
}

impl Game {
    pub open spec fn wf(self) -> bool {
        &&& self@.board.wf()
        &&& self@.markers.len() == 24
        &&& self@.player_count >= 1
        &&& self@.decks.len() == 3
    }

    /// A fresh match for `player_count` players: empty board, empty marker
    /// track, round zero, and the 42-card pool (seven of each color)
    /// shuffled and split into three 14-card decks.
    pub fn new(player_count: u8) -> (g: Game)
        requires
            player_count >= 1,
        ensures
            g.wf(),
            g@.board == BoardView::empty(),
            g@.markers == Seq::new(24, |i: int| None::<u8>),
            g@.player_count == player_count,
            g@.round == 0,
            g@.decks.len() == 3,
            g@.decks[0].len() == 14,
            g@.decks[1].len() == 14,
            g@.decks[2].len() == 14,
            (g@.decks[0] + g@.decks[1] + g@.decks[2]).to_multiset() == spec_full_pool()
                .to_multiset(),
    {
        let mut pool: Vec<Piece> = Vec::new();
        proof {
            assert(pool@ =~= spec_pool_prefix(0));
        }
        for k in 0..7usize
            invariant
                pool@ == spec_pool_prefix(k as nat),
                pool@.len() == 6 * k,
        {
            pool.push(Piece::Red);
            pool.push(Piece::Green);
            pool.push(Piece::Yellow);
            pool.push(Piece::Blue);
            pool.push(Piece::Cyan);
            pool.push(Piece::Pink);
            proof {
                assert(pool@ =~= spec_pool_prefix((k + 1) as nat));
            }
        }
        shuffle_pieces(&mut pool);
        let ghost shuffled = pool@;
        let deck3 = pool.split_off(28);
        let deck2 = pool.split_off(14);
        let deck1 = pool;
        proof {
            assert(deck1@ + deck2@ + deck3@ =~= shuffled);
        }

        let mut player_markers: Vec<Option<u8>> = Vec::new();
        for i in 0..24usize
            invariant
                player_markers@.len() == i,
                forall|j: int| 0 <= j < i ==> player_markers@[j] is None,
        {
            player_markers.push(None);
        }

        let mut decks: Vec<Vec<Piece>> = Vec::new();
        decks.push(deck1);
        decks.push(deck2);
        decks.push(deck3);

        let g = Game { board: Board::new(), player_markers, player_count, round: 0, decks };
        proof {
            assert(g@.markers =~= Seq::new(24, |i: int| None::<u8>));
            assert(g@.decks[0] == deck1@);
            assert(g@.decks[1] == deck2@);
            assert(g@.decks[2] == deck3@);
        }
        g
    }

    /// Whose turn it is: a pure function of the round counter and the
    /// player count.
    pub fn next_player(&self) -> (r: u8)
        requires
            self.wf(),
        ensures
            r as int == self@.round as int % self@.player_count as int,
    {
        (self.round % (self.player_count as u32)) as u8
    }

    /// The board, for reading its cells.
    pub fn board(&self) -> (b: &Board)
        ensures
            b@ == self@.board,
    {
        &self.board
    }

    /// Amount of rounds played so far.
    pub fn round(&self) -> (r: u32)
        ensures
            r == self@.round,
    {
        self.round
    }

    pub fn player_count(&self) -> (r: u8)
        ensures
            r == self@.player_count,
    {
        self.player_count
    }

    /// One of the three decks, for drawing and for rendering.
    pub fn deck(&self, i: usize) -> (d: &Vec<Piece>)
        requires
            self.wf(),
            i < 3,
        ensures
            d@ == self@.decks[i as int],
    {
        &self.decks[i]
    }

    /// The marker at track slot `slot`, if any.
    pub fn player_marker(&self, slot: u8) -> (r: Option<u8>)
        requires
            self.wf(),
            slot < 24,
        ensures
            r == self@.markers[slot as int],
    {
        self.player_markers[slot as usize]
    }

    /// Puts a player's marker on (or clears) a track slot, for setting a
    /// match up.
    pub fn set_player_marker(&mut self, slot: u8, marker: Option<u8>)
        requires
            old(self).wf(),
            slot < 24,
        ensures
            final(self).wf(),
            final(self)@ == (GameView {
                markers: old(self)@.markers.update(slot as int, marker),
                ..old(self)@
            }),
    {
        self.player_markers.set(slot as usize, marker);
    }

    /// Applies both actions as a unit against a snapshot: if either fails,
    /// the snapshot is restored and the first error returned; if both
    /// succeed, the round counter advances.
    pub fn play_turn(&mut self, turn: Turn) -> (r: Result<(), PasstallyError>)
        requires
            old(self).wf(),
            turn.wf(),
            old(self)@.round < u32::MAX,
            old(self)@.board.next_id + 2 <= u32::MAX,
        ensures
            final(self).wf(),
            match spec_play_turn(old(self)@, turn) {
                Ok(g2) => r == Ok::<(), PasstallyError>(()) && final(self)@ == g2,
                Err(e) => r == Err::<(), PasstallyError>(e) && final(self)@ == old(self)@,
            },
    {
        let backup_board = self.board.snapshot();
        let backup_markers = self.player_markers.clone();
        proof {
            assert(backup_markers@ =~= old(self)@.markers);
        }

        let Turn(action1, action2) = turn;
        let res = match self.do_action(action1) {
            Ok(()) => self.do_action(action2),
            Err(e) => Err(e),
        };

        match res {
            Ok(()) => {
                self.round = self.round + 1;
                Ok(())
            },
            Err(err) => {
                self.board = backup_board;
                self.player_markers = backup_markers;
                Err(err)
            },
        }
    }

    /// One half of a turn.
    fn do_action(&mut self, action: Action) -> (r: Result<(), PasstallyError>)
        requires
            old(self).wf(),
            action.wf(),
            old(self)@.board.next_id < u32::MAX,
        ensures
            final(self).wf(),
            final(self)@.board.next_id <= old(self)@.board.next_id + 1,
            match spec_apply_action(old(self)@.board, old(self)@.markers, action) {
                Ok((b2, m2)) => r is Ok && final(self)@ == (GameView {
                    board: b2,
                    markers: m2,
                    ..old(self)@
                }),
                Err(e) => r == Err::<(), PasstallyError>(e) && final(self)@ == old(self)@,
            },
    {
        match action {
            Action::PlacePiece(piece) => self.board.place_piece(piece),
            Action::MovePlayerMarker(from, to) => self.move_player_marker(from, to),
        }
    }

    /// Moves a player marker along the perimeter track, enforcing the
    /// occupancy and distance rules; on any failure the track is untouched.
    pub fn move_player_marker(&mut self, from: u8, to: u8) -> (r: Result<(), PasstallyError>)
        requires
            old(self).wf(),
            from < 24,
            to < 24,
        ensures
            final(self).wf(),
            match spec_move_marker(old(self)@.markers, from, to) {
                Ok(m2) => r == Ok::<(), PasstallyError>(()) && final(self)@ == (GameView {
                    markers: m2,
                    ..old(self)@
                }),
                Err(e) => r == Err::<(), PasstallyError>(e) && final(self)@ == old(self)@,
            },
    {
        // Check that "from" isn't empty
        if self.player_markers[from as usize].is_none() {
            return Err(PasstallyError::NoPlayerMarker);
        }

        // Check that "to" isn't occupied
        if self.player_markers[to as usize].is_some() {
            return Err(PasstallyError::HasPlayerMarker);
        }

        assert(from != to);
        let ghost m = self@.markers;

        // Check that there is at most one empty space between the two
        // positions. Both directions count, because a long run of markers
        // can make the short arc look too far while the arc wrapping the
        // other way around the track is dense.
        let mn = if from < to {
            from
        } else {
            to
        };
        let mx = if from < to {
            to
        } else {
            from
        };

        // Count the empty slots strictly between them the short way
        let mut empty_spaces: u32 = 0;
        let mut i: u8 = mn + 1;
        while i < mx
            invariant
                mn + 1 <= i <= mx,
                mx < 24,
                self@.markers == m,
                m.len() == 24,
                empty_spaces == spec_empties_between(m, mn + 1, i as int),
                empty_spaces <= i,
            decreases mx - i,
        {
            proof {
                lemma_empties_snoc(m, mn + 1, i as int);
                vstd::arithmetic::div_mod::lemma_small_mod(i as nat, 24);
            }
            if self.player_markers[i as usize].is_none() {
                empty_spaces = empty_spaces + 1;
            }
            i = i + 1;
        }

        let valid_move = if empty_spaces <= 1 {
            true
        } else {
            // Count the empty slots between them the long way around
            let mut empty_spaces2: u32 = 0;
            let mut j: u8 = mx + 1;
            while j < mn + 24
                invariant
                    mx + 1 <= j <= mn + 24,
                    mn < mx < 24,
                    self@.markers == m,
                    m.len() == 24,
                    empty_spaces2 == spec_empties_between(m, mx + 1, j as int),
                    empty_spaces2 <= j,
                decreases mn + 24 - j,
            {
                proof {
                    lemma_empties_snoc(m, mx + 1, j as int);
                }
                if self.player_markers[(j % 24) as usize].is_none() {
                    empty_spaces2 = empty_spaces2 + 1;
                }
                j = j + 1;
            }
            empty_spaces2 <= 1
        };

        if !valid_move {
            return Err(PasstallyError::TooFar);
        }

        // Move player marker
        let marker = self.player_markers[from as usize];
        self.player_markers.set(to as usize, marker);
        self.player_markers.set(from as usize, None);
        Ok(())
    }
}

} // verus!
