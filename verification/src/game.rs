//! Pieces, moves and directions on the 32 playable squares of a checkers board.
//!
//! Squares are numbered 0..31 row by row, four to a row. Even rows sit one
//! half-step to the left of odd rows, so a diagonal step changes the index by a
//! delta that depends on the row it starts from.

pub mod board;
pub mod laws;
pub mod rules;

use vstd::prelude::*;

verus! {

/// Number of playable squares on the board.
pub const BOARD_SIZE: usize = 32;

/// The two sides of the game.
#[derive(Clone, Copy, Debug, PartialEq, Eq, Structural)]
pub enum PieceColor {
    White,
    Black,
}

impl PieceColor {
    /// The other side.
    pub open spec fn opposite(self) -> PieceColor {
        match self {
            PieceColor::White => PieceColor::Black,
            PieceColor::Black => PieceColor::White,
        }
    }

    /// Get the opposite color
    pub fn get_opposite(&self) -> (other: Self)
        ensures
            other == self.opposite(),
    {
        match self {
            PieceColor::White => PieceColor::Black,
            PieceColor::Black => PieceColor::White,
        }
    }
}

/// One slot of the board. A slot whose `is_active` is false is an empty square,
/// whatever its other fields hold.
#[derive(Clone, Copy, Debug, PartialEq, Eq, Structural)]
pub struct PieceData {
    pub color: PieceColor,
    pub is_king: bool,
    pub is_active: bool,
}

/// What stands on a square: nothing, or a piece of some color and rank.
pub enum Square {
    Empty,
    Occupied { color: PieceColor, is_king: bool },
}

impl View for PieceData {
    type V = Square;

    open spec fn view(&self) -> Square {
        if self.is_active {
            Square::Occupied { color: self.color, is_king: self.is_king }
        } else {
            Square::Empty
        }
    }
}

impl DeepView for PieceData {
    type V = Square;

    open spec fn deep_view(&self) -> Square {
        self.view()
    }
}

impl PieceData {
    /// The canonical empty slot.
    pub open spec fn empty() -> PieceData {
        PieceData { color: PieceColor::White, is_king: false, is_active: false }
    }

    /// An empty slot.
    pub fn const_default() -> (piece: Self)
        ensures
            piece == Self::empty(),
    {
        PieceData { is_king: false, is_active: false, color: PieceColor::White }
    }
}

/// A move of one piece, as the engine produces it and the peers exchange it.
///
/// `captured` is `None` for a plain step. For a jump it lists the squares of
/// the pieces taken, the last one taken first.
#[derive(Debug, PartialEq, Eq)]
pub struct Move {
    pub index: usize,
    pub end: usize,
    pub promoted: bool,
    pub captured: Option<Vec<usize>>,
}

/// The mathematical content of a [`Move`].
pub struct MoveView {
    pub index: usize,
    pub end: usize,
    pub promoted: bool,
    pub captured: Option<Seq<usize>>,
}

impl View for Move {
    type V = MoveView;

    open spec fn view(&self) -> MoveView {
        MoveView {
            index: self.index,
            end: self.end,
            promoted: self.promoted,
            captured: match self.captured {
                Some(list) => Some(list@),
                None => None,
            },
        }
    }
}

impl DeepView for Move {
    type V = MoveView;

    open spec fn deep_view(&self) -> MoveView {
        self.view()
    }
}

impl MoveView {
    /// Every square the move names lies on the board.
    pub open spec fn on_board(self) -> bool {
        &&& self.index < BOARD_SIZE
        &&& self.end < BOARD_SIZE
        &&& match self.captured {
            Some(list) => forall|i: int| 0 <= i < list.len() ==> #[trigger] list[i] < BOARD_SIZE,
            None => true,
        }
    }

    /// The same move seen from the other side of the board: every square `s`
    /// becomes `31 - s`.
    pub open spec fn reversed(self) -> MoveView {
        MoveView {
            index: (31 - self.index) as usize,
            end: (31 - self.end) as usize,
            promoted: self.promoted,
            captured: match self.captured {
                Some(list) => Some(Seq::new(list.len(), |i: int| (31 - list[i]) as usize)),
                None => None,
            },
        }
    }
}

impl Clone for Move {
    fn clone(&self) -> (copy: Self)
        ensures
            copy@ == self@,
    {
        let captured = match &self.captured {
            Some(list) => {
                let mut squares: Vec<usize> = Vec::new();
                let mut i: usize = 0;
                while i < list.len()
                    invariant
                        i <= list.len(),
                        squares@ == list@.subrange(0, i as int),
                    decreases list.len() - i,
                {
                    squares.push(list[i]);
                    i += 1;
                }
                assert(list@.subrange(0, list.len() as int) == list@);
                Some(squares)
            },
            None => None,
        };
        Move { index: self.index, end: self.end, promoted: self.promoted, captured }
    }
}

impl Move {
    /// Whether every square that the move names lies on the board.
    pub fn is_on_board(&self) -> (yes: bool)
        ensures
            yes == self@.on_board(),
    {
        if self.index >= BOARD_SIZE || self.end >= BOARD_SIZE {
            return false;
        }
        match &self.captured {
            Some(list) => {
                let mut i: usize = 0;
                while i < list.len()
                    invariant
                        i <= list.len(),
                        self@.captured == Some(list@),
                        forall|k: int| 0 <= k < i ==> #[trigger] list@[k] < BOARD_SIZE,
                    decreases list.len() - i,
                {
                    if list[i] >= BOARD_SIZE {
                        proof {
                            let named = self@.captured->Some_0;
                            assert(named == list@);
                            assert(!(named[i as int] < BOARD_SIZE));
                        }
                        return false;
                    }
                    i += 1;
                }
                true
            },
            None => true,
        }
    }

    /// Mirrors the move onto the opponent's numbering of the squares.
    pub fn reverse(&self) -> (mirrored: Self)
        requires
            self@.on_board(),
        ensures
            mirrored@ == self@.reversed(),
    {
        let captured = match &self.captured {
            Some(list) => {
                let mut squares: Vec<usize> = Vec::new();
                let mut i: usize = 0;
                while i < list.len()
                    invariant
                        i <= list.len(),
                        forall|k: int| 0 <= k < list.len() ==> #[trigger] list@[k] < BOARD_SIZE,
                        squares@.len() == i,
                        forall|k: int| 0 <= k < i ==> #[trigger] squares@[k] == 31 - list@[k],
                    decreases list.len() - i,
                {
                    squares.push(31 - list[i]);
                    i += 1;
                }
                assert(squares@ == Seq::new(list@.len(), |k: int| (31 - list@[k]) as usize));
                Some(squares)
            },
            None => None,
        };
        Move { index: 31 - self.index, end: 31 - self.end, promoted: self.promoted, captured }
    }
}

/// An enum which holds the possible actions a user can make in the game.
#[derive(Debug, PartialEq, Eq)]
pub enum GameAction {
    /// Move a piece, by its current position, and its target position.
    /// It is not guaranteed that this move is valid yet, so it should be
    /// validated before use.
    MovePiece(Move),
    /// The player suggests a stalemate.
    Stalemate,
    /// The player ends the game by surrender.
    Surrender,
}

/// The mathematical content of a [`GameAction`].
pub enum GameActionView {
    MovePiece(MoveView),
    Stalemate,
    Surrender,
}

impl View for GameAction {
    type V = GameActionView;

    open spec fn view(&self) -> GameActionView {
        match self {
            GameAction::MovePiece(mov) => GameActionView::MovePiece(mov@),
            GameAction::Stalemate => GameActionView::Stalemate,
            GameAction::Surrender => GameActionView::Surrender,
        }
    }
}

impl Clone for GameAction {
    fn clone(&self) -> (copy: Self)
        ensures
            copy@ == self@,
    {
        match self {
            GameAction::MovePiece(mov) => GameAction::MovePiece(mov.clone()),
            GameAction::Stalemate => GameAction::Stalemate,
            GameAction::Surrender => GameAction::Surrender,
        }
    }
}

impl GameAction {
    /// Creates a `GameAction::MovePiece`.
    /// * `index` - The start location of the piece.
    /// * `end` - The end location of the piece.
    /// * `captured` - If the move has captured a piece(s), this holds the index of the piece(s).
    /// * `promoted` - Whether the piece becomes a king on the way.
    pub fn move_piece(index: usize, end: usize, captured: Option<Vec<usize>>, promoted: bool) -> (action: Self)
        ensures
            action@ == GameActionView::MovePiece(
                MoveView {
                    index,
                    end,
                    promoted,
                    captured: match captured {
                        Some(list) => Some(list@),
                        None => None,
                    },
                },
            ),
    {
        GameAction::MovePiece(Move { index, end, captured, promoted })
    }
}

/// The four diagonal steps a piece can take.
#[derive(Clone, Copy, Debug, PartialEq, Eq, Structural)]
pub enum Direction {
    UpLeft,
    UpRight,
    DownLeft,
    DownRight,
}

impl Direction {
    /// The order in which the engine tries the directions.
    pub open spec fn all() -> Seq<Direction> {
        seq![Direction::UpRight, Direction::UpLeft, Direction::DownLeft, Direction::DownRight]
    }

    /// Index change of the step when it starts in an even (left-shifted) row.
    pub open spec fn base_delta(self) -> int {
        match self {
            Direction::UpLeft => -5,
            Direction::UpRight => -4,
            Direction::DownLeft => 3,
            Direction::DownRight => 4,
        }
    }

    /// Index change of the step when it starts on square `index`: one more
    /// than the base delta in odd rows.
    pub open spec fn delta(self, index: int) -> int {
        self.base_delta() + (index % 8) / 4
    }

    pub open spec fn left(self) -> bool {
        self == Direction::UpLeft || self == Direction::DownLeft
    }

    pub open spec fn right(self) -> bool {
        self == Direction::UpRight || self == Direction::DownRight
    }

    pub open spec fn down(self) -> bool {
        self == Direction::DownRight || self == Direction::DownLeft
    }

    pub open spec fn up(self) -> bool {
        self == Direction::UpRight || self == Direction::UpLeft
    }

    /// Returns an array to iterate over all enum values
    pub fn values() -> (dirs: [Direction; 4])
        ensures
            dirs@ == Direction::all(),
    {
        let dirs = [Direction::UpRight, Direction::UpLeft, Direction::DownLeft, Direction::DownRight];
        assert(dirs@ =~= Direction::all());
        dirs
    }

    /// Gets the value used to traverse the array of tiles in
    /// the Board struct, based off the index of the piece
    pub fn get_value(&self, index: usize) -> (value: i32)
        ensures
            value == self.delta(index as int),
    {
        let row_type: i32 = if index % 8 < 4 { 0 } else { 1 };
        let base: i32 = match self {
            Direction::UpLeft => -5,
            Direction::UpRight => -4,
            Direction::DownLeft => 3,
            Direction::DownRight => 4,
        };
        base + row_type
    }

    /// Returns whether the direction is left
    pub fn is_left(&self) -> (yes: bool)
        ensures
            yes == self.left(),
    {
        matches!(self, Direction::UpLeft | Direction::DownLeft)
    }

    /// Returns whether the direction is right
    pub fn is_right(&self) -> (yes: bool)
        ensures
            yes == self.right(),
    {
        matches!(self, Direction::UpRight | Direction::DownRight)
    }

    /// Returns whether the direction is down
    pub fn is_down(&self) -> (yes: bool)
        ensures
            yes == self.down(),
    {
        matches!(self, Direction::DownRight | Direction::DownLeft)
    }

    /// Returns whether the direction is up
    pub fn is_up(&self) -> (yes: bool)
        ensures
            yes == self.up(),
    {
        matches!(self, Direction::UpRight | Direction::UpLeft)
    }
}

} // verus!
