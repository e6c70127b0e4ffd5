//! The board and the move generator that runs on it.

use vstd::prelude::*;
use crate::game::laws::{
    law_legal_moves_on_board, lemma_first_between_is_member, lemma_piece_moves_legal,
};
use crate::game::rules::{
    active_count, after_jump, after_move, chain_from, chain_part, cleared_of, clicked_move,
    color_count, color_moves, crowns, empty_count, first_between, forces, jumps_only,
    lemma_clearing_lowers_count, lemma_reach_next_row, moves_along, offered, opening, piece_moves,
    plain_step, reach, reachable_from, rows_ahead, single_jump, survey, Survey,
};
use crate::game::{Direction, Move, MoveView, PieceColor, PieceData};

verus! {

/// What a search in one direction found, seen as mathematics.
pub open spec fn found_view(found: Option<(Vec<Move>, bool)>) -> Option<(Seq<MoveView>, bool)> {
    match found {
        Some((moves, jumping)) => Some((moves.deep_view(), jumping)),
        None => None,
    }
}

/// Adds to `chain` what `found` contributes to a chain that has just jumped
/// over `taken`.
fn extend_chain(found: Option<(Vec<Move>, bool)>, taken: usize, promoting: bool, chain: &mut Vec<Move>)
    ensures
        final(chain).deep_view() == old(chain).deep_view() + chain_part(
            found_view(found),
            taken as int,
            promoting,
        ),
{
    let ghost before = chain.deep_view();
    match found {
        Some((moves, true)) => {
            let ghost later = moves.deep_view();
            let mut i: usize = 0;
            while i < moves.len()
                invariant
                    i <= moves.len(),
                    later == moves.deep_view(),
                    chain.deep_view() == before + Seq::new(
                        i as nat,
                        |k: int| after_jump(later[k], taken as int, promoting),
                    ),
                decreases moves.len() - i,
            {
                let ghost so_far = chain.deep_view();
                let next = moves[i].clone();
                assert(next@ == later[i as int]);
                // Append the current piece to the captured vector
                let mut captured = match next.captured {
                    Some(list) => list,
                    None => Vec::new(),
                };
                captured.push(taken);
                let mov = Move {
                    index: next.index,
                    end: next.end,
                    promoted: next.promoted || promoting,
                    captured: Some(captured),
                };
                assert(mov@.captured->Some_0 =~= after_jump(
                    later[i as int],
                    taken as int,
                    promoting,
                ).captured->Some_0);
                // Add to list of possible moves
                chain.push(mov);
                assert(chain.deep_view() =~= so_far.push(mov@));
                i += 1;
                assert(chain.deep_view() =~= before + Seq::new(
                    i as nat,
                    |k: int| after_jump(later[k], taken as int, promoting),
                ));
            }
            assert(chain.deep_view() =~= before + chain_part(found_view(found), taken as int, promoting));
        },
        _ => {
            assert(chain.deep_view() =~= before + chain_part(found_view(found), taken as int, promoting));
        },
    }
}

/// A copy of the slots in which square `index` is empty.
fn without_piece(pieces: &Vec<PieceData>, index: usize) -> (cleared: Vec<PieceData>)
    requires
        index < pieces@.len(),
    ensures
        cleared@ == pieces@.update(index as int, PieceData::empty()),
{
    let mut cleared: Vec<PieceData> = Vec::new();
    let mut i: usize = 0;
    while i < pieces.len()
        invariant
            i <= pieces@.len(),
            index < pieces@.len(),
            cleared@ == pieces@.update(index as int, PieceData::empty()).subrange(0, i as int),
        decreases pieces@.len() - i,
    {
        if i == index {
            cleared.push(PieceData::const_default());
        } else {
            cleared.push(pieces[i]);
        }
        i += 1;
        assert(cleared@ =~= pieces@.update(index as int, PieceData::empty()).subrange(0, i as int));
    }
    assert(cleared@ =~= pieces@.update(index as int, PieceData::empty()));
    cleared
}

/// The square one step from `index` in `direction`, unless the step leaves
/// the board or a man would move backwards.
fn next_square(index: usize, direction: Direction, is_king: bool, is_local_player: bool) -> (next: Option<usize>)
    requires
        index < 32,
    ensures
        match next {
            Some(square) => reach(index as int, direction, is_king, is_local_player) == Some(square as int),
            None => reach(index as int, direction, is_king, is_local_player) is None,
        },
{
    proof {
        reveal(reach);
    }
    // Check if the piece is on the edge of the direction
    let row_left_shifted = index % 8 < 4;
    let piece_left_side = index % 4 == 0;
    let piece_right_side = index % 4 == 3;
    if row_left_shifted && direction.is_left() && piece_left_side {
        return None;
    }
    if !row_left_shifted && direction.is_right() && piece_right_side {
        return None;
    }
    // If the piece isn't a king it cant move backwards
    if !is_king {
        if direction.is_down() && is_local_player {
            return None;
        }
        if direction.is_up() && !is_local_player {
            return None;
        }
    }
    let next: i32 = index as i32 + direction.get_value(index);
    if next < 0 || next >= 32 {
        return None;
    }
    Some(next as usize)
}

/// Whether a piece that lands on `square` is crowned there.
fn is_promoting(square: usize, is_local_player: bool) -> (promoting: bool)
    ensures
        promoting == crowns(square as int, is_local_player),
{
    (is_local_player && square < 4) || (!is_local_player && square >= 32 - 4)
}

/// The jumps that go on from `landing` after the piece on `taken` was jumped,
/// in every direction.
#[allow(clippy::too_many_arguments)]
fn continue_chain(
    cleared: &Vec<PieceData>,
    start: usize,
    landing: usize,
    is_local_player: bool,
    enemy_color: PieceColor,
    rank: bool,
    taken: usize,
    promoting: bool,
) -> (further: Vec<Move>)
    requires
        cleared@.len() == 32,
        landing < 32,
        start < 32,
    ensures
        further.deep_view() == chain_from(
            cleared@,
            start as int,
            landing as int,
            is_local_player,
            enemy_color,
            rank,
            taken as int,
            promoting,
        ),
    decreases active_count(cleared@), 8int,
{
    let mut further: Vec<Move> = Vec::new();
    assert(further.deep_view() =~= Seq::empty());
    let directions = Direction::values();
    proof {
        reveal(chain_from);
        reveal(moves_along);
        assert(0 <= rows_ahead(landing as int, directions[0]) <= 7);
        assert(0 <= rows_ahead(landing as int, directions[1]) <= 7);
        assert(0 <= rows_ahead(landing as int, directions[2]) <= 7);
        assert(0 <= rows_ahead(landing as int, directions[3]) <= 7);
    }
    let found = check_move(cleared, start, landing, is_local_player, enemy_color, rank, directions[0], false);
    extend_chain(found, taken, promoting, &mut further);
    let found = check_move(cleared, start, landing, is_local_player, enemy_color, rank, directions[1], false);
    extend_chain(found, taken, promoting, &mut further);
    let found = check_move(cleared, start, landing, is_local_player, enemy_color, rank, directions[2], false);
    extend_chain(found, taken, promoting, &mut further);
    let found = check_move(cleared, start, landing, is_local_player, enemy_color, rank, directions[3], false);
    extend_chain(found, taken, promoting, &mut further);
    further
}

/// Searches from `index` in direction `direction` for the moves of the piece
/// that set out from `start`.
///
/// With `is_taking` set, `index` is the square of an enemy piece that is
/// being jumped: the search then looks for the landing square behind it and,
/// from there, for further jumps in every direction.
#[allow(clippy::too_many_arguments)]
fn check_move(
    pieces: &Vec<PieceData>,
    start: usize,
    index: usize,
    is_local_player: bool,
    enemy_color: PieceColor,
    is_king: bool,
    direction: Direction,
    is_taking: bool,
) -> (found: Option<(Vec<Move>, bool)>)
    requires
        pieces@.len() == 32,
        index < 32,
        start < 32,
        is_taking ==> pieces@[index as int].is_active,
    ensures
        found_view(found) == moves_along(
            pieces@,
            start as int,
            index as int,
            is_local_player,
            enemy_color,
            is_king,
            direction,
            is_taking,
        ),
    decreases active_count(pieces@), rows_ahead(index as int, direction),
{
    let next = match next_square(index, direction, is_king, is_local_player) {
        Some(next) => next,
        None => {
            proof {
                reveal(moves_along);
            }
            return None;
        },
    };
    proof {
        reveal(moves_along);
        reveal(chain_from);
        lemma_reach_next_row(index as int, direction, is_king, is_local_player);
    }
    let next_tile = pieces[next];

    // If the next piece is an enemy check if the next tile is empty
    // If so this piece can be taken
    if next_tile.is_active {
        if next_tile.color != enemy_color || is_taking {
            return None;
        }
        return check_move(pieces, start, next, is_local_player, enemy_color, is_king, direction, true);
    }
    let promoting = is_promoting(next, is_local_player);

    // If we are taking a piece, since the next tile is empty
    // We need to return this move, but also check if we can take more pieces
    if is_taking {
        proof {
            lemma_clearing_lowers_count(pieces@, index as int);
        }
        let cleared = without_piece(pieces, index);
        let mut further = continue_chain(
            &cleared,
            start,
            next,
            is_local_player,
            enemy_color,
            is_king || promoting,
            index,
            promoting,
        );
        if further.len() == 0 {
            let mut taken: Vec<usize> = Vec::new();
            taken.push(index);
            let only = Move { index: start, end: next, captured: Some(taken), promoted: promoting };
            assert(only@ == single_jump(start as int, next as int, index as int, promoting)) by {
                assert(taken@ =~= seq![index]);
            }
            further.push(only);
            assert(further.deep_view() =~= seq![only@]);
        }
        return Some((further, true));
    }
    // If we aren't taking a piece, and this tile is empty
    // We add this move to a list of possible moves
    let mut moves: Vec<Move> = Vec::new();
    let mut jumping = false;
    assert(moves.deep_view() =~= Seq::empty());

    // If the current piece is a king, it may be able to keep moving
    if is_king {
        if let Some((beyond, beyond_jumping)) = check_move(
            pieces,
            start,
            next,
            is_local_player,
            enemy_color,
            is_king,
            direction,
            false,
        ) {
            moves = beyond;
            jumping = beyond_jumping;
        }
    }
    // If we are capturing pieces
    // Since this move doesn't capture, it should not be added
    if !jumping {
        let ghost before = moves.deep_view();
        let stepping = Move { index: start, end: next, captured: None, promoted: promoting };
        assert(stepping@ == plain_step(start as int, next as int, promoting));
        moves.push(stepping);
        assert(moves.deep_view() =~= before.push(stepping@));
        assert(seq![stepping@] =~= Seq::<MoveView>::empty().push(stepping@));
    }
    // Return all the available moves
    // 1 move if normal piece, x amount if king piece
    Some((moves, jumping))
}

/// Keeps the jumps of a list of moves.
fn keep_jumps(moves: &Vec<Move>) -> (jumps: Vec<Move>)
    ensures
        jumps.deep_view() == jumps_only(moves.deep_view()),
{
    let mut jumps: Vec<Move> = Vec::new();
    let mut i: usize = 0;
    assert(moves.deep_view().subrange(0, 0) =~= Seq::empty());
    assert(jumps.deep_view() =~= Seq::empty());
    while i < moves.len()
        invariant
            i <= moves.len(),
            jumps.deep_view() == jumps_only(moves.deep_view().subrange(0, i as int)),
        decreases moves.len() - i,
    {
        let ghost before = jumps.deep_view();
        let ghost prefix = moves.deep_view().subrange(0, i as int + 1);
        assert(prefix.drop_last() =~= moves.deep_view().subrange(0, i as int));
        assert(prefix.last() == moves@[i as int]@);
        if moves[i].captured.is_some() {
            let mov = moves[i].clone();
            jumps.push(mov);
            assert(jumps.deep_view() =~= before.push(mov@));
        }
        i += 1;
    }
    assert(moves.deep_view().subrange(0, moves.len() as int) =~= moves.deep_view());
    jumps
}

/// Moves every element of `more` to the end of `moves`.
fn append_moves(moves: &mut Vec<Move>, more: Vec<Move>)
    ensures
        final(moves).deep_view() == old(moves).deep_view() + more.deep_view(),
{
    let ghost before = moves.deep_view();
    let mut more = more;
    let ghost added = more.deep_view();
    moves.append(&mut more);
    assert(moves.deep_view() =~= before + added);
}

/// Adds what `found` offers to the moves gathered so far, and notes whether
/// it offers anything and whether it offers a jump.
fn gather(found: Option<(Vec<Move>, bool)>, moves: &mut Vec<Move>, is_taking: &mut bool, any: &mut bool)
    ensures
        final(moves).deep_view() == old(moves).deep_view() + offered(found_view(found)),
        *final(is_taking) == (*old(is_taking) || forces(found_view(found))),
        *final(any) == (*old(any) || found is Some),
{
    match found {
        Some((more, jumping)) => {
            *is_taking = *is_taking || jumping;
            *any = true;
            append_moves(moves, more);
        },
        None => {
            assert(moves.deep_view() + Seq::<MoveView>::empty() =~= moves.deep_view());
        },
    }
}

/// The list `indices` names the square `square`.
pub open spec fn names(indices: Seq<usize>, square: int) -> bool {
    exists|k: int| 0 <= k < indices.len() && #[trigger] indices[k] == square
}

/// The highlight state of one square.
#[derive(Clone, Copy, Debug, PartialEq, Eq, Structural)]
pub struct BoardSquare {
    pub marked: bool,
}

/// Struct holding gamestate of the checkers board
pub struct Board {
    pieces: Vec<PieceData>,
    player_color: PieceColor,
    squares: Vec<BoardSquare>,
    pub selected_square: i32,
}

impl Board {
    /// The 32 slots of the board, by square.
    pub closed spec fn slots(&self) -> Seq<PieceData> {
        self.pieces@
    }

    /// The color that the local player plays.
    pub closed spec fn player(&self) -> PieceColor {
        self.player_color
    }

    /// The square that was selected last.
    pub closed spec fn selected(&self) -> i32 {
        self.selected_square
    }

    /// Which squares are highlighted, by square.
    pub closed spec fn marks(&self) -> Seq<bool> {
        Seq::new(self.squares@.len(), |i: int| self.squares@[i].marked)
    }

    /// The board has its 32 slots and 32 highlights.
    pub closed spec fn wf(&self) -> bool {
        &&& self.pieces@.len() == 32
        &&& self.squares@.len() == 32
    }

    /// Well-formed boards have 32 slots.
    pub proof fn lemma_wf_sizes(&self)
        requires
            self.wf(),
        ensures
            self.slots().len() == 32,
            self.marks().len() == 32,
    {
    }

    /// An empty board, with no square highlighted, for a player of White.
    pub fn new() -> (board: Board)
        ensures
            board.wf(),
            board.slots() == Seq::new(32, |i: int| PieceData::empty()),
            board.marks() == Seq::new(32, |i: int| false),
            board.player() == PieceColor::White,
            board.selected() == 0,
    {
        let mut pieces: Vec<PieceData> = Vec::new();
        let mut squares: Vec<BoardSquare> = Vec::new();
        let mut i: usize = 0;
        while i < 32
            invariant
                i <= 32,
                pieces@.len() == i,
                squares@.len() == i,
                forall|k: int| 0 <= k < i ==> #[trigger] pieces@[k] == PieceData::empty(),
                forall|k: int| 0 <= k < i ==> !(#[trigger] squares@[k]).marked,
            decreases 32 - i,
        {
            pieces.push(PieceData::const_default());
            squares.push(BoardSquare { marked: false });
            i += 1;
        }
        let board = Board { pieces, player_color: PieceColor::White, squares, selected_square: 0 };
        assert(board.slots() =~= Seq::new(32, |i: int| PieceData::empty()));
        assert(board.marks() =~= Seq::new(32, |i: int| false));
        board
    }

    /// Returns the starting setup of a checkers board based off `player_color`
    pub fn default_setup(player_color: PieceColor) -> (tiles: Vec<PieceData>)
        ensures
            tiles@ == opening(player_color),
    {
        let enemy_color = player_color.get_opposite();
        let mut tiles: Vec<PieceData> = Vec::new();
        let mut i: usize = 0;
        while i < 32
            invariant
                i <= 32,
                enemy_color == player_color.opposite(),
                tiles@.len() == i,
                forall|k: int| 0 <= k < i ==> #[trigger] tiles@[k] == opening(player_color)[k],
            decreases 32 - i,
        {
            if i < 12 {
                tiles.push(PieceData { color: enemy_color, is_active: true, is_king: false });
            } else if i < 20 {
                tiles.push(PieceData::const_default());
            } else {
                tiles.push(PieceData { is_active: true, color: player_color, is_king: false });
            }
            i += 1;
        }
        assert(tiles@ =~= opening(player_color));
        tiles
    }

    /// Resets the board to starting state based off `player_color`
    pub fn start_new_game(&mut self, color: PieceColor)
        requires
            old(self).wf(),
        ensures
            final(self).wf(),
            final(self).player() == color,
            final(self).slots() == opening(color),
            final(self).marks() == Seq::new(32, |i: int| false),
            final(self).selected() == old(self).selected(),
    {
        self.player_color = color;
        self.pieces = Board::default_setup(color);
        self.reset_squares();
    }

    /// Gives all the squares in `indices` the "marked" color
    pub fn mark_squares(&mut self, indices: &[usize])
        requires
            old(self).wf(),
            forall|k: int| 0 <= k < indices@.len() ==> #[trigger] indices@[k] < 32,
        ensures
            final(self).wf(),
            final(self).slots() == old(self).slots(),
            final(self).player() == old(self).player(),
            final(self).selected() == old(self).selected(),
            final(self).marks() == Seq::new(32, |i: int| old(self).marks()[i] || names(indices@, i)),
    {
        let mut k: usize = 0;
        while k < indices.len()
            invariant
                k <= indices@.len(),
                self.wf(),
                forall|j: int| 0 <= j < indices@.len() ==> #[trigger] indices@[j] < 32,
                self.pieces == old(self).pieces,
                self.player_color == old(self).player_color,
                self.selected_square == old(self).selected_square,
                forall|i: int|
                    0 <= i < 32 ==> (#[trigger] self.squares@[i]).marked == (old(self).squares@[i].marked
                        || names(indices@.subrange(0, k as int), i)),
            decreases indices@.len() - k,
        {
            let index = indices[k];
            let ghost seen = indices@.subrange(0, k as int);
            let ghost seen_next = indices@.subrange(0, k as int + 1);
            assert forall|i: int| 0 <= i < 32 implies (names(seen_next, i) <==> (names(seen, i) || i
                == index)) by {
                if names(seen, i) {
                    let j = choose|j: int| 0 <= j < seen.len() && #[trigger] seen[j] == i;
                    assert(seen_next[j] == i);
                }
                if i == index {
                    assert(seen_next[k as int] == index);
                }
                if names(seen_next, i) && i != index {
                    let j = choose|j: int| 0 <= j < seen_next.len() && #[trigger] seen_next[j] == i;
                    assert(seen[j] == i);
                }
            }
            self.squares.set(index, BoardSquare { marked: true });
            k += 1;
        }
        assert(indices@.subrange(0, indices@.len() as int) =~= indices@);
        assert(self.marks() =~= Seq::new(32, |i: int| old(self).marks()[i] || names(indices@, i)));
    }

    /// Takes the highlight from every square
    pub fn reset_squares(&mut self)
        requires
            old(self).wf(),
        ensures
            final(self).wf(),
            final(self).slots() == old(self).slots(),
            final(self).player() == old(self).player(),
            final(self).selected() == old(self).selected(),
            final(self).marks() == Seq::new(32, |i: int| false),
    {
        let mut index: usize = 0;
        while index < 32
            invariant
                index <= 32,
                self.wf(),
                self.pieces == old(self).pieces,
                self.player_color == old(self).player_color,
                self.selected_square == old(self).selected_square,
                forall|i: int| 0 <= i < index ==> !(#[trigger] self.squares@[i]).marked,
            decreases 32 - index,
        {
            self.squares.set(index, BoardSquare { marked: false });
            index += 1;
        }
        assert(self.marks() =~= Seq::new(32, |i: int| false));
    }
}

impl Board {
    /// The color that the local player plays.
    pub fn player_color(&self) -> (color: PieceColor)
        ensures
            color == self.player(),
    {
        self.player_color
    }

    /// The square that was selected last.
    pub fn selected_square(&self) -> (square: i32)
        ensures
            square == self.selected(),
    {
        self.selected_square
    }

    /// Remembers `square` as the selected one.
    pub fn select_square(&mut self, square: i32)
        ensures
            final(self).selected() == square,
            final(self).slots() == old(self).slots(),
            final(self).marks() == old(self).marks(),
            final(self).player() == old(self).player(),
            final(self).wf() == old(self).wf(),
    {
        self.selected_square = square;
    }

    /// The slot of square `index`.
    pub fn piece(&self, index: usize) -> (piece: PieceData)
        requires
            self.wf(),
            index < 32,
        ensures
            piece == self.slots()[index as int],
    {
        self.pieces[index]
    }

    /// Puts `piece` on square `index`.
    pub fn set_piece(&mut self, index: usize, piece: PieceData)
        requires
            old(self).wf(),
            index < 32,
        ensures
            final(self).wf(),
            final(self).slots() == old(self).slots().update(index as int, piece),
            final(self).marks() == old(self).marks(),
            final(self).player() == old(self).player(),
            final(self).selected() == old(self).selected(),
    {
        self.pieces.set(index, piece);
    }

    /// Whether square `index` is highlighted.
    pub fn is_marked(&self, index: usize) -> (marked: bool)
        requires
            self.wf(),
            index < 32,
        ensures
            marked == self.marks()[index as int],
    {
        self.squares[index].marked
    }

    /// A copy of the 32 slots, in the order of the squares.
    pub fn snapshot(&self) -> (slots: Vec<PieceData>)
        requires
            self.wf(),
        ensures
            slots@ == self.slots(),
    {
        let mut slots: Vec<PieceData> = Vec::new();
        let mut i: usize = 0;
        while i < 32
            invariant
                i <= 32,
                self.wf(),
                slots@ == self.pieces@.subrange(0, i as int),
            decreases 32 - i,
        {
            slots.push(self.pieces[i]);
            i += 1;
            assert(slots@ =~= self.pieces@.subrange(0, i as int));
        }
        assert(self.pieces@.subrange(0, 32) =~= self.pieces@);
        slots
    }

    /// Replaces the slots by the first 32 of `slots`. Returns `false`, and
    /// changes nothing, when `slots` holds fewer than 32.
    pub fn restore(&mut self, slots: &Vec<PieceData>) -> (done: bool)
        requires
            old(self).wf(),
        ensures
            final(self).wf(),
            done == (slots@.len() >= 32),
            done ==> final(self).slots() == slots@.subrange(0, 32),
            !done ==> final(self).slots() == old(self).slots(),
            final(self).marks() == old(self).marks(),
            final(self).player() == old(self).player(),
            final(self).selected() == old(self).selected(),
    {
        if slots.len() < 32 {
            return false;
        }
        let mut i: usize = 0;
        while i < 32
            invariant
                i <= 32,
                self.wf(),
                slots@.len() >= 32,
                self.squares == old(self).squares,
                self.player_color == old(self).player_color,
                self.selected_square == old(self).selected_square,
                forall|k: int| 0 <= k < i ==> #[trigger] self.pieces@[k] == slots@[k],
            decreases 32 - i,
        {
            self.pieces.set(i, slots[i]);
            i += 1;
        }
        assert(self.pieces@ =~= slots@.subrange(0, 32));
        true
    }

    /// Takes a `Move` struct and performs the move described within
    pub fn move_piece(&mut self, mov: &Move)
        requires
            old(self).wf(),
            mov@.on_board(),
        ensures
            final(self).wf(),
            final(self).slots() == after_move(old(self).slots(), mov@),
            final(self).marks() == old(self).marks(),
            final(self).player() == old(self).player(),
            final(self).selected() == old(self).selected(),
    {
        let mut start_data = self.pieces[mov.index];

        // Promotion to king
        start_data.is_king = start_data.is_king || mov.promoted;

        self.pieces.set(mov.index, PieceData::const_default());

        if let Some(captured) = &mov.captured {
            let ghost lifted = self.pieces@;
            let mut k: usize = 0;
            assert(captured@.subrange(0, 0) =~= Seq::empty());
            assert(mov@.captured == Some(captured@));
            assert forall|j: int| 0 <= j < captured@.len() implies #[trigger] captured@[j] < 32 by {
                let list = mov@.captured->Some_0;
                assert(list == captured@);
                assert(list[j] < 32);
            }
            while k < captured.len()
                invariant
                    k <= captured@.len(),
                    self.wf(),
                    lifted.len() == 32,
                    forall|j: int| 0 <= j < captured@.len() ==> #[trigger] captured@[j] < 32,
                    self.squares == old(self).squares,
                    self.player_color == old(self).player_color,
                    self.selected_square == old(self).selected_square,
                    self.pieces@ == cleared_of(lifted, captured@.subrange(0, k as int)),
                decreases captured@.len() - k,
            {
                assert(captured@.subrange(0, k as int + 1).drop_last() =~= captured@.subrange(
                    0,
                    k as int,
                ));
                self.pieces.set(captured[k], PieceData::const_default());
                k += 1;
            }
            assert(captured@.subrange(0, captured@.len() as int) =~= captured@);
        }
        // The piece comes down last, so that it stands even where the chain
        // ends on a square that it has emptied on the way.
        self.pieces.set(mov.end, start_data);
    }

    /// Returns true if the `index` corresponds to an empty square on the board
    pub fn piece_is_empty(&self, index: usize) -> (empty: bool)
        requires
            self.wf(),
            index < 32,
        ensures
            empty == !self.slots()[index as int].is_active,
    {
        !self.pieces[index].is_active
    }

    /// Returns true if the `index` corresponds to a player piece on the board
    pub fn piece_is_player(&self, index: usize) -> (own: bool)
        requires
            self.wf(),
            index < 32,
        ensures
            own == (self.slots()[index as int].is_active && self.slots()[index as int].color
                == self.player()),
    {
        let piece = self.pieces[index];
        piece.color == self.player_color && piece.is_active
    }

    /// Returns true if the `index` corresponds to a non-player piece on the board
    pub fn piece_is_enemy(&self, index: usize) -> (hostile: bool)
        requires
            self.wf(),
            index < 32,
        ensures
            hostile == (self.slots()[index as int].is_active && self.slots()[index as int].color
                != self.player()),
    {
        let piece = self.pieces[index];
        piece.color != self.player_color && piece.is_active
    }

    /// Number of pieces that the local player has on the board.
    pub fn get_player_piece_count(&self) -> (count: u8)
        requires
            self.wf(),
        ensures
            count == color_count(self.slots(), self.player()),
    {
        let mut count: u8 = 0;
        let mut i: usize = 0;
        assert(self.pieces@.subrange(0, 0) =~= Seq::empty());
        while i < 32
            invariant
                i <= 32,
                self.wf(),
                count <= i,
                count == color_count(self.pieces@.subrange(0, i as int), self.player_color),
            decreases 32 - i,
        {
            assert(self.pieces@.subrange(0, i as int + 1).drop_last() =~= self.pieces@.subrange(
                0,
                i as int,
            ));
            if self.piece_is_player(i) {
                count += 1;
            }
            i += 1;
        }
        assert(self.pieces@.subrange(0, 32) =~= self.pieces@);
        count
    }

    /// Number of pieces that the opponent has on the board.
    pub fn get_enemy_piece_count(&self) -> (count: u8)
        requires
            self.wf(),
        ensures
            count == color_count(self.slots(), self.player().opposite()),
    {
        let mut count: u8 = 0;
        let mut i: usize = 0;
        assert(self.pieces@.subrange(0, 0) =~= Seq::empty());
        while i < 32
            invariant
                i <= 32,
                self.wf(),
                count <= i,
                count == color_count(self.pieces@.subrange(0, i as int), self.player_color.opposite()),
            decreases 32 - i,
        {
            assert(self.pieces@.subrange(0, i as int + 1).drop_last() =~= self.pieces@.subrange(
                0,
                i as int,
            ));
            if self.piece_is_enemy(i) {
                count += 1;
            }
            i += 1;
        }
        assert(self.pieces@.subrange(0, 32) =~= self.pieces@);
        count
    }

    /// Number of empty squares.
    pub fn get_empty_piece_count(&self) -> (count: u8)
        requires
            self.wf(),
        ensures
            count == empty_count(self.slots()),
    {
        let mut count: u8 = 0;
        let mut i: usize = 0;
        assert(self.pieces@.subrange(0, 0) =~= Seq::empty());
        while i < 32
            invariant
                i <= 32,
                self.wf(),
                count <= i,
                count == i - active_count(self.pieces@.subrange(0, i as int)),
            decreases 32 - i,
        {
            assert(self.pieces@.subrange(0, i as int + 1).drop_last() =~= self.pieces@.subrange(
                0,
                i as int,
            ));
            if self.piece_is_empty(i) {
                count += 1;
            }
            i += 1;
        }
        assert(self.pieces@.subrange(0, 32) =~= self.pieces@);
        count
    }

    /// Gets all the legal moves for the given piece, and whether they are
    /// forced captures.
    /// This works for both enemy pieces and player pieces
    pub fn get_legal_moves_piece(&self, index: usize) -> (found: Option<(Vec<Move>, bool)>)
        requires
            self.wf(),
            index < 32,
        ensures
            found_view(found) == piece_moves(self.slots(), self.player(), index as int),
    {
        let piece = self.pieces[index];
        if !piece.is_active {
            return None;
        }
        let is_local_player = piece.color == self.player_color;
        let enemy_color = piece.color.get_opposite();
        let directions = Direction::values();

        let mut moves: Vec<Move> = Vec::new();
        let mut is_taking = false;
        let mut any = false;
        assert(moves.deep_view() =~= Seq::empty());

        let king = piece.is_king;
        let found = check_move(&self.pieces, index, index, is_local_player, enemy_color, king, directions[0], false);
        gather(found, &mut moves, &mut is_taking, &mut any);
        let found = check_move(&self.pieces, index, index, is_local_player, enemy_color, king, directions[1], false);
        gather(found, &mut moves, &mut is_taking, &mut any);
        let found = check_move(&self.pieces, index, index, is_local_player, enemy_color, king, directions[2], false);
        gather(found, &mut moves, &mut is_taking, &mut any);
        let found = check_move(&self.pieces, index, index, is_local_player, enemy_color, king, directions[3], false);
        gather(found, &mut moves, &mut is_taking, &mut any);

        if !any {
            return None;
        }
        if !is_taking {
            return Some((moves, is_taking));
        }
        // Remove all non-capturing moves
        let filtered = keep_jumps(&moves);
        Some((filtered, is_taking))
    }

    /// Returns all legal moves for the pieces of `color`.
    pub fn legal_moves_for_color(&self, color: PieceColor) -> (found: Option<Vec<Move>>)
        requires
            self.wf(),
        ensures
            match found {
                Some(moves) => color_moves(self.slots(), self.player(), color) == Some(moves.deep_view()),
                None => color_moves(self.slots(), self.player(), color) is None,
            },
    {
        let mut moves: Vec<Move> = Vec::new();
        let mut any = false;
        let mut is_taking = false;
        let mut index: usize = 0;
        assert(moves.deep_view() =~= Seq::empty());
        while index < 32
            invariant
                index <= 32,
                self.wf(),
                survey(self.pieces@, self.player_color, color, index as int) == (Survey {
                    moves: moves.deep_view(),
                    forced: is_taking,
                    any,
                }),
            decreases 32 - index,
        {
            if self.pieces[index].color == color {
                let legal_moves = self.get_legal_moves_piece(index);
                gather(legal_moves, &mut moves, &mut is_taking, &mut any);
            }
            index += 1;
        }
        if !any {
            return None;
        }
        if !is_taking {
            return Some(moves);
        }
        Some(keep_jumps(&moves))
    }

    /// Returns all legal moves for the `player_color`
    pub fn get_legal_moves(&self) -> (found: Option<Vec<Move>>)
        requires
            self.wf(),
        ensures
            match found {
                Some(moves) => color_moves(self.slots(), self.player(), self.player()) == Some(
                    moves.deep_view(),
                ),
                None => color_moves(self.slots(), self.player(), self.player()) is None,
            },
    {
        self.legal_moves_for_color(self.player_color)
    }
}

/// The first move of `moves` that leads from `from` to `to`.
fn find_between(moves: &Vec<Move>, from: usize, to: usize) -> (found: Option<Move>)
    ensures
        match found {
            Some(mov) => first_between(moves.deep_view(), from as int, to as int) == Some(mov@),
            None => first_between(moves.deep_view(), from as int, to as int) is None,
        },
{
    let mut i: usize = 0;
    assert(moves.deep_view().subrange(0, moves.len() as int) =~= moves.deep_view());
    while i < moves.len()
        invariant
            i <= moves.len(),
            first_between(moves.deep_view(), from as int, to as int) == first_between(
                moves.deep_view().subrange(i as int, moves.len() as int),
                from as int,
                to as int,
            ),
        decreases moves.len() - i,
    {
        let ghost rest = moves.deep_view().subrange(i as int, moves.len() as int);
        assert(rest[0] == moves@[i as int]@);
        assert(rest.drop_first() =~= moves.deep_view().subrange(i as int + 1, moves.len() as int));
        if moves[i].index == from && moves[i].end == to {
            return Some(moves[i].clone());
        }
        i += 1;
    }
    None
}

impl Board {
    /// Handles a click on square `index`.
    ///
    /// Out of the player's turn a click does nothing. In the player's turn, if
    /// the square selected before holds a piece of the player and a legal move
    /// leads from there to `index`, that move is carried out and returned, so
    /// that it can be sent to the other peer. Then the squares that the piece on
    /// `index` can reach are highlighted, and `index` is the selected square.
    pub fn on_board_clicked(&mut self, index: usize, is_player_turn: bool) -> (chosen: Option<Move>)
        requires
            old(self).wf(),
            index < 32,
            0 <= old(self).selected() < 32,
        ensures
            final(self).wf(),
            final(self).player() == old(self).player(),
            !is_player_turn ==> {
                &&& chosen is None
                &&& final(self).slots() == old(self).slots()
                &&& final(self).marks() == old(self).marks()
                &&& final(self).selected() == old(self).selected()
            },
            is_player_turn ==> {
                let choice = clicked_move(
                    old(self).slots(),
                    old(self).player(),
                    old(self).selected() as int,
                    index as int,
                );
                &&& match chosen {
                    Some(mov) => choice == Some(mov@),
                    None => choice is None,
                }
                &&& final(self).slots() == match choice {
                    Some(mov) => after_move(old(self).slots(), mov),
                    None => old(self).slots(),
                }
                &&& final(self).selected() == index
                &&& final(self).marks() == Seq::new(
                    32,
                    |i: int| names(reachable_from(final(self).slots(), final(self).player(), index as int), i),
                )
            },
    {
        if !is_player_turn {
            return None;
        }
        let selected_piece = self.selected_square as usize;
        let mut chosen: Option<Move> = None;
        if self.piece_is_player(selected_piece) {
            if let Some(moves) = self.get_legal_moves() {
                chosen = find_between(&moves, selected_piece, index);
                proof {
                    if chosen is Some {
                        lemma_first_between_is_member(moves.deep_view(), selected_piece as int, index as int);
                        let at = choose|at: int|
                            0 <= at < moves.deep_view().len() && moves.deep_view()[at] == chosen->Some_0@;
                        law_legal_moves_on_board(self.pieces@, self.player_color, self.player_color, at);
                    }
                }
            }
        }
        if let Some(mov) = &chosen {
            self.move_piece(mov);
        }
        // Show where the piece on the clicked square can go
        self.reset_squares();
        let mut ends: Vec<usize> = Vec::new();
        if let Some((moves, _)) = self.get_legal_moves_piece(index) {
            proof {
                lemma_piece_moves_legal(self.pieces@, self.player_color, index as int);
            }
            let mut i: usize = 0;
            while i < moves.len()
                invariant
                    i <= moves.len(),
                    ends@.len() == i,
                    forall|k: int| 0 <= k < i ==> #[trigger] ends@[k] == moves@[k]@.end,
                    forall|k: int|
                        0 <= k < moves.len() ==> (#[trigger] moves.deep_view()[k]).end < 32,
                decreases moves.len() - i,
            {
                assert(moves.deep_view()[i as int] == moves@[i as int]@);
                ends.push(moves[i].end);
                i += 1;
            }
            assert(ends@ =~= reachable_from(self.pieces@, self.player_color, index as int));
            assert forall|k: int| 0 <= k < ends@.len() implies #[trigger] ends@[k] < 32 by {
                assert(moves.deep_view()[k].end < 32);
                assert(moves.deep_view()[k] == moves@[k]@);
            }
        } else {
            assert(ends@ =~= reachable_from(self.pieces@, self.player_color, index as int));
        }
        self.mark_squares(ends.as_slice());
        self.selected_square = index as i32;
        assert(self.marks() =~= Seq::new(
            32,
            |i: int| names(reachable_from(self.slots(), self.player(), index as int), i),
        ));
        chosen
    }
}

impl Board {
    /// Carries out a move that the other player has made. The other player
    /// numbers the squares from the other side, so the move is mirrored first.
    /// A move that names a square off the board is not carried out; the result
    /// tells whether the move was.
    pub fn opponent_moved(&mut self, mov: &Move) -> (done: bool)
        requires
            old(self).wf(),
        ensures
            final(self).wf(),
            done == mov@.on_board(),
            final(self).slots() == if done {
                after_move(old(self).slots(), mov@.reversed())
            } else {
                old(self).slots()
            },
            final(self).marks() == old(self).marks(),
            final(self).player() == old(self).player(),
            final(self).selected() == old(self).selected(),
    {
        if !mov.is_on_board() {
            return false;
        }
        let mirrored = mov.reverse();
        proof {
            match mov@.captured {
                Some(list) => {
                    let turned = mirrored@.captured->Some_0;
                    assert forall|i: int| 0 <= i < turned.len() implies #[trigger] turned[i] < 32 by {
                        assert(list[i] < 32);
                    }
                },
                None => {},
            }
        }
        self.move_piece(&mirrored);
        true
    }
}

} // verus!
