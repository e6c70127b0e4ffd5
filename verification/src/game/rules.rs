//! The rules of movement, stated as mathematics over a sequence of 32 slots.
//!
//! A piece steps diagonally onto an empty square; a man only away from its own
//! side, a king in any direction and over any run of empty squares. A piece
//! jumps an adjacent enemy piece when the square behind it is empty, and goes on
//! jumping from where it lands for as long as it can. When a jump is available,
//! plain steps are not legal.

use vstd::prelude::*;
use crate::game::{Direction, MoveView, PieceColor, PieceData};

verus! {

/// Number of active pieces among the slots.
pub open spec fn active_count(pieces: Seq<PieceData>) -> nat
    decreases pieces.len(),
{
    if pieces.len() == 0 {
        0
    } else {
        active_count(pieces.drop_last()) + if pieces.last().is_active {
            1nat
        } else {
            0nat
        }
    }
}

/// Emptying an occupied slot leaves one active piece fewer.
pub proof fn lemma_clearing_lowers_count(pieces: Seq<PieceData>, index: int)
    requires
        0 <= index < pieces.len(),
        pieces[index].is_active,
    ensures
        active_count(pieces.update(index, PieceData::empty())) == active_count(pieces) - 1,
    decreases pieces.len(),
{
    let cleared = pieces.update(index, PieceData::empty());
    if index == pieces.len() - 1 {
        assert(cleared.drop_last() =~= pieces.drop_last());
    } else {
        assert(cleared.drop_last() =~= pieces.drop_last().update(index, PieceData::empty()));
        lemma_clearing_lowers_count(pieces.drop_last(), index);
    }
}

/// The square a step from `index` in direction `dir` leads to, before any
/// check that it lies on the board.
pub open spec fn step(index: int, dir: Direction) -> int {
    index + dir.delta(index)
}

/// The step would leave the board sideways: leftwards from the leftmost
/// square of a left-shifted row, or rightwards from the rightmost square of a
/// right-shifted row.
pub open spec fn off_side(index: int, dir: Direction) -> bool {
    ||| index % 8 < 4 && dir.left() && index % 4 == 0
    ||| index % 8 >= 4 && dir.right() && index % 4 == 3
}

/// The direction leads back towards the piece's own side. The local player's
/// pieces advance upwards, the opponent's downwards.
pub open spec fn backward(dir: Direction, local: bool) -> bool {
    if local {
        dir.down()
    } else {
        dir.up()
    }
}

/// Landing on `square` crowns the piece: the square lies in the rank furthest
/// from the piece's own side.
pub open spec fn crowns(square: int, local: bool) -> bool {
    if local {
        square < 4
    } else {
        square >= 28
    }
}

/// How many rows lie ahead of `index` in direction `dir`.
pub open spec fn rows_ahead(index: int, dir: Direction) -> int {
    if dir.up() {
        index / 4
    } else {
        7 - index / 4
    }
}

/// A plain step from `start` to `end`.
pub open spec fn plain_step(start: int, end: int, promoted: bool) -> MoveView {
    MoveView { index: start as usize, end: end as usize, promoted, captured: None }
}

/// A jump from `start` to `end` over the single square `taken`.
pub open spec fn single_jump(start: int, end: int, taken: int, promoted: bool) -> MoveView {
    MoveView {
        index: start as usize,
        end: end as usize,
        promoted,
        captured: Some(seq![taken as usize]),
    }
}

/// The move `later`, which continues a chain, with the jump over `taken` that
/// came before it put on record.
pub open spec fn after_jump(later: MoveView, taken: int, promoted: bool) -> MoveView {
    MoveView {
        index: later.index,
        end: later.end,
        promoted: later.promoted || promoted,
        captured: match later.captured {
            Some(list) => Some(list.push(taken as usize)),
            None => Some(seq![taken as usize]),
        },
    }
}

/// What one direction adds to a chain that has just jumped over `taken`: the
/// jumps that go on in that direction, none if it offers only plain steps.
pub open spec fn chain_part(found: Option<(Seq<MoveView>, bool)>, taken: int, promoted: bool) -> Seq<
    MoveView,
> {
    match found {
        Some((moves, true)) => Seq::new(moves.len(), |i: int| after_jump(moves[i], taken, promoted)),
        _ => Seq::empty(),
    }
}

/// The square that a step from `index` in direction `dir` reaches, if the
/// piece may take that direction and the step stays on the board.
#[verifier::opaque]
pub open spec fn reach(index: int, dir: Direction, king: bool, local: bool) -> Option<int> {
    if index < 0 || index >= 32 || off_side(index, dir) || (!king && backward(dir, local)) {
        None
    } else if step(index, dir) < 0 || step(index, dir) >= 32 {
        None
    } else {
        Some(step(index, dir))
    }
}

/// A step that stays on the board leads to the next row in its direction.
pub proof fn lemma_reach_next_row(index: int, dir: Direction, king: bool, local: bool)
    requires
        reach(index, dir, king, local) is Some,
    ensures
        0 <= reach(index, dir, king, local)->Some_0 < 32,
        rows_ahead(reach(index, dir, king, local)->Some_0, dir) == rows_ahead(index, dir) - 1,
        0 <= rows_ahead(index, dir) <= 7,
{
    reveal(reach);
}

/// The jumps by which a chain goes on from the square `landing`, where the
/// piece has come down after jumping over `taken`, which is already off the
/// board in `cleared`. The four directions are tried in the order of
/// [`Direction::all`].
#[verifier::opaque]
pub open spec fn chain_from(
    cleared: Seq<PieceData>,
    start: int,
    landing: int,
    local: bool,
    enemy: PieceColor,
    rank: bool,
    taken: int,
    promoting: bool,
) -> Seq<MoveView>
    decreases active_count(cleared), 8int,
{
    if landing < 0 || landing >= 32 {
        Seq::empty()
    } else {
        chain_part(
            moves_along(cleared, start, landing, local, enemy, rank, Direction::UpRight, false),
            taken,
            promoting,
        ) + chain_part(
            moves_along(cleared, start, landing, local, enemy, rank, Direction::UpLeft, false),
            taken,
            promoting,
        ) + chain_part(
            moves_along(cleared, start, landing, local, enemy, rank, Direction::DownLeft, false),
            taken,
            promoting,
        ) + chain_part(
            moves_along(cleared, start, landing, local, enemy, rank, Direction::DownRight, false),
            taken,
            promoting,
        )
    }
}

/// The moves of the piece that set out from `start`, now looking from `index`
/// in direction `dir`, with the flag telling whether they are jumps.
///
/// * `local` — the piece belongs to the local player, so it advances upwards.
/// * `enemy` — the color it may capture.
/// * `king` — it moves as a king.
/// * `taking` — `index` is the square of an enemy piece that is being jumped,
///   so the next square must be free to land on.
///
/// `None` means that the direction offers nothing.
#[verifier::opaque]
pub open spec fn moves_along(
    pieces: Seq<PieceData>,
    start: int,
    index: int,
    local: bool,
    enemy: PieceColor,
    king: bool,
    dir: Direction,
    taking: bool,
) -> Option<(Seq<MoveView>, bool)>
    decreases active_count(pieces), rows_ahead(index, dir),
{
    if pieces.len() != 32 || index < 0 || index >= 32 || (taking && !pieces[index].is_active) {
        None
    } else {
        match reach(index, dir, king, local) {
            None => None,
            Some(next) => {
                proof {
                    lemma_reach_next_row(index, dir, king, local);
                }
                if pieces[next].is_active {
                    if pieces[next].color != enemy || taking {
                        None
                    } else {
                        moves_along(pieces, start, next, local, enemy, king, dir, true)
                    }
                } else if taking {
                    proof {
                        lemma_clearing_lowers_count(pieces, index);
                    }
                    let promoting = crowns(next, local);
                    let further = chain_from(
                        pieces.update(index, PieceData::empty()),
                        start,
                        next,
                        local,
                        enemy,
                        king || promoting,
                        index,
                        promoting,
                    );
                    if further.len() == 0 {
                        Some((seq![single_jump(start, next, index, promoting)], true))
                    } else {
                        Some((further, true))
                    }
                } else {
                    let promoting = crowns(next, local);
                    let beyond = if king {
                        moves_along(pieces, start, next, local, enemy, king, dir, false)
                    } else {
                        None
                    };
                    match beyond {
                        Some((moves, true)) => Some((moves, true)),
                        Some((moves, false)) => Some(
                            (moves.push(plain_step(start, next, promoting)), false),
                        ),
                        None => Some((seq![plain_step(start, next, promoting)], false)),
                    }
                }
            },
        }
    }
}

/// The moves of a list that are jumps, in their order.
pub open spec fn jumps_only(moves: Seq<MoveView>) -> Seq<MoveView>
    decreases moves.len(),
{
    if moves.len() == 0 {
        Seq::empty()
    } else if moves.last().captured is Some {
        jumps_only(moves.drop_last()).push(moves.last())
    } else {
        jumps_only(moves.drop_last())
    }
}

/// The moves that a direction offers, none if it offers nothing.
pub open spec fn offered(found: Option<(Seq<MoveView>, bool)>) -> Seq<MoveView> {
    match found {
        Some((moves, _)) => moves,
        None => Seq::empty(),
    }
}

/// The direction offers a jump.
pub open spec fn forces(found: Option<(Seq<MoveView>, bool)>) -> bool {
    found matches Some((_, true))
}

/// The legal moves of the piece on square `index`, and whether they are
/// jumps. `player` is the color of the local player, whose pieces advance
/// upwards.
///
/// The four directions are tried in the order of [`Direction::all`]. If any of
/// them offers a jump, only jumps are legal. `None` when the square is empty or
/// the piece cannot move at all.
pub open spec fn piece_moves(pieces: Seq<PieceData>, player: PieceColor, index: int) -> Option<
    (Seq<MoveView>, bool),
> {
    if pieces.len() != 32 || index < 0 || index >= 32 || !pieces[index].is_active {
        None
    } else {
        let piece = pieces[index];
        let local = piece.color == player;
        let enemy = piece.color.opposite();
        let a = moves_along(pieces, index, index, local, enemy, piece.is_king, Direction::UpRight, false);
        let b = moves_along(pieces, index, index, local, enemy, piece.is_king, Direction::UpLeft, false);
        let c = moves_along(pieces, index, index, local, enemy, piece.is_king, Direction::DownLeft, false);
        let d = moves_along(pieces, index, index, local, enemy, piece.is_king, Direction::DownRight, false);
        if a is None && b is None && c is None && d is None {
            None
        } else {
            let all = offered(a) + offered(b) + offered(c) + offered(d);
            let forced = forces(a) || forces(b) || forces(c) || forces(d);
            Some((if forced { jumps_only(all) } else { all }, forced))
        }
    }
}

/// What the pieces of `color` on the squares below `upto` can do.
pub struct Survey {
    /// Their legal moves, square by square.
    pub moves: Seq<MoveView>,
    /// One of them has a jump.
    pub forced: bool,
    /// One of them can move.
    pub any: bool,
}

/// Surveys the squares `0..upto` for the moves of the pieces of `color`.
pub open spec fn survey(pieces: Seq<PieceData>, player: PieceColor, color: PieceColor, upto: int) -> Survey
    decreases upto,
{
    if upto <= 0 {
        Survey { moves: Seq::empty(), forced: false, any: false }
    } else {
        let before = survey(pieces, player, color, upto - 1);
        if pieces[upto - 1].color != color {
            before
        } else {
            match piece_moves(pieces, player, upto - 1) {
                Some((moves, forced)) => Survey {
                    moves: before.moves + moves,
                    forced: before.forced || forced,
                    any: true,
                },
                None => before,
            }
        }
    }
}

/// The legal moves of the side `color`. If any of its pieces has a jump, only
/// jumps are legal. `None` when no piece of that color can move.
pub open spec fn color_moves(pieces: Seq<PieceData>, player: PieceColor, color: PieceColor) -> Option<
    Seq<MoveView>,
> {
    let found = survey(pieces, player, color, 32);
    if !found.any {
        None
    } else if found.forced {
        Some(jumps_only(found.moves))
    } else {
        Some(found.moves)
    }
}

/// Number of active pieces of `color` among the slots.
pub open spec fn color_count(pieces: Seq<PieceData>, color: PieceColor) -> nat
    decreases pieces.len(),
{
    if pieces.len() == 0 {
        0
    } else {
        color_count(pieces.drop_last(), color) + if pieces.last().is_active && pieces.last().color
            == color {
            1nat
        } else {
            0nat
        }
    }
}

/// Number of empty slots.
pub open spec fn empty_count(pieces: Seq<PieceData>) -> nat {
    (pieces.len() - active_count(pieces)) as nat
}

/// The board at the start of a game, seen by the player of `color`: the
/// opponent's twelve men on the squares 0..11, the player's own on 20..31, and
/// the two rows between them empty.
pub open spec fn opening(color: PieceColor) -> Seq<PieceData> {
    Seq::new(
        32,
        |i: int|
            if i < 12 {
                PieceData { color: color.opposite(), is_king: false, is_active: true }
            } else if i < 20 {
                PieceData::empty()
            } else {
                PieceData { color, is_king: false, is_active: true }
            },
    )
}

/// The slots with every square of `squares` emptied.
pub open spec fn cleared_of(pieces: Seq<PieceData>, squares: Seq<usize>) -> Seq<PieceData>
    decreases squares.len(),
{
    if squares.len() == 0 {
        pieces
    } else {
        cleared_of(pieces, squares.drop_last()).update(squares.last() as int, PieceData::empty())
    }
}

/// The piece that a move sets down: the one of the start square, crowned if
/// the move promotes it.
pub open spec fn moved_piece(pieces: Seq<PieceData>, mov: MoveView) -> PieceData {
    PieceData {
        color: pieces[mov.index as int].color,
        is_king: pieces[mov.index as int].is_king || mov.promoted,
        is_active: pieces[mov.index as int].is_active,
    }
}

/// The slots after `mov` has been carried out: the piece is lifted from the
/// start square, every captured square is emptied, and the piece is set down
/// on the end square, crowned if the move promotes it.
pub open spec fn after_move(pieces: Seq<PieceData>, mov: MoveView) -> Seq<PieceData> {
    let lifted = pieces.update(mov.index as int, PieceData::empty());
    let cleared = match mov.captured {
        Some(squares) => cleared_of(lifted, squares),
        None => lifted,
    };
    cleared.update(mov.end as int, moved_piece(pieces, mov))
}

/// The first move of a list that leads from `from` to `to`.
pub open spec fn first_between(moves: Seq<MoveView>, from: int, to: int) -> Option<MoveView>
    decreases moves.len(),
{
    if moves.len() == 0 {
        None
    } else if moves[0].index == from && moves[0].end == to {
        Some(moves[0])
    } else {
        first_between(moves.drop_first(), from, to)
    }
}

/// The move that a click on `index` asks for when `selected` was clicked
/// before: the first legal move of the player that leads from the one to the
/// other, if the player has a piece on `selected`.
pub open spec fn clicked_move(pieces: Seq<PieceData>, player: PieceColor, selected: int, index: int) -> Option<
    MoveView,
> {
    if pieces[selected].is_active && pieces[selected].color == player {
        match color_moves(pieces, player, player) {
            Some(moves) => first_between(moves, selected, index),
            None => None,
        }
    } else {
        None
    }
}

/// The squares where the legal moves of the piece on `index` end.
pub open spec fn reachable_from(pieces: Seq<PieceData>, player: PieceColor, index: int) -> Seq<usize> {
    match piece_moves(pieces, player, index) {
        Some((moves, _)) => Seq::new(moves.len(), |i: int| moves[i].end),
        None => Seq::empty(),
    }
}

} // verus!
