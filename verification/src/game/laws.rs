//! What holds of every move that the rules produce.

use vstd::prelude::*;
use crate::game::rules::{
    active_count, after_jump, after_move, chain_from, chain_part, cleared_of, color_count,
    color_moves, crowns, first_between, forces, jumps_only, lemma_clearing_lowers_count,
    lemma_reach_next_row, moved_piece, moves_along, offered, piece_moves, plain_step, reach, rows_ahead,
    single_jump, survey,
};
use crate::game::{Direction, MoveView, PieceColor, PieceData};

verus! {

/// Square `to` lies in a row ahead of square `from`, for a piece of the local
/// player (which advances towards row 0) or of the opponent.
pub open spec fn ahead(from: int, to: int, local: bool) -> bool {
    if local {
        to / 4 < from / 4
    } else {
        to / 4 > from / 4
    }
}

/// Square `to` lies in the row next to that of `from`.
#[verifier::opaque]
pub open spec fn adjacent_rows(from: int, to: int) -> bool {
    to / 4 == from / 4 + 1 || to / 4 == from / 4 - 1
}

/// Every square of `taken` holds a piece of color `enemy`, and none is named
/// twice.
pub open spec fn takes_enemies(pieces: Seq<PieceData>, enemy: PieceColor, taken: Seq<usize>) -> bool {
    &&& taken.len() > 0
    &&& taken.no_duplicates()
    &&& forall|k: int|
        0 <= k < taken.len() ==> {
            &&& (#[trigger] taken[k]) < 32
            &&& pieces[taken[k] as int].is_active
            &&& pieces[taken[k] as int].color == enemy
        }
}

/// The move `m` is one that a piece standing on `from` can make, after having
/// set out from `start`:
/// it ends on the board, and not where it started;
/// it is marked as promoting if it ends in the far rank;
/// a man ends ahead of `from` unless it was crowned on the way;
/// a plain step ends on an empty square, in the next row ahead if a man makes it, and
/// promotes exactly if it ends in the far rank;
/// a jump takes pieces of the enemy only, each once.
pub open spec fn well_formed_move(
    pieces: Seq<PieceData>,
    start: int,
    from: int,
    local: bool,
    enemy: PieceColor,
    king: bool,
    m: MoveView,
) -> bool {
    &&& m.index == start
    &&& m.end < 32
    &&& m.end != m.index
    &&& crowns(m.end as int, local) ==> m.promoted
    &&& !king ==> m.promoted || ahead(from, m.end as int, local)
    &&& match m.captured {
        None => {
            &&& !pieces[m.end as int].is_active
            &&& m.promoted == crowns(m.end as int, local)
            &&& !king ==> adjacent_rows(from, m.end as int) && ahead(from, m.end as int, local)
        },
        Some(taken) => takes_enemies(pieces, enemy, taken),
    }
}

/// Every move of `moves` is well formed, and all are jumps or none is,
/// as `jumping` says.
pub open spec fn all_well_formed(
    pieces: Seq<PieceData>,
    start: int,
    from: int,
    local: bool,
    enemy: PieceColor,
    king: bool,
    moves: Seq<MoveView>,
    jumping: bool,
) -> bool {
    forall|i: int|
        0 <= i < moves.len() ==> {
            &&& well_formed_move(pieces, start, from, local, enemy, king, #[trigger] moves[i])
            &&& (moves[i].captured is Some) == jumping
        }
}

/// A man's step leads one row ahead.
proof fn lemma_man_steps_ahead(index: int, dir: Direction, local: bool)
    requires
        reach(index, dir, false, local) is Some,
    ensures
        ahead(index, reach(index, dir, false, local)->Some_0, local),
        adjacent_rows(index, reach(index, dir, false, local)->Some_0),
{
    reveal(reach);
    reveal(ahead);
    reveal(adjacent_rows);
}

/// Being ahead carries over from square to square.
proof fn lemma_ahead_carries(from: int, via: int, to: int, local: bool)
    requires
        ahead(from, via, local),
        ahead(via, to, local),
    ensures
        ahead(from, to, local),
{
    reveal(ahead);
}

/// Moves that are well formed seen from `next` are well formed seen from
/// `index`, if they are jumps or a king makes them, and `next` lies ahead of
/// `index` for a man.
proof fn lemma_seen_from_behind(
    pieces: Seq<PieceData>,
    start: int,
    index: int,
    next: int,
    local: bool,
    enemy: PieceColor,
    king: bool,
    moves: Seq<MoveView>,
    jumping: bool,
)
    requires
        all_well_formed(pieces, start, next, local, enemy, king, moves, jumping),
        king || (jumping && ahead(index, next, local)),
    ensures
        all_well_formed(pieces, start, index, local, enemy, king, moves, jumping),
{
    assert forall|i: int| 0 <= i < moves.len() implies {
        &&& well_formed_move(pieces, start, index, local, enemy, king, #[trigger] moves[i])
        &&& (moves[i].captured is Some) == jumping
    } by {
        assert(well_formed_move(pieces, start, next, local, enemy, king, moves[i]));
        if !king && !moves[i].promoted {
            lemma_ahead_carries(index, next, moves[i].end as int, local);
        }
    }
}

/// A plain step onto the empty square `next` is well formed.
proof fn lemma_plain_step_well_formed(
    pieces: Seq<PieceData>,
    start: int,
    index: int,
    local: bool,
    enemy: PieceColor,
    king: bool,
    dir: Direction,
)
    requires
        pieces.len() == 32,
        0 <= start < 32,
        pieces[start].is_active,
        reach(index, dir, king, local) is Some,
        !pieces[reach(index, dir, king, local)->Some_0].is_active,
    ensures
        well_formed_move(
            pieces,
            start,
            index,
            local,
            enemy,
            king,
            plain_step(
                start,
                reach(index, dir, king, local)->Some_0,
                crowns(reach(index, dir, king, local)->Some_0, local),
            ),
        ),
{
    lemma_step_adjacent(index, dir, king, local);
    if !king {
        lemma_man_steps_ahead(index, dir, local);
    }
}

/// A jump over the single enemy piece on `index` is well formed.
proof fn lemma_single_jump_well_formed(
    pieces: Seq<PieceData>,
    start: int,
    index: int,
    local: bool,
    enemy: PieceColor,
    king: bool,
    dir: Direction,
)
    requires
        pieces.len() == 32,
        0 <= start < 32,
        0 <= index < 32,
        pieces[start].is_active,
        pieces[index].is_active,
        pieces[index].color == enemy,
        reach(index, dir, king, local) is Some,
        !pieces[reach(index, dir, king, local)->Some_0].is_active,
    ensures
        well_formed_move(
            pieces,
            start,
            index,
            local,
            enemy,
            king,
            single_jump(
                start,
                reach(index, dir, king, local)->Some_0,
                index,
                crowns(reach(index, dir, king, local)->Some_0, local),
            ),
        ),
{
    lemma_step_adjacent(index, dir, king, local);
    if !king {
        lemma_man_steps_ahead(index, dir, local);
    }
    let taken = seq![index as usize];
    assert(taken[0] == index);
    assert(takes_enemies(pieces, enemy, taken));
}

/// Any step leads to the next row.
proof fn lemma_step_adjacent(index: int, dir: Direction, king: bool, local: bool)
    requires
        reach(index, dir, king, local) is Some,
    ensures
        adjacent_rows(index, reach(index, dir, king, local)->Some_0),
        0 <= reach(index, dir, king, local)->Some_0 < 32,
        0 <= index < 32,
{
    reveal(reach);
    reveal(adjacent_rows);
}

/// What follows a jump over `taken`, in a chain that went on from `landing`
/// on the board `cleared`, is well formed on the board `pieces` from which
/// `taken` was cleared.
proof fn lemma_after_jump_well_formed(
    pieces: Seq<PieceData>,
    start: int,
    index: int,
    landing: int,
    local: bool,
    enemy: PieceColor,
    king: bool,
    promoting: bool,
    later: MoveView,
)
    requires
        pieces.len() == 32,
        0 <= index < 32,
        0 <= landing < 32,
        pieces[index].is_active,
        pieces[index].color == enemy,
        promoting == crowns(landing, local),
        !king ==> ahead(index, landing, local),
        later.captured is Some,
        well_formed_move(
            pieces.update(index, PieceData::empty()),
            start,
            landing,
            local,
            enemy,
            king || promoting,
            later,
        ),
    ensures
        well_formed_move(pieces, start, index, local, enemy, king, after_jump(later, index, promoting)),
        after_jump(later, index, promoting).captured is Some,
{
    let cleared = pieces.update(index, PieceData::empty());
    let list = later.captured->Some_0;
    let longer = list.push(index as usize);
    assert(after_jump(later, index, promoting).captured == Some(longer));
    if !king && !promoting && !later.promoted {
        lemma_ahead_carries(index, landing, later.end as int, local);
    }
    assert forall|k: int| 0 <= k < list.len() implies list[k] != index by {
        assert(cleared[list[k] as int].is_active);
    }
    assert(longer.no_duplicates()) by {
        assert forall|i: int, j: int| 0 <= i < longer.len() && 0 <= j < longer.len() && i != j implies longer[i]
            != longer[j] by {
            if i < list.len() && j < list.len() {
                assert(list[i] != list[j]);
            }
        }
    }
    assert forall|k: int| 0 <= k < longer.len() implies {
        &&& (#[trigger] longer[k]) < 32
        &&& pieces[longer[k] as int].is_active
        &&& pieces[longer[k] as int].color == enemy
    } by {
        if k < list.len() {
            assert(list[k] < 32);
            assert(cleared[list[k] as int].is_active);
            assert(cleared[list[k] as int] == pieces[list[k] as int]);
        }
    }
}

/// The moves that [`chain_from`] finds are well formed on the board from
/// which the jumped piece was cleared, and all are jumps.
pub proof fn lemma_chain_from_well_formed(
    pieces: Seq<PieceData>,
    start: int,
    index: int,
    landing: int,
    local: bool,
    enemy: PieceColor,
    king: bool,
    promoting: bool,
)
    requires
        pieces.len() == 32,
        0 <= start < 32,
        0 <= index < 32,
        0 <= landing < 32,
        pieces[start].is_active,
        pieces[start].color != enemy,
        pieces[index].is_active,
        pieces[index].color == enemy,
        promoting == crowns(landing, local),
        !king ==> ahead(index, landing, local),
    ensures
        all_well_formed(
            pieces,
            start,
            index,
            local,
            enemy,
            king,
            chain_from(
                pieces.update(index, PieceData::empty()),
                start,
                landing,
                local,
                enemy,
                king || promoting,
                index,
                promoting,
            ),
            true,
        ),
    decreases active_count(pieces.update(index, PieceData::empty())), 8int,
{
    reveal(chain_from);
    reveal(moves_along);
    let cleared = pieces.update(index, PieceData::empty());
    let rank = king || promoting;
    let a = moves_along(cleared, start, landing, local, enemy, rank, Direction::UpRight, false);
    let b = moves_along(cleared, start, landing, local, enemy, rank, Direction::UpLeft, false);
    let c = moves_along(cleared, start, landing, local, enemy, rank, Direction::DownLeft, false);
    let d = moves_along(cleared, start, landing, local, enemy, rank, Direction::DownRight, false);
    lemma_moves_along_well_formed(cleared, start, landing, local, enemy, rank, Direction::UpRight, false);
    lemma_moves_along_well_formed(cleared, start, landing, local, enemy, rank, Direction::UpLeft, false);
    lemma_moves_along_well_formed(cleared, start, landing, local, enemy, rank, Direction::DownLeft, false);
    lemma_moves_along_well_formed(cleared, start, landing, local, enemy, rank, Direction::DownRight, false);
    lemma_chain_part_well_formed(pieces, start, index, landing, local, enemy, king, promoting, a);
    lemma_chain_part_well_formed(pieces, start, index, landing, local, enemy, king, promoting, b);
    lemma_chain_part_well_formed(pieces, start, index, landing, local, enemy, king, promoting, c);
    lemma_chain_part_well_formed(pieces, start, index, landing, local, enemy, king, promoting, d);
    let pa = chain_part(a, index, promoting);
    let pb = chain_part(b, index, promoting);
    let pc = chain_part(c, index, promoting);
    let pd = chain_part(d, index, promoting);
    lemma_all_well_formed_concat(pieces, start, index, local, enemy, king, pa, pb, true);
    lemma_all_well_formed_concat(pieces, start, index, local, enemy, king, pa + pb, pc, true);
    lemma_all_well_formed_concat(pieces, start, index, local, enemy, king, pa + pb + pc, pd, true);
}

/// Two lists of well-formed moves make one.
proof fn lemma_all_well_formed_concat(
    pieces: Seq<PieceData>,
    start: int,
    from: int,
    local: bool,
    enemy: PieceColor,
    king: bool,
    first: Seq<MoveView>,
    second: Seq<MoveView>,
    jumping: bool,
)
    requires
        all_well_formed(pieces, start, from, local, enemy, king, first, jumping),
        all_well_formed(pieces, start, from, local, enemy, king, second, jumping),
    ensures
        all_well_formed(pieces, start, from, local, enemy, king, first + second, jumping),
{
    let both = first + second;
    assert forall|i: int| 0 <= i < both.len() implies {
        &&& well_formed_move(pieces, start, from, local, enemy, king, #[trigger] both[i])
        &&& (both[i].captured is Some) == jumping
    } by {
        if i < first.len() {
            assert(both[i] == first[i]);
        } else {
            assert(both[i] == second[i - first.len()]);
        }
    }
}

/// What one direction adds to a chain is well formed.
proof fn lemma_chain_part_well_formed(
    pieces: Seq<PieceData>,
    start: int,
    index: int,
    landing: int,
    local: bool,
    enemy: PieceColor,
    king: bool,
    promoting: bool,
    found: Option<(Seq<MoveView>, bool)>,
)
    requires
        pieces.len() == 32,
        0 <= index < 32,
        0 <= landing < 32,
        pieces[index].is_active,
        pieces[index].color == enemy,
        promoting == crowns(landing, local),
        !king ==> ahead(index, landing, local),
        match found {
            Some((moves, jumping)) => all_well_formed(
                pieces.update(index, PieceData::empty()),
                start,
                landing,
                local,
                enemy,
                king || promoting,
                moves,
                jumping,
            ),
            None => true,
        },
    ensures
        all_well_formed(pieces, start, index, local, enemy, king, chain_part(found, index, promoting), true),
{
    let part = chain_part(found, index, promoting);
    assert forall|i: int| 0 <= i < part.len() implies {
        &&& well_formed_move(pieces, start, index, local, enemy, king, #[trigger] part[i])
        &&& (part[i].captured is Some) == true
    } by {
        let moves = found->Some_0.0;
        assert(part[i] == after_jump(moves[i], index, promoting));
        assert(well_formed_move(
            pieces.update(index, PieceData::empty()),
            start,
            landing,
            local,
            enemy,
            king || promoting,
            moves[i],
        ));
        lemma_after_jump_well_formed(pieces, start, index, landing, local, enemy, king, promoting, moves[i]);
    }
}

/// The moves that [`moves_along`] finds are well formed, there is at least
/// one of them, and they are jumps exactly if the flag says so. A search that
/// starts on a piece being jumped finds jumps only.
pub proof fn lemma_moves_along_well_formed(
    pieces: Seq<PieceData>,
    start: int,
    index: int,
    local: bool,
    enemy: PieceColor,
    king: bool,
    dir: Direction,
    taking: bool,
)
    requires
        pieces.len() == 32,
        0 <= start < 32,
        0 <= index < 32,
        pieces[start].is_active,
        pieces[start].color != enemy,
        taking ==> pieces[index].color == enemy,
    ensures
        match moves_along(pieces, start, index, local, enemy, king, dir, taking) {
            Some((moves, jumping)) => {
                &&& moves.len() > 0
                &&& taking ==> jumping
                &&& all_well_formed(pieces, start, index, local, enemy, king, moves, jumping)
            },
            None => true,
        },
    decreases active_count(pieces), rows_ahead(index, dir),
{
    reveal(moves_along);
    reveal(chain_from);
    let found = moves_along(pieces, start, index, local, enemy, king, dir, taking);
    if found is None {
        return ;
    }
    let next = reach(index, dir, king, local)->Some_0;
    lemma_reach_next_row(index, dir, king, local);
    let promoting = crowns(next, local);
    if pieces[next].is_active {
        lemma_moves_along_well_formed(pieces, start, next, local, enemy, king, dir, true);
        if !king {
            lemma_man_steps_ahead(index, dir, local);
        }
        lemma_seen_from_behind(pieces, start, index, next, local, enemy, king, found->Some_0.0, true);
    } else if taking {
        lemma_clearing_lowers_count(pieces, index);
        if !king {
            lemma_man_steps_ahead(index, dir, local);
        }
        lemma_chain_from_well_formed(pieces, start, index, next, local, enemy, king, promoting);
        lemma_single_jump_well_formed(pieces, start, index, local, enemy, king, dir);
    } else {
        lemma_plain_step_well_formed(pieces, start, index, local, enemy, king, dir);
        if king {
            lemma_moves_along_well_formed(pieces, start, next, local, enemy, king, dir, false);
            let beyond = moves_along(pieces, start, next, local, enemy, king, dir, false);
            if beyond is Some {
                lemma_seen_from_behind(
                    pieces,
                    start,
                    index,
                    next,
                    local,
                    enemy,
                    king,
                    beyond->Some_0.0,
                    beyond->Some_0.1,
                );
            }
        }
    }
}

/// The move `m` is one that the piece on its start square can make on the
/// board `pieces`, in the sense of [`well_formed_move`].
pub open spec fn legal_shape(pieces: Seq<PieceData>, player: PieceColor, m: MoveView) -> bool {
    &&& m.index < 32
    &&& pieces[m.index as int].is_active
    &&& well_formed_move(
        pieces,
        m.index as int,
        m.index as int,
        pieces[m.index as int].color == player,
        pieces[m.index as int].color.opposite(),
        pieces[m.index as int].is_king,
        m,
    )
}

/// The jumps of a list keep what holds of every move of the list.
pub proof fn lemma_jumps_only_keeps(moves: Seq<MoveView>, holds: spec_fn(MoveView) -> bool)
    requires
        forall|i: int| 0 <= i < moves.len() ==> holds(#[trigger] moves[i]),
    ensures
        forall|i: int|
            0 <= i < jumps_only(moves).len() ==> holds(#[trigger] jumps_only(moves)[i]) && jumps_only(
                moves,
            )[i].captured is Some,
    decreases moves.len(),
{
    if moves.len() > 0 {
        let shorter = moves.drop_last();
        assert forall|i: int| 0 <= i < shorter.len() implies holds(#[trigger] shorter[i]) by {
            assert(shorter[i] == moves[i]);
        }
        lemma_jumps_only_keeps(shorter, holds);
        assert(holds(moves[moves.len() - 1]));
    }
}

/// What one direction offers to a piece on `index` has the legal shape.
proof fn lemma_offered_legal(pieces: Seq<PieceData>, player: PieceColor, index: int, dir: Direction)
    requires
        pieces.len() == 32,
        0 <= index < 32,
        pieces[index].is_active,
    ensures
        ({
            let found = moves_along(
                pieces,
                index,
                index,
                pieces[index].color == player,
                pieces[index].color.opposite(),
                pieces[index].is_king,
                dir,
                false,
            );
            &&& forall|i: int|
                0 <= i < offered(found).len() ==> {
                    &&& legal_shape(pieces, player, #[trigger] offered(found)[i])
                    &&& offered(found)[i].index == index
                    &&& (offered(found)[i].captured is Some) == forces(found)
                }
            &&& found is Some ==> offered(found).len() > 0
        }),
{
    let local = pieces[index].color == player;
    let enemy = pieces[index].color.opposite();
    let king = pieces[index].is_king;
    lemma_moves_along_well_formed(pieces, index, index, local, enemy, king, dir, false);
    let found = moves_along(pieces, index, index, local, enemy, king, dir, false);
    assert forall|i: int| 0 <= i < offered(found).len() implies {
        &&& legal_shape(pieces, player, #[trigger] offered(found)[i])
        &&& offered(found)[i].index == index
        &&& (offered(found)[i].captured is Some) == forces(found)
    } by {
        let moves = found->Some_0.0;
        assert(well_formed_move(pieces, index, index, local, enemy, king, moves[i]));
    }
}

/// Every legal move of a piece has the legal shape and starts on the piece's
/// square; all of them are jumps if the flag is set, and none is if it is not.
pub proof fn lemma_piece_moves_legal(pieces: Seq<PieceData>, player: PieceColor, index: int)
    ensures
        match piece_moves(pieces, player, index) {
            Some((moves, forced)) => forall|i: int|
                0 <= i < moves.len() ==> {
                    &&& legal_shape(pieces, player, #[trigger] moves[i])
                    &&& moves[i].index == index
                    &&& (moves[i].captured is Some) == forced
                },
            None => true,
        },
{
    if piece_moves(pieces, player, index) is Some {
        let local = pieces[index].color == player;
        let enemy = pieces[index].color.opposite();
        let king = pieces[index].is_king;
        let a = moves_along(pieces, index, index, local, enemy, king, Direction::UpRight, false);
        let b = moves_along(pieces, index, index, local, enemy, king, Direction::UpLeft, false);
        let c = moves_along(pieces, index, index, local, enemy, king, Direction::DownLeft, false);
        let d = moves_along(pieces, index, index, local, enemy, king, Direction::DownRight, false);
        lemma_offered_legal(pieces, player, index, Direction::UpRight);
        lemma_offered_legal(pieces, player, index, Direction::UpLeft);
        lemma_offered_legal(pieces, player, index, Direction::DownLeft);
        lemma_offered_legal(pieces, player, index, Direction::DownRight);
        let all = offered(a) + offered(b) + offered(c) + offered(d);
        let forced = forces(a) || forces(b) || forces(c) || forces(d);
        let holds = |m: MoveView| legal_shape(pieces, player, m) && m.index == index;
        assert forall|i: int| 0 <= i < all.len() implies holds(#[trigger] all[i]) && (all[i].captured is Some
            ==> forced) by {
            let la = offered(a).len();
            let lb = offered(b).len();
            let lc = offered(c).len();
            if i < la {
                assert(all[i] == offered(a)[i]);
            } else if i < la + lb {
                assert(all[i] == offered(b)[i - la]);
            } else if i < la + lb + lc {
                assert(all[i] == offered(c)[i - la - lb]);
            } else {
                assert(all[i] == offered(d)[i - la - lb - lc]);
            }
        }
        if forced {
            lemma_jumps_only_keeps(all, holds);
        }
    }
}

/// Every move that a survey gathers has the legal shape and starts on a piece
/// of the surveyed color; a jump among them sets the flag, and the flag is set
/// only if a surveyed piece has a jump.
pub proof fn lemma_survey_legal(pieces: Seq<PieceData>, player: PieceColor, color: PieceColor, upto: int)
    requires
        pieces.len() == 32,
        0 <= upto <= 32,
    ensures
        forall|i: int|
            0 <= i < survey(pieces, player, color, upto).moves.len() ==> {
                let m = #[trigger] survey(pieces, player, color, upto).moves[i];
                &&& legal_shape(pieces, player, m)
                &&& pieces[m.index as int].color == color
                &&& m.captured is Some ==> survey(pieces, player, color, upto).forced
            },
        survey(pieces, player, color, upto).forced <==> exists|square: int|
            0 <= square < upto && pieces[square].color == color && forces(
                #[trigger] piece_moves(pieces, player, square),
            ),
    decreases upto,
{
    if upto > 0 {
        lemma_survey_legal(pieces, player, color, upto - 1);
        lemma_piece_moves_legal(pieces, player, upto - 1);
        let before = survey(pieces, player, color, upto - 1);
        let now = survey(pieces, player, color, upto);
        let found = piece_moves(pieces, player, upto - 1);
        assert forall|i: int| 0 <= i < now.moves.len() implies {
            let m = #[trigger] now.moves[i];
            &&& legal_shape(pieces, player, m)
            &&& pieces[m.index as int].color == color
            &&& m.captured is Some ==> now.forced
        } by {
            if i < before.moves.len() {
                assert(now.moves[i] == before.moves[i]);
            } else {
                assert(now.moves[i] == found->Some_0.0[i - before.moves.len()]);
            }
        }
        if now.forced {
            if before.forced {
                let square = choose|square: int|
                    0 <= square < upto - 1 && pieces[square].color == color && forces(
                        #[trigger] piece_moves(pieces, player, square),
                    );
                assert(0 <= square < upto && forces(piece_moves(pieces, player, square)));
            } else {
                assert(forces(piece_moves(pieces, player, upto - 1)));
            }
        }
        if exists|square: int|
            0 <= square < upto && pieces[square].color == color && forces(
                #[trigger] piece_moves(pieces, player, square),
            ) {
            let square = choose|square: int|
                0 <= square < upto && pieces[square].color == color && forces(
                    #[trigger] piece_moves(pieces, player, square),
                );
            if square < upto - 1 {
                assert(before.forced);
            }
        }
    }
}

/// Every legal move of a side has the legal shape and starts on a piece of
/// that side.
pub proof fn lemma_color_moves_legal(pieces: Seq<PieceData>, player: PieceColor, color: PieceColor)
    requires
        pieces.len() == 32,
    ensures
        match color_moves(pieces, player, color) {
            Some(moves) => forall|i: int|
                0 <= i < moves.len() ==> {
                    &&& legal_shape(pieces, player, #[trigger] moves[i])
                    &&& pieces[moves[i].index as int].color == color
                },
            None => true,
        },
{
    lemma_survey_legal(pieces, player, color, 32);
    let found = survey(pieces, player, color, 32);
    if found.any && found.forced {
        let holds = |m: MoveView| legal_shape(pieces, player, m) && pieces[m.index as int].color == color;
        assert forall|i: int| 0 <= i < found.moves.len() implies holds(#[trigger] found.moves[i]) by {}
        lemma_jumps_only_keeps(found.moves, holds);
    }
}

/// Forced capture: when a piece of a side has a jump, every legal move of that
/// side is a jump.
pub proof fn law_forced_capture(pieces: Seq<PieceData>, player: PieceColor, color: PieceColor, square: int)
    requires
        pieces.len() == 32,
        0 <= square < 32,
        pieces[square].color == color,
        forces(piece_moves(pieces, player, square)),
    ensures
        color_moves(pieces, player, color) is Some,
        forall|i: int|
            0 <= i < color_moves(pieces, player, color)->Some_0.len() ==> (#[trigger] color_moves(
                pieces,
                player,
                color,
            )->Some_0[i]).captured is Some,
{
    lemma_survey_legal(pieces, player, color, 32);
    let found = survey(pieces, player, color, 32);
    assert(found.forced);
    lemma_survey_any(pieces, player, color, 32);
    lemma_jumps_only_keeps(found.moves, |m: MoveView| true);
}

/// A survey that is forced has found a piece that can move.
proof fn lemma_survey_any(pieces: Seq<PieceData>, player: PieceColor, color: PieceColor, upto: int)
    requires
        0 <= upto <= 32,
    ensures
        survey(pieces, player, color, upto).forced ==> survey(pieces, player, color, upto).any,
    decreases upto,
{
    if upto > 0 {
        lemma_survey_any(pieces, player, color, upto - 1);
    }
}

/// The legal moves of a side are all jumps or all plain steps.
pub proof fn law_jumps_exclude_steps(pieces: Seq<PieceData>, player: PieceColor, color: PieceColor)
    requires
        pieces.len() == 32,
    ensures
        match color_moves(pieces, player, color) {
            Some(moves) => {
                ||| forall|i: int| 0 <= i < moves.len() ==> (#[trigger] moves[i]).captured is Some
                ||| forall|i: int| 0 <= i < moves.len() ==> (#[trigger] moves[i]).captured is None
            },
            None => true,
        },
{
    lemma_survey_legal(pieces, player, color, 32);
    let found = survey(pieces, player, color, 32);
    if found.any && found.forced {
        lemma_jumps_only_keeps(found.moves, |m: MoveView| true);
    }
}

/// The same for a single piece: its legal moves are jumps exactly if the
/// returned flag is set.
pub proof fn law_piece_flag_tells_jumps(pieces: Seq<PieceData>, player: PieceColor, index: int, i: int)
    requires
        piece_moves(pieces, player, index) is Some,
        0 <= i < piece_moves(pieces, player, index)->Some_0.0.len(),
    ensures
        (piece_moves(pieces, player, index)->Some_0.0[i].captured is Some) == piece_moves(
            pieces,
            player,
            index,
        )->Some_0.1,
{
    lemma_piece_moves_legal(pieces, player, index);
}

/// A man never retreats: each of its legal moves ends in a row ahead of the
/// one it starts from, unless the man was crowned on the way; a plain step
/// ends in the very next row ahead.
pub proof fn law_men_never_retreat(pieces: Seq<PieceData>, player: PieceColor, index: int, i: int)
    requires
        pieces.len() == 32,
        0 <= index < 32,
        !pieces[index].is_king,
        piece_moves(pieces, player, index) is Some,
        0 <= i < piece_moves(pieces, player, index)->Some_0.0.len(),
    ensures
        ({
            let m = piece_moves(pieces, player, index)->Some_0.0[i];
            let local = pieces[index].color == player;
            &&& m.promoted || ahead(index, m.end as int, local)
            &&& m.captured is None ==> ahead(index, m.end as int, local) && adjacent_rows(
                index,
                m.end as int,
            )
        }),
{
    lemma_piece_moves_legal(pieces, player, index);
    let m = piece_moves(pieces, player, index)->Some_0.0[i];
    assert(legal_shape(pieces, player, m));
}

/// Every legal move names squares of the board only, so it can be carried out.
pub proof fn law_legal_moves_on_board(pieces: Seq<PieceData>, player: PieceColor, color: PieceColor, i: int)
    requires
        pieces.len() == 32,
        color_moves(pieces, player, color) is Some,
        0 <= i < color_moves(pieces, player, color)->Some_0.len(),
    ensures
        color_moves(pieces, player, color)->Some_0[i].on_board(),
{
    lemma_color_moves_legal(pieces, player, color);
    let m = color_moves(pieces, player, color)->Some_0[i];
    assert(legal_shape(pieces, player, m));
}

/// A jump takes at least one piece, takes no piece twice, and takes pieces of
/// the other side only; and a move that ends in the far rank is marked as
/// promoting.
pub proof fn law_jumps_take_enemies(pieces: Seq<PieceData>, player: PieceColor, index: int, i: int)
    requires
        pieces.len() == 32,
        piece_moves(pieces, player, index) is Some,
        0 <= i < piece_moves(pieces, player, index)->Some_0.0.len(),
    ensures
        ({
            let m = piece_moves(pieces, player, index)->Some_0.0[i];
            &&& m.captured matches Some(taken) ==> takes_enemies(
                pieces,
                pieces[index].color.opposite(),
                taken,
            )
            &&& crowns(m.end as int, pieces[index].color == player) ==> m.promoted
        }),
{
    lemma_piece_moves_legal(pieces, player, index);
    let m = piece_moves(pieces, player, index)->Some_0.0[i];
    assert(legal_shape(pieces, player, m));
}

/// One if the slot holds a piece of `color`, zero if not.
pub open spec fn counts_for(piece: PieceData, color: PieceColor) -> int {
    if piece.is_active && piece.color == color {
        1
    } else {
        0
    }
}

/// Replacing one slot changes the count of a color by what the new slot adds
/// and the old one took with it.
pub proof fn lemma_color_count_update(pieces: Seq<PieceData>, index: int, piece: PieceData, color: PieceColor)
    requires
        0 <= index < pieces.len(),
    ensures
        color_count(pieces.update(index, piece), color) == color_count(pieces, color) - counts_for(
            pieces[index],
            color,
        ) + counts_for(piece, color),
    decreases pieces.len(),
{
    let changed = pieces.update(index, piece);
    if index == pieces.len() - 1 {
        assert(changed.drop_last() =~= pieces.drop_last());
    } else {
        assert(changed.drop_last() =~= pieces.drop_last().update(index, piece));
        lemma_color_count_update(pieces.drop_last(), index, piece, color);
    }
}

/// Emptying squares never adds a piece.
pub proof fn lemma_clearing_never_adds(pieces: Seq<PieceData>, squares: Seq<usize>, color: PieceColor)
    requires
        forall|k: int| 0 <= k < squares.len() ==> (#[trigger] squares[k]) < pieces.len(),
    ensures
        cleared_of(pieces, squares).len() == pieces.len(),
        color_count(cleared_of(pieces, squares), color) <= color_count(pieces, color),
    decreases squares.len(),
{
    if squares.len() > 0 {
        let fewer = squares.drop_last();
        assert forall|k: int| 0 <= k < fewer.len() implies (#[trigger] fewer[k]) < pieces.len() by {
            assert(fewer[k] == squares[k]);
        }
        lemma_clearing_never_adds(pieces, fewer, color);
        assert(squares.last() == squares[squares.len() - 1]);
        lemma_color_count_update(cleared_of(pieces, fewer), squares.last() as int, PieceData::empty(), color);
    }
}

/// No move adds a piece: after any move that stays on the board, neither side
/// has more pieces than before.
pub proof fn law_piece_counts_never_grow(pieces: Seq<PieceData>, mov: MoveView, color: PieceColor)
    requires
        pieces.len() == 32,
        mov.on_board(),
    ensures
        after_move(pieces, mov).len() == 32,
        color_count(after_move(pieces, mov), color) <= color_count(pieces, color),
{
    let lifted = pieces.update(mov.index as int, PieceData::empty());
    lemma_color_count_update(pieces, mov.index as int, PieceData::empty(), color);
    let cleared = match mov.captured {
        Some(squares) => cleared_of(lifted, squares),
        None => lifted,
    };
    match mov.captured {
        Some(squares) => {
            lemma_clearing_never_adds(lifted, squares, color);
        },
        None => {},
    }
    lemma_color_count_update(cleared, mov.end as int, moved_piece(pieces, mov), color);
}

/// The move that [`first_between`] finds is one of the list.
pub proof fn lemma_first_between_is_member(moves: Seq<MoveView>, from: int, to: int)
    requires
        first_between(moves, from, to) is Some,
    ensures
        exists|at: int| 0 <= at < moves.len() && moves[at] == first_between(moves, from, to)->Some_0,
        first_between(moves, from, to)->Some_0.index == from,
        first_between(moves, from, to)->Some_0.end == to,
    decreases moves.len(),
{
    if moves[0].index == from && moves[0].end == to {
        assert(moves[0] == first_between(moves, from, to)->Some_0);
    } else {
        lemma_first_between_is_member(moves.drop_first(), from, to);
        let at = choose|at: int|
            0 <= at < moves.drop_first().len() && moves.drop_first()[at] == first_between(
                moves.drop_first(),
                from,
                to,
            )->Some_0;
        assert(moves[at + 1] == first_between(moves, from, to)->Some_0);
    }
}

/// A list that holds a jump keeps at least one move when only its jumps are
/// kept.
pub proof fn lemma_jumps_only_keeps_a_jump(moves: Seq<MoveView>, at: int)
    requires
        0 <= at < moves.len(),
        moves[at].captured is Some,
    ensures
        jumps_only(moves).len() > 0,
    decreases moves.len(),
{
    if at < moves.len() - 1 {
        assert(moves.drop_last()[at] == moves[at]);
        lemma_jumps_only_keeps_a_jump(moves.drop_last(), at);
    }
}

/// A piece that has legal moves has at least one: the list that comes with
/// `Some` is never empty.
pub proof fn law_piece_moves_are_not_empty(pieces: Seq<PieceData>, player: PieceColor, index: int)
    requires
        piece_moves(pieces, player, index) is Some,
    ensures
        piece_moves(pieces, player, index)->Some_0.0.len() > 0,
{
    let local = pieces[index].color == player;
    let enemy = pieces[index].color.opposite();
    let king = pieces[index].is_king;
    let a = moves_along(pieces, index, index, local, enemy, king, Direction::UpRight, false);
    let b = moves_along(pieces, index, index, local, enemy, king, Direction::UpLeft, false);
    let c = moves_along(pieces, index, index, local, enemy, king, Direction::DownLeft, false);
    let d = moves_along(pieces, index, index, local, enemy, king, Direction::DownRight, false);
    lemma_offered_legal(pieces, player, index, Direction::UpRight);
    lemma_offered_legal(pieces, player, index, Direction::UpLeft);
    lemma_offered_legal(pieces, player, index, Direction::DownLeft);
    lemma_offered_legal(pieces, player, index, Direction::DownRight);
    let all = offered(a) + offered(b) + offered(c) + offered(d);
    let la = offered(a).len() as int;
    let lb = offered(b).len() as int;
    let lc = offered(c).len() as int;
    if forces(a) {
        assert(all[0] == offered(a)[0]);
        lemma_jumps_only_keeps_a_jump(all, 0);
    } else if forces(b) {
        assert(all[la] == offered(b)[0]);
        lemma_jumps_only_keeps_a_jump(all, la);
    } else if forces(c) {
        assert(all[la + lb] == offered(c)[0]);
        lemma_jumps_only_keeps_a_jump(all, la + lb);
    } else if forces(d) {
        assert(all[la + lb + lc] == offered(d)[0]);
        lemma_jumps_only_keeps_a_jump(all, la + lb + lc);
    }
}

/// A survey that found a piece that can move has gathered a move, and one
/// that is forced has gathered a jump.
proof fn lemma_survey_is_not_empty(pieces: Seq<PieceData>, player: PieceColor, color: PieceColor, upto: int)
    requires
        pieces.len() == 32,
        0 <= upto <= 32,
    ensures
        survey(pieces, player, color, upto).any ==> survey(pieces, player, color, upto).moves.len() > 0,
        survey(pieces, player, color, upto).forced ==> exists|at: int|
            0 <= at < survey(pieces, player, color, upto).moves.len() && (#[trigger] survey(
                pieces,
                player,
                color,
                upto,
            ).moves[at]).captured is Some,
    decreases upto,
{
    if upto > 0 {
        lemma_survey_is_not_empty(pieces, player, color, upto - 1);
        let before = survey(pieces, player, color, upto - 1);
        let now = survey(pieces, player, color, upto);
        let found = piece_moves(pieces, player, upto - 1);
        if pieces[upto - 1].color == color && found is Some {
            law_piece_moves_are_not_empty(pieces, player, upto - 1);
            lemma_piece_moves_legal(pieces, player, upto - 1);
            let moves = found->Some_0.0;
            if now.forced {
                if before.forced {
                    let at = choose|at: int|
                        0 <= at < before.moves.len() && (#[trigger] before.moves[at]).captured is Some;
                    assert(now.moves[at] == before.moves[at]);
                } else {
                    assert(now.moves[before.moves.len() as int] == moves[0]);
                }
            }
        }
    }
}

/// A side that has legal moves has at least one: the list that comes with
/// `Some` is never empty.
pub proof fn law_color_moves_are_not_empty(pieces: Seq<PieceData>, player: PieceColor, color: PieceColor)
    requires
        pieces.len() == 32,
        color_moves(pieces, player, color) is Some,
    ensures
        color_moves(pieces, player, color)->Some_0.len() > 0,
{
    lemma_survey_is_not_empty(pieces, player, color, 32);
    let found = survey(pieces, player, color, 32);
    if found.forced {
        let at = choose|at: int| 0 <= at < found.moves.len() && (#[trigger] found.moves[at]).captured is Some;
        lemma_jumps_only_keeps_a_jump(found.moves, at);
    }
}

/// Mirroring a move twice gives the move back.
pub proof fn law_mirroring_twice_restores(mov: MoveView)
    requires
        mov.on_board(),
    ensures
        mov.reversed().on_board(),
        mov.reversed().reversed() == mov,
{
    match mov.captured {
        Some(list) => {
            let once = mov.reversed().captured->Some_0;
            let twice = mov.reversed().reversed().captured->Some_0;
            assert forall|i: int| 0 <= i < once.len() implies #[trigger] once[i] < 32 by {
                assert(list[i] < 32);
            }
            assert forall|i: int| 0 <= i < list.len() implies twice[i] == list[i] by {
                assert(list[i] < 32);
                assert(once[i] == 31 - list[i]);
            }
            assert(twice =~= list);
        },
        None => {},
    }
}

/// Every square of a list is empty once the list has been cleared from the
/// board, and every other square is as before.
pub proof fn lemma_cleared_squares(pieces: Seq<PieceData>, squares: Seq<usize>, square: usize)
    requires
        forall|k: int| 0 <= k < squares.len() ==> (#[trigger] squares[k]) < pieces.len(),
        square < pieces.len(),
    ensures
        cleared_of(pieces, squares).len() == pieces.len(),
        squares.contains(square) ==> cleared_of(pieces, squares)[square as int] == PieceData::empty(),
        !squares.contains(square) ==> cleared_of(pieces, squares)[square as int] == pieces[square as int],
    decreases squares.len(),
{
    if squares.len() > 0 {
        let fewer = squares.drop_last();
        assert forall|k: int| 0 <= k < fewer.len() implies (#[trigger] fewer[k]) < pieces.len() by {
            assert(fewer[k] == squares[k]);
        }
        lemma_cleared_squares(pieces, fewer, square);
        assert(squares.last() == squares[squares.len() - 1]);
        if fewer.contains(square) {
            let k = choose|k: int| 0 <= k < fewer.len() && fewer[k] == square;
            assert(squares[k] == square);
        }
        if squares.contains(square) && squares.last() != square {
            let k = choose|k: int| 0 <= k < squares.len() && squares[k] == square;
            assert(fewer[k] == square);
        }
    }
}

/// After a move the piece stands on the end square, and every other square
/// that the move names is empty: the square that the piece set out from, and
/// every square that the move captured. A captured piece is gone for good.
pub proof fn law_captured_pieces_leave_the_board(pieces: Seq<PieceData>, mov: MoveView, k: int)
    requires
        pieces.len() == 32,
        mov.on_board(),
    ensures
        after_move(pieces, mov)[mov.end as int] == moved_piece(pieces, mov),
        mov.index != mov.end ==> !after_move(pieces, mov)[mov.index as int].is_active,
        match mov.captured {
            Some(taken) => 0 <= k < taken.len() && taken[k] != mov.end ==> !after_move(
                pieces,
                mov,
            )[taken[k] as int].is_active,
            None => true,
        },
{
    let lifted = pieces.update(mov.index as int, PieceData::empty());
    match mov.captured {
        Some(taken) => {
            lemma_cleared_squares(lifted, taken, mov.index);
            if 0 <= k < taken.len() {
                assert(taken[k] < 32);
                lemma_cleared_squares(lifted, taken, taken[k]);
            }
        },
        None => {},
    }
}

/// After a legal move the piece stands on the end square, which is not the
/// square it set out from; that square is empty.
pub proof fn law_moved_piece_stands_on_its_end_square(
    pieces: Seq<PieceData>,
    player: PieceColor,
    index: int,
    i: int,
)
    requires
        pieces.len() == 32,
        piece_moves(pieces, player, index) is Some,
        0 <= i < piece_moves(pieces, player, index)->Some_0.0.len(),
    ensures
        ({
            let m = piece_moves(pieces, player, index)->Some_0.0[i];
            let after = after_move(pieces, m);
            &&& m.index == index
            &&& m.end != m.index
            &&& after[m.end as int].is_active
            &&& after[m.end as int].color == pieces[index].color
            &&& after[m.end as int].is_king == (pieces[index].is_king || m.promoted)
            &&& !after[index].is_active
        }),
{
    lemma_piece_moves_legal(pieces, player, index);
    let m = piece_moves(pieces, player, index)->Some_0.0[i];
    assert(legal_shape(pieces, player, m));
    law_captured_pieces_leave_the_board(pieces, m, 0);
}

/// Keeping the jumps of two lists put together is keeping the jumps of each.
pub proof fn lemma_jumps_only_of_both(first: Seq<MoveView>, second: Seq<MoveView>)
    ensures
        jumps_only(first + second) == jumps_only(first) + jumps_only(second),
    decreases second.len(),
{
    if second.len() == 0 {
        assert(first + second =~= first);
        assert(jumps_only(first) + jumps_only(second) =~= jumps_only(first));
    } else {
        let both = first + second;
        assert(both.drop_last() =~= first + second.drop_last());
        assert(both.last() == second.last());
        lemma_jumps_only_of_both(first, second.drop_last());
        if second.last().captured is Some {
            assert(jumps_only(first) + jumps_only(second.drop_last()).push(second.last()) =~= (
            jumps_only(first) + jumps_only(second.drop_last())).push(second.last()));
        }
    }
}

/// A list of jumps is kept whole, and of a list of plain steps nothing is
/// kept.
pub proof fn lemma_jumps_only_of_one_kind(moves: Seq<MoveView>, jumping: bool)
    requires
        forall|i: int| 0 <= i < moves.len() ==> ((#[trigger] moves[i]).captured is Some) == jumping,
    ensures
        jumps_only(moves) == if jumping {
            moves
        } else {
            Seq::empty()
        },
    decreases moves.len(),
{
    if moves.len() > 0 {
        let shorter = moves.drop_last();
        assert forall|i: int| 0 <= i < shorter.len() implies ((#[trigger] shorter[i]).captured is Some)
            == jumping by {
            assert(shorter[i] == moves[i]);
        }
        lemma_jumps_only_of_one_kind(shorter, jumping);
        assert((moves[moves.len() - 1].captured is Some) == jumping);
        if jumping {
            assert(shorter.push(moves.last()) =~= moves);
        }
    } else {
        assert(moves =~= Seq::empty());
    }
}

/// What a direction adds to the legal moves of a piece when a jump is
/// available: its jumps if it offers any, nothing if it offers plain steps.
pub open spec fn forced_offer(found: Option<(Seq<MoveView>, bool)>) -> Seq<MoveView> {
    match found {
        Some((moves, true)) => moves,
        _ => Seq::empty(),
    }
}

/// When a piece has a jump, its legal moves are the jumps that the four
/// directions offer, in the order of the directions: nothing that a direction
/// offers is lost but plain steps.
pub proof fn law_forced_moves_are_the_offered_jumps(pieces: Seq<PieceData>, player: PieceColor, index: int)
    requires
        forces(piece_moves(pieces, player, index)),
    ensures
        ({
            let local = pieces[index].color == player;
            let enemy = pieces[index].color.opposite();
            let king = pieces[index].is_king;
            piece_moves(pieces, player, index)->Some_0.0 == forced_offer(
                moves_along(pieces, index, index, local, enemy, king, Direction::UpRight, false),
            ) + forced_offer(
                moves_along(pieces, index, index, local, enemy, king, Direction::UpLeft, false),
            ) + forced_offer(
                moves_along(pieces, index, index, local, enemy, king, Direction::DownLeft, false),
            ) + forced_offer(
                moves_along(pieces, index, index, local, enemy, king, Direction::DownRight, false),
            )
        }),
{
    let local = pieces[index].color == player;
    let enemy = pieces[index].color.opposite();
    let king = pieces[index].is_king;
    let a = moves_along(pieces, index, index, local, enemy, king, Direction::UpRight, false);
    let b = moves_along(pieces, index, index, local, enemy, king, Direction::UpLeft, false);
    let c = moves_along(pieces, index, index, local, enemy, king, Direction::DownLeft, false);
    let d = moves_along(pieces, index, index, local, enemy, king, Direction::DownRight, false);
    lemma_offered_legal(pieces, player, index, Direction::UpRight);
    lemma_offered_legal(pieces, player, index, Direction::UpLeft);
    lemma_offered_legal(pieces, player, index, Direction::DownLeft);
    lemma_offered_legal(pieces, player, index, Direction::DownRight);
    lemma_jumps_only_of_one_kind(offered(a), forces(a));
    lemma_jumps_only_of_one_kind(offered(b), forces(b));
    lemma_jumps_only_of_one_kind(offered(c), forces(c));
    lemma_jumps_only_of_one_kind(offered(d), forces(d));
    lemma_jumps_only_of_both(offered(a), offered(b));
    lemma_jumps_only_of_both(offered(a) + offered(b), offered(c));
    lemma_jumps_only_of_both(offered(a) + offered(b) + offered(c), offered(d));
    assert(jumps_only(offered(a)) =~= forced_offer(a));
    assert(jumps_only(offered(b)) =~= forced_offer(b));
    assert(jumps_only(offered(c)) =~= forced_offer(c));
    assert(jumps_only(offered(d)) =~= forced_offer(d));
}

} // verus!
