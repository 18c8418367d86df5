//! Long-algebraic (UCI) move encoding: a four-character square pair,
//! optionally suffixed with a lowercase promotion-piece letter.

use vstd::prelude::*;
use vstd::string::StringExecFns;

verus! {

/// The piece a pawn may promote to.
#[derive(Clone, Copy, Debug, PartialEq, Eq, Structural)]
pub enum PromotionPiece {
    Queen,
    Rook,
    Bishop,
    Knight,
}

/// Lowercase letter of a file index: 0 is 'a', 7 is 'h'.
pub open spec fn spec_file_char(file: int) -> char
    recommends
        0 <= file < 8,
{
    if file == 0 {
        'a'
    } else if file == 1 {
        'b'
    } else if file == 2 {
        'c'
    } else if file == 3 {
        'd'
    } else if file == 4 {
        'e'
    } else if file == 5 {
        'f'
    } else if file == 6 {
        'g'
    } else {
        'h'
    }
}

/// Digit of a rank index: 0 is '1' (the bottom rank), 7 is '8'.
pub open spec fn spec_rank_char(rank: int) -> char
    recommends
        0 <= rank < 8,
{
    if rank == 0 {
        '1'
    } else if rank == 1 {
        '2'
    } else if rank == 2 {
        '3'
    } else if rank == 3 {
        '4'
    } else if rank == 4 {
        '5'
    } else if rank == 5 {
        '6'
    } else if rank == 6 {
        '7'
    } else {
        '8'
    }
}

/// UCI letter of a promotion piece.
pub open spec fn spec_promotion_char(piece: PromotionPiece) -> char {
    match piece {
        PromotionPiece::Queen => 'q',
        PromotionPiece::Rook => 'r',
        PromotionPiece::Bishop => 'b',
        PromotionPiece::Knight => 'n',
    }
}

/// The UCI encoding of a move: start square, end square, and the
/// promotion letter when a promotion piece is given.
pub open spec fn spec_uci_move(
    start_file: int,
    start_rank: int,
    end_file: int,
    end_rank: int,
    promotion: Option<PromotionPiece>,
) -> Seq<char>
    recommends
        0 <= start_file < 8,
        0 <= start_rank < 8,
        0 <= end_file < 8,
        0 <= end_rank < 8,
{
    let squares = seq![
        spec_file_char(start_file),
        spec_rank_char(start_rank),
        spec_file_char(end_file),
        spec_rank_char(end_rank),
    ];
    match promotion {
        Some(piece) => squares.push(spec_promotion_char(piece)),
        None => squares,
    }
}

/// One-letter string for a file index.
fn file_str(file: u8) -> (s: &'static str)
    requires
        file < 8,
    ensures
        s@ == seq![spec_file_char(file as int)],
{
    proof {
        reveal_strlit("a");
        reveal_strlit("b");
        reveal_strlit("c");
        reveal_strlit("d");
        reveal_strlit("e");
        reveal_strlit("f");
        reveal_strlit("g");
        reveal_strlit("h");
    }
    match file {
        0 => "a",
        1 => "b",
        2 => "c",
        3 => "d",
        4 => "e",
        5 => "f",
        6 => "g",
        _ => "h",
    }
}

/// One-digit string for a rank index.
fn rank_str(rank: u8) -> (s: &'static str)
    requires
        rank < 8,
    ensures
        s@ == seq![spec_rank_char(rank as int)],
{
    proof {
        reveal_strlit("1");
        reveal_strlit("2");
        reveal_strlit("3");
        reveal_strlit("4");
        reveal_strlit("5");
        reveal_strlit("6");
        reveal_strlit("7");
        reveal_strlit("8");
    }
    match rank {
        0 => "1",
        1 => "2",
        2 => "3",
        3 => "4",
        4 => "5",
        5 => "6",
        6 => "7",
        _ => "8",
    }
}

/// One-letter string for a promotion piece.
fn promotion_str(piece: PromotionPiece) -> (s: &'static str)
    ensures
        s@ == seq![spec_promotion_char(piece)],
{
    proof {
        reveal_strlit("q");
        reveal_strlit("r");
        reveal_strlit("b");
        reveal_strlit("n");
    }
    match piece {
        PromotionPiece::Queen => "q",
        PromotionPiece::Rook => "r",
        PromotionPiece::Bishop => "b",
        PromotionPiece::Knight => "n",
    }
}

/// Builds the UCI string for a move between two in-bounds squares, with
/// an optional promotion-piece suffix.
pub fn get_uci_move(
    start_file: u8,
    start_rank: u8,
    end_file: u8,
    end_rank: u8,
    promotion_piece: Option<PromotionPiece>,
) -> (s: String)
    requires
        start_file < 8,
        start_rank < 8,
        end_file < 8,
        end_rank < 8,
    ensures
        s@ == spec_uci_move(
            start_file as int,
            start_rank as int,
            end_file as int,
            end_rank as int,
            promotion_piece,
        ),
        vstd::utf8::is_ascii_chars(s@),
{
    let mut s = String::new();
    s.append(file_str(start_file));
    s.append(rank_str(start_rank));
    s.append(file_str(end_file));
    s.append(rank_str(end_rank));
    match promotion_piece {
        Some(piece) => {
            s.append(promotion_str(piece));
        },
        None => {},
    }
    proof {
        assert(s@ =~= spec_uci_move(
            start_file as int,
            start_rank as int,
            end_file as int,
            end_rank as int,
            promotion_piece,
        ));
        assert forall|i: int| 0 <= i < s@.len() implies '\0' <= #[trigger] s@[i] <= '\u{7f}' by {
            assert(s@[i] == spec_file_char(start_file as int) || s@[i] == spec_rank_char(
                start_rank as int,
            ) || s@[i] == spec_file_char(end_file as int) || s@[i] == spec_rank_char(
                end_rank as int,
            ) || (promotion_piece matches Some(piece) && s@[i] == spec_promotion_char(piece)));
        }
    }
    s
}

} // verus!
