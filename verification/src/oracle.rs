//! Adapter to the external chess-rules engine.
//!
//! Every position is carried as a FEN string and re-parsed by the engine
//! on each query; every candidate move is carried in UCI encoding. The
//! engine's answers are deterministic functions of those strings, named
//! below by uninterpreted spec functions. Only the thin wrappers at the
//! bottom of this file are trusted; decoding of square contents into the
//! library's piece types is ordinary verified code.

use vstd::prelude::*;

verus! {

/// A player: the white or the black side.
#[derive(Clone, Copy, Debug, PartialEq, Eq, Structural)]
pub enum Side {
    White,
    Black,
}

/// Kind of a chess piece, without regard to its color.
#[derive(Clone, Copy, Debug, PartialEq, Eq, Structural)]
pub enum PieceKind {
    Pawn,
    King,
    Knight,
    Bishop,
    Rook,
    Queen,
}

/// Failure of an oracle query.
#[derive(Clone, Copy, Debug, PartialEq, Eq, Structural)]
pub enum OracleError {
    /// The FEN string could not be parsed. The host is required to supply
    /// only previously-produced, valid encodings, so this signals a host
    /// bug; it is propagated, never recovered from.
    InvalidPosition,
    /// The candidate move failed legality validation: an expected,
    /// frequent outcome, always recovered from locally.
    IllegalMove,
}

/// Whether the engine parses the FEN string as a valid position.
pub uninterp spec fn fen_ok(fen: Seq<char>) -> bool;

/// Whether white is the side to move in the position `fen` encodes.
/// Meaningful only when `fen_ok(fen)`.
pub uninterp spec fn white_to_move(fen: Seq<char>) -> bool;

/// The engine's one-character rendering of the square at `file` and
/// `row_from_top` (both counted from zero; row zero is the board's top
/// rank): '.' for an empty square, an uppercase piece letter for white,
/// a lowercase one for black. Meaningful only when `fen_ok(fen)`.
pub uninterp spec fn occupant_char(fen: Seq<char>, file: int, row_from_top: int) -> char;

/// Whether the engine accepts the UCI move `mv` as legal in the position
/// `fen` and classifies it as a promotion. Meaningful only when
/// `fen_ok(fen)`.
pub uninterp spec fn uci_promotes(fen: Seq<char>, mv: Seq<char>) -> bool;

/// The position, re-encoded as FEN, that results from playing the UCI
/// move `mv` in the position `fen`; `None` when the engine rejects the
/// move as illegal. Meaningful only when `fen_ok(fen)`.
pub uninterp spec fn uci_apply(fen: Seq<char>, mv: Seq<char>) -> Option<Seq<char>>;

/// The FEN encoding of the initial chess position.
pub open spec fn spec_initial_fen() -> Seq<char> {
    "rnbqkbnr/pppppppp/8/8/8/8/PPPPPPPP/RNBQKBNR w KQkq - 0 1"@
}

/// Piece kind and side denoted by one of the engine's square characters,
/// or `None` for any character that denotes no piece.
pub open spec fn spec_decode_occupant(c: char) -> Option<(PieceKind, Side)> {
    if c == 'P' {
        Some((PieceKind::Pawn, Side::White))
    } else if c == 'K' {
        Some((PieceKind::King, Side::White))
    } else if c == 'N' {
        Some((PieceKind::Knight, Side::White))
    } else if c == 'B' {
        Some((PieceKind::Bishop, Side::White))
    } else if c == 'R' {
        Some((PieceKind::Rook, Side::White))
    } else if c == 'Q' {
        Some((PieceKind::Queen, Side::White))
    } else if c == 'p' {
        Some((PieceKind::Pawn, Side::Black))
    } else if c == 'k' {
        Some((PieceKind::King, Side::Black))
    } else if c == 'n' {
        Some((PieceKind::Knight, Side::Black))
    } else if c == 'b' {
        Some((PieceKind::Bishop, Side::Black))
    } else if c == 'r' {
        Some((PieceKind::Rook, Side::Black))
    } else if c == 'q' {
        Some((PieceKind::Queen, Side::Black))
    } else {
        None
    }
}

/// Decodes one of the engine's square characters into the piece kind and
/// side it denotes, or `None` for an empty square.
pub fn decode_occupant(c: char) -> (r: Option<(PieceKind, Side)>)
    ensures
        r == spec_decode_occupant(c),
{
    match c {
        'P' => Some((PieceKind::Pawn, Side::White)),
        'K' => Some((PieceKind::King, Side::White)),
        'N' => Some((PieceKind::Knight, Side::White)),
        'B' => Some((PieceKind::Bishop, Side::White)),
        'R' => Some((PieceKind::Rook, Side::White)),
        'Q' => Some((PieceKind::Queen, Side::White)),
        'p' => Some((PieceKind::Pawn, Side::Black)),
        'k' => Some((PieceKind::King, Side::Black)),
        'n' => Some((PieceKind::Knight, Side::Black)),
        'b' => Some((PieceKind::Bishop, Side::Black)),
        'r' => Some((PieceKind::Rook, Side::Black)),
        'q' => Some((PieceKind::Queen, Side::Black)),
        _ => None,
    }
}

/// Relies on `owlchess::Board::from_fen` and `owlchess::Board::side`:
/// parsing is a pure function of the FEN string, and `side` reports the
/// side to move recorded in it.
#[verifier::external_body]
pub(crate) fn side_to_move_is_white(fen: &str) -> (r: Result<bool, OracleError>)
    ensures
        r is Ok <==> fen_ok(fen@),
        r matches Ok(b) ==> b == white_to_move(fen@),
        r matches Err(e) ==> e == OracleError::InvalidPosition,
{
    match owlchess::Board::from_fen(fen) {
        Ok(board) => Ok(
            match board.side() {
                owlchess::Color::White => true,
                owlchess::Color::Black => false,
            },
        ),
        Err(_) => Err(OracleError::InvalidPosition),
    }
}

/// Relies on `owlchess::Board::from_fen`, `owlchess::Board::get2` and
/// `owlchess::types::Cell::as_char`: the square's contents rendered as
/// '.' or a piece letter, uppercase for white and lowercase for black.
#[verifier::external_body]
pub(crate) fn square_occupant_char(fen: &str, file: u8, row_from_top: u8) -> (r: Result<
    char,
    OracleError,
>)
    requires
        file < 8,
        row_from_top < 8,
    ensures
        r is Ok <==> fen_ok(fen@),
        r matches Ok(c) ==> c == occupant_char(fen@, file as int, row_from_top as int),
        r matches Err(e) ==> e == OracleError::InvalidPosition,
{
    match owlchess::Board::from_fen(fen) {
        Ok(board) => Ok(
            board.get2(
                owlchess::File::from_index(file as usize),
                owlchess::Rank::from_index(row_from_top as usize),
            ).as_char(),
        ),
        Err(_) => Err(OracleError::InvalidPosition),
    }
}

/// Relies on `owlchess::Board::from_fen`, `owlchess::Move::from_uci_legal`
/// and `owlchess::moves::MoveKind::promote`: whether the UCI move is
/// legal in the position and is classified as a pawn promotion.
/// The engine's UCI parser slices the move string at fixed byte offsets,
/// so `mv` must be ASCII to keep those offsets on character boundaries.
#[verifier::external_body]
pub(crate) fn move_is_promotion(fen: &str, mv: &str) -> (r: Result<bool, OracleError>)
    requires
        vstd::utf8::is_ascii_chars(mv@),
    ensures
        r is Ok <==> fen_ok(fen@),
        r matches Ok(b) ==> b == uci_promotes(fen@, mv@),
        r matches Err(e) ==> e == OracleError::InvalidPosition,
{
    match owlchess::Board::from_fen(fen) {
        Ok(board) => Ok(
            match owlchess::Move::from_uci_legal(mv, &board) {
                Ok(m) => m.kind().promote().is_some(),
                Err(_) => false,
            },
        ),
        Err(_) => Err(OracleError::InvalidPosition),
    }
}

/// Relies on `owlchess::Board::from_fen`, `owlchess::Move::from_uci_legal`,
/// `owlchess::Board::make_move` and `owlchess::Board::as_fen`: a legal
/// move yields the resulting position re-encoded as FEN; an illegal or
/// unparseable move is rejected. `make_move` cannot fail on a move that
/// `from_uci_legal` has validated against the same board.
/// The engine's UCI parser slices the move string at fixed byte offsets,
/// so `mv` must be ASCII to keep those offsets on character boundaries.
#[verifier::external_body]
pub(crate) fn try_apply(fen: &str, mv: &str) -> (r: Result<String, OracleError>)
    requires
        vstd::utf8::is_ascii_chars(mv@),
    ensures
        match r {
            Ok(nf) => fen_ok(fen@) && uci_apply(fen@, mv@) == Some(nf@),
            Err(e) => match e {
                OracleError::InvalidPosition => !fen_ok(fen@),
                OracleError::IllegalMove => fen_ok(fen@) && uci_apply(fen@, mv@) is None,
            },
        },
{
    let board = match owlchess::Board::from_fen(fen) {
        Ok(board) => board,
        Err(_) => return Err(OracleError::InvalidPosition),
    };
    let mv = match owlchess::Move::from_uci_legal(mv, &board) {
        Ok(mv) => mv,
        Err(_) => return Err(OracleError::IllegalMove),
    };
    match board.make_move(mv) {
        Ok(next) => Ok(next.as_fen()),
        Err(_) => Err(OracleError::IllegalMove),
    }
}

/// Relies on `owlchess::Board::initial` and `owlchess::Board::as_fen`:
/// the initial position serializes to the standard initial-position FEN.
#[verifier::external_body]
pub fn initial_fen() -> (r: String)
    ensures
        r@ == spec_initial_fen(),
{
    owlchess::Board::initial().as_fen()
}

} // verus!
