//! The interaction state machine of the chessboard.
//!
//! The board consumes pointer events from the host. A left press on a
//! square holding a piece of the side to move starts a drag; a release
//! over a legal target either commits the move at once or, for a pawn
//! reaching the last rank, opens a promotion selector; a press inside a
//! selector button commits the promotion. Every committed move is
//! reported as exactly one notification carrying the resulting FEN.

use vstd::prelude::*;

use crate::geometry::{
    BoardArea, PointerPos, Region, in_cell_bounds, pointer_to_square, spec_in_cell_bounds,
    spec_square,
};
use crate::oracle::{
    OracleError, PieceKind, Side, decode_occupant, fen_ok, move_is_promotion, occupant_char,
    side_to_move_is_white, spec_decode_occupant, square_occupant_char, try_apply, uci_apply,
    uci_promotes, white_to_move,
};
use crate::uci::{PromotionPiece, get_uci_move, spec_uci_move};

verus! {

/// A drag in progress: the piece picked up, its home square, and the
/// pointer position it visually follows.
#[derive(Clone, Copy, Debug, PartialEq, Eq, Structural)]
pub struct DndData {
    pub start_file: u8,
    pub start_rank: u8,
    pub location: PointerPos,
    pub piece_type: PieceKind,
    pub piece_color: Side,
}

/// A promotion awaiting the user's piece choice: the committed-to move,
/// the promoting side, and the four selector-button regions.
#[derive(Clone, Copy, Debug, PartialEq, Eq, Structural)]
pub struct PendingPromotion {
    pub start_file: u8,
    pub start_rank: u8,
    pub end_file: u8,
    pub end_rank: u8,
    pub location: PointerPos,
    pub piece_color: Side,
    pub queen_button_bounds: Region,
    pub rook_button_bounds: Region,
    pub bishop_button_bounds: Region,
    pub knight_button_bounds: Region,
}

/// The chessboard's interaction state: the current position, the board
/// orientation, and at most one of a drag in progress or a pending
/// promotion.
#[derive(Clone, Debug)]
pub struct Chessboard {
    pub fen: String,
    pub reversed: bool,
    pub dnd_data: Option<DndData>,
    pub pending_promotion: Option<PendingPromotion>,
}

/// Outcome of processing one event: the transient state afterwards and
/// the notification payload, if any.
pub ghost struct Step {
    pub dnd: Option<DndData>,
    pub pending: Option<PendingPromotion>,
    pub emit: Option<Seq<char>>,
}

impl Chessboard {
    /// The state is well-formed: a drag and a pending promotion are never
    /// both present, recorded squares are in bounds, and stored selector
    /// regions lie in the supported coordinate range.
    pub open spec fn wf(self) -> bool {
        &&& !(self.dnd_data is Some && self.pending_promotion is Some)
        &&& (self.dnd_data matches Some(d) ==> d.start_file < 8 && d.start_rank < 8)
        &&& (self.pending_promotion matches Some(pp) ==> {
            &&& pp.start_file < 8
            &&& pp.start_rank < 8
            &&& pp.end_file < 8
            &&& pp.end_rank < 8
            &&& pp.queen_button_bounds.wf()
            &&& pp.rook_button_bounds.wf()
            &&& pp.bishop_button_bounds.wf()
            &&& pp.knight_button_bounds.wf()
        })
    }

    /// A fresh board over `fen`: no drag, no pending promotion.
    pub fn new(fen: String, reversed: bool) -> (board: Chessboard)
        ensures
            board.fen@ == fen@,
            board.reversed == reversed,
            board.dnd_data is None,
            board.pending_promotion is None,
            board.wf(),
    {
        Chessboard { fen, reversed, dnd_data: None, pending_promotion: None }
    }
}

/// The cursor, if present, is within the supported coordinate range.
pub open spec fn cursor_wf(cursor: Option<PointerPos>) -> bool {
    cursor matches Some(p) ==> p.wf()
}

/// The (file, rank) square under an absolute pointer position, given the
/// board's allocated area and orientation.
pub open spec fn spec_square_of(area: BoardArea, p: PointerPos, reversed: bool) -> (int, int) {
    spec_square(p.x - area.x, p.y - area.y, area.size, reversed)
}

/// The notification payload carried by a handler's result.
pub open spec fn emit_view(r: Result<Option<String>, OracleError>) -> Option<Seq<char>> {
    match r {
        Ok(Some(s)) => Some(s@),
        _ => None,
    }
}

/// The step that changes nothing and emits nothing.
pub open spec fn unchanged_step(pre: Chessboard) -> Step {
    Step { dnd: pre.dnd_data, pending: pre.pending_promotion, emit: None }
}

/// One promotion-selector button: a one-cell square at the given grid
/// column, four rows down from the board's top-left corner.
pub open spec fn spec_promo_region(area: BoardArea, col: int) -> Region {
    let c = area.size as int / 9;
    Region { x: (area.x + col * c) as i64, y: (area.y + 4 * c) as i64, size: c as u32 }
}

/// The pending promotion recorded when a drag by `d` ends on the
/// in-bounds square (end_file, end_rank) and requires a promotion choice.
pub open spec fn spec_pending(
    pre: Chessboard,
    d: DndData,
    end_file: int,
    end_rank: int,
    area: BoardArea,
) -> PendingPromotion {
    PendingPromotion {
        start_file: d.start_file,
        start_rank: d.start_rank,
        end_file: end_file as u8,
        end_rank: end_rank as u8,
        location: d.location,
        piece_color: if white_to_move(pre.fen@) {
            Side::White
        } else {
            Side::Black
        },
        queen_button_bounds: spec_promo_region(area, 1),
        rook_button_bounds: spec_promo_region(area, 3),
        bishop_button_bounds: spec_promo_region(area, 5),
        knight_button_bounds: spec_promo_region(area, 7),
    }
}

/// The UCI encoding of a pending promotion's move, suffixed with the
/// chosen piece's letter.
pub open spec fn spec_promotion_uci(pp: PendingPromotion, piece: PromotionPiece) -> Seq<char> {
    spec_uci_move(
        pp.start_file as int,
        pp.start_rank as int,
        pp.end_file as int,
        pp.end_rank as int,
        Some(piece),
    )
}

/// Committing a chosen promotion piece: the recorded move, suffixed with
/// the piece's letter, is applied by the oracle. Success emits the
/// resulting FEN and clears the drag; an illegal move is dropped
/// silently. The pending-promotion slot itself is left to the caller.
pub open spec fn spec_promotion_step(
    pre: Chessboard,
    pp: PendingPromotion,
    piece: PromotionPiece,
) -> Result<Step, OracleError> {
    if !fen_ok(pre.fen@) {
        Err(OracleError::InvalidPosition)
    } else {
        let mv = spec_promotion_uci(pp, piece);
        match uci_apply(pre.fen@, mv) {
            Some(nf) => Ok(Step { dnd: None, pending: pre.pending_promotion, emit: Some(nf) }),
            None => Ok(
                Step { dnd: pre.dnd_data, pending: pre.pending_promotion, emit: None },
            ),
        }
    }
}

/// The commit entry point: a no-op without a pending promotion.
pub open spec fn spec_commit_step(pre: Chessboard, piece: PromotionPiece) -> Result<
    Step,
    OracleError,
> {
    match pre.pending_promotion {
        None => Ok(unchanged_step(pre)),
        Some(pp) => spec_promotion_step(pre, pp, piece),
    }
}

/// After a successful commit the pending promotion is cleared, whatever
/// the oracle answered; a position error leaves everything as it was.
pub open spec fn clear_pending(r: Result<Step, OracleError>) -> Result<Step, OracleError> {
    match r {
        Ok(s) => Ok(Step { dnd: s.dnd, pending: None, emit: s.emit }),
        Err(e) => Err(e),
    }
}

/// The selector button a press lands in, testing the four stored
/// regions in the order queen, rook, bishop, knight.
pub open spec fn promo_hit(pp: PendingPromotion, p: PointerPos) -> Option<PromotionPiece> {
    if pp.queen_button_bounds.spec_contains(p) {
        Some(PromotionPiece::Queen)
    } else if pp.rook_button_bounds.spec_contains(p) {
        Some(PromotionPiece::Rook)
    } else if pp.bishop_button_bounds.spec_contains(p) {
        Some(PromotionPiece::Bishop)
    } else if pp.knight_button_bounds.spec_contains(p) {
        Some(PromotionPiece::Knight)
    } else {
        None
    }
}

/// The selector button, if any, that a press with this cursor hits: the
/// cursor must be present, over the board, and inside one of the four
/// stored regions.
pub open spec fn promo_press_hit(
    pp: PendingPromotion,
    cursor: Option<PointerPos>,
    area: BoardArea,
) -> Option<PromotionPiece> {
    match cursor {
        Some(p) => if area.spec_contains(p) {
            promo_hit(pp, p)
        } else {
            None
        },
        None => None,
    }
}

/// A press while a promotion is pending: a hit on a selector button
/// commits that piece and clears the pending promotion; a miss leaves
/// the state unchanged.
pub open spec fn press_promotion_step(
    pre: Chessboard,
    pp: PendingPromotion,
    p: PointerPos,
) -> Result<Step, OracleError> {
    match promo_hit(pp, p) {
        Some(piece) => clear_pending(spec_promotion_step(pre, pp, piece)),
        None => Ok(unchanged_step(pre)),
    }
}

/// A press with no promotion pending: if it lands on an in-bounds square
/// holding a piece of the side to move, a drag starts there; any other
/// press changes nothing.
pub open spec fn press_board_step(pre: Chessboard, p: PointerPos, area: BoardArea) -> Result<
    Step,
    OracleError,
> {
    let fr = spec_square_of(area, p, pre.reversed);
    if !spec_in_cell_bounds(fr.0, fr.1) {
        Ok(unchanged_step(pre))
    } else if !fen_ok(pre.fen@) {
        Err(OracleError::InvalidPosition)
    } else {
        match spec_decode_occupant(occupant_char(pre.fen@, fr.0, 7 - fr.1)) {
            Some(occ) => {
                if (occ.1 is White) == white_to_move(pre.fen@) {
                    Ok(
                        Step {
                            dnd: Some(
                                DndData {
                                    start_file: fr.0 as u8,
                                    start_rank: fr.1 as u8,
                                    location: p,
                                    piece_type: occ.0,
                                    piece_color: occ.1,
                                },
                            ),
                            pending: pre.pending_promotion,
                            emit: None,
                        },
                    )
                } else {
                    Ok(unchanged_step(pre))
                }
            },
            None => Ok(unchanged_step(pre)),
        }
    }
}

/// A left press: ignored outside the board; routed to the promotion
/// selector while a promotion is pending, and to drag-start logic
/// otherwise.
pub open spec fn press_step(pre: Chessboard, cursor: Option<PointerPos>, area: BoardArea) -> Result<
    Step,
    OracleError,
> {
    match cursor {
        None => Ok(unchanged_step(pre)),
        Some(p) => {
            if !area.spec_contains(p) {
                Ok(unchanged_step(pre))
            } else {
                match pre.pending_promotion {
                    Some(pp) => press_promotion_step(pre, pp, p),
                    None => press_board_step(pre, p, area),
                }
            }
        },
    }
}

/// A release of a drag over an in-bounds square: a promotion-requiring
/// move opens the selector; otherwise the move is applied, emitting the
/// resulting FEN when legal and nothing when not. The drag always ends.
pub open spec fn release_drop_step(
    pre: Chessboard,
    d: DndData,
    p: PointerPos,
    area: BoardArea,
) -> Result<Step, OracleError> {
    let fr = spec_square_of(area, p, pre.reversed);
    if !spec_in_cell_bounds(fr.0, fr.1) {
        Ok(Step { dnd: None, pending: pre.pending_promotion, emit: None })
    } else if !fen_ok(pre.fen@) {
        Err(OracleError::InvalidPosition)
    } else {
        let probe = spec_uci_move(
            d.start_file as int,
            d.start_rank as int,
            fr.0,
            fr.1,
            Some(PromotionPiece::Queen),
        );
        if uci_promotes(pre.fen@, probe) {
            Ok(
                Step {
                    dnd: None,
                    pending: Some(spec_pending(pre, d, fr.0, fr.1, area)),
                    emit: None,
                },
            )
        } else {
            let mv = spec_uci_move(
                d.start_file as int,
                d.start_rank as int,
                fr.0,
                fr.1,
                None::<PromotionPiece>,
            );
            match uci_apply(pre.fen@, mv) {
                Some(nf) => Ok(Step { dnd: None, pending: None, emit: Some(nf) }),
                None => Ok(Step { dnd: None, pending: None, emit: None }),
            }
        }
    }
}

/// A left release: ignored entirely while a promotion is pending; with
/// the cursor gone or off the board any drag is dropped silently; over
/// the board a drag is resolved by `release_drop_step`.
pub open spec fn release_step(
    pre: Chessboard,
    cursor: Option<PointerPos>,
    area: BoardArea,
) -> Result<Step, OracleError> {
    if pre.pending_promotion is Some {
        Ok(unchanged_step(pre))
    } else {
        match cursor {
            None => Ok(Step { dnd: None, pending: pre.pending_promotion, emit: None }),
            Some(p) => {
                if !area.spec_contains(p) {
                    Ok(Step { dnd: None, pending: pre.pending_promotion, emit: None })
                } else {
                    match pre.dnd_data {
                        None => Ok(unchanged_step(pre)),
                        Some(d) => release_drop_step(pre, d, p, area),
                    }
                }
            },
        }
    }
}

/// A pointer move: while dragging over an in-bounds square it updates
/// only the drag's pointer location; everything else is ignored, and it
/// never consults the oracle or emits anything.
pub open spec fn move_step(pre: Chessboard, cursor: Option<PointerPos>, area: BoardArea) -> Step {
    if pre.pending_promotion is Some {
        unchanged_step(pre)
    } else {
        match cursor {
            None => unchanged_step(pre),
            Some(p) => {
                match pre.dnd_data {
                    Some(d) => {
                        let fr = spec_square_of(area, p, pre.reversed);
                        if area.spec_contains(p) && spec_in_cell_bounds(fr.0, fr.1) {
                            Step {
                                dnd: Some(
                                    DndData {
                                        start_file: d.start_file,
                                        start_rank: d.start_rank,
                                        location: p,
                                        piece_type: d.piece_type,
                                        piece_color: d.piece_color,
                                    },
                                ),
                                pending: pre.pending_promotion,
                                emit: None,
                            }
                        } else {
                            unchanged_step(pre)
                        }
                    },
                    None => unchanged_step(pre),
                }
            },
        }
    }
}

impl Chessboard {
    /// Applies the chosen promotion piece to the recorded pending move.
    /// Emits the resulting FEN exactly when the oracle accepts the move;
    /// the pending-promotion slot is left for the caller to clear.
    pub fn commit_promotion(&mut self, piece: PromotionPiece) -> (r: Result<
        Option<String>,
        OracleError,
    >)
        requires
            old(self).wf(),
        ensures
            final(self).fen@ == old(self).fen@,
            final(self).reversed == old(self).reversed,
            final(self).pending_promotion == old(self).pending_promotion,
            final(self).wf(),
            match spec_commit_step(*old(self), piece) {
                Ok(step) => {
                    &&& r is Ok
                    &&& final(self).dnd_data == step.dnd
                    &&& emit_view(r) == step.emit
                },
                Err(e) => r == Err::<Option<String>, OracleError>(e) && *final(self) == *old(self),
            },
    {
        let pp = match self.pending_promotion {
            Some(pp) => pp,
            None => {
                return Ok(None);
            },
        };
        let mv = get_uci_move(pp.start_file, pp.start_rank, pp.end_file, pp.end_rank, Some(piece));
        match try_apply(self.fen.as_str(), mv.as_str()) {
            Ok(nf) => {
                self.dnd_data = None;
                Ok(Some(nf))
            },
            Err(e) => match e {
                OracleError::IllegalMove => Ok(None),
                OracleError::InvalidPosition => Err(OracleError::InvalidPosition),
            },
        }
    }

    /// Handles a left-button press. At most one notification results,
    /// exactly as `press_step` prescribes; a position-parse failure is
    /// reported as an error with the state unchanged.
    pub fn handle_button_pressed(&mut self, cursor: Option<PointerPos>, area: BoardArea) -> (r:
        Result<Option<String>, OracleError>)
        requires
            old(self).wf(),
            area.wf(),
            cursor_wf(cursor),
        ensures
            final(self).fen@ == old(self).fen@,
            final(self).reversed == old(self).reversed,
            final(self).wf(),
            match press_step(*old(self), cursor, area) {
                Ok(step) => {
                    &&& r is Ok
                    &&& final(self).dnd_data == step.dnd
                    &&& final(self).pending_promotion == step.pending
                    &&& emit_view(r) == step.emit
                },
                Err(e) => r == Err::<Option<String>, OracleError>(e) && *final(self) == *old(self),
            },
    {
        let p = match cursor {
            Some(p) => p,
            None => {
                return Ok(None);
            },
        };
        if !area.contains(p) {
            return Ok(None);
        }
        let pending = self.pending_promotion;
        match pending {
            Some(pp) => {
                let piece = if pp.queen_button_bounds.contains(p) {
                    Some(PromotionPiece::Queen)
                } else if pp.rook_button_bounds.contains(p) {
                    Some(PromotionPiece::Rook)
                } else if pp.bishop_button_bounds.contains(p) {
                    Some(PromotionPiece::Bishop)
                } else if pp.knight_button_bounds.contains(p) {
                    Some(PromotionPiece::Knight)
                } else {
                    None
                };
                match piece {
                    Some(piece) => match self.commit_promotion(piece) {
                        Ok(emitted) => {
                            self.pending_promotion = None;
                            Ok(emitted)
                        },
                        Err(e) => Err(e),
                    },
                    None => Ok(None),
                }
            },
            None => self.press_on_board(p, area),
        }
    }

    /// The drag-start half of a press: consults the oracle about the
    /// pressed square and starts a drag on a piece of the side to move.
    fn press_on_board(&mut self, p: PointerPos, area: BoardArea) -> (r: Result<
        Option<String>,
        OracleError,
    >)
        requires
            old(self).wf(),
            old(self).pending_promotion is None,
            area.wf(),
            p.wf(),
            area.spec_contains(p),
        ensures
            final(self).fen@ == old(self).fen@,
            final(self).reversed == old(self).reversed,
            final(self).wf(),
            match press_board_step(*old(self), p, area) {
                Ok(step) => {
                    &&& r is Ok
                    &&& final(self).dnd_data == step.dnd
                    &&& final(self).pending_promotion == step.pending
                    &&& emit_view(r) == step.emit
                },
                Err(e) => r == Err::<Option<String>, OracleError>(e) && *final(self) == *old(self),
            },
    {
        let rel_x = (p.x - area.x) as u32;
        let rel_y = (p.y - area.y) as u32;
        let sq = pointer_to_square(rel_x, rel_y, area.size, self.reversed);
        if !in_cell_bounds(sq.0, sq.1) {
            return Ok(None);
        }
        let file = sq.0 as u8;
        let rank = sq.1 as u8;
        let occ_char = match square_occupant_char(self.fen.as_str(), file, 7 - rank) {
            Ok(c) => c,
            Err(e) => {
                return Err(e);
            },
        };
        let is_white_turn = match side_to_move_is_white(self.fen.as_str()) {
            Ok(b) => b,
            Err(e) => {
                return Err(e);
            },
        };
        match decode_occupant(occ_char) {
            Some(occ) => {
                let piece_is_white = match occ.1 {
                    Side::White => true,
                    Side::Black => false,
                };
                if piece_is_white == is_white_turn {
                    self.dnd_data = Some(
                        DndData {
                            start_file: file,
                            start_rank: rank,
                            location: p,
                            piece_type: occ.0,
                            piece_color: occ.1,
                        },
                    );
                }
                Ok(None)
            },
            None => Ok(None),
        }
    }

    /// Handles a left-button release, resolving any drag in progress as
    /// `release_step` prescribes: commit, await a promotion choice, or
    /// drop silently.
    pub fn handle_button_released(&mut self, cursor: Option<PointerPos>, area: BoardArea) -> (r:
        Result<Option<String>, OracleError>)
        requires
            old(self).wf(),
            area.wf(),
            cursor_wf(cursor),
        ensures
            final(self).fen@ == old(self).fen@,
            final(self).reversed == old(self).reversed,
            final(self).wf(),
            match release_step(*old(self), cursor, area) {
                Ok(step) => {
                    &&& r is Ok
                    &&& final(self).dnd_data == step.dnd
                    &&& final(self).pending_promotion == step.pending
                    &&& emit_view(r) == step.emit
                },
                Err(e) => r == Err::<Option<String>, OracleError>(e) && *final(self) == *old(self),
            },
    {
        if self.pending_promotion.is_some() {
            return Ok(None);
        }
        let p = match cursor {
            Some(p) => p,
            None => {
                self.dnd_data = None;
                return Ok(None);
            },
        };
        if !area.contains(p) {
            self.dnd_data = None;
            return Ok(None);
        }
        let d = match self.dnd_data {
            Some(d) => d,
            None => {
                return Ok(None);
            },
        };
        let rel_x = (p.x - area.x) as u32;
        let rel_y = (p.y - area.y) as u32;
        let sq = pointer_to_square(rel_x, rel_y, area.size, self.reversed);
        if !in_cell_bounds(sq.0, sq.1) {
            self.dnd_data = None;
            return Ok(None);
        }
        let end_file = sq.0 as u8;
        let end_rank = sq.1 as u8;
        let probe = get_uci_move(
            d.start_file,
            d.start_rank,
            end_file,
            end_rank,
            Some(PromotionPiece::Queen),
        );
        let is_promotion = match move_is_promotion(self.fen.as_str(), probe.as_str()) {
            Ok(b) => b,
            Err(e) => {
                return Err(e);
            },
        };
        if is_promotion {
            let is_white_turn = match side_to_move_is_white(self.fen.as_str()) {
                Ok(b) => b,
                Err(e) => {
                    return Err(e);
                },
            };
            let c = area.size / 9;
            proof {
                assert(9 * (area.size as int / 9) <= area.size) by (nonlinear_arith)
                    requires
                        area.size >= 9,
                ;
            }
            let pending = PendingPromotion {
                start_file: d.start_file,
                start_rank: d.start_rank,
                end_file,
                end_rank,
                location: d.location,
                piece_color: if is_white_turn {
                    Side::White
                } else {
                    Side::Black
                },
                queen_button_bounds: Region { x: area.x + (1 * c) as i64, y: area.y + (4 * c) as i64, size: c },
                rook_button_bounds: Region { x: area.x + (3 * c) as i64, y: area.y + (4 * c) as i64, size: c },
                bishop_button_bounds: Region { x: area.x + (5 * c) as i64, y: area.y + (4 * c) as i64, size: c },
                knight_button_bounds: Region { x: area.x + (7 * c) as i64, y: area.y + (4 * c) as i64, size: c },
            };
            self.dnd_data = None;
            self.pending_promotion = Some(pending);
            return Ok(None);
        }
        let mv = get_uci_move(d.start_file, d.start_rank, end_file, end_rank, None);
        match try_apply(self.fen.as_str(), mv.as_str()) {
            Ok(nf) => {
                self.dnd_data = None;
                Ok(Some(nf))
            },
            Err(e) => match e {
                OracleError::IllegalMove => {
                    self.dnd_data = None;
                    Ok(None)
                },
                OracleError::InvalidPosition => Err(e),
            },
        }
    }

    /// Handles a pointer move: while a drag is in progress over an
    /// in-bounds square, the dragged piece follows the pointer; no other
    /// state changes and nothing is emitted.
    pub fn handle_mouse_moved(&mut self, cursor: Option<PointerPos>, area: BoardArea)
        requires
            old(self).wf(),
            area.wf(),
            cursor_wf(cursor),
        ensures
            final(self).fen@ == old(self).fen@,
            final(self).reversed == old(self).reversed,
            final(self).wf(),
            final(self).dnd_data == move_step(*old(self), cursor, area).dnd,
            final(self).pending_promotion == move_step(*old(self), cursor, area).pending,
    {
        if self.pending_promotion.is_some() {
            return ;
        }
        let p = match cursor {
            Some(p) => p,
            None => {
                return ;
            },
        };
        if !area.contains(p) {
            return ;
        }
        let d = match self.dnd_data {
            Some(d) => d,
            None => {
                return ;
            },
        };
        let rel_x = (p.x - area.x) as u32;
        let rel_y = (p.y - area.y) as u32;
        let sq = pointer_to_square(rel_x, rel_y, area.size, self.reversed);
        if in_cell_bounds(sq.0, sq.1) {
            self.dnd_data = Some(
                DndData {
                    start_file: d.start_file,
                    start_rank: d.start_rank,
                    location: p,
                    piece_type: d.piece_type,
                    piece_color: d.piece_color,
                },
            );
        }
    }
}

/// Law: a press on an empty square, or on a square holding the
/// opponent's piece, never creates a drag — the state stays idle and
/// nothing is emitted.
pub proof fn lemma_press_empty_or_opponent_keeps_idle(
    pre: Chessboard,
    p: PointerPos,
    area: BoardArea,
)
    requires
        pre.dnd_data is None,
        pre.pending_promotion is None,
        fen_ok(pre.fen@),
        ({
            let fr = spec_square_of(area, p, pre.reversed);
            spec_in_cell_bounds(fr.0, fr.1) ==> match spec_decode_occupant(
                occupant_char(pre.fen@, fr.0, 7 - fr.1),
            ) {
                Some(occ) => (occ.1 is White) != white_to_move(pre.fen@),
                None => true,
            }
        }),
    ensures
        press_step(pre, Some(p), area) == Ok::<Step, OracleError>(unchanged_step(pre)),
        unchanged_step(pre).dnd is None,
        unchanged_step(pre).pending is None,
        unchanged_step(pre).emit is None,
{
}

/// Law: a completed drag to an illegal, non-promoting target square
/// emits no notification and returns the board to idle.
pub proof fn lemma_illegal_drop_returns_to_idle(
    pre: Chessboard,
    d: DndData,
    p: PointerPos,
    area: BoardArea,
)
    requires
        pre.pending_promotion is None,
        pre.dnd_data == Some(d),
        d.start_file < 8,
        d.start_rank < 8,
        area.spec_contains(p),
        fen_ok(pre.fen@),
        ({
            let fr = spec_square_of(area, p, pre.reversed);
            &&& spec_in_cell_bounds(fr.0, fr.1)
            &&& !uci_promotes(
                pre.fen@,
                spec_uci_move(
                    d.start_file as int,
                    d.start_rank as int,
                    fr.0,
                    fr.1,
                    Some(PromotionPiece::Queen),
                ),
            )
            &&& uci_apply(
                pre.fen@,
                spec_uci_move(
                    d.start_file as int,
                    d.start_rank as int,
                    fr.0,
                    fr.1,
                    None::<PromotionPiece>,
                ),
            ) is None
        }),
    ensures
        release_step(pre, Some(p), area) == Ok::<Step, OracleError>(
            Step { dnd: None, pending: None, emit: None },
        ),
{
}

/// Law: a completed drag that is legal and not a promotion emits exactly
/// one notification, whose payload is the FEN the oracle's application
/// of the move produced, and returns the board to idle.
pub proof fn lemma_legal_drop_emits_once(
    pre: Chessboard,
    d: DndData,
    p: PointerPos,
    area: BoardArea,
    nf: Seq<char>,
)
    requires
        pre.pending_promotion is None,
        pre.dnd_data == Some(d),
        d.start_file < 8,
        d.start_rank < 8,
        area.spec_contains(p),
        fen_ok(pre.fen@),
        ({
            let fr = spec_square_of(area, p, pre.reversed);
            &&& spec_in_cell_bounds(fr.0, fr.1)
            &&& !uci_promotes(
                pre.fen@,
                spec_uci_move(
                    d.start_file as int,
                    d.start_rank as int,
                    fr.0,
                    fr.1,
                    Some(PromotionPiece::Queen),
                ),
            )
            &&& uci_apply(
                pre.fen@,
                spec_uci_move(
                    d.start_file as int,
                    d.start_rank as int,
                    fr.0,
                    fr.1,
                    None::<PromotionPiece>,
                ),
            ) == Some(nf)
        }),
    ensures
        release_step(pre, Some(p), area) == Ok::<Step, OracleError>(
            Step { dnd: None, pending: None, emit: Some(nf) },
        ),
{
}

/// Law: a completed drag whose move the oracle classifies as a promotion
/// transitions to awaiting a promotion choice — recording the move and
/// the four selector regions — and emits nothing, rather than
/// committing directly.
pub proof fn lemma_promotion_drop_awaits_choice(
    pre: Chessboard,
    d: DndData,
    p: PointerPos,
    area: BoardArea,
)
    requires
        pre.pending_promotion is None,
        pre.dnd_data == Some(d),
        d.start_file < 8,
        d.start_rank < 8,
        area.spec_contains(p),
        fen_ok(pre.fen@),
        ({
            let fr = spec_square_of(area, p, pre.reversed);
            &&& spec_in_cell_bounds(fr.0, fr.1)
            &&& uci_promotes(
                pre.fen@,
                spec_uci_move(
                    d.start_file as int,
                    d.start_rank as int,
                    fr.0,
                    fr.1,
                    Some(PromotionPiece::Queen),
                ),
            )
        }),
    ensures
        ({
            let fr = spec_square_of(area, p, pre.reversed);
            release_step(pre, Some(p), area) == Ok::<Step, OracleError>(
                Step {
                    dnd: None,
                    pending: Some(spec_pending(pre, d, fr.0, fr.1, area)),
                    emit: None,
                },
            )
        }),
{
}

/// Law: while a promotion is pending, a press inside a selector button
/// commits exactly that piece: one notification, whose payload is the
/// FEN the oracle produced for the move suffixed with the chosen piece,
/// and the pending promotion is cleared.
pub proof fn lemma_promotion_choice_emits_once(
    pre: Chessboard,
    pp: PendingPromotion,
    p: PointerPos,
    area: BoardArea,
    piece: PromotionPiece,
    nf: Seq<char>,
)
    requires
        pre.pending_promotion == Some(pp),
        area.spec_contains(p),
        fen_ok(pre.fen@),
        promo_hit(pp, p) == Some(piece),
        uci_apply(pre.fen@, spec_promotion_uci(pp, piece)) == Some(nf),
    ensures
        press_step(pre, Some(p), area) == Ok::<Step, OracleError>(
            Step { dnd: None, pending: None, emit: Some(nf) },
        ),
{
}

/// Law: the full behavior of a press while a promotion is pending, for a
/// valid position. At most one notification results — the step carries a
/// single optional payload — and exactly one results precisely when the
/// cursor is over the board, inside one of the four selector regions,
/// and the promotion move with the selected piece is accepted by the
/// oracle; its payload is then the oracle's resulting FEN. The pending
/// promotion is cleared precisely when a selector region was hit, and
/// the drag slot is never filled by such a press.
pub proof fn lemma_promotion_press_characterized(
    pre: Chessboard,
    pp: PendingPromotion,
    cursor: Option<PointerPos>,
    area: BoardArea,
)
    requires
        pre.pending_promotion == Some(pp),
        fen_ok(pre.fen@),
    ensures
        ({
            match press_step(pre, cursor, area) {
                Ok(step) => {
                    &&& (step.pending is None <==> promo_press_hit(pp, cursor, area) is Some)
                    &&& (step.emit is Some <==> (promo_press_hit(pp, cursor, area) matches Some(
                        piece,
                    ) && uci_apply(pre.fen@, spec_promotion_uci(pp, piece)) is Some))
                    &&& (promo_press_hit(pp, cursor, area) matches Some(piece) ==> step.emit
                        == uci_apply(pre.fen@, spec_promotion_uci(pp, piece)))
                    &&& (step.emit is Some ==> step.dnd is None)
                    &&& (step.emit is None ==> step.dnd == pre.dnd_data)
                },
                Err(_) => false,
            }
        }),
{
}

/// Law: a press can emit a notification only while a promotion is
/// pending; in particular, after a promotion commit has cleared the
/// pending state, a second press cannot emit again.
pub proof fn lemma_press_without_pending_never_emits(
    pre: Chessboard,
    cursor: Option<PointerPos>,
    area: BoardArea,
)
    requires
        pre.pending_promotion is None,
    ensures
        press_step(pre, cursor, area) matches Ok(step) ==> step.emit is None,
{
}

/// Law: a well-formed board never holds a drag and a pending promotion
/// at the same time; since every constructor and handler yields a
/// well-formed board, this holds after processing any event sequence.
pub proof fn lemma_never_both_drag_and_promotion(board: Chessboard)
    requires
        board.wf(),
    ensures
        !(board.dnd_data is Some && board.pending_promotion is Some),
{
}

} // verus!
