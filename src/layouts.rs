use crate::board::{rows_view, PieceColour, PieceType, Square};
use vstd::prelude::*;

verus! {

/// The square holding a piece of the given type and colour.
pub open spec fn piece(piece_type: PieceType, piece_colour: PieceColour) -> Square {
    Square::Piece { piece_colour, piece_type }
}

/// The rank of major pieces, from the file of the queen's rook to that of the king's rook.
pub open spec fn back_rank(c: PieceColour) -> Seq<Square> {
    seq![
        piece(PieceType::Rook, c),
        piece(PieceType::Knight, c),
        piece(PieceType::Bishop, c),
        piece(PieceType::Queen, c),
        piece(PieceType::King, c),
        piece(PieceType::Bishop, c),
        piece(PieceType::Knight, c),
        piece(PieceType::Rook, c),
    ]
}

/// A rank of eight pawns.
pub open spec fn pawn_rank(c: PieceColour) -> Seq<Square> {
    Seq::new(8, |i: int| piece(PieceType::Pawn, c))
}

/// A rank of eight empty squares.
pub open spec fn empty_rank() -> Seq<Square> {
    Seq::new(8, |i: int| Square::Empty)
}

/// The standard starting position: White on the first two ranks, Black on the last two.
pub open spec fn standard_grid() -> Seq<Seq<Square>> {
    seq![
        back_rank(PieceColour::White),
        pawn_rank(PieceColour::White),
        empty_rank(),
        empty_rank(),
        empty_rank(),
        empty_rank(),
        pawn_rank(PieceColour::Black),
        back_rank(PieceColour::Black),
    ]
}

/// Contains pre-made layouts that can be used when creating a custom chessboard.
pub struct Layouts;

impl Layouts {
    /// Returns the standard chessboard layout.
    pub fn standard() -> (r: Vec<Vec<Square>>)
        ensures
            rows_view(r@) == standard_grid(),
    {
        let r = vec![
            Self::back_rank(PieceColour::White),
            Self::pawn_rank(PieceColour::White),
            Self::empty_rank(),
            Self::empty_rank(),
            Self::empty_rank(),
            Self::empty_rank(),
            Self::pawn_rank(PieceColour::Black),
            Self::back_rank(PieceColour::Black),
        ];
        assert(rows_view(r@) =~= standard_grid());
        r
    }

    fn back_rank(piece_colour: PieceColour) -> (r: Vec<Square>)
        ensures
            r@ == back_rank(piece_colour),
    {
        let r = vec![
            Square::Piece { piece_colour, piece_type: PieceType::Rook },
            Square::Piece { piece_colour, piece_type: PieceType::Knight },
            Square::Piece { piece_colour, piece_type: PieceType::Bishop },
            Square::Piece { piece_colour, piece_type: PieceType::Queen },
            Square::Piece { piece_colour, piece_type: PieceType::King },
            Square::Piece { piece_colour, piece_type: PieceType::Bishop },
            Square::Piece { piece_colour, piece_type: PieceType::Knight },
            Square::Piece { piece_colour, piece_type: PieceType::Rook },
        ];
        assert(r@ =~= back_rank(piece_colour));
        r
    }

    fn pawn_rank(piece_colour: PieceColour) -> (r: Vec<Square>)
        ensures
            r@ == pawn_rank(piece_colour),
    {
        let r = vec![Square::Piece { piece_colour, piece_type: PieceType::Pawn }; 8];
        assert(r@ =~= pawn_rank(piece_colour));
        r
    }

    fn empty_rank() -> (r: Vec<Square>)
        ensures
            r@ == empty_rank(),
    {
        let r = vec![Square::Empty; 8];
        assert(r@ =~= empty_rank());
        r
    }
}

} // verus!
