pub use crate::layouts::Layouts;
use crate::layouts::standard_grid;
use vstd::prelude::*;

verus! {

/// A position on the chessboard.
#[derive(Clone, Copy, Debug, PartialEq, Eq, Structural)]
pub struct Position {
    /// The x-coordinate (the file).
    pub x: usize,
    /// The y-coordinate (the rank).
    pub y: usize,
}

/// A square on the chessboard.
#[derive(Clone, Copy, Debug, PartialEq, Eq, Structural)]
pub enum Square {
    /// An empty square.
    Empty,
    /// A square with a piece on it.
    Piece {
        /// The colour of the piece.
        piece_colour: PieceColour,
        /// The type of the piece.
        piece_type: PieceType,
    },
}

/// The colour of a piece.
#[derive(Clone, Copy, Debug, PartialEq, Eq, Structural)]
pub enum PieceColour {
    /// The colour black.
    Black,
    /// The colour white.
    White,
}

/// The type of a piece.
#[derive(Clone, Copy, Debug, PartialEq, Eq, Structural)]
pub enum PieceType {
    /// A Bishop.
    Bishop,
    /// A King.
    King,
    /// A Knight.
    Knight,
    /// A Pawn.
    Pawn,
    /// A Queen.
    Queen,
    /// A Rook.
    Rook,
}

impl Square {
    /// The colour of the piece on this square, if there is one.
    pub open spec fn colour(self) -> Option<PieceColour> {
        match self {
            Square::Empty => None,
            Square::Piece { piece_colour, .. } => Some(piece_colour),
        }
    }

    /// Returns an optional value containing a reference to the colour of the piece.
    pub fn get_colour(&self) -> (r: Option<&PieceColour>)
        ensures
            r is None <==> self.colour() is None,
            r matches Some(c) ==> self.colour() == Some(*c),
    {
        match self {
            Square::Empty => None,
            Square::Piece { piece_colour, .. } => Some(piece_colour),
        }
    }
}

/// The reason a requested move was refused.
#[derive(Clone, Copy, Debug, PartialEq, Eq, Structural)]
pub enum MoveError {
    /// The origin lies outside the board.
    OriginOutOfBounds,
    /// The destination lies outside the board.
    DestinationOutOfBounds,
    /// There is no piece on the origin square.
    EmptyOriginSquare,
    /// The piece on the origin square belongs to the player who is not to move.
    WrongPlayersPiece,
    /// The destination holds a piece of the moving piece's own colour.
    FriendlyCapture,
}

/// The colour that moves after `c`.
pub open spec fn opposite(c: PieceColour) -> PieceColour {
    match c {
        PieceColour::Black => PieceColour::White,
        PieceColour::White => PieceColour::Black,
    }
}

/// The grid of squares held by a layout, rank by rank.
pub open spec fn rows_view(rows: Seq<Vec<Square>>) -> Seq<Seq<Square>> {
    rows.map_values(|row: Vec<Square>| row@)
}

/// Whether `p` names a square of `grid`: its rank exists and that rank has its file.
pub open spec fn in_bounds(grid: Seq<Seq<Square>>, p: Position) -> bool {
    p.y < grid.len() && p.x < grid[p.y as int].len()
}

/// The square of `grid` at `p`.
pub open spec fn square_at(grid: Seq<Seq<Square>>, p: Position) -> Square {
    grid[p.y as int][p.x as int]
}

/// Whether two grids have the same ranks, each of the same length.
pub open spec fn same_shape(a: Seq<Seq<Square>>, b: Seq<Seq<Square>>) -> bool {
    &&& a.len() == b.len()
    &&& forall|i: int| 0 <= i < a.len() ==> #[trigger] a[i].len() == b[i].len()
}

/// `grid` with the square at `p` replaced by `s`.
pub open spec fn with_square(grid: Seq<Seq<Square>>, p: Position, s: Square) -> Seq<Seq<Square>> {
    grid.update(p.y as int, grid[p.y as int].update(p.x as int, s))
}

/// The verdict on moving from `origin` to `destination` on `grid` with `player` to move:
/// the checks in order, the first that fails giving the error.
pub open spec fn check_move(
    grid: Seq<Seq<Square>>,
    player: PieceColour,
    origin: Position,
    destination: Position,
) -> Result<(), MoveError> {
    if !in_bounds(grid, origin) {
        Err(MoveError::OriginOutOfBounds)
    } else if !in_bounds(grid, destination) {
        Err(MoveError::DestinationOutOfBounds)
    } else if square_at(grid, origin) is Empty {
        Err(MoveError::EmptyOriginSquare)
    } else if square_at(grid, origin).colour() != Some(player) {
        Err(MoveError::WrongPlayersPiece)
    } else if square_at(grid, destination).colour() == square_at(grid, origin).colour() {
        Err(MoveError::FriendlyCapture)
    } else {
        Ok(())
    }
}

/// The grid after the piece at `origin` has been carried to `destination`: the origin is
/// left empty and the destination holds what the origin held, whatever it held before.
pub open spec fn relocated(
    grid: Seq<Seq<Square>>,
    origin: Position,
    destination: Position,
) -> Seq<Seq<Square>> {
    with_square(with_square(grid, origin, Square::Empty), destination, square_at(grid, origin))
}

/// The outcome of a move request: the verdict, the grid and the player to move afterwards.
/// A refused request leaves both as they were.
pub open spec fn after_move(
    grid: Seq<Seq<Square>>,
    player: PieceColour,
    origin: Position,
    destination: Position,
) -> (Result<(), MoveError>, Seq<Seq<Square>>, PieceColour) {
    let verdict = check_move(grid, player, origin, destination);
    if verdict is Ok {
        (verdict, relocated(grid, origin, destination), opposite(player))
    } else {
        (verdict, grid, player)
    }
}

/// A refused move changes nothing, so asking for it again is refused for the same reason
/// and still changes nothing.
pub proof fn lemma_refusal_repeats(
    grid: Seq<Seq<Square>>,
    player: PieceColour,
    origin: Position,
    destination: Position,
)
    requires
        check_move(grid, player, origin, destination) is Err,
    ensures
        ({
            let first = after_move(grid, player, origin, destination);
            let second = after_move(first.1, first.2, origin, destination);
            &&& first.1 == grid && first.2 == player
            &&& second.0 == first.0
            &&& second.1 == grid && second.2 == player
        }),
{
}

/// Turns alternate strictly: from White to move, one accepted move leaves Black to move and
/// a second accepted move leaves White to move again.
pub proof fn lemma_turns_alternate(
    grid: Seq<Seq<Square>>,
    first_origin: Position,
    first_destination: Position,
    second_origin: Position,
    second_destination: Position,
)
    requires
        after_move(grid, PieceColour::White, first_origin, first_destination).0 is Ok,
        after_move(
            after_move(grid, PieceColour::White, first_origin, first_destination).1,
            after_move(grid, PieceColour::White, first_origin, first_destination).2,
            second_origin,
            second_destination,
        ).0 is Ok,
    ensures
        ({
            let first = after_move(grid, PieceColour::White, first_origin, first_destination);
            let second = after_move(first.1, first.2, second_origin, second_destination);
            first.2 == PieceColour::Black && second.2 == PieceColour::White
        }),
{
}

/// A chessboard.
pub struct Board {
    layout: Vec<Vec<Square>>,
    player: PieceColour,
}

impl Default for Board {
    /// The standard starting position with White to move.
    fn default() -> (r: Self)
        ensures
            r.grid() == standard_grid(),
            r.to_move() == PieceColour::White,
    {
        Self { layout: Layouts::standard(), player: PieceColour::White }
    }
}

impl Board {
    /// The grid of squares, indexed by rank and then by file.
    pub closed spec fn grid(&self) -> Seq<Seq<Square>> {
        rows_view(self.layout@)
    }

    /// The colour whose turn it is.
    pub closed spec fn to_move(&self) -> PieceColour {
        self.player
    }

    /// Creates a new chessboard with the given layout and the given player to move.
    pub fn new(layout: Vec<Vec<Square>>, player: PieceColour) -> (r: Self)
        ensures
            r.grid() == rows_view(layout@),
            r.to_move() == player,
    {
        Self { layout, player }
    }

    /// Returns a reference to the current chessboard layout.
    pub fn get_layout(&self) -> (r: &Vec<Vec<Square>>)
        ensures
            rows_view(r@) == self.grid(),
    {
        &self.layout
    }

    /// Returns a reference to the current player.
    pub fn get_player(&self) -> (r: &PieceColour)
        ensures
            *r == self.to_move(),
    {
        &self.player
    }

    /// Moves a piece on the chessboard from one position to another.
    ///
    /// The move is checked first; a refused move changes nothing. An accepted move empties
    /// the origin, puts its piece on the destination and passes the turn.
    pub fn move_piece(&mut self, old_pos: &Position, new_pos: &Position) -> (r: Result<(), MoveError>)
        ensures
            (r, final(self).grid(), final(self).to_move())
                == after_move(old(self).grid(), old(self).to_move(), *old_pos, *new_pos),
            same_shape(final(self).grid(), old(self).grid()),
            r is Err ==> {
                &&& final(self).grid() == old(self).grid()
                &&& final(self).to_move() == old(self).to_move()
            },
            !in_bounds(old(self).grid(), *old_pos) || !in_bounds(old(self).grid(), *new_pos)
                ==> r == Err::<(), MoveError>(MoveError::OriginOutOfBounds)
                || r == Err::<(), MoveError>(MoveError::DestinationOutOfBounds),
            ({
                let g = old(self).grid();
                &&& in_bounds(g, *old_pos)
                &&& in_bounds(g, *new_pos)
                &&& square_at(g, *old_pos) is Empty
            }) ==> r == Err::<(), MoveError>(MoveError::EmptyOriginSquare),
            ({
                let g = old(self).grid();
                &&& in_bounds(g, *old_pos)
                &&& in_bounds(g, *new_pos)
                &&& square_at(g, *old_pos).colour() == Some(opposite(old(self).to_move()))
            }) ==> r == Err::<(), MoveError>(MoveError::WrongPlayersPiece),
            ({
                let g = old(self).grid();
                &&& in_bounds(g, *old_pos)
                &&& in_bounds(g, *new_pos)
                &&& square_at(g, *old_pos).colour() == Some(old(self).to_move())
                &&& square_at(g, *new_pos).colour() == square_at(g, *old_pos).colour()
            }) ==> r == Err::<(), MoveError>(MoveError::FriendlyCapture),
            r is Ok ==> {
                &&& square_at(final(self).grid(), *old_pos) == Square::Empty
                &&& square_at(final(self).grid(), *new_pos) == square_at(old(self).grid(), *old_pos)
                &&& final(self).to_move() == opposite(old(self).to_move())
            },
    {
        if let Err(err) = self.is_valid_move(old_pos, new_pos) {
            return Err(err);
        }
        let mut moved_piece = Square::Empty;
        std::mem::swap(&mut self.layout[old_pos.y][old_pos.x], &mut moved_piece);
        self.layout[new_pos.y][new_pos.x] = moved_piece;
        self.next_turn();
        Ok(())
    }

    /// Decides, without changing the board, whether the move may be made.
    fn is_valid_move(&self, old_pos: &Position, new_pos: &Position) -> (r: Result<(), MoveError>)
        ensures
            r == check_move(self.grid(), self.to_move(), *old_pos, *new_pos),
    {
        // Both positions are checked against the bounds before any square is read.
        if old_pos.y >= self.layout.len() || old_pos.x >= self.layout[old_pos.y].len() {
            return Err(MoveError::OriginOutOfBounds);
        }
        if new_pos.y >= self.layout.len() || new_pos.x >= self.layout[new_pos.y].len() {
            return Err(MoveError::DestinationOutOfBounds);
        }

        let old_square = &self.layout[old_pos.y][old_pos.x];
        let new_square = &self.layout[new_pos.y][new_pos.x];

        let old_square_colour = match old_square.get_colour() {
            None => {
                return Err(MoveError::EmptyOriginSquare);
            },
            Some(colour) => colour,
        };

        if *old_square_colour != self.player {
            return Err(MoveError::WrongPlayersPiece);
        }

        if let Some(new_square_colour) = new_square.get_colour() {
            if *old_square_colour == *new_square_colour {
                return Err(MoveError::FriendlyCapture);
            }
        }

        Ok(())
    }

    /// Passes the turn to the other player.
    fn next_turn(&mut self)
        ensures
            final(self).to_move() == opposite(old(self).to_move()),
            final(self).grid() == old(self).grid(),
    {
        self.player = match self.player {
            PieceColour::Black => PieceColour::White,
            PieceColour::White => PieceColour::Black,
        }
    }
}

} // verus!
