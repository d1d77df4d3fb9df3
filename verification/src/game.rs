//! The board tracker: applying square updates and classifying the layout.

use crate::protocol::ChessBoard;
use crate::protocol::ChessMove;
use crate::protocol::RawPiece;
use vstd::prelude::*;

verus! {

/// A piece taken off a square.
#[derive(Debug, Clone, Copy, PartialEq, Eq, Structural)]
pub struct Capture {
    pub piece: RawPiece,
    pub grid: u8,
}

/// A piece moved from one square to another.
#[derive(Debug, Clone, Copy, PartialEq, Eq, Structural)]
pub struct Move {
    pub piece: RawPiece,
    pub from: u8,
    pub to: u8,
}

/// Higher-level semantics of a batch of square updates.
#[derive(Debug, Clone, Copy, PartialEq, Eq, Structural)]
pub enum DetectedMove {
    ShortCastle,
    LongCastle,
    PawnCapture(Capture),
    Promotion(Move, RawPiece),
    PromotionCapture(Move, Capture, RawPiece),
    SimpleMove(Move),
    SimpleCapture(Move, Capture),
}

/// The last update in the batch that touched square `g`, if any.
pub open spec fn last_update(updates: Seq<ChessMove>, g: u8) -> Option<RawPiece>
    decreases updates.len(),
{
    if updates.len() == 0 {
        None
    } else if updates.last().grid == g {
        Some(updates.last().piece)
    } else {
        last_update(updates.drop_last(), g)
    }
}

/// The batch leaves square `g` vacated: its last update emptied it.
pub open spec fn vacated(updates: Seq<ChessMove>, g: u8) -> bool {
    last_update(updates, g) == Some(RawPiece::Empty)
}

/// The piece the batch leaves on square `g`, if its last update placed one.
pub open spec fn occupied(updates: Seq<ChessMove>, g: u8) -> Option<RawPiece> {
    match last_update(updates, g) {
        Some(p) => if p != RawPiece::Empty {
            Some(p)
        } else {
            None
        },
        None => None,
    }
}

/// Partition a batch of square updates into the squares it leaves vacated
/// and the squares it leaves occupied, the latter with the piece now there.
/// A later update to a square supersedes every earlier one.
pub fn partition_updates(moves: &[ChessMove]) -> (r: (Vec<u8>, Vec<ChessMove>))
    ensures
        forall|j: int| 0 <= j < r.0@.len() ==> vacated(moves@, #[trigger] r.0@[j]),
        forall|g: u8| vacated(moves@, g) ==> r.0@.contains(g),
        forall|j: int|
            0 <= j < r.1@.len() ==> occupied(moves@, (#[trigger] r.1@[j]).grid) == Some(
                r.1@[j].piece,
            ),
        forall|g: u8|
            occupied(moves@, g) is Some ==> exists|j: int|
                0 <= j < r.1@.len() && (#[trigger] r.1@[j]).grid == g,
{
    let mut table: Vec<Option<RawPiece>> = Vec::new();
    let mut setup: usize = 0;
    while setup < 256
        invariant
            setup <= 256,
            table@.len() == setup,
            forall|j: int| 0 <= j < setup ==> table@[j] is None,
        decreases 256 - setup,
    {
        table.push(None);
        setup += 1;
    }
    proof {
        assert(forall|j: int|
            0 <= j < 256 ==> table@[j] == last_update(moves@.subrange(0, 0), j as u8));
    }
    let mut k: usize = 0;
    while k < moves.len()
        invariant
            k <= moves@.len(),
            table@.len() == 256,
            forall|j: int| 0 <= j < 256 ==> table@[j] == last_update(moves@.subrange(0, k as int), j as u8),
        decreases moves@.len() - k,
    {
        let mv = moves[k];
        table[mv.grid as usize] = Some(mv.piece);
        proof {
            let pref = moves@.subrange(0, k as int);
            let next = moves@.subrange(0, k + 1 as int);
            assert(next.drop_last() =~= pref);
            assert(next.last() == moves@[k as int]);
            assert forall|j: int| 0 <= j < 256 implies table@[j] == last_update(next, j as u8) by {
                if j == mv.grid as int {
                    assert(next.last().grid == j as u8);
                } else {
                    assert(next.last().grid != j as u8);
                }
            }
        }
        k += 1;
    }
    proof {
        assert(moves@.subrange(0, moves@.len() as int) =~= moves@);
    }
    let mut removed: Vec<u8> = Vec::new();
    let mut added: Vec<ChessMove> = Vec::new();
    let mut g: usize = 0;
    while g < 256
        invariant
            g <= 256,
            table@.len() == 256,
            forall|j: int| 0 <= j < 256 ==> table@[j] == last_update(moves@, j as u8),
            forall|j: int| 0 <= j < removed@.len() ==> vacated(moves@, #[trigger] removed@[j]),
            forall|h: u8| h < g && vacated(moves@, h) ==> removed@.contains(h),
            forall|j: int|
                0 <= j < added@.len() ==> occupied(moves@, (#[trigger] added@[j]).grid) == Some(
                    added@[j].piece,
                ),
            forall|h: u8|
                h < g && occupied(moves@, h) is Some ==> exists|j: int|
                    0 <= j < added@.len() && (#[trigger] added@[j]).grid == h,
        decreases 256 - g,
    {
        let entry = table[g];
        match entry {
            Some(p) => {
                if p == RawPiece::Empty {
                    let ghost prev = removed@;
                    removed.push(g as u8);
                    proof {
                        assert forall|h: u8| h < g + 1 && vacated(moves@, h) implies
                            removed@.contains(h) by {
                            if h < g {
                                let j = choose|j: int| 0 <= j < prev.len() && prev[j] == h;
                                assert(removed@[j] == h);
                            } else {
                                assert(removed@[prev.len() as int] == h);
                            }
                        }
                    }
                } else {
                    let ghost prev = added@;
                    added.push(ChessMove { grid: g as u8, piece: p });
                    proof {
                        assert forall|h: u8| h < g + 1 && occupied(moves@, h) is Some implies
                            exists|j: int| 0 <= j < added@.len() && (#[trigger] added@[j]).grid
                                == h by {
                            if h < g {
                                let j = choose|j: int| 0 <= j < prev.len() && prev[j].grid == h;
                                assert(added@[j].grid == h);
                            } else {
                                assert(added@[prev.len() as int].grid == h);
                            }
                        }
                    }
                }
            },
            None => {},
        }
        g += 1;
    }
    (removed, added)
}

/// Aggregate a batch of square updates into higher-level move semantics.
///
/// The classification over the partitioned batch is an extension point and
/// is not implemented: every batch is explicitly left unclassified rather
/// than approximated.
pub fn detect_move(moves: &[ChessMove]) -> (r: Option<DetectedMove>)
    ensures
        r is None,
{
    let (_removed, _added) = partition_updates(moves);
    None
}

/// Whether the tracked board matches a recognized starting layout.
#[derive(Debug, Clone, Copy, PartialEq, Eq, Structural)]
pub enum StartPosition {
    /// No recognized starting layout.
    NoStart,
    /// The layout with White's back rank at squares 0 through 7.
    Normal,
    /// The same layout rotated: Black's back rank at squares 0 through 7.
    Mirror,
}

/// The middle four ranks, squares 16 through 47, are all empty. Every
/// starting position has an empty center.
pub open spec fn center_empty(b: Seq<RawPiece>) -> bool {
    forall|i: int| 16 <= i < 48 ==> b[i] == RawPiece::Empty
}

/// The layout matches the starting position with White's back rank at
/// squares 0 through 7 and Black's at 56 through 63.
pub open spec fn is_normal_start(b: Seq<RawPiece>) -> bool {
    &&& (forall|i: int| 8 <= i < 16 ==> b[i] == RawPiece::WhitePawn)
    &&& (forall|i: int| 48 <= i < 56 ==> b[i] == RawPiece::BlackPawn)
    &&& b[0] == RawPiece::WhiteRook
    &&& b[1] == RawPiece::WhiteKnight
    &&& b[2] == RawPiece::WhiteBishop
    &&& b[3] == RawPiece::WhiteKing
    &&& b[4] == RawPiece::WhiteQueen
    &&& b[5] == RawPiece::WhiteBishop
    &&& b[6] == RawPiece::WhiteKnight
    &&& b[7] == RawPiece::WhiteRook
    &&& b[56] == RawPiece::BlackRook
    &&& b[57] == RawPiece::BlackKnight
    &&& b[58] == RawPiece::BlackBishop
    &&& b[59] == RawPiece::BlackKing
    &&& b[60] == RawPiece::BlackQueen
    &&& b[61] == RawPiece::BlackBishop
    &&& b[62] == RawPiece::BlackKnight
    &&& b[63] == RawPiece::BlackRook
}

/// The same layout with the board rotated: Black's back rank at squares 0
/// through 7 and White's at 56 through 63.
pub open spec fn is_mirror_start(b: Seq<RawPiece>) -> bool {
    &&& (forall|i: int| 8 <= i < 16 ==> b[i] == RawPiece::BlackPawn)
    &&& (forall|i: int| 48 <= i < 56 ==> b[i] == RawPiece::WhitePawn)
    &&& b[0] == RawPiece::BlackRook
    &&& b[1] == RawPiece::BlackKnight
    &&& b[2] == RawPiece::BlackBishop
    &&& b[3] == RawPiece::BlackQueen
    &&& b[4] == RawPiece::BlackKing
    &&& b[5] == RawPiece::BlackBishop
    &&& b[6] == RawPiece::BlackKnight
    &&& b[7] == RawPiece::BlackRook
    &&& b[56] == RawPiece::WhiteRook
    &&& b[57] == RawPiece::WhiteKnight
    &&& b[58] == RawPiece::WhiteBishop
    &&& b[59] == RawPiece::WhiteQueen
    &&& b[60] == RawPiece::WhiteKing
    &&& b[61] == RawPiece::WhiteBishop
    &&& b[62] == RawPiece::WhiteKnight
    &&& b[63] == RawPiece::WhiteRook
}

/// How a board classifies: a non-empty center rules every layout out at
/// once; otherwise the normal layout is checked before the mirrored one.
/// Classification is a pure function of the board alone.
pub open spec fn classify(b: Seq<RawPiece>) -> StartPosition {
    if !center_empty(b) {
        StartPosition::NoStart
    } else if is_normal_start(b) {
        StartPosition::Normal
    } else if is_mirror_start(b) {
        StartPosition::Mirror
    } else {
        StartPosition::NoStart
    }
}

/// Classification depends on nothing but the board: two boards with the
/// same squares classify alike, so classifying twice without an update in
/// between yields the same result both times.
pub proof fn lemma_classify_idempotent(b1: Seq<RawPiece>, b2: Seq<RawPiece>)
    requires
        b1 == b2,
    ensures
        classify(b1) == classify(b2),
{
}

/// The tracked board together with the classification found at creation.
#[derive(Debug, Clone, PartialEq, Eq)]
pub struct GameBoard {
    board: ChessBoard,
    start: StartPosition,
}

impl View for GameBoard {
    type V = Seq<RawPiece>;

    closed spec fn view(&self) -> Seq<RawPiece> {
        self.board@
    }
}

impl GameBoard {
    /// A well-formed tracker holds a well-formed board.
    pub closed spec fn wf(&self) -> bool {
        self.board.wf()
    }

    /// The classification found when the tracker was created.
    pub closed spec fn initial_classification(&self) -> StartPosition {
        self.start
    }

    /// Take ownership of a freshly decoded board dump and classify it.
    pub fn new(board: ChessBoard) -> (r: GameBoard)
        requires
            board.wf(),
        ensures
            r.wf(),
            r@ == board@,
            r.initial_classification() == classify(board@),
    {
        let start = StartPosition::NoStart;
        let mut game = GameBoard { board, start };
        game.start = game.is_starting_position();
        game
    }

    /// Apply a single square update in place. An out-of-range square index
    /// is ignored defensively rather than indexed out of bounds.
    pub fn apply_move(&mut self, mv: ChessMove)
        requires
            old(self).wf(),
        ensures
            final(self).wf(),
            mv.grid < 64 ==> final(self)@ == old(self)@.update(mv.grid as int, mv.piece),
            mv.grid >= 64 ==> final(self)@ == old(self)@,
            final(self).initial_classification() == old(self).initial_classification(),
    {
        if mv.grid < 64 {
            self.board.board[mv.grid as usize] = mv.piece;
        }
    }

    /// The piece currently on one square.
    pub fn get(&self, square: usize) -> (r: RawPiece)
        requires
            self.wf(),
            square < 64,
        ensures
            r == self@[square as int],
    {
        self.board.get(square)
    }

    /// Every square in `lo..hi` holds exactly the given piece.
    fn range_all(&self, lo: usize, hi: usize, piece: RawPiece) -> (r: bool)
        requires
            self.wf(),
            lo <= hi <= 64,
        ensures
            r == (forall|i: int| lo <= i < hi ==> self@[i] == piece),
    {
        let mut i = lo;
        while i < hi
            invariant
                self.wf(),
                lo <= i <= hi <= 64,
                forall|j: int| lo <= j < i ==> self@[j] == piece,
            decreases hi - i,
        {
            if self.board.get(i) != piece {
                return false;
            }
            i += 1;
        }
        true
    }

    /// Classify the current board against the two known starting layouts.
    /// The result is recomputed from the board as it stands now, never
    /// cached across updates.
    pub fn is_starting_position(&self) -> (r: StartPosition)
        requires
            self.wf(),
        ensures
            r == classify(self@),
    {
        if !self.range_all(16, 48, RawPiece::Empty) {
            return StartPosition::NoStart;
        }
        if self.range_all(8, 16, RawPiece::WhitePawn) && self.range_all(
            48,
            56,
            RawPiece::BlackPawn,
        ) && self.board.get(0) == RawPiece::WhiteRook && self.board.get(1) == RawPiece::WhiteKnight
            && self.board.get(2) == RawPiece::WhiteBishop && self.board.get(3)
            == RawPiece::WhiteKing && self.board.get(4) == RawPiece::WhiteQueen && self.board.get(5)
            == RawPiece::WhiteBishop && self.board.get(6) == RawPiece::WhiteKnight
            && self.board.get(7) == RawPiece::WhiteRook && self.board.get(56)
            == RawPiece::BlackRook && self.board.get(57) == RawPiece::BlackKnight
            && self.board.get(58) == RawPiece::BlackBishop && self.board.get(59)
            == RawPiece::BlackKing && self.board.get(60) == RawPiece::BlackQueen
            && self.board.get(61) == RawPiece::BlackBishop && self.board.get(62)
            == RawPiece::BlackKnight && self.board.get(63) == RawPiece::BlackRook {
            return StartPosition::Normal;
        }
        if self.range_all(8, 16, RawPiece::BlackPawn) && self.range_all(
            48,
            56,
            RawPiece::WhitePawn,
        ) && self.board.get(0) == RawPiece::BlackRook && self.board.get(1) == RawPiece::BlackKnight
            && self.board.get(2) == RawPiece::BlackBishop && self.board.get(3)
            == RawPiece::BlackQueen && self.board.get(4) == RawPiece::BlackKing && self.board.get(5)
            == RawPiece::BlackBishop && self.board.get(6) == RawPiece::BlackKnight
            && self.board.get(7) == RawPiece::BlackRook && self.board.get(56)
            == RawPiece::WhiteRook && self.board.get(57) == RawPiece::WhiteKnight
            && self.board.get(58) == RawPiece::WhiteBishop && self.board.get(59)
            == RawPiece::WhiteQueen && self.board.get(60) == RawPiece::WhiteKing
            && self.board.get(61) == RawPiece::WhiteBishop && self.board.get(62)
            == RawPiece::WhiteKnight && self.board.get(63) == RawPiece::WhiteRook {
            return StartPosition::Mirror;
        }
        StartPosition::NoStart
    }
}

} // verus!
