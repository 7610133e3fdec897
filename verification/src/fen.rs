//! What the `chess` crate's FEN reader makes of a text, as far as the
//! library needs to know before handing the text over: the reader splits
//! the text at single spaces, refuses fewer than four fields, places the
//! pieces of the first field on a board whose rank and file counters wrap
//! around, refuses any other character there, and refuses a side field
//! other than `w`, `W`, `b` or `B`.
use vstd::prelude::*;

use crate::squares::{ascii_lower, kind_of_letter, lower_kind};
use crate::types::{PieceKind, PlayerColor};

verus! {

/// Where the reader of the placement field stands: rank and file counters
/// (rank 7 is the eighth rank), the board so far (index `rank * 8 + file`),
/// and whether a character was refused.
pub struct Placement {
    pub rank: int,
    pub file: int,
    pub board: Seq<Option<(PieceKind, PlayerColor)>>,
    pub refused: bool,
}

/// Where the reader of the whole text stands: the spaces met so far, the
/// placement field read so far, and the side field read so far.
pub struct FenRead {
    pub spaces: nat,
    pub placement: Placement,
    pub side: Seq<char>,
}

/// The empty board, before the first character.
pub open spec fn empty_placement() -> Placement {
    Placement { rank: 7, file: 0, board: Seq::new(64, |i: int| None), refused: false }
}

/// One character of the placement field: `/` goes down a rank (from the
/// first rank to the eighth) and back to file `a`; a digit from 1 to 8
/// moves right (round to file `a` past `h`); a piece letter puts the piece
/// on the current square, replacing what was there, and moves right by
/// one; anything else is refused.
pub open spec fn place_step(st: Placement, c: char) -> Placement {
    if st.refused {
        st
    } else if c == '/' {
        Placement { rank: (st.rank + 7) % 8, file: 0, ..st }
    } else if '1' <= c && c <= '8' {
        Placement { file: (st.file + (c as int - '0' as int)) % 8, ..st }
    } else {
        match kind_of_letter(ascii_lower(c)) {
            Some(kind) => {
                let color = if 'A' <= c && c <= 'Z' { PlayerColor::White } else { PlayerColor::Black };
                Placement {
                    board: st.board.update(st.rank * 8 + st.file, Some((kind, color))),
                    file: (st.file + 1) % 8,
                    ..st
                }
            },
            None => Placement { refused: true, ..st },
        }
    }
}

/// The reader after the characters `s`.
pub open spec fn read_fen(s: Seq<char>) -> FenRead
    decreases s.len(),
{
    if s.len() == 0 {
        FenRead { spaces: 0, placement: empty_placement(), side: Seq::empty() }
    } else {
        let st = read_fen(s.drop_last());
        let c = s.last();
        if c == ' ' {
            FenRead { spaces: st.spaces + 1, ..st }
        } else if st.spaces == 0 {
            FenRead { placement: place_step(st.placement, c), ..st }
        } else if st.spaces == 1 {
            FenRead { side: st.side.push(c), ..st }
        } else {
            st
        }
    }
}

/// The side a side field names, if it is one the reader takes.
pub open spec fn side_named(side: Seq<char>) -> Option<PlayerColor> {
    if side.len() == 1 && (side[0] == 'w' || side[0] == 'W') {
        Some(PlayerColor::White)
    } else if side.len() == 1 && (side[0] == 'b' || side[0] == 'B') {
        Some(PlayerColor::Black)
    } else {
        None
    }
}

/// Whether handing `fen` to the crate's board reader is sound: either the
/// reader refuses the text before it builds a board, or the board it builds
/// has a king of the side to move. (Otherwise the crate looks up attacks
/// from a king square past the board before it refuses the board.)
pub open spec fn spec_king_to_move(fen: Seq<char>) -> bool {
    let st = read_fen(fen);
    st.spaces < 3 || st.placement.refused || match side_named(st.side) {
        None => true,
        Some(color) => exists|i: int| 0 <= i < 64 && #[trigger] st.placement.board[i] == Some((PieceKind::King, color)),
    }
}

/// Whether handing `fen` to the crate's board reader is sound.
pub fn fen_has_king_to_move(fen: &str) -> (r: bool)
    ensures
        r == spec_king_to_move(fen@),
{
    let n = fen.unicode_len();
    let mut spaces: usize = 0;
    let mut rank: usize = 7;
    let mut file: usize = 0;
    let mut board: Vec<Option<(PieceKind, PlayerColor)>> = Vec::new();
    let mut k: usize = 0;
    while k < 64
        invariant
            k <= 64,
            board@.len() == k,
            forall|j: int| 0 <= j < k ==> board@[j] is None,
        decreases 64 - k,
    {
        board.push(None);
        k = k + 1;
    }
    assert(board@ =~= empty_placement().board);
    let mut refused = false;
    let mut side: Vec<char> = Vec::new();
    let mut i: usize = 0;
    while i < n
        invariant
            n == fen@.len(),
            i <= n,
            spaces <= i,
            ({
                let st = read_fen(fen@.take(i as int));
                &&& st.spaces == spaces
                &&& st.placement.rank == rank as int
                &&& st.placement.file == file as int
                &&& st.placement.board == board@
                &&& st.placement.refused == refused
                &&& st.side == side@
                &&& 0 <= st.placement.rank < 8
                &&& 0 <= st.placement.file < 8
                &&& st.placement.board.len() == 64
            }),
        decreases n - i,
    {
        let c = fen.get_char(i);
        proof {
            assert(fen@.take(i + 1).drop_last() =~= fen@.take(i as int));
            assert(fen@.take(i + 1).last() == c);
        }
        if c == ' ' {
            spaces = spaces + 1;
        } else if spaces == 0 {
            if !refused {
                if c == '/' {
                    rank = (rank + 7) % 8;
                    file = 0;
                } else if '1' <= c && c <= '8' {
                    let d: usize = ((c as u32) - ('0' as u32)) as usize;
                    file = (file + d) % 8;
                } else {
                    match lower_kind(c) {
                        Some(kind) => {
                            let color = if 'A' <= c && c <= 'Z' { PlayerColor::White } else { PlayerColor::Black };
                            board.set(rank * 8 + file, Some((kind, color)));
                            file = (file + 1) % 8;
                        },
                        None => {
                            refused = true;
                        },
                    }
                }
            }
        } else if spaces == 1 {
            side.push(c);
        }
        i = i + 1;
    }
    assert(fen@.take(n as int) =~= fen@);
    if spaces < 3 || refused {
        return true;
    }
    let color = if side.len() == 1 && (side[0] == 'w' || side[0] == 'W') {
        PlayerColor::White
    } else if side.len() == 1 && (side[0] == 'b' || side[0] == 'B') {
        PlayerColor::Black
    } else {
        return true;
    };
    let ghost st = read_fen(fen@);
    assert(side_named(st.side) == Some(color));
    let mut j: usize = 0;
    while j < 64
        invariant
            j <= 64,
            board@.len() == 64,
            board@ == st.placement.board,
            st == read_fen(fen@),
            !st.placement.refused,
            st.spaces >= 3,
            side_named(st.side) == Some(color),
            forall|q: int| 0 <= q < j ==> board@[q] != Some((PieceKind::King, color)),
        decreases 64 - j,
    {
        match board[j] {
            Some((PieceKind::King, c2)) => {
                if c2 == color {
                    assert(st.placement.board[j as int] == Some((PieceKind::King, color)));
                    return true;
                }
            },
            _ => {},
        }
        j = j + 1;
    }
    false
}

} // verus!
