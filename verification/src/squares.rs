//! Square names and the piece placement field of a FEN.
use vstd::prelude::*;

use crate::text::{push_char, split_words, words};
use crate::types::{ChessPieceView, PieceKind, PlayerColor};

verus! {

/// The file (0 for `a`) that a character names, either case.
pub open spec fn file_of_char(c: char) -> Option<int> {
    if 'a' <= c && c <= 'h' {
        Some(c as int - 'a' as int)
    } else if 'A' <= c && c <= 'H' {
        Some(c as int - 'A' as int)
    } else {
        None
    }
}

/// The rank (0 for `1`) that a character names.
pub open spec fn rank_of_char(c: char) -> Option<int> {
    if '1' <= c && c <= '8' {
        Some(c as int - '1' as int)
    } else {
        None
    }
}

/// The square index (`rank * 8 + file`) that `name` names: a file letter of
/// either case followed by a rank digit, nothing more.
pub open spec fn spec_square_from_name(name: Seq<char>) -> Option<u8> {
    if name.len() == 2 && file_of_char(name[0]) is Some && rank_of_char(name[1]) is Some {
        Some((rank_of_char(name[1]).unwrap() * 8 + file_of_char(name[0]).unwrap()) as u8)
    } else {
        None
    }
}

/// The lower-case name of square `sq`.
pub open spec fn spec_square_name(sq: u8) -> Seq<char> {
    seq![((sq % 8) + 97) as char, ((sq / 8) + 49) as char]
}

/// The square that `name` names, as an index `rank * 8 + file`.
pub fn square_from_name(name: &str) -> (r: Option<u8>)
    ensures
        r == spec_square_from_name(name@),
        r matches Some(sq) ==> sq < 64,
{
    if name.unicode_len() != 2 {
        return None;
    }
    let f = name.get_char(0);
    let k = name.get_char(1);
    let file: u32 = if 'a' <= f && f <= 'h' {
        (f as u32) - ('a' as u32)
    } else if 'A' <= f && f <= 'H' {
        (f as u32) - ('A' as u32)
    } else {
        return None;
    };
    if !('1' <= k && k <= '8') {
        return None;
    }
    let rank: u32 = (k as u32) - ('1' as u32);
    Some((rank * 8 + file) as u8)
}

fn file_char(file: u8) -> (c: char)
    requires
        file < 8,
    ensures
        c == (file + 97) as char,
{
    match file {
        0 => 'a',
        1 => 'b',
        2 => 'c',
        3 => 'd',
        4 => 'e',
        5 => 'f',
        6 => 'g',
        _ => 'h',
    }
}

fn rank_char(rank: u8) -> (c: char)
    requires
        rank < 8,
    ensures
        c == (rank + 49) as char,
{
    match rank {
        0 => '1',
        1 => '2',
        2 => '3',
        3 => '4',
        4 => '5',
        5 => '6',
        6 => '7',
        _ => '8',
    }
}

/// The name of square `sq`, such as `e4`.
pub fn square_name(sq: u8) -> (r: String)
    requires
        sq < 64,
    ensures
        r@ == spec_square_name(sq),
{
    let mut r = String::new();
    push_char(&mut r, file_char(sq % 8));
    push_char(&mut r, rank_char(sq / 8));
    assert(r@ =~= spec_square_name(sq));
    r
}

/// The piece kind a lower-case FEN letter stands for.
pub open spec fn kind_of_letter(c: char) -> Option<PieceKind> {
    if c == 'p' {
        Some(PieceKind::Pawn)
    } else if c == 'n' {
        Some(PieceKind::Knight)
    } else if c == 'b' {
        Some(PieceKind::Bishop)
    } else if c == 'r' {
        Some(PieceKind::Rook)
    } else if c == 'q' {
        Some(PieceKind::Queen)
    } else if c == 'k' {
        Some(PieceKind::King)
    } else {
        None
    }
}

/// `char::to_ascii_lowercase`.
pub open spec fn ascii_lower(c: char) -> char {
    if 'A' <= c && c <= 'Z' {
        ((c as int) + 32) as char
    } else {
        c
    }
}

/// Where a reading of a FEN placement field stands: the pieces found, the
/// row (0 for the eighth rank), the file counter kept as a byte, and
/// whether a piece was met with a file counter too far right to name.
pub struct PlacementScan {
    pub pieces: Seq<(PieceKind, PlayerColor, Seq<char>)>,
    pub row: nat,
    pub file: u8,
    pub overflow: bool,
}

/// The rank (0 for the first) that a row of the placement field describes.
pub open spec fn rank_of_row(row: nat) -> nat {
    if row <= 7 {
        (7 - row) as nat
    } else {
        0
    }
}

/// Reads the placement characters `s` one by one: `/` starts the next
/// row, a digit moves right by its value, a piece letter places a piece
/// (upper case for White) and moves right by one; anything else is passed
/// over.
pub open spec fn scan_placement(s: Seq<char>) -> PlacementScan
    decreases s.len(),
{
    if s.len() == 0 {
        PlacementScan { pieces: Seq::empty(), row: 0, file: 0, overflow: false }
    } else {
        let st = scan_placement(s.drop_last());
        let c = s.last();
        if c == '/' {
            PlacementScan { row: st.row + 1, file: 0, ..st }
        } else if '0' <= c && c <= '9' {
            PlacementScan { file: ((st.file + (c as int - '0' as int)) % 256) as u8, ..st }
        } else {
            match kind_of_letter(ascii_lower(c)) {
                None => st,
                Some(kind) => if st.file > 158 {
                    PlacementScan { overflow: true, ..st }
                } else {
                    let color = if 'A' <= c && c <= 'Z' {
                        PlayerColor::White
                    } else {
                        PlayerColor::Black
                    };
                    let square = seq![(st.file + 97) as char, (rank_of_row(st.row) + 49) as char];
                    PlacementScan {
                        pieces: st.pieces.push((kind, color, square)),
                        file: ((st.file + 1) % 256) as u8,
                        ..st
                    }
                },
            }
        }
    }
}

/// The placement field of `fen`: its first white-space separated word.
pub open spec fn placement_field(fen: Seq<char>) -> Seq<char> {
    if words(fen).len() > 0 {
        words(fen)[0]
    } else {
        Seq::empty()
    }
}

/// Once a piece is met too far right, it stays so.
proof fn lemma_overflow_stays(s: Seq<char>, i: int)
    requires
        0 <= i <= s.len(),
        scan_placement(s.take(i)).overflow,
    ensures
        scan_placement(s).overflow,
    decreases s.len() - i,
{
    if i < s.len() {
        assert(s.take(i + 1).drop_last() =~= s.take(i));
        lemma_overflow_stays(s, i + 1);
    } else {
        assert(s.take(i) =~= s);
    }
}

pub(crate) fn lower_kind(c: char) -> (r: Option<PieceKind>)
    ensures
        r == kind_of_letter(ascii_lower(c)),
{
    let l = if 'A' <= c && c <= 'Z' {
        ((c as u32) + 32) as u8 as char
    } else {
        c
    };
    match l {
        'p' => Some(PieceKind::Pawn),
        'n' => Some(PieceKind::Knight),
        'b' => Some(PieceKind::Bishop),
        'r' => Some(PieceKind::Rook),
        'q' => Some(PieceKind::Queen),
        'k' => Some(PieceKind::King),
        _ => None,
    }
}

/// The pieces that the placement field of `fen` lists, each on its named
/// square, in the order the field lists them. A piece listed with the file
/// counter past the byte range of letters is refused.
pub fn pieces_from_fen(fen: &str) -> (r: Vec<ChessPieceView>)
    requires
        !scan_placement(placement_field(fen@)).overflow,
    ensures
        r@.len() == scan_placement(placement_field(fen@)).pieces.len(),
        forall|i: int|
            0 <= i < r@.len() ==> {
                let p = #[trigger] scan_placement(placement_field(fen@)).pieces[i];
                &&& r@[i].kind == p.0
                &&& r@[i].color == p.1
                &&& r@[i].square@ == p.2
            },
{
    let ws = split_words(fen);
    let part: Vec<char> = if ws.len() > 0 {
        ws[0].clone()
    } else {
        Vec::new()
    };
    let ghost s = placement_field(fen@);
    assert(part@ == s);
    let mut pieces: Vec<ChessPieceView> = Vec::new();
    let mut row: usize = 0;
    let mut file: u8 = 0;
    let mut i: usize = 0;
    while i < part.len()
        invariant
            part@ == s,
            !scan_placement(s).overflow,
            i <= s.len(),
            row <= i,
            ({
                let st = scan_placement(s.take(i as int));
                &&& !st.overflow
                &&& st.row == row
                &&& st.file == file
                &&& pieces@.len() == st.pieces.len()
                &&& forall|j: int|
                    0 <= j < pieces@.len() ==> {
                        let p = #[trigger] st.pieces[j];
                        &&& pieces@[j].kind == p.0
                        &&& pieces@[j].color == p.1
                        &&& pieces@[j].square@ == p.2
                    }
            }),
        decreases s.len() - i,
    {
        let c = part[i];
        proof {
            assert(s.take(i + 1).drop_last() =~= s.take(i as int));
            assert(s.take(i + 1).last() == c);
        }
        if c == '/' {
            row = row + 1;
            file = 0;
        } else if '0' <= c && c <= '9' {
            let d: u8 = ((c as u32) - ('0' as u32)) as u8;
            file = file.wrapping_add(d);
        } else {
            match lower_kind(c) {
                None => {},
                Some(kind) => {
                    if file > 158 {
                        proof {
                            lemma_overflow_stays(s, i + 1);
                        }
                    }
                    let color = if 'A' <= c && c <= 'Z' {
                        PlayerColor::White
                    } else {
                        PlayerColor::Black
                    };
                    let rank: u8 = if row <= 7 {
                        (7 - row) as u8
                    } else {
                        0
                    };
                    let mut square = String::new();
                    push_char(&mut square, ((file as u32) + 97) as u8 as char);
                    push_char(&mut square, ((rank as u32) + 49) as u8 as char);
                    pieces.push(ChessPieceView { kind, color, square });
                    file = file + 1;
                },
            }
        }
        i = i + 1;
    }
    assert(s.take(s.len() as int) =~= s);
    pieces
}

} // verus!
