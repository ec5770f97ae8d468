//! The mapping from the keys of the host to the keyboard matrix of the
//! machine.

use vstd::prelude::*;

verus! {

/// A position in the 8 by 8 keyboard matrix: row, then column.
pub type MatrixPosition = (u8, u8);

/// Row of the left shift key.
pub const SHIFT_ROW: u8 = 1;

/// Column of the left shift key.
pub const SHIFT_COL: u8 = 7;

/// A key as the host reports it.
#[derive(Debug, Clone, Copy, PartialEq, Eq, Structural)]
pub enum HostKey {
    Backspace,
    Enter,
    Left,
    Right,
    Up,
    Down,
    Home,
    Tab,
    /// A function key, by its number.
    F(u8),
    /// A key that types a character.
    Char(char),
    /// Any other key.
    Other,
}

/// The matrix key that stands for a host key, and whether shift has to be
/// held with it.
#[derive(Debug, Clone, Copy, PartialEq, Eq, Structural)]
pub struct MatrixKey {
    pub shifted: bool,
    pub row: u8,
    pub col: u8,
}

/// The table from host keys to matrix keys. Letters map to their key in
/// either case; a character that the machine types with shift maps to its
/// base key with shift; cursor keys, RETURN, DEL, HOME, the odd function
/// keys and RUN/STOP (the host's Tab) have keys of their own.
pub open spec fn matrix_key(key: HostKey) -> Option<MatrixKey> {
    match key {
        HostKey::Backspace => Some(MatrixKey { shifted: false, row: 0, col: 0 }),
        HostKey::Enter => Some(MatrixKey { shifted: false, row: 0, col: 1 }),
        HostKey::Right => Some(MatrixKey { shifted: false, row: 0, col: 2 }),
        HostKey::F(7) => Some(MatrixKey { shifted: false, row: 0, col: 3 }),
        HostKey::F(1) => Some(MatrixKey { shifted: false, row: 0, col: 4 }),
        HostKey::F(3) => Some(MatrixKey { shifted: false, row: 0, col: 5 }),
        HostKey::F(5) => Some(MatrixKey { shifted: false, row: 0, col: 6 }),
        HostKey::Down => Some(MatrixKey { shifted: false, row: 0, col: 7 }),
        HostKey::Char('3') => Some(MatrixKey { shifted: false, row: 1, col: 0 }),
        HostKey::Char('#') => Some(MatrixKey { shifted: true, row: 1, col: 0 }),
        HostKey::Char('w') | HostKey::Char('W') => Some(MatrixKey { shifted: false, row: 1, col: 1 }),
        HostKey::Char('a') | HostKey::Char('A') => Some(MatrixKey { shifted: false, row: 1, col: 2 }),
        HostKey::Char('4') => Some(MatrixKey { shifted: false, row: 1, col: 3 }),
        HostKey::Char('$') => Some(MatrixKey { shifted: true, row: 1, col: 3 }),
        HostKey::Char('z') | HostKey::Char('Z') => Some(MatrixKey { shifted: false, row: 1, col: 4 }),
        HostKey::Char('s') | HostKey::Char('S') => Some(MatrixKey { shifted: false, row: 1, col: 5 }),
        HostKey::Char('e') | HostKey::Char('E') => Some(MatrixKey { shifted: false, row: 1, col: 6 }),
        HostKey::Char('5') => Some(MatrixKey { shifted: false, row: 2, col: 0 }),
        HostKey::Char('%') => Some(MatrixKey { shifted: true, row: 2, col: 0 }),
        HostKey::Char('r') | HostKey::Char('R') => Some(MatrixKey { shifted: false, row: 2, col: 1 }),
        HostKey::Char('d') | HostKey::Char('D') => Some(MatrixKey { shifted: false, row: 2, col: 2 }),
        HostKey::Char('6') => Some(MatrixKey { shifted: false, row: 2, col: 3 }),
        HostKey::Char('&') => Some(MatrixKey { shifted: true, row: 2, col: 3 }),
        HostKey::Char('c') | HostKey::Char('C') => Some(MatrixKey { shifted: false, row: 2, col: 4 }),
        HostKey::Char('f') | HostKey::Char('F') => Some(MatrixKey { shifted: false, row: 2, col: 5 }),
        HostKey::Char('t') | HostKey::Char('T') => Some(MatrixKey { shifted: false, row: 2, col: 6 }),
        HostKey::Char('x') | HostKey::Char('X') => Some(MatrixKey { shifted: false, row: 2, col: 7 }),
        HostKey::Char('7') => Some(MatrixKey { shifted: false, row: 3, col: 0 }),
        HostKey::Char('\'') => Some(MatrixKey { shifted: true, row: 3, col: 0 }),
        HostKey::Char('y') | HostKey::Char('Y') => Some(MatrixKey { shifted: false, row: 3, col: 1 }),
        HostKey::Char('g') | HostKey::Char('G') => Some(MatrixKey { shifted: false, row: 3, col: 2 }),
        HostKey::Char('8') => Some(MatrixKey { shifted: false, row: 3, col: 3 }),
        HostKey::Char('(') => Some(MatrixKey { shifted: true, row: 3, col: 3 }),
        HostKey::Char('b') | HostKey::Char('B') => Some(MatrixKey { shifted: false, row: 3, col: 4 }),
        HostKey::Char('h') | HostKey::Char('H') => Some(MatrixKey { shifted: false, row: 3, col: 5 }),
        HostKey::Char('u') | HostKey::Char('U') => Some(MatrixKey { shifted: false, row: 3, col: 6 }),
        HostKey::Char('v') | HostKey::Char('V') => Some(MatrixKey { shifted: false, row: 3, col: 7 }),
        HostKey::Char('9') => Some(MatrixKey { shifted: false, row: 4, col: 0 }),
        HostKey::Char(')') => Some(MatrixKey { shifted: true, row: 4, col: 0 }),
        HostKey::Char('i') | HostKey::Char('I') => Some(MatrixKey { shifted: false, row: 4, col: 1 }),
        HostKey::Char('j') | HostKey::Char('J') => Some(MatrixKey { shifted: false, row: 4, col: 2 }),
        HostKey::Char('0') => Some(MatrixKey { shifted: false, row: 4, col: 3 }),
        HostKey::Char('m') | HostKey::Char('M') => Some(MatrixKey { shifted: false, row: 4, col: 4 }),
        HostKey::Char('k') | HostKey::Char('K') => Some(MatrixKey { shifted: false, row: 4, col: 5 }),
        HostKey::Char('o') | HostKey::Char('O') => Some(MatrixKey { shifted: false, row: 4, col: 6 }),
        HostKey::Char('n') | HostKey::Char('N') => Some(MatrixKey { shifted: false, row: 4, col: 7 }),
        HostKey::Char('+') => Some(MatrixKey { shifted: false, row: 5, col: 0 }),
        HostKey::Char('p') | HostKey::Char('P') => Some(MatrixKey { shifted: false, row: 5, col: 1 }),
        HostKey::Char('l') | HostKey::Char('L') => Some(MatrixKey { shifted: false, row: 5, col: 2 }),
        HostKey::Char('-') => Some(MatrixKey { shifted: false, row: 5, col: 3 }),
        HostKey::Char('.') => Some(MatrixKey { shifted: false, row: 5, col: 4 }),
        HostKey::Char('>') => Some(MatrixKey { shifted: true, row: 5, col: 4 }),
        HostKey::Char(':') => Some(MatrixKey { shifted: false, row: 5, col: 5 }),
        HostKey::Char('[') => Some(MatrixKey { shifted: true, row: 5, col: 5 }),
        HostKey::Char('@') => Some(MatrixKey { shifted: false, row: 5, col: 6 }),
        HostKey::Char(',') => Some(MatrixKey { shifted: false, row: 5, col: 7 }),
        HostKey::Char('<') => Some(MatrixKey { shifted: true, row: 5, col: 7 }),
        HostKey::Char('*') => Some(MatrixKey { shifted: false, row: 6, col: 1 }),
        HostKey::Char(';') => Some(MatrixKey { shifted: false, row: 6, col: 2 }),
        HostKey::Char(']') => Some(MatrixKey { shifted: true, row: 6, col: 2 }),
        HostKey::Home => Some(MatrixKey { shifted: false, row: 6, col: 3 }),
        HostKey::Char('=') => Some(MatrixKey { shifted: false, row: 6, col: 5 }),
        HostKey::Up => Some(MatrixKey { shifted: false, row: 6, col: 6 }),
        HostKey::Char('/') => Some(MatrixKey { shifted: false, row: 6, col: 7 }),
        HostKey::Char('?') => Some(MatrixKey { shifted: true, row: 6, col: 7 }),
        HostKey::Char('1') => Some(MatrixKey { shifted: false, row: 7, col: 0 }),
        HostKey::Char('!') => Some(MatrixKey { shifted: true, row: 7, col: 0 }),
        HostKey::Left => Some(MatrixKey { shifted: false, row: 7, col: 1 }),
        HostKey::Char('2') => Some(MatrixKey { shifted: false, row: 7, col: 3 }),
        HostKey::Char('"') => Some(MatrixKey { shifted: true, row: 7, col: 3 }),
        HostKey::Char(' ') => Some(MatrixKey { shifted: false, row: 7, col: 4 }),
        HostKey::Char('q') | HostKey::Char('Q') => Some(MatrixKey { shifted: false, row: 7, col: 6 }),
        HostKey::Tab => Some(MatrixKey { shifted: false, row: 7, col: 7 }),
        _ => None,
    }
}

/// The matrix positions that are down while `key` is: the shift key first
/// where it is needed, then the key itself.
pub open spec fn positions(key: MatrixKey) -> Seq<MatrixPosition> {
    if key.shifted {
        seq![(SHIFT_ROW, SHIFT_COL), (key.row, key.col)]
    } else {
        seq![(key.row, key.col)]
    }
}

/// The matrix key for a host key, if the machine has one.
pub fn lookup(key: HostKey) -> (found: Option<MatrixKey>)
    ensures
        found == matrix_key(key),
        found matches Some(k) ==> k.row < 8 && k.col < 8,
{
    match key {
        HostKey::Backspace => Some(MatrixKey { shifted: false, row: 0, col: 0 }),
        HostKey::Enter => Some(MatrixKey { shifted: false, row: 0, col: 1 }),
        HostKey::Right => Some(MatrixKey { shifted: false, row: 0, col: 2 }),
        HostKey::F(7) => Some(MatrixKey { shifted: false, row: 0, col: 3 }),
        HostKey::F(1) => Some(MatrixKey { shifted: false, row: 0, col: 4 }),
        HostKey::F(3) => Some(MatrixKey { shifted: false, row: 0, col: 5 }),
        HostKey::F(5) => Some(MatrixKey { shifted: false, row: 0, col: 6 }),
        HostKey::Down => Some(MatrixKey { shifted: false, row: 0, col: 7 }),
        HostKey::Char('3') => Some(MatrixKey { shifted: false, row: 1, col: 0 }),
        HostKey::Char('#') => Some(MatrixKey { shifted: true, row: 1, col: 0 }),
        HostKey::Char('w') | HostKey::Char('W') => Some(MatrixKey { shifted: false, row: 1, col: 1 }),
        HostKey::Char('a') | HostKey::Char('A') => Some(MatrixKey { shifted: false, row: 1, col: 2 }),
        HostKey::Char('4') => Some(MatrixKey { shifted: false, row: 1, col: 3 }),
        HostKey::Char('$') => Some(MatrixKey { shifted: true, row: 1, col: 3 }),
        HostKey::Char('z') | HostKey::Char('Z') => Some(MatrixKey { shifted: false, row: 1, col: 4 }),
        HostKey::Char('s') | HostKey::Char('S') => Some(MatrixKey { shifted: false, row: 1, col: 5 }),
        HostKey::Char('e') | HostKey::Char('E') => Some(MatrixKey { shifted: false, row: 1, col: 6 }),
        HostKey::Char('5') => Some(MatrixKey { shifted: false, row: 2, col: 0 }),
        HostKey::Char('%') => Some(MatrixKey { shifted: true, row: 2, col: 0 }),
        HostKey::Char('r') | HostKey::Char('R') => Some(MatrixKey { shifted: false, row: 2, col: 1 }),
        HostKey::Char('d') | HostKey::Char('D') => Some(MatrixKey { shifted: false, row: 2, col: 2 }),
        HostKey::Char('6') => Some(MatrixKey { shifted: false, row: 2, col: 3 }),
        HostKey::Char('&') => Some(MatrixKey { shifted: true, row: 2, col: 3 }),
        HostKey::Char('c') | HostKey::Char('C') => Some(MatrixKey { shifted: false, row: 2, col: 4 }),
        HostKey::Char('f') | HostKey::Char('F') => Some(MatrixKey { shifted: false, row: 2, col: 5 }),
        HostKey::Char('t') | HostKey::Char('T') => Some(MatrixKey { shifted: false, row: 2, col: 6 }),
        HostKey::Char('x') | HostKey::Char('X') => Some(MatrixKey { shifted: false, row: 2, col: 7 }),
        HostKey::Char('7') => Some(MatrixKey { shifted: false, row: 3, col: 0 }),
        HostKey::Char('\'') => Some(MatrixKey { shifted: true, row: 3, col: 0 }),
        HostKey::Char('y') | HostKey::Char('Y') => Some(MatrixKey { shifted: false, row: 3, col: 1 }),
        HostKey::Char('g') | HostKey::Char('G') => Some(MatrixKey { shifted: false, row: 3, col: 2 }),
        HostKey::Char('8') => Some(MatrixKey { shifted: false, row: 3, col: 3 }),
        HostKey::Char('(') => Some(MatrixKey { shifted: true, row: 3, col: 3 }),
        HostKey::Char('b') | HostKey::Char('B') => Some(MatrixKey { shifted: false, row: 3, col: 4 }),
        HostKey::Char('h') | HostKey::Char('H') => Some(MatrixKey { shifted: false, row: 3, col: 5 }),
        HostKey::Char('u') | HostKey::Char('U') => Some(MatrixKey { shifted: false, row: 3, col: 6 }),
        HostKey::Char('v') | HostKey::Char('V') => Some(MatrixKey { shifted: false, row: 3, col: 7 }),
        HostKey::Char('9') => Some(MatrixKey { shifted: false, row: 4, col: 0 }),
        HostKey::Char(')') => Some(MatrixKey { shifted: true, row: 4, col: 0 }),
        HostKey::Char('i') | HostKey::Char('I') => Some(MatrixKey { shifted: false, row: 4, col: 1 }),
        HostKey::Char('j') | HostKey::Char('J') => Some(MatrixKey { shifted: false, row: 4, col: 2 }),
        HostKey::Char('0') => Some(MatrixKey { shifted: false, row: 4, col: 3 }),
        HostKey::Char('m') | HostKey::Char('M') => Some(MatrixKey { shifted: false, row: 4, col: 4 }),
        HostKey::Char('k') | HostKey::Char('K') => Some(MatrixKey { shifted: false, row: 4, col: 5 }),
        HostKey::Char('o') | HostKey::Char('O') => Some(MatrixKey { shifted: false, row: 4, col: 6 }),
        HostKey::Char('n') | HostKey::Char('N') => Some(MatrixKey { shifted: false, row: 4, col: 7 }),
        HostKey::Char('+') => Some(MatrixKey { shifted: false, row: 5, col: 0 }),
        HostKey::Char('p') | HostKey::Char('P') => Some(MatrixKey { shifted: false, row: 5, col: 1 }),
        HostKey::Char('l') | HostKey::Char('L') => Some(MatrixKey { shifted: false, row: 5, col: 2 }),
        HostKey::Char('-') => Some(MatrixKey { shifted: false, row: 5, col: 3 }),
        HostKey::Char('.') => Some(MatrixKey { shifted: false, row: 5, col: 4 }),
        HostKey::Char('>') => Some(MatrixKey { shifted: true, row: 5, col: 4 }),
        HostKey::Char(':') => Some(MatrixKey { shifted: false, row: 5, col: 5 }),
        HostKey::Char('[') => Some(MatrixKey { shifted: true, row: 5, col: 5 }),
        HostKey::Char('@') => Some(MatrixKey { shifted: false, row: 5, col: 6 }),
        HostKey::Char(',') => Some(MatrixKey { shifted: false, row: 5, col: 7 }),
        HostKey::Char('<') => Some(MatrixKey { shifted: true, row: 5, col: 7 }),
        HostKey::Char('*') => Some(MatrixKey { shifted: false, row: 6, col: 1 }),
        HostKey::Char(';') => Some(MatrixKey { shifted: false, row: 6, col: 2 }),
        HostKey::Char(']') => Some(MatrixKey { shifted: true, row: 6, col: 2 }),
        HostKey::Home => Some(MatrixKey { shifted: false, row: 6, col: 3 }),
        HostKey::Char('=') => Some(MatrixKey { shifted: false, row: 6, col: 5 }),
        HostKey::Up => Some(MatrixKey { shifted: false, row: 6, col: 6 }),
        HostKey::Char('/') => Some(MatrixKey { shifted: false, row: 6, col: 7 }),
        HostKey::Char('?') => Some(MatrixKey { shifted: true, row: 6, col: 7 }),
        HostKey::Char('1') => Some(MatrixKey { shifted: false, row: 7, col: 0 }),
        HostKey::Char('!') => Some(MatrixKey { shifted: true, row: 7, col: 0 }),
        HostKey::Left => Some(MatrixKey { shifted: false, row: 7, col: 1 }),
        HostKey::Char('2') => Some(MatrixKey { shifted: false, row: 7, col: 3 }),
        HostKey::Char('"') => Some(MatrixKey { shifted: true, row: 7, col: 3 }),
        HostKey::Char(' ') => Some(MatrixKey { shifted: false, row: 7, col: 4 }),
        HostKey::Char('q') | HostKey::Char('Q') => Some(MatrixKey { shifted: false, row: 7, col: 6 }),
        HostKey::Tab => Some(MatrixKey { shifted: false, row: 7, col: 7 }),
        _ => None,
    }
}

/// Maps a host key to the matrix positions to press, or to `None` where
/// the machine has no such key.
pub fn map_key(key: HostKey) -> (pressed: Option<Vec<MatrixPosition>>)
    ensures
        match pressed {
            Some(list) => matrix_key(key) matches Some(k) && list@ == positions(k),
            None => matrix_key(key) is None,
        },
        pressed matches Some(list) ==> forall|i: int|
            0 <= i < list.len() ==> (#[trigger] list[i]).0 < 8 && list[i].1 < 8,
{
    match lookup(key) {
        Some(k) => {
            let mut list: Vec<MatrixPosition> = Vec::new();
            if k.shifted {
                list.push((SHIFT_ROW, SHIFT_COL));
            }
            list.push((k.row, k.col));
            assert(list@ =~= positions(k));
            Some(list)
        },
        None => None,
    }
}

} // verus!
