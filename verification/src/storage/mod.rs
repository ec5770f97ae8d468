//! The virtual disk: host file names, the PRG file format and the
//! directory listing that `LOAD "$",8` returns.

use crate::text::{as_chars, ascii_string};
use vstd::prelude::*;

verus! {

/// Load address of BASIC programs, where the directory listing goes.
pub const BASIC_START: u16 = 0x0801;

/// Bytes of payload in one disk block.
pub const BLOCK_SIZE: u64 = 254;

/// The number that the listing shows as free blocks.
pub const BLOCKS_FREE: u16 = 664;

/// Width to which a quoted name is padded in the listing.
pub const NAME_COLUMN: usize = 18;

/// The character `_`, which stands for every byte that a host file name
/// cannot hold.
pub const UNDERSCORE: u8 = 0x5F;

/// Whether `byte` is one of `/ \ : * ? " < > |`, which host file systems
/// reserve.
pub open spec fn reserved(byte: u8) -> bool {
    byte == 0x2F || byte == 0x5C || byte == 0x3A || byte == 0x2A || byte == 0x3F || byte == 0x22
        || byte == 0x3C || byte == 0x3E || byte == 0x7C
}

/// `byte` where a host file name can hold it, else `_`: reserved
/// characters and everything outside printable ASCII are replaced.
pub open spec fn safe_byte(byte: u8) -> u8 {
    if reserved(byte) || byte < 32 || byte > 126 {
        UNDERSCORE
    } else {
        byte
    }
}

/// Index of the first byte at or after `i` that is no space.
pub open spec fn skip_spaces(s: Seq<u8>, i: int) -> int
    decreases s.len() - i,
{
    if 0 <= i < s.len() && s[i] == 0x20 {
        skip_spaces(s, i + 1)
    } else {
        i
    }
}

/// End of the part of `s` before `j` that remains when the spaces before
/// `j` are dropped, down to `low`.
pub open spec fn drop_spaces(s: Seq<u8>, low: int, j: int) -> int
    decreases j,
{
    if 0 <= low < j <= s.len() && s[j - 1] == 0x20 {
        drop_spaces(s, low, j - 1)
    } else {
        j
    }
}

/// `s` without the spaces at its two ends.
pub open spec fn trimmed(s: Seq<u8>) -> Seq<u8> {
    let start = skip_spaces(s, 0);
    s.subrange(start, drop_spaces(s, start, s.len() as int))
}

/// An ASCII letter in lower case; any other byte as it is.
pub open spec fn lower(byte: u8) -> u8 {
    if 0x41 <= byte <= 0x5A {
        (byte + 0x20) as u8
    } else {
        byte
    }
}

/// An ASCII letter in upper case; any other byte as it is.
pub open spec fn upper(byte: u8) -> u8 {
    if 0x61 <= byte <= 0x7A {
        (byte - 0x20) as u8
    } else {
        byte
    }
}

/// Whether `name` ends in `.prg`, in whatever case.
pub open spec fn has_prg_suffix(name: Seq<u8>) -> bool {
    let n = name.len() as int;
    n >= 4 && name[n - 4] == 0x2E && lower(name[n - 3]) == 0x70 && lower(name[n - 2]) == 0x72
        && lower(name[n - 1]) == 0x67
}

/// The name used where the program gave none.
pub open spec fn unnamed() -> Seq<u8> {
    seq![0x55u8, 0x4E, 0x4E, 0x41, 0x4D, 0x45, 0x44]
}

/// The extension of a program file.
pub open spec fn prg_suffix() -> Seq<u8> {
    seq![0x2Eu8, 0x70, 0x72, 0x67]
}

/// The host file name for the name `raw` that a program gave: unsafe bytes
/// replaced by `_`, the spaces at both ends dropped, `UNNAMED` where
/// nothing is left, and `.prg` appended unless the name ends in it already.
pub open spec fn sanitized(raw: Seq<u8>) -> Seq<u8> {
    let kept = trimmed(raw.map_values(|b: u8| safe_byte(b)));
    let stem = if kept.len() == 0 {
        unnamed()
    } else {
        kept
    };
    if has_prg_suffix(stem) {
        stem
    } else {
        stem + prg_suffix()
    }
}

proof fn lemma_skip_spaces(s: Seq<u8>, i: int)
    requires
        0 <= i <= s.len(),
    ensures
        i <= skip_spaces(s, i) <= s.len(),
        skip_spaces(s, i) < s.len() ==> s[skip_spaces(s, i)] != 0x20,
    decreases s.len() - i,
{
    if i < s.len() && s[i] == 0x20 {
        lemma_skip_spaces(s, i + 1);
    }
}

proof fn lemma_drop_spaces(s: Seq<u8>, low: int, j: int)
    requires
        0 <= low <= j <= s.len(),
    ensures
        low <= drop_spaces(s, low, j) <= j,
        drop_spaces(s, low, j) > low ==> s[drop_spaces(s, low, j) - 1] != 0x20,
    decreases j,
{
    if low < j && s[j - 1] == 0x20 {
        lemma_drop_spaces(s, low, j - 1);
    }
}

/// Whether `name` is a name as [`sanitized`] makes them: not empty, of
/// bytes that a host file name can hold, with no space at either end and
/// with the extension of a program file.
pub open spec fn is_clean(name: Seq<u8>) -> bool {
    &&& name.len() > 0
    &&& forall|i: int| 0 <= i < name.len() ==> safe_byte(#[trigger] name[i]) == name[i]
    &&& name[0] != 0x20
    &&& name.last() != 0x20
    &&& has_prg_suffix(name)
}

/// Every sanitized name is clean: it holds printable ASCII without
/// reserved characters, has no space at either end and ends in `.prg`.
pub proof fn lemma_sanitized_clean(raw: Seq<u8>)
    ensures
        is_clean(sanitized(raw)),
        forall|i: int|
            0 <= i < sanitized(raw).len() ==> 32 <= #[trigger] sanitized(raw)[i] <= 126
                && !reserved(sanitized(raw)[i]),
{
    let mapped = raw.map_values(|b: u8| safe_byte(b));
    let start = skip_spaces(mapped, 0);
    lemma_skip_spaces(mapped, 0);
    lemma_drop_spaces(mapped, start, mapped.len() as int);
    let kept = trimmed(mapped);
    let stem = if kept.len() == 0 {
        unnamed()
    } else {
        kept
    };
    assert(forall|i: int| 0 <= i < stem.len() ==> safe_byte(#[trigger] stem[i]) == stem[i]);
    assert(stem.len() > 0 && stem[0] != 0x20 && stem.last() != 0x20);
    let name = sanitized(raw);
    assert(forall|i: int| 0 <= i < name.len() ==> safe_byte(#[trigger] name[i]) == name[i]);
}

/// A clean name is the sanitized form of itself, so that sanitizing twice
/// gives what sanitizing once gives.
pub proof fn lemma_sanitized_idempotent(raw: Seq<u8>)
    ensures
        forall|name: Seq<u8>| is_clean(name) ==> #[trigger] sanitized(name) == name,
        sanitized(sanitized(raw)) == sanitized(raw),
{
    assert forall|name: Seq<u8>| is_clean(name) implies #[trigger] sanitized(name) == name by {
        let mapped = name.map_values(|b: u8| safe_byte(b));
        assert(mapped =~= name);
        assert(trimmed(name) =~= name);
    }
    lemma_sanitized_clean(raw);
}

fn is_reserved(byte: u8) -> (r: bool)
    ensures
        r == reserved(byte),
{
    byte == 0x2F || byte == 0x5C || byte == 0x3A || byte == 0x2A || byte == 0x3F || byte == 0x22
        || byte == 0x3C || byte == 0x3E || byte == 0x7C
}

fn to_lower(byte: u8) -> (r: u8)
    ensures
        r == lower(byte),
{
    if 0x41 <= byte && byte <= 0x5A {
        byte + 0x20
    } else {
        byte
    }
}

fn to_upper(byte: u8) -> (r: u8)
    ensures
        r == upper(byte),
{
    if 0x61 <= byte && byte <= 0x7A {
        byte - 0x20
    } else {
        byte
    }
}

/// Whether `name` ends in `.prg`, in whatever case.
pub fn ends_with_prg(name: &Vec<u8>) -> (r: bool)
    ensures
        r == has_prg_suffix(name@),
{
    let n = name.len();
    n >= 4 && name[n - 4] == 0x2E && to_lower(name[n - 3]) == 0x70 && to_lower(name[n - 2])
        == 0x72 && to_lower(name[n - 1]) == 0x67
}

/// The host file name under which the program named `petscii` is kept.
///
/// Each of `/ \ : * ? " < > |` and each byte outside printable ASCII becomes
/// `_`; the spaces at both ends are dropped; an empty name becomes
/// `UNNAMED`; `.prg` is appended unless the name ends in it, in whatever
/// case.
pub fn sanitize_filename(petscii: &[u8]) -> (name: String)
    ensures
        name@ == as_chars(sanitized(petscii@)),
{
    let ghost safe = petscii@.map_values(|b: u8| safe_byte(b));
    let mut mapped: Vec<u8> = Vec::new();
    let mut i: usize = 0;
    while i < petscii.len()
        invariant
            i <= petscii.len(),
            safe == petscii@.map_values(|b: u8| safe_byte(b)),
            mapped@ == safe.take(i as int),
        decreases petscii.len() - i,
    {
        let byte = petscii[i];
        if is_reserved(byte) || byte < 32 || byte > 126 {
            mapped.push(UNDERSCORE);
        } else {
            mapped.push(byte);
        }
        assert(safe.take(i + 1) =~= safe.take(i as int).push(safe[i as int]));
        i = i + 1;
    }
    assert(mapped@ =~= safe);
    let mut start: usize = 0;
    while start < mapped.len() && mapped[start] == 0x20
        invariant
            start <= mapped.len(),
            skip_spaces(mapped@, 0) == skip_spaces(mapped@, start as int),
        decreases mapped.len() - start,
    {
        start = start + 1;
    }
    let mut end: usize = mapped.len();
    while end > start && mapped[end - 1] == 0x20
        invariant
            start <= end <= mapped.len(),
            drop_spaces(mapped@, start as int, mapped.len() as int) == drop_spaces(
                mapped@,
                start as int,
                end as int,
            ),
        decreases end,
    {
        end = end - 1;
    }
    let mut stem: Vec<u8> = Vec::new();
    if start == end {
        let fallback: [u8; 7] = [0x55, 0x4E, 0x4E, 0x41, 0x4D, 0x45, 0x44];
        let mut k: usize = 0;
        while k < 7
            invariant
                k <= 7,
                fallback@ == unnamed(),
                stem@ == unnamed().take(k as int),
            decreases 7 - k,
        {
            stem.push(fallback[k]);
            assert(unnamed().take(k + 1) =~= unnamed().take(k as int).push(unnamed()[k as int]));
            k = k + 1;
        }
        assert(stem@ =~= unnamed());
    } else {
        let mut k: usize = start;
        while k < end
            invariant
                start <= k <= end <= mapped.len(),
                stem@ == mapped@.subrange(start as int, k as int),
            decreases end - k,
        {
            stem.push(mapped[k]);
            assert(mapped@.subrange(start as int, k + 1) =~= mapped@.subrange(
                start as int,
                k as int,
            ).push(mapped@[k as int]));
            k = k + 1;
        }
    }
    if !ends_with_prg(&stem) {
        stem.push(0x2E);
        stem.push(0x70);
        stem.push(0x72);
        stem.push(0x67);
    }
    assert(stem@ =~= sanitized(petscii@));
    ascii_string(&stem)
}

/// The contents of a PRG file: the load address, low byte first, then the
/// program.
pub open spec fn prg_file(start: u16, data: Seq<u8>) -> Seq<u8> {
    seq![(start & 0xFF) as u8, ((start >> 8) & 0xFF) as u8] + data
}

/// The load address and the program in the PRG file `content`, if it is
/// long enough to hold a load address.
pub open spec fn prg_parsed(content: Seq<u8>) -> Option<(u16, Seq<u8>)> {
    if content.len() < 2 {
        None
    } else {
        Some(((content[0] as u16) | ((content[1] as u16) << 8), content.skip(2)))
    }
}

/// Makes the contents of the PRG file for a program that was saved from
/// `start_addr` on.
pub fn save_prg(start_addr: u16, data: &[u8]) -> (content: Vec<u8>)
    ensures
        content@ == prg_file(start_addr, data@),
{
    let mut content: Vec<u8> = Vec::new();
    content.push((start_addr & 0xFF) as u8);
    content.push(((start_addr >> 8) & 0xFF) as u8);
    let ghost head = content@;
    let mut i: usize = 0;
    while i < data.len()
        invariant
            i <= data.len(),
            content@ == head + data@.take(i as int),
        decreases data.len() - i,
    {
        content.push(data[i]);
        assert(data@.take(i + 1) =~= data@.take(i as int).push(data@[i as int]));
        assert(head + data@.take(i + 1) =~= (head + data@.take(i as int)).push(data@[i as int]));
        i = i + 1;
    }
    assert(data@.take(data.len() as int) =~= data@);
    assert(head =~= seq![(start_addr & 0xFF) as u8, ((start_addr >> 8) & 0xFF) as u8]);
    content
}

/// Takes the contents of a PRG file apart into its load address and its
/// program. A file of less than two bytes is no PRG file.
pub fn load_prg(content: &[u8]) -> (program: Option<(u16, Vec<u8>)>)
    ensures
        match program {
            Some((start, data)) => prg_parsed(content@) == Some((start, data@)),
            None => prg_parsed(content@) is None,
        },
{
    if content.len() < 2 {
        return None;
    }
    let start_addr = (content[0] as u16) | ((content[1] as u16) << 8);
    let mut data: Vec<u8> = Vec::new();
    let mut i: usize = 2;
    while i < content.len()
        invariant
            2 <= i <= content.len(),
            data@ == content@.subrange(2, i as int),
        decreases content.len() - i,
    {
        data.push(content[i]);
        assert(content@.subrange(2, i + 1) =~= content@.subrange(2, i as int).push(
            content@[i as int],
        ));
        i = i + 1;
    }
    assert(content@.subrange(2, content.len() as int) =~= content@.skip(2));
    Some((start_addr, data))
}

/// A PRG file is taken apart into what it was made of.
pub proof fn lemma_prg_round_trip(start: u16, data: Seq<u8>)
    ensures
        prg_parsed(prg_file(start, data)) == Some((start, data)),
{
    assert((((start & 0xFF) as u8) as u16) | ((((start >> 8) & 0xFF) as u8) as u16) << 8 == start)
        by (bit_vector);
    assert(prg_file(start, data).skip(2) =~= data);
}

/// A file of the host directory: its name and its size in bytes.
pub struct DirEntry {
    pub name: Vec<u8>,
    pub size: u64,
}

/// The mathematical model of a [`DirEntry`].
pub struct DirEntryModel {
    pub name: Seq<u8>,
    pub size: u64,
}

impl View for DirEntry {
    type V = DirEntryModel;

    open spec fn view(&self) -> DirEntryModel {
        DirEntryModel { name: self.name@, size: self.size }
    }
}

/// The models of `entries`.
pub open spec fn models(entries: Seq<DirEntry>) -> Seq<DirEntryModel> {
    entries.map_values(|e: DirEntry| e@)
}

/// Whether `a` comes before `b` in the order of their bytes, compared from
/// position `i` on.
pub open spec fn precedes_from(a: Seq<u8>, b: Seq<u8>, i: int) -> bool
    decreases a.len() - i,
{
    if i < 0 || i >= b.len() {
        false
    } else if i >= a.len() {
        true
    } else if a[i] != b[i] {
        a[i] < b[i]
    } else {
        precedes_from(a, b, i + 1)
    }
}

/// Whether `a` comes strictly before `b` in the lexicographic order of
/// their bytes.
pub open spec fn precedes(a: Seq<u8>, b: Seq<u8>) -> bool {
    precedes_from(a, b, 0)
}

/// Where `name` goes in `sorted`: before the first entry at or after `j`
/// that it strictly precedes, so that entries with equal names keep their
/// order.
pub open spec fn insert_position(sorted: Seq<DirEntryModel>, name: Seq<u8>, j: int) -> int
    decreases sorted.len() - j,
{
    if 0 <= j < sorted.len() && !precedes(name, sorted[j].name) {
        insert_position(sorted, name, j + 1)
    } else {
        j
    }
}

/// The program files among `entries`, sorted by name.
pub open spec fn listed(entries: Seq<DirEntryModel>) -> Seq<DirEntryModel>
    decreases entries.len(),
{
    if entries.len() == 0 {
        seq![]
    } else {
        let rest = listed(entries.drop_last());
        let entry = entries.last();
        if has_prg_suffix(entry.name) {
            rest.insert(insert_position(rest, entry.name, 0), entry)
        } else {
            rest
        }
    }
}

/// Of two names at most one comes before the other.
pub proof fn lemma_precedes_asymmetric(a: Seq<u8>, b: Seq<u8>, i: int)
    requires
        0 <= i,
    ensures
        !(precedes_from(a, b, i) && precedes_from(b, a, i)),
    decreases a.len() - i,
{
    if i < a.len() && i < b.len() && a[i] == b[i] {
        lemma_precedes_asymmetric(a, b, i + 1);
    }
}

/// Whether the names of `entries` are in order: no entry comes before one
/// that stands earlier.
pub open spec fn in_order(entries: Seq<DirEntryModel>) -> bool {
    forall|i: int, j: int|
        0 <= i < j < entries.len() ==> !precedes(
            (#[trigger] entries[j]).name,
            (#[trigger] entries[i]).name,
        )
}

/// The order of names is transitive: if `b` does not come before `a` and
/// `c` does not come before `b`, then `c` does not come before `a`.
proof fn lemma_precedes_chain(a: Seq<u8>, b: Seq<u8>, c: Seq<u8>, i: int)
    requires
        0 <= i,
        !precedes_from(b, a, i),
        !precedes_from(c, b, i),
        forall|k: int| 0 <= k < i ==> k < a.len() && k < b.len() && k < c.len() && a[k] == b[k]
            && b[k] == c[k],
    ensures
        !precedes_from(c, a, i),
    decreases a.len() + b.len() + c.len() - i,
{
    if i < a.len() && i < b.len() && i < c.len() && a[i] == b[i] && b[i] == c[i] {
        lemma_precedes_chain(a, b, c, i + 1);
    }
}

proof fn lemma_insert_position(sorted: Seq<DirEntryModel>, name: Seq<u8>, j: int)
    requires
        0 <= j <= sorted.len(),
    ensures
        j <= insert_position(sorted, name, j) <= sorted.len(),
        forall|k: int|
            j <= k < insert_position(sorted, name, j) ==> !precedes(name, (#[trigger] sorted[k]).name),
        insert_position(sorted, name, j) < sorted.len() ==> precedes(
            name,
            sorted[insert_position(sorted, name, j)].name,
        ),
    decreases sorted.len() - j,
{
    if j < sorted.len() && !precedes(name, sorted[j].name) {
        lemma_insert_position(sorted, name, j + 1);
    }
}

/// The listing holds the program files in the order of their names: every
/// listed entry is a program file, and none comes before one that stands
/// earlier.
pub proof fn lemma_listed_in_order(entries: Seq<DirEntryModel>)
    ensures
        in_order(listed(entries)),
        forall|i: int|
            0 <= i < listed(entries).len() ==> has_prg_suffix((#[trigger] listed(entries)[i]).name),
    decreases entries.len(),
{
    if entries.len() > 0 {
        let rest = listed(entries.drop_last());
        let entry = entries.last();
        lemma_listed_in_order(entries.drop_last());
        if has_prg_suffix(entry.name) {
            let at = insert_position(rest, entry.name, 0);
            lemma_insert_position(rest, entry.name, 0);
            let after = rest.insert(at, entry);
            assert forall|i: int, j: int| 0 <= i < j < after.len() implies !precedes(
                (#[trigger] after[j]).name,
                (#[trigger] after[i]).name,
            ) by {
                if j == at {
                    // The new entry against an earlier one.
                    assert(after[i] == rest[i]);
                } else if i == at {
                    // A later entry against the new one.
                    assert(after[j] == rest[j - 1]);
                    assert(!precedes(rest[j - 1].name, rest[at].name) || j - 1 == at);
                    lemma_precedes_asymmetric(entry.name, rest[at].name, 0);
                    if j - 1 > at {
                        lemma_precedes_chain(entry.name, rest[at].name, rest[j - 1].name, 0);
                    }
                } else {
                    let i0 = if i < at {
                        i
                    } else {
                        i - 1
                    };
                    let j0 = if j < at {
                        j
                    } else {
                        j - 1
                    };
                    assert(after[i] == rest[i0] && after[j] == rest[j0]);
                }
            }
            assert forall|i: int| 0 <= i < after.len() implies has_prg_suffix(
                (#[trigger] after[i]).name,
            ) by {
                if i < at {
                    assert(after[i] == rest[i]);
                } else if i > at {
                    assert(after[i] == rest[i - 1]);
                }
            }
        }
    }
}

/// Blocks that a file of `size` bytes takes: `size / 254`, rounded up.
pub open spec fn blocks(size: u64) -> int {
    (size + 253) / 254
}

/// `text` padded with spaces to `width` bytes; a longer text stays as it
/// is.
pub open spec fn padded(text: Seq<u8>, width: int) -> Seq<u8> {
    if text.len() >= width {
        text
    } else {
        text + Seq::new((width - text.len()) as nat, |i: int| 0x20u8)
    }
}

/// The text of a file's line in the listing: the name without its
/// extension, in upper case and in quotes, padded to 18 bytes, then `PRG`.
/// `name` ends in `.prg`.
pub open spec fn entry_text(name: Seq<u8>) -> Seq<u8> {
    let stem = name.take(name.len() - 4).map_values(|b: u8| upper(b));
    padded(seq![0x22u8] + stem + seq![0x22u8], NAME_COLUMN as int) + seq![0x50u8, 0x52, 0x47]
}

/// The text of the listing's first line.
pub open spec fn header_text() -> Seq<u8> {
    seq![0x22u8, 0x46, 0x4C, 0x4F, 0x50, 0x50, 0x59, 0x20, 0x44, 0x49, 0x53, 0x4B, 0x22, 0x20, 0x20, 0x20, 0x20, 0x20, 0x49, 0x44, 0x20, 0x32, 0x41]
}

/// The text of the listing's last line.
pub open spec fn footer_text() -> Seq<u8> {
    seq![0x42u8, 0x4C, 0x4F, 0x43, 0x4B, 0x53, 0x20, 0x46, 0x52, 0x45, 0x45, 0x2E]
}

/// A line of a BASIC program.
pub struct Line {
    pub number: u16,
    pub text: Seq<u8>,
}

/// The address of the line that follows a line with text `text` at `addr`:
/// behind the two link bytes, the two bytes of the number, the text and the
/// zero byte.
pub open spec fn next_line_addr(addr: u16, text: Seq<u8>) -> u16 {
    addr.wrapping_add(text.len() as u16).wrapping_add(5)
}

/// A line as it is stored at `addr`: the address of the next line, the
/// line number, the text and a zero byte.
pub open spec fn stored_line(addr: u16, line: Line) -> Seq<u8> {
    let next = next_line_addr(addr, line.text);
    seq![
        (next & 0xFF) as u8,
        ((next >> 8) & 0xFF) as u8,
        (line.number & 0xFF) as u8,
        ((line.number >> 8) & 0xFF) as u8,
    ] + line.text + seq![0u8]
}

/// The address behind the lines `lines` stored from `BASIC_START` on.
pub open spec fn end_of_lines(lines: Seq<Line>) -> u16
    decreases lines.len(),
{
    if lines.len() == 0 {
        BASIC_START
    } else {
        next_line_addr(end_of_lines(lines.drop_last()), lines.last().text)
    }
}

/// The lines `lines` as they are stored from `BASIC_START` on.
pub open spec fn stored_lines(lines: Seq<Line>) -> Seq<u8>
    decreases lines.len(),
{
    if lines.len() == 0 {
        seq![]
    } else {
        stored_lines(lines.drop_last()) + stored_line(
            end_of_lines(lines.drop_last()),
            lines.last(),
        )
    }
}

/// The line that the listing shows for a file: its blocks as the line
/// number, then its text.
pub open spec fn entry_line(entry: DirEntryModel) -> Line {
    Line { number: blocks(entry.size) as u16, text: entry_text(entry.name) }
}

/// The lines of the listing of `entries`: the header as line 0, one line
/// for each program file in the order of the names, and the free blocks.
pub open spec fn listing_lines(entries: Seq<DirEntryModel>) -> Seq<Line> {
    seq![Line { number: 0, text: header_text() }] + listed(entries).map_values(
        |e: DirEntryModel| entry_line(e),
    ) + seq![Line { number: BLOCKS_FREE, text: footer_text() }]
}

/// The directory listing of `entries` as a BASIC program: the lines of
/// [`listing_lines`] and the two zero bytes that end a program.
pub open spec fn listing(entries: Seq<DirEntryModel>) -> Seq<u8> {
    stored_lines(listing_lines(entries)) + seq![0u8, 0u8]
}

/// Whether `a` comes strictly before `b` in the order of their bytes.
fn comes_before(a: &Vec<u8>, b: &Vec<u8>) -> (r: bool)
    ensures
        r == precedes(a@, b@),
{
    let mut i: usize = 0;
    while i < a.len() && i < b.len() && a[i] == b[i]
        invariant
            i <= a.len(),
            i <= b.len(),
            precedes(a@, b@) == precedes_from(a@, b@, i as int),
        decreases a.len() - i,
    {
        i = i + 1;
    }
    if i >= b.len() {
        false
    } else if i >= a.len() {
        true
    } else {
        a[i] < b[i]
    }
}

/// Appends a line with number `number` and text `text` to the program
/// `data`, whose end is at `addr`, and returns the new end.
fn write_line(data: &mut Vec<u8>, addr: u16, number: u16, text: &Vec<u8>) -> (next: u16)
    ensures
        next == next_line_addr(addr, text@),
        final(data)@ == old(data)@ + stored_line(addr, Line { number, text: text@ }),
{
    let next = addr.wrapping_add(text.len() as u16).wrapping_add(5);
    data.push((next & 0xFF) as u8);
    data.push(((next >> 8) & 0xFF) as u8);
    data.push((number & 0xFF) as u8);
    data.push(((number >> 8) & 0xFF) as u8);
    let ghost head = data@;
    let mut i: usize = 0;
    while i < text.len()
        invariant
            i <= text.len(),
            data@ == head + text@.take(i as int),
        decreases text.len() - i,
    {
        data.push(text[i]);
        assert(head + text@.take(i + 1) =~= (head + text@.take(i as int)).push(text@[i as int]));
        i = i + 1;
    }
    data.push(0);
    assert(text@.take(text.len() as int) =~= text@);
    assert(data@ =~= old(data)@ + stored_line(addr, Line { number, text: text@ }));
    next
}

/// The text of the line for the file named `name`.
fn line_text(name: &Vec<u8>) -> (text: Vec<u8>)
    requires
        name.len() >= 4,
    ensures
        text@ == entry_text(name@),
{
    let ghost stem = name@.take(name.len() - 4).map_values(|b: u8| upper(b));
    let mut text: Vec<u8> = Vec::new();
    text.push(0x22);
    let mut i: usize = 0;
    while i < name.len() - 4
        invariant
            name.len() >= 4,
            i <= name.len() - 4,
            stem == name@.take(name.len() - 4).map_values(|b: u8| upper(b)),
            text@ == seq![0x22u8] + stem.take(i as int),
        decreases name.len() - i,
    {
        text.push(to_upper(name[i]));
        assert(seq![0x22u8] + stem.take(i + 1) =~= (seq![0x22u8] + stem.take(i as int)).push(
            stem[i as int],
        ));
        i = i + 1;
    }
    text.push(0x22);
    assert(text@ =~= seq![0x22u8] + stem + seq![0x22u8]);
    let ghost quoted = text@;
    while text.len() < NAME_COLUMN
        invariant
            quoted.len() <= text.len(),
            text.len() <= NAME_COLUMN || text@ == quoted,
            text@ == quoted + Seq::new((text.len() - quoted.len()) as nat, |i: int| 0x20u8),
        decreases NAME_COLUMN - text.len(),
    {
        text.push(0x20);
        assert(text@ =~= quoted + Seq::new((text.len() - quoted.len()) as nat, |i: int| 0x20u8));
    }
    assert(text@ =~= padded(quoted, NAME_COLUMN as int));
    text.push(0x50);
    text.push(0x52);
    text.push(0x47);
    assert(text@ =~= entry_text(name@));
    text
}

/// Blocks that a file of `size` bytes takes, as a line number.
fn block_count(size: u64) -> (count: u16)
    ensures
        count == blocks(size) as u16,
{
    let whole = size / BLOCK_SIZE;
    let count: u64 = if size % BLOCK_SIZE != 0 {
        whole + 1
    } else {
        whole
    };
    count as u16
}

/// Makes the directory listing of `entries` as a BASIC program, and
/// returns it with its load address `$0801`.
///
/// Files whose names do not end in `.prg` are left out. The others are
/// listed in the lexicographic order of their names, each with its size in
/// blocks of 254 bytes as the line number.
pub fn list_directory(entries: &Vec<DirEntry>) -> (program: (u16, Vec<u8>))
    ensures
        program.0 == BASIC_START,
        program.1@ == listing(models(entries@)),
{
    let ghost all = models(entries@);
    let mut order: Vec<usize> = Vec::new();
    let mut i: usize = 0;
    while i < entries.len()
        invariant
            i <= entries.len(),
            all == models(entries@),
            order.len() == listed(all.take(i as int)).len(),
            forall|k: int|
                0 <= k < order.len() ==> 0 <= #[trigger] order[k] < i && all[order[k] as int]
                    == listed(all.take(i as int))[k] && has_prg_suffix(all[order[k] as int].name),
        decreases entries.len() - i,
    {
        let ghost before = listed(all.take(i as int));
        assert(all.take(i + 1).drop_last() =~= all.take(i as int));
        if ends_with_prg(&entries[i].name) {
            let mut j: usize = 0;
            while j < order.len() && !comes_before(&entries[i].name, &entries[order[j]].name)
                invariant
                    j <= order.len(),
                    i < entries.len(),
                    all == models(entries@),
                    order.len() == before.len(),
                    forall|k: int|
                        0 <= k < order.len() ==> 0 <= #[trigger] order[k] < i && all[order[k] as int]
                            == before[k] && has_prg_suffix(all[order[k] as int].name),
                    insert_position(before, all[i as int].name, 0) == insert_position(
                        before,
                        all[i as int].name,
                        j as int,
                    ),
                decreases order.len() - j,
            {
                j = j + 1;
            }
            order.insert(j, i);
        }
        i = i + 1;
    }
    assert(all.take(entries.len() as int) =~= all);
    let ghost sorted = listed(all);
    let mut data: Vec<u8> = Vec::new();
    let header: [u8; 23] = [0x22, 0x46, 0x4C, 0x4F, 0x50, 0x50, 0x59, 0x20, 0x44, 0x49, 0x53, 0x4B, 0x22, 0x20, 0x20, 0x20, 0x20, 0x20, 0x49, 0x44, 0x20, 0x32, 0x41];
    let footer: [u8; 12] = [0x42, 0x4C, 0x4F, 0x43, 0x4B, 0x53, 0x20, 0x46, 0x52, 0x45, 0x45, 0x2E];
    let header_line = copy_of(header.as_slice());
    let footer_line = copy_of(footer.as_slice());
    assert(header@ =~= header_text());
    assert(footer@ =~= footer_text());
    let mut addr = write_line(&mut data, BASIC_START, 0, &header_line);
    let ghost first = seq![Line { number: 0, text: header_text() }];
    assert(data@ =~= stored_lines(first)) by {
        reveal_with_fuel(stored_lines, 2);
        reveal_with_fuel(end_of_lines, 2);
        assert(first.drop_last() =~= Seq::<Line>::empty());
    }
    assert(addr == end_of_lines(first)) by {
        reveal_with_fuel(end_of_lines, 2);
        assert(first.drop_last() =~= Seq::<Line>::empty());
    }
    let mut k: usize = 0;
    while k < order.len()
        invariant
            k <= order.len(),
            all == models(entries@),
            sorted == listed(all),
            order.len() == sorted.len(),
            forall|n: int|
                0 <= n < order.len() ==> 0 <= #[trigger] order[n] < entries.len()
                    && all[order[n] as int] == sorted[n] && has_prg_suffix(
                    all[order[n] as int].name,
                ),
            first == seq![Line { number: 0, text: header_text() }],
            data@ == stored_lines(
                first + sorted.take(k as int).map_values(|e: DirEntryModel| entry_line(e)),
            ),
            addr == end_of_lines(
                first + sorted.take(k as int).map_values(|e: DirEntryModel| entry_line(e)),
            ),
        decreases order.len() - k,
    {
        let entry = &entries[order[k]];
        assert(entry@ == sorted[k as int]);
        let text = line_text(&entry.name);
        let number = block_count(entry.size);
        let ghost lines = first + sorted.take(k as int).map_values(
            |e: DirEntryModel| entry_line(e),
        );
        let ghost more = first + sorted.take(k + 1).map_values(|e: DirEntryModel| entry_line(e));
        assert(more.drop_last() =~= lines);
        assert(more.last() == entry_line(sorted[k as int]));
        addr = write_line(&mut data, addr, number, &text);
        k = k + 1;
    }
    assert(sorted.take(sorted.len() as int) =~= sorted);
    let ghost body = first + sorted.map_values(|e: DirEntryModel| entry_line(e));
    assert(listing_lines(all).drop_last() =~= body);
    let _ = write_line(&mut data, addr, BLOCKS_FREE, &footer_line);
    data.push(0);
    data.push(0);
    assert(data@ =~= listing(all));
    (BASIC_START, data)
}

/// A vector with the bytes of `bytes`.
fn copy_of(bytes: &[u8]) -> (copy: Vec<u8>)
    ensures
        copy@ == bytes@,
{
    let mut copy: Vec<u8> = Vec::new();
    let mut i: usize = 0;
    while i < bytes.len()
        invariant
            i <= bytes.len(),
            copy@ == bytes@.take(i as int),
        decreases bytes.len() - i,
    {
        copy.push(bytes[i]);
        assert(bytes@.take(i + 1) =~= bytes@.take(i as int).push(bytes@[i as int]));
        i = i + 1;
    }
    assert(bytes@.take(bytes.len() as int) =~= bytes@);
    copy
}

} // verus!
