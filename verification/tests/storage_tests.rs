use go64::storage::{list_directory, load_prg, sanitize_filename, save_prg, DirEntry};

#[test]
fn test_sanitize_filename() {
    // Basic case
    assert_eq!(sanitize_filename(b"TEST"), "TEST.prg");

    // With extension
    assert_eq!(sanitize_filename(b"GAME.PRG"), "GAME.PRG");

    // Reserved chars
    assert_eq!(sanitize_filename(b"TEST/FILE"), "TEST_FILE.prg");
    assert_eq!(sanitize_filename(b"TEST:FILE"), "TEST_FILE.prg");

    // Whitespace
    assert_eq!(sanitize_filename(b"  TEST  "), "TEST.prg");

    // Empty
    assert_eq!(sanitize_filename(b""), "UNNAMED.prg");

    // Non-printable
    assert_eq!(sanitize_filename(&[0, 1, 65, 66]), "__AB.prg");
}

#[test]
fn sanitize_replaces_every_reserved_character() {
    assert_eq!(sanitize_filename(b"A/B\\C:D*E?F\"G<H>I|J"), "A_B_C_D_E_F_G_H_I_J.prg");
}

#[test]
fn sanitize_keeps_inner_spaces_and_mixed_case_extension() {
    assert_eq!(sanitize_filename(b" MY GAME.PrG "), "MY GAME.PrG");
    assert_eq!(sanitize_filename(b"   "), "UNNAMED.prg");
    assert_eq!(sanitize_filename(b".prg"), ".prg");
    assert_eq!(sanitize_filename(b"prg"), "prg.prg");
}

#[test]
fn sanitize_replaces_bytes_outside_printable_ascii() {
    assert_eq!(sanitize_filename(&[0x7F, 0x80, 0xFF, b'~', 31, 32, b'X']), "___~_ X.prg");
}

#[test]
fn prg_file_starts_with_little_endian_load_address() {
    assert_eq!(save_prg(0x0801, &[1, 2, 3]), vec![0x01, 0x08, 1, 2, 3]);
    assert_eq!(save_prg(0xC000, &[]), vec![0x00, 0xC0]);
}

#[test]
fn prg_file_is_parsed_back() {
    assert_eq!(load_prg(&[0x01, 0x08, 9, 8, 7]), Some((0x0801, vec![9, 8, 7])));
    assert_eq!(load_prg(&[0x34, 0x12]), Some((0x1234, vec![])));
    assert_eq!(load_prg(&save_prg(0xABCD, &[5, 6])), Some((0xABCD, vec![5, 6])));
}

#[test]
fn prg_file_too_short_is_rejected() {
    assert_eq!(load_prg(&[]), None);
    assert_eq!(load_prg(&[0x01]), None);
}

fn entry(name: &str, size: u64) -> DirEntry {
    DirEntry { name: name.as_bytes().to_vec(), size }
}

fn line(next: u16, number: u16, text: &str) -> Vec<u8> {
    let mut bytes = vec![
        (next & 0xFF) as u8,
        (next >> 8) as u8,
        (number & 0xFF) as u8,
        (number >> 8) as u8,
    ];
    bytes.extend_from_slice(text.as_bytes());
    bytes.push(0);
    bytes
}

#[test]
fn empty_directory_lists_header_and_free_blocks() {
    let (start, data) = list_directory(&vec![]);
    assert_eq!(start, 0x0801);
    let header = "\"FLOPPY DISK\"     ID 2A";
    let mut expected = line(0x0801 + 28, 0, header);
    expected.extend(line(0x0801 + 28 + 17, 664, "BLOCKS FREE."));
    expected.extend([0, 0]);
    assert_eq!(data, expected);
}

#[test]
fn directory_lists_programs_sorted_with_block_counts() {
    let entries = vec![
        entry("zork.prg", 255),
        entry("notes.txt", 10),
        entry("HELLO.PRG", 254),
        entry("a-very-long-program-name.prg", 0),
    ];
    let (start, data) = list_directory(&entries);
    assert_eq!(start, 0x0801);
    let mut addr: u16 = 0x0801 + 28;
    let mut expected = line(addr, 0, "\"FLOPPY DISK\"     ID 2A");
    // Upper case sorts before lower case.
    addr += 5 + 21;
    expected.extend(line(addr, 1, "\"HELLO\"           PRG"));
    addr += 5 + 29;
    expected.extend(line(addr, 0, "\"A-VERY-LONG-PROGRAM-NAME\"PRG"));
    addr += 5 + 21;
    expected.extend(line(addr, 2, "\"ZORK\"            PRG"));
    addr += 5 + 12;
    expected.extend(line(addr, 664, "BLOCKS FREE."));
    expected.extend([0, 0]);
    assert_eq!(data, expected);
}

#[test]
fn directory_rounds_blocks_up() {
    for (size, blocks) in [(0u64, 0u16), (1, 1), (253, 1), (254, 1), (255, 2), (508, 2), (509, 3)] {
        let (_, data) = list_directory(&vec![entry("X.PRG", size)]);
        // The file's line follows the 28 bytes of the header line.
        assert_eq!(u16::from_le_bytes([data[30], data[31]]), blocks, "size {}", size);
    }
}

#[test]
fn directory_keeps_the_order_of_equal_names() {
    let (_, data) = list_directory(&vec![entry("B.PRG", 254), entry("A.PRG", 600), entry("B.PRG", 1000)]);
    assert_eq!(u16::from_le_bytes([data[30], data[31]]), 3);
    assert_eq!(u16::from_le_bytes([data[56], data[57]]), 1);
    assert_eq!(u16::from_le_bytes([data[82], data[83]]), 4);
}
