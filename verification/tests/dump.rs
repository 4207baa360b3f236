//! End-to-end tests of the dump formatter: exact line texts, offsets,
//! padding alignment, the ASCII panel, elision, the Braille mapping and the
//! color cycle.

use hexdump::line::{ColorPair, Mode, Seg};
use hexdump::render::{braille_byte, printable};
use hexdump::{Dumper, HexDump};

fn seg_string(seg: &Seg) -> String {
    match seg {
        Seg::Plain(v) => v.iter().collect(),
        Seg::Colored(_, c) => c.to_string(),
    }
}

fn text(segs: &[Seg]) -> String {
    segs.iter().map(seg_string).collect()
}

fn colors(segs: &[Seg]) -> Vec<ColorPair> {
    segs.iter()
        .filter_map(|s| match s {
            Seg::Plain(_) => None,
            Seg::Colored(p, _) => Some(*p),
        })
        .collect()
}

fn feed(d: &mut Dumper, bytes: &[u8]) -> String {
    text(&d.feed(bytes))
}

#[test]
fn empty_input_single_total_line() {
    let d = HexDump::new().start();
    assert_eq!(text(&d.finish()), "00000000\n");

    let d = HexDump::new().elide_repeated(true).mode(Mode::Hex).start();
    assert_eq!(text(&d.finish()), "00000000\n");
}

#[test]
fn full_windows_one_line_each() {
    // 16*k input bytes: exactly k body lines plus the total line.
    let mut d = HexDump::new().mode(Mode::Hex).start();
    let mut out = String::new();
    let k = 5;
    for i in 0..k {
        out += &feed(&mut d, &[i as u8; 16]);
    }
    assert_eq!(out.matches('\n').count(), k);
    assert_eq!(text(&d.finish()), "00000050\n");
}

#[test]
fn offsets_accumulate_to_total() {
    let mut d = HexDump::new().mode(Mode::Hex).start();
    let l1 = feed(&mut d, &[0u8; 16]);
    let l2 = feed(&mut d, &[1u8; 16]);
    let l3 = feed(&mut d, &[2u8; 5]);
    assert!(l1.starts_with("00000000  "));
    assert!(l2.starts_with("00000010  "));
    assert!(l3.starts_with("00000020  "));
    assert_eq!(text(&d.finish()), "00000025\n");
}

#[test]
fn hex_line_exact_text() {
    let mut d = HexDump::new().mode(Mode::Hex).start();
    let line = feed(&mut d, b"ABC");
    // Per byte: two digits and a space; one group-completion space after
    // the last byte; three blanks for each of the thirteen missing bytes;
    // one more blank because the window is shorter than eight bytes.
    let expected = format!("00000000  41 42 43 {} |ABC|\n", " ".repeat(40));
    assert_eq!(line, expected);
}

#[test]
fn hex_digits_all_values() {
    let mut d = HexDump::new().mode(Mode::Hex).start();
    let line = feed(&mut d, &[0x01, 0x23, 0x45, 0x67, 0x89, 0xab, 0xcd, 0xef]);
    assert!(line.starts_with("00000000  01 23 45 67 89 ab cd ef  "));
}

#[test]
fn hex_full_line_exact_text() {
    let mut d = HexDump::new().mode(Mode::Hex).start();
    let line = feed(&mut d, &[0u8; 16]);
    assert_eq!(
        line,
        "00000000  00 00 00 00 00 00 00 00  00 00 00 00 00 00 00 00  |................|\n"
    );
}

#[test]
fn panel_aligns_across_window_lengths() {
    // In hex mode the opening `|` of the ASCII panel stands at the same
    // column whatever the window length, save for exactly eight bytes.
    let full = {
        let mut d = HexDump::new().mode(Mode::Hex).start();
        feed(&mut d, &[0u8; 16])
    };
    let col = full.find('|').unwrap();
    assert_eq!(col, 60);
    for len in [1usize, 5, 7, 9, 12, 15] {
        let mut d = HexDump::new().mode(Mode::Hex).start();
        let line = feed(&mut d, &vec![0x41u8; len]);
        assert_eq!(line.find('|').unwrap(), col, "window length {len}");
    }
    // The documented exception: an eight-byte window loses one column.
    let mut d = HexDump::new().mode(Mode::Hex).start();
    let line = feed(&mut d, &[0x41u8; 8]);
    assert_eq!(line.find('|').unwrap(), col - 1);
}

#[test]
fn ascii_panel_rendering() {
    assert_eq!(printable(&0x00), '.');
    assert_eq!(printable(&0x1f), '.');
    assert_eq!(printable(&0x7f), '.');
    assert_eq!(printable(&0xff), '.');
    assert_eq!(printable(&0x41), 'A');
    assert_eq!(printable(&0x20), ' ');
    assert_eq!(printable(&0x7e), '~');

    let mut d = HexDump::new().mode(Mode::Hex).start();
    let line = feed(&mut d, &[0x00, 0x7f, 0xff, 0x41, 0x20]);
    assert!(line.ends_with("|...A |\n"));
}

#[test]
fn elision_collapses_repeats() {
    let zeros = [0u8; 16];
    let mut ones = [0u8; 16];
    ones[0] = 1;
    let mut d = HexDump::new().elide_repeated(true).mode(Mode::Hex).start();
    let l1 = feed(&mut d, &zeros);
    let l2 = feed(&mut d, &zeros);
    let l3 = feed(&mut d, &zeros);
    let l4 = feed(&mut d, &ones);
    assert!(l1.starts_with("00000000  00"));
    assert_eq!(l2, "*\n");
    assert_eq!(l3, "");
    assert!(l4.starts_with("00000030  01"));
    assert_eq!(text(&d.finish()), "00000040\n");
}

#[test]
fn elision_resets_per_run() {
    let zeros = [0u8; 16];
    let mut ones = [0u8; 16];
    ones[0] = 1;
    let mut d = HexDump::new().elide_repeated(true).mode(Mode::Hex).start();
    feed(&mut d, &zeros);
    assert_eq!(feed(&mut d, &zeros), "*\n");
    feed(&mut d, &ones);
    // A second run of duplicates earns its own `*`.
    assert_eq!(feed(&mut d, &ones), "*\n");
    assert_eq!(feed(&mut d, &ones), "");
}

#[test]
fn elision_disabled_repeats_all_lines() {
    let zeros = [0u8; 16];
    let mut d = HexDump::new().mode(Mode::Hex).start();
    let l1 = feed(&mut d, &zeros);
    let l2 = feed(&mut d, &zeros);
    assert_ne!(l2, "*\n");
    assert_eq!(&l1[8..], &l2[8..]);
}

#[test]
fn braille_mapping_matches_bit_rule() {
    // Keep bits 0,1,2,7; move bit 3 into bit 7's slot; shift bits 4,5,6
    // down one. The code point is 0x2800 plus the rearranged byte.
    for b in 0u16..=255 {
        let b = b as u8;
        let rearranged =
            (b & 0b1000_0111) | ((b & 0b0111_0000) >> 1) | ((b & 0b0000_1000) << 3);
        let expected = 0x2800u32 + rearranged as u32;
        assert_eq!(braille_byte(b) as u32, expected, "byte {b:#04x}");
    }
}

#[test]
fn braille_example_code_point() {
    // 0b1001_0110: keep 0b1000_0110, bits {4,6} shifted give 0b0000_1000
    // from bit 4... worked through the rule the pattern is 0x8E.
    assert_eq!(braille_byte(0b1001_0110), '\u{288E}');
    // The rearrangement is not an involution: applying it twice does not
    // give the byte back.
    let once = (braille_byte(0b1001_0110) as u32 - 0x2800) as u8;
    let twice = (braille_byte(once) as u32 - 0x2800) as u8;
    assert_ne!(twice, 0b1001_0110);
}

#[test]
fn braille_line_uses_braille_characters() {
    let mut d = HexDump::new().start();
    let line = feed(&mut d, &[0x00, 0xff]);
    assert!(line.starts_with("00000000  \u{2800}\u{28FF} "));
    assert!(line.ends_with("|..|\n"));
}

#[test]
fn braille_short_line_grouping() {
    let mut d = HexDump::new().start();
    let line = feed(&mut d, &[0x41u8; 10]);
    let glyph = braille_byte(0x41);
    let group1: String = std::iter::repeat(glyph).take(8).collect();
    let group2: String = std::iter::repeat(glyph).take(2).collect();
    // Two groups with their completion spaces, three blanks per missing
    // byte, no extra blank since the window holds at least eight bytes.
    let expected = format!(
        "00000000  {group1} {group2} {}|AAAAAAAAAA|\n",
        " ".repeat(18)
    );
    assert_eq!(line, expected);
}

#[test]
fn braille_colors_alternate_and_dealias() {
    let mut d = HexDump::new().start();
    let window: Vec<u8> = (0u8..16).collect();
    let segs = d.feed(&window);
    // The colored characters are exactly the bytes' Braille glyphs in order.
    let glyphs: Vec<char> = segs
        .iter()
        .filter_map(|s| match s {
            Seg::Plain(_) => None,
            Seg::Colored(_, c) => Some(*c),
        })
        .collect();
    let expected: Vec<char> = window.iter().map(|b| braille_byte(*b)).collect();
    assert_eq!(glyphs, expected);
    let c1 = colors(&segs);
    assert_eq!(c1.len(), 16);
    for (i, p) in c1.iter().enumerate() {
        let expected = if i % 2 == 0 {
            ColorPair::BlackWhite
        } else {
            ColorPair::WhiteBlack
        };
        assert_eq!(*p, expected, "byte {i} of the first line");
    }
    // One extra cycle step between lines: the next full line starts on the
    // other pair.
    let c2 = colors(&d.feed(&[0u8; 16]));
    assert_eq!(c2[0], ColorPair::WhiteBlack);
    assert_eq!(c2[1], ColorPair::BlackWhite);
}

#[test]
fn hex_mode_carries_no_colors() {
    let mut d = HexDump::new().mode(Mode::Hex).start();
    assert!(colors(&d.feed(&[0u8; 16])).is_empty());
    assert!(colors(&d.finish()).is_empty());
}

#[test]
fn elided_lines_do_not_advance_colors() {
    let zeros = [0u8; 16];
    let mut d = HexDump::new().elide_repeated(true).start();
    let c1 = colors(&d.feed(&zeros));
    assert_eq!(c1[0], ColorPair::BlackWhite);
    assert!(colors(&d.feed(&zeros)).is_empty());
    assert!(colors(&d.feed(&zeros)).is_empty());
    let mut ones = zeros;
    ones[0] = 1;
    // Only the one emitted line advanced the cycle (17 steps).
    let c2 = colors(&d.feed(&ones));
    assert_eq!(c2[0], ColorPair::WhiteBlack);
}

#[test]
fn builder_defaults() {
    let d = HexDump::new();
    assert_eq!(d, HexDump::default());
    assert_eq!(d.elide_repeated, false);
    assert_eq!(d.mode, Mode::Braille);
    let d = d.elide_repeated(true);
    assert_eq!(d.elide_repeated, true);
    let d = d.mode(Mode::Hex);
    assert_eq!(d.mode, Mode::Hex);
    assert_eq!(d.elide_repeated, true);
}

#[test]
fn large_offset_formats_wider() {
    let mut d = HexDump::new().mode(Mode::Hex).start();
    d.offset = 0x123456789;
    assert_eq!(text(&d.finish()), "123456789\n");
    d.offset = 0xabcdef01;
    assert_eq!(text(&d.finish()), "abcdef01\n");
}
