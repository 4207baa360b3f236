//! One formatted line of the dump: the offset column, two groups of up to
//! eight octets (hexadecimal pairs or Braille-pattern characters), padding
//! that squares short trailing windows up, and the printable-ASCII panel.
//!
//! A line is produced as a sequence of segments: plain text, and — in
//! Braille mode — single characters carrying a color attribute from the
//! two-element alternating cycle.

use vstd::prelude::*;

use crate::offset::char_repeat;
use crate::offset::push_hex8;
use crate::offset::spec_hex8;
use crate::render::braille_byte;
use crate::render::hex_digit;
use crate::render::printable;
use crate::render::spec_braille;
use crate::render::spec_hex_digit;
use crate::render::spec_printable;

verus! {

/// How each octet of a line is rendered.
#[derive(Clone, Copy, PartialEq, Eq, Structural, Debug)]
pub enum Mode {
    /// Two lowercase hexadecimal digits and a trailing space per byte.
    Hex,
    /// One Braille-pattern character per byte, colored from the cycle.
    Braille,
}

/// A foreground/background attribute pair from the alternating color cycle.
#[derive(Clone, Copy, PartialEq, Eq, Structural, Debug)]
pub enum ColorPair {
    /// Black background, white foreground.
    BlackWhite,
    /// White background, black foreground.
    WhiteBlack,
}

/// A piece of one output line: either plain text, or a single character to
/// be written under a color attribute (after which the sink's default
/// attribute is restored before the next plain piece).
#[derive(PartialEq, Eq, Debug)]
pub enum Seg {
    Plain(Vec<char>),
    Colored(ColorPair, char),
}

/// The text a segment contributes to the line.
pub open spec fn seg_text(s: Seg) -> Seq<char> {
    match s {
        Seg::Plain(v) => v@,
        Seg::Colored(p, c) => seq![c],
    }
}

/// The colored characters of a segment: each with the color attribute it
/// is written under.
pub open spec fn seg_colors(s: Seg) -> Seq<(ColorPair, char)> {
    match s {
        Seg::Plain(v) => Seq::empty(),
        Seg::Colored(p, c) => seq![(p, c)],
    }
}

/// The full text of a sequence of segments.
pub open spec fn segs_text(s: Seq<Seg>) -> Seq<char>
    decreases s.len(),
{
    if s.len() == 0 {
        Seq::empty()
    } else {
        segs_text(s.drop_last()) + seg_text(s.last())
    }
}

/// The colored characters of a sequence of segments, in order.
pub open spec fn segs_colors(s: Seq<Seg>) -> Seq<(ColorPair, char)>
    decreases s.len(),
{
    if s.len() == 0 {
        Seq::empty()
    } else {
        segs_colors(s.drop_last()) + seg_colors(s.last())
    }
}

pub proof fn lemma_segs_push(s: Seq<Seg>, x: Seg)
    ensures
        segs_text(s.push(x)) == segs_text(s) + seg_text(x),
        segs_colors(s.push(x)) == segs_colors(s) + seg_colors(x),
{
    assert(s.push(x).drop_last() =~= s);
    assert(s.push(x).last() == x);
}

/// The color the cycle yields at step `i`, counting from a phase: with the
/// phase unset the cycle starts on the black-background pair.
pub open spec fn spec_color_at(phase: bool, i: int) -> ColorPair {
    if (i % 2 == 0) != phase {
        ColorPair::BlackWhite
    } else {
        ColorPair::WhiteBlack
    }
}

/// The colored characters of one non-elided line, up to (excluding) byte
/// position `i`: in Braille mode each byte's pattern character under the
/// cycle's color for its position, nothing in hex mode.
pub open spec fn spec_colors_upto(w: Seq<u8>, phase: bool, mode: Mode, i: int) -> Seq<
    (ColorPair, char),
> {
    if mode is Braille {
        Seq::new(i as nat, |t: int| (spec_color_at(phase, t), spec_braille(w[t])))
    } else {
        Seq::empty()
    }
}

/// The colored characters of one non-elided line: one per byte in Braille
/// mode, none in hex mode.
pub open spec fn spec_line_colors(w: Seq<u8>, phase: bool, mode: Mode) -> Seq<(ColorPair, char)> {
    spec_colors_upto(w, phase, mode, w.len() as int)
}

/// The color the cycle yields at step `i`.
fn color_at(phase: bool, i: usize) -> (p: ColorPair)
    ensures
        p == spec_color_at(phase, i as int),
{
    if (i % 2 == 0) != phase {
        ColorPair::BlackWhite
    } else {
        ColorPair::WhiteBlack
    }
}

/// The text rendering one byte: two lowercase hexadecimal digits and a
/// space, or a single Braille-pattern character.
pub open spec fn spec_byte_render(b: u8, mode: Mode) -> Seq<char> {
    match mode {
        Mode::Hex => seq![
            spec_hex_digit(b as int / 16),
            spec_hex_digit(b as int % 16),
            ' ',
        ],
        Mode::Braille => seq![spec_braille(b)],
    }
}

/// Whether a group-completion space follows the byte at position `j` of a
/// window of length `len`: after each full group of eight and after the
/// window's last byte.
pub open spec fn spec_space_after(len: int, j: int) -> bool {
    j % 8 == 7 || j == len - 1
}

/// The octet area of a line, up to (excluding) byte position `i`.
pub open spec fn spec_body_upto(w: Seq<u8>, mode: Mode, i: int) -> Seq<char>
    decreases i,
{
    if i <= 0 {
        Seq::empty()
    } else {
        spec_body_upto(w, mode, i - 1) + spec_byte_render(w[i - 1], mode) + (
        if spec_space_after(w.len() as int, i - 1) {
            seq![' ']
        } else {
            Seq::empty()
        })
    }
}

/// The whole octet area of a line: every byte rendered, with the
/// group-completion spaces.
pub open spec fn spec_body(w: Seq<u8>, mode: Mode) -> Seq<char> {
    spec_body_upto(w, mode, w.len() as int)
}

/// The padding of a short window: three blanks for every missing byte, and
/// one more when the window is shorter than eight bytes, standing in for
/// the missing group-completion space.
pub open spec fn spec_padding(len: nat) -> Seq<char>
    recommends
        len <= 16,
{
    char_repeat(' ', (3 * (16 - len)) as nat) + (if len < 8 {
        seq![' ']
    } else {
        Seq::empty()
    })
}

/// The ASCII panel: the window's bytes between `|` marks, each byte as
/// itself when printable, else `.`, then the line break.
pub open spec fn spec_panel(w: Seq<u8>) -> Seq<char> {
    seq!['|'] + Seq::new(w.len(), |i: int| spec_printable(w[i])) + seq!['|', '\n']
}

/// Everything of a line that comes before the ASCII panel.
pub open spec fn spec_line_pre(w: Seq<u8>, off: nat, mode: Mode) -> Seq<char> {
    spec_hex8(off) + seq![' ', ' '] + spec_body(w, mode) + spec_padding(w.len())
}

/// The full text of one non-elided line for window `w` at offset `off`.
pub open spec fn spec_line(w: Seq<u8>, off: nat, mode: Mode) -> Seq<char> {
    spec_line_pre(w, off, mode) + spec_panel(w)
}

/// Format one non-elided line: the window's bytes at the given offset, with
/// the color cycle starting at `phase`.
pub fn format_line(w: &[u8], offset: usize, mode: Mode, phase: bool) -> (out: Vec<Seg>)
    requires
        w@.len() <= 16,
    ensures
        segs_text(out@) == spec_line(w@, offset as nat, mode),
        segs_colors(out@) == spec_line_colors(w@, phase, mode),
{
    let mut out: Vec<Seg> = Vec::new();
    let mut buf: Vec<char> = Vec::new();
    push_hex8(&mut buf, offset);
    buf.push(' ');
    buf.push(' ');
    let len = w.len();
    proof {
        assert(segs_text(out@) + buf@ =~= spec_hex8(offset as nat) + seq![' ', ' ']
            + spec_body_upto(w@, mode, 0));
        assert(segs_colors(out@) =~= spec_colors_upto(w@, phase, mode, 0));
    }
    let mut i: usize = 0;
    while i < len
        invariant
            len == w@.len() <= 16,
            i <= len,
            segs_text(out@) + buf@ == spec_hex8(offset as nat) + seq![' ', ' ']
                + spec_body_upto(w@, mode, i as int),
            segs_colors(out@) == spec_colors_upto(w@, phase, mode, i as int),
        decreases len - i,
    {
        let ghost text0 = segs_text(out@) + buf@;
        let b = w[i];
        match mode {
            Mode::Hex => {
                buf.push(hex_digit(b / 16));
                buf.push(hex_digit(b % 16));
                buf.push(' ');
                proof {
                    assert(segs_text(out@) + buf@ =~= text0 + spec_byte_render(b, mode));
                }
            },
            Mode::Braille => {
                if buf.len() > 0 {
                    let flushed = buf;
                    buf = Vec::new();
                    proof {
                        lemma_segs_push(out@, Seg::Plain(flushed));
                    }
                    out.push(Seg::Plain(flushed));
                }
                let p = color_at(phase, i);
                let c = braille_byte(b);
                proof {
                    lemma_segs_push(out@, Seg::Colored(p, c));
                }
                out.push(Seg::Colored(p, c));
                proof {
                    assert(segs_text(out@) + buf@ =~= text0 + spec_byte_render(b, mode));
                    assert(segs_colors(out@) =~= spec_colors_upto(w@, phase, mode, i + 1));
                }
            },
        }
        let ghost text1 = segs_text(out@) + buf@;
        if i % 8 == 7 || i + 1 == len {
            buf.push(' ');
            proof {
                assert(segs_text(out@) + buf@ =~= text1 + seq![' ']);
            }
        }
        proof {
            assert(segs_text(out@) + buf@ =~= spec_hex8(offset as nat) + seq![' ', ' ']
                + spec_body_upto(w@, mode, i + 1));
            if mode is Hex {
                assert(segs_colors(out@) =~= spec_colors_upto(w@, phase, mode, i + 1));
            }
        }
        i = i + 1;
    }
    let ghost text_body = segs_text(out@) + buf@;
    let ghost buf0 = buf@;
    let pad: usize = 16 - len;
    let mut k: usize = 0;
    while k < pad
        invariant
            k <= pad,
            buf@ == buf0 + char_repeat(' ', (3 * k) as nat),
        decreases pad - k,
    {
        buf.push(' ');
        buf.push(' ');
        buf.push(' ');
        k = k + 1;
        proof {
            assert(buf@ =~= buf0 + char_repeat(' ', (3 * k) as nat));
        }
    }
    if len < 8 {
        buf.push(' ');
    }
    proof {
        assert(segs_text(out@) + buf@ =~= text_body + spec_padding(len as nat));
    }
    let ghost text_pad = segs_text(out@) + buf@;
    buf.push('|');
    let ghost buf1 = buf@;
    let mut j: usize = 0;
    while j < len
        invariant
            len == w@.len(),
            j <= len,
            buf@ == buf1 + Seq::new(j as nat, |t: int| spec_printable(w@[t])),
        decreases len - j,
    {
        let c = printable(&w[j]);
        buf.push(c);
        j = j + 1;
        proof {
            assert(buf@ =~= buf1 + Seq::new(j as nat, |t: int| spec_printable(w@[t])));
        }
    }
    buf.push('|');
    buf.push('\n');
    proof {
        assert(segs_text(out@) + buf@ =~= text_pad + spec_panel(w@));
        lemma_segs_push(out@, Seg::Plain(buf));
    }
    out.push(Seg::Plain(buf));
    proof {
        assert(segs_text(out@) =~= spec_line(w@, offset as nat, mode));
        assert(segs_colors(out@) =~= spec_line_colors(w@, phase, mode));
    }
    out
}

} // verus!
