//! Laws of the dump as a whole: properties that relate whole runs of
//! windows, proved over the spec-level state machine that
//! [`Dumper::feed`](crate::Dumper::feed) is specified against.

use vstd::prelude::*;

use crate::DumpState;
use crate::line::Mode;
use crate::line::spec_body_upto;
use crate::line::spec_byte_render;
use crate::line::spec_line;
use crate::line::spec_line_pre;
use crate::offset::char_repeat;
use crate::offset::lemma_hex8_len;
use crate::offset::spec_hex_digits;
use crate::render::spec_braille;
use crate::render::spec_hex_digit;
use crate::render::spec_printable;
use crate::spec_emit;
use crate::spec_init;
use crate::spec_run;
use crate::spec_run_out;

verus! {

/// The total number of bytes in a sequence of windows.
pub open spec fn sum_lens(ws: Seq<Seq<u8>>) -> int
    decreases ws.len(),
{
    if ws.len() == 0 {
        0
    } else {
        sum_lens(ws.drop_last()) + ws.last().len()
    }
}

/// Law: after any sequence of windows, in either mode and with or without
/// elision, the accumulated offset equals the total number of bytes
/// consumed. The closing line of the dump shows that offset in the same
/// format as the per-line offsets, so it shows the byte length of the
/// source.
pub proof fn lemma_offset_is_total(st: DumpState, elide: bool, mode: Mode, ws: Seq<Seq<u8>>)
    ensures
        spec_run(st, elide, mode, ws).offset == st.offset + sum_lens(ws),
    decreases ws.len(),
{
    if ws.len() > 0 {
        lemma_offset_is_total(st, elide, mode, ws.drop_last());
    }
}

/// How often a character occurs in a sequence.
pub open spec fn count_char(s: Seq<char>, c: char) -> int
    decreases s.len(),
{
    if s.len() == 0 {
        0
    } else {
        count_char(s.drop_last(), c) + (if s.last() == c {
            1int
        } else {
            0int
        })
    }
}

proof fn lemma_count_char_add(a: Seq<char>, b: Seq<char>, c: char)
    ensures
        count_char(a + b, c) == count_char(a, c) + count_char(b, c),
    decreases b.len(),
{
    if b.len() == 0 {
        assert(a + b =~= a);
    } else {
        lemma_count_char_add(a, b.drop_last(), c);
        assert((a + b).drop_last() =~= a + b.drop_last());
        assert((a + b).last() == b.last());
    }
}

proof fn lemma_count_single(x: char, c: char)
    ensures
        count_char(seq![x], c) == (if x == c {
            1int
        } else {
            0int
        }),
{
    assert(count_char(seq![x].drop_last(), c) == 0);
}

proof fn lemma_count_absent(s: Seq<char>, c: char)
    requires
        forall|i: int| 0 <= i < s.len() ==> s[i] != c,
    ensures
        count_char(s, c) == 0,
    decreases s.len(),
{
    if s.len() > 0 {
        lemma_count_absent(s.drop_last(), c);
    }
}

proof fn lemma_hex_digits_no_break(n: nat)
    ensures
        count_char(spec_hex_digits(n), '\n') == 0,
    decreases n,
{
    if n < 16 {
        let d = spec_hex_digit(n as int);
        assert(count_char(seq![d].drop_last(), '\n') == 0);
    } else {
        lemma_hex_digits_no_break(n / 16);
        let s = spec_hex_digits(n / 16);
        let d = spec_hex_digit((n % 16) as int);
        assert(s.push(d).drop_last() =~= s);
    }
}

/// Every line of the dump ends in exactly one line break: no character of
/// the offset column, the octet area, the padding or the ASCII panel is a
/// line break itself.
pub proof fn lemma_line_one_break(w: Seq<u8>, off: nat, mode: Mode)
    ensures
        count_char(spec_line(w, off, mode), '\n') == 1,
{
    let nl = '\n';
    let zeros = char_repeat('0', crate::offset::spec_pad_zeros(off));
    lemma_hex_digits_no_break(off);
    lemma_count_absent(zeros, nl);
    lemma_count_char_add(zeros, spec_hex_digits(off), nl);
    assert(count_char(crate::offset::spec_hex8(off), nl) == 0);
    let sp2 = seq![' ', ' '];
    lemma_count_single(' ', nl);
    lemma_count_char_add(seq![' '], seq![' '], nl);
    assert(sp2 =~= seq![' '] + seq![' ']);
    assert(count_char(sp2, nl) == 0);
    lemma_count_char_add(crate::offset::spec_hex8(off), sp2, nl);
    lemma_body_no_break(w, mode, w.len() as int);
    lemma_count_char_add(
        crate::offset::spec_hex8(off) + sp2,
        crate::line::spec_body(w, mode),
        nl,
    );
    let blanks = char_repeat(' ', (3 * (16 - w.len())) as nat);
    let extra = if w.len() < 8 {
        seq![' ']
    } else {
        Seq::<char>::empty()
    };
    lemma_count_absent(blanks, nl);
    assert(count_char(extra, nl) == 0);
    lemma_count_char_add(blanks, extra, nl);
    assert(count_char(crate::line::spec_padding(w.len()), nl) == 0);
    lemma_count_char_add(
        crate::offset::spec_hex8(off) + sp2 + crate::line::spec_body(w, mode),
        crate::line::spec_padding(w.len()),
        nl,
    );
    assert(count_char(spec_line_pre(w, off, mode), nl) == 0);
    let asciis = Seq::new(w.len(), |i: int| spec_printable(w[i]));
    assert forall|i: int| 0 <= i < asciis.len() implies asciis[i] != nl by {
        let b = w[i];
        if 0x1f < b < 0x7f {
            assert((b as char) as u32 == b);
        }
    }
    lemma_count_absent(asciis, nl);
    lemma_count_single('|', nl);
    lemma_count_char_add(seq!['|'], asciis, nl);
    let close = seq!['|', '\n'];
    lemma_count_single('\n', nl);
    lemma_count_char_add(seq!['|'], seq!['\n'], nl);
    assert(close =~= seq!['|'] + seq!['\n']);
    assert(count_char(close, nl) == 1);
    lemma_count_char_add(seq!['|'] + asciis, close, nl);
    assert(count_char(crate::line::spec_panel(w), nl) == 1);
    lemma_count_char_add(spec_line_pre(w, off, mode), crate::line::spec_panel(w), nl);
}

proof fn lemma_body_no_break(w: Seq<u8>, mode: Mode, i: int)
    requires
        i <= w.len(),
    ensures
        count_char(spec_body_upto(w, mode, i), '\n') == 0,
    decreases i,
{
    let nl = '\n';
    if i > 0 {
        lemma_body_no_break(w, mode, i - 1);
        let b = w[i - 1];
        let r = spec_byte_render(b, mode);
        match mode {
            Mode::Hex => {
                assert(r.len() == 3);
                assert(r[0] != nl && r[1] != nl && r[2] != nl);
                assert forall|j: int| 0 <= j < r.len() implies r[j] != nl by {
                    assert(j == 0 || j == 1 || j == 2);
                }
            },
            Mode::Braille => {
                assert(spec_braille(b) as u32 == 0x2800 + crate::render::spec_braille_bits(b));
                assert(spec_braille(b) != nl);
                assert(r.len() == 1);
                assert forall|j: int| 0 <= j < r.len() implies r[j] != nl by {
                    assert(j == 0);
                }
            },
        }
        lemma_count_absent(r, nl);
        lemma_count_char_add(spec_body_upto(w, mode, i - 1), r, nl);
        let sp = if crate::line::spec_space_after(w.len() as int, i - 1) {
            seq![' ']
        } else {
            Seq::<char>::empty()
        };
        lemma_count_single(' ', nl);
        assert(count_char(sp, nl) == 0);
        lemma_count_char_add(spec_body_upto(w, mode, i - 1) + r, sp, nl);
        assert(spec_body_upto(w, mode, i) == spec_body_upto(w, mode, i - 1) + r + sp);
    }
}

/// With elision disabled, every window emits exactly one line.
pub proof fn lemma_line_count(st: DumpState, mode: Mode, ws: Seq<Seq<u8>>)
    ensures
        count_char(spec_run_out(st, false, mode, ws), '\n') == ws.len(),
    decreases ws.len(),
{
    if ws.len() > 0 {
        lemma_line_count(st, mode, ws.drop_last());
        let st1 = spec_run(st, false, mode, ws.drop_last());
        lemma_count_char_add(
            spec_run_out(st, false, mode, ws.drop_last()),
            spec_emit(st1, false, mode, ws.last()),
            '\n',
        );
        lemma_line_one_break(ws.last(), st1.offset, mode);
    }
}

/// Law: a source of exactly 16·k bytes, fed as k full windows with elision
/// disabled, emits exactly k body lines — one line break each — and the
/// offset the closing line then shows is 16·k.
pub proof fn lemma_full_windows(mode: Mode, ws: Seq<Seq<u8>>)
    requires
        forall|i: int| 0 <= i < ws.len() ==> #[trigger] ws[i].len() == 16,
    ensures
        count_char(spec_run_out(spec_init(), false, mode, ws), '\n') == ws.len(),
        spec_run(spec_init(), false, mode, ws).offset == 16 * ws.len(),
{
    lemma_line_count(spec_init(), mode, ws);
    lemma_offset_is_total(spec_init(), false, mode, ws);
    lemma_sum_lens_full(ws);
}

proof fn lemma_sum_lens_full(ws: Seq<Seq<u8>>)
    requires
        forall|i: int| 0 <= i < ws.len() ==> #[trigger] ws[i].len() == 16,
    ensures
        sum_lens(ws) == 16 * ws.len(),
    decreases ws.len(),
{
    if ws.len() > 0 {
        assert(forall|i: int|
            0 <= i < ws.drop_last().len() ==> #[trigger] ws.drop_last()[i].len() == 16);
        lemma_sum_lens_full(ws.drop_last());
    }
}

/// The width one byte occupies in the octet area.
pub open spec fn byte_width(mode: Mode) -> int {
    match mode {
        Mode::Hex => 3,
        Mode::Braille => 1,
    }
}

/// How many group-completion spaces stand among the first `i` rendered
/// bytes of a window of length `len`.
pub open spec fn space_count(len: int, i: int) -> int {
    (if i > 7 {
        1int
    } else {
        0int
    }) + (if i == 16 {
        1int
    } else {
        0int
    }) + (if i == len && len != 8 && len != 16 && len >= 1 {
        1int
    } else {
        0int
    })
}

proof fn lemma_body_upto_len(w: Seq<u8>, mode: Mode, i: int)
    requires
        0 <= i <= w.len() <= 16,
    ensures
        spec_body_upto(w, mode, i).len() == byte_width(mode) * i + space_count(
            w.len() as int,
            i,
        ),
    decreases i,
{
    if i > 0 {
        lemma_body_upto_len(w, mode, i - 1);
    }
}

/// Law: in hex mode the text before the ASCII panel is sixty characters
/// long for every window length from one to sixteen other than exactly
/// eight, whatever the bytes and wherever in the first 2^32 bytes the line
/// stands, so the panel's opening `|` aligns across full and short lines
/// alike. A window of exactly eight bytes gets one group-completion space
/// instead of two and no compensating blank, so its panel opens one column
/// earlier.
pub proof fn lemma_panel_alignment(w: Seq<u8>, off: nat)
    requires
        1 <= w.len() <= 16,
        w.len() != 8,
        off < 0x100000000,
    ensures
        spec_line_pre(w, off, Mode::Hex).len() == 60,
{
    lemma_hex8_len(off);
    lemma_body_upto_len(w, Mode::Hex, w.len() as int);
}

} // verus!
