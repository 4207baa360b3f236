//! A hexadecimal dump library: renders a byte stream as lines holding an
//! offset column, sixteen octets shown either as hexadecimal pairs or as
//! Braille-pattern characters, and a printable-ASCII side panel, with
//! optional elision of repeated lines.
//!
//! The caller pulls windows of at most sixteen bytes from its source and
//! hands each to [`Dumper::feed`], which returns the segments of the line to
//! write (plain text, plus per-character color attributes in Braille mode).
//! After the source is exhausted, [`Dumper::finish`] returns the closing
//! line that shows the total byte count.

pub mod laws;
pub mod line;
pub mod offset;
pub mod render;

use vstd::prelude::*;

use crate::line::ColorPair;
use crate::line::Mode;
use crate::line::Seg;
use crate::line::format_line;
use crate::line::lemma_segs_push;
use crate::line::segs_colors;
use crate::line::segs_text;
use crate::line::spec_line;
use crate::line::spec_line_colors;
use crate::offset::push_hex8;
use crate::offset::spec_hex8;
use vstd::slice::slice_to_vec;

verus! {

/// The state a dump carries from one window to the next: the running byte
/// offset, a copy of the last non-elided window, whether the current run of
/// duplicates has already produced its `*` line, and the phase of the color
/// cycle.
#[verifier::ext_equal]
pub struct DumpState {
    pub offset: nat,
    pub prev: Seq<u8>,
    pub elided: bool,
    pub phase: bool,
}

/// The state a dump starts in: offset zero, nothing seen yet, the color
/// cycle on its first pair.
pub open spec fn spec_init() -> DumpState {
    DumpState { offset: 0, prev: Seq::empty(), elided: false, phase: false }
}

/// The phase of the color cycle after `steps` further advances.
pub open spec fn spec_flip(phase: bool, steps: nat) -> bool {
    if steps % 2 == 0 {
        phase
    } else {
        !phase
    }
}

/// How one window changes the dump's state. The offset always advances by
/// the window's length. A window identical to the previous one (with
/// elision enabled) marks the state elided and leaves the color cycle
/// untouched; any other window is emitted, becomes the new previous window,
/// and — in Braille mode — advances the color cycle once per byte plus one
/// extra step between lines.
pub open spec fn spec_step(st: DumpState, elide: bool, mode: Mode, w: Seq<u8>) -> DumpState {
    if elide && w == st.prev {
        DumpState { offset: st.offset + w.len(), prev: st.prev, elided: true, phase: st.phase }
    } else {
        DumpState {
            offset: st.offset + w.len(),
            prev: w,
            elided: false,
            phase: if mode is Braille {
                spec_flip(st.phase, w.len() + 1)
            } else {
                st.phase
            },
        }
    }
}

/// The text one window makes the dump emit: nothing while a run of
/// duplicates is already elided, a single `*` line when such a run begins,
/// and otherwise the full formatted line at the current offset.
pub open spec fn spec_emit(st: DumpState, elide: bool, mode: Mode, w: Seq<u8>) -> Seq<char> {
    if elide && w == st.prev {
        if st.elided {
            Seq::empty()
        } else {
            seq!['*', '\n']
        }
    } else {
        spec_line(w, st.offset, mode)
    }
}

/// The colored characters one window makes the dump emit: none for an
/// elided window; otherwise, in Braille mode, each byte's pattern
/// character under the cycle's color for its position in the line.
pub open spec fn spec_emit_colors(st: DumpState, elide: bool, mode: Mode, w: Seq<u8>) -> Seq<
    (ColorPair, char),
> {
    if elide && w == st.prev {
        Seq::empty()
    } else {
        spec_line_colors(w, st.phase, mode)
    }
}

/// The state after a whole sequence of windows.
pub open spec fn spec_run(st: DumpState, elide: bool, mode: Mode, ws: Seq<Seq<u8>>) -> DumpState
    decreases ws.len(),
{
    if ws.len() == 0 {
        st
    } else {
        spec_step(spec_run(st, elide, mode, ws.drop_last()), elide, mode, ws.last())
    }
}

/// The whole text emitted for a sequence of windows (without the closing
/// total line).
pub open spec fn spec_run_out(st: DumpState, elide: bool, mode: Mode, ws: Seq<Seq<u8>>) -> Seq<char>
    decreases ws.len(),
{
    if ws.len() == 0 {
        Seq::empty()
    } else {
        spec_run_out(st, elide, mode, ws.drop_last()) + spec_emit(
            spec_run(st, elide, mode, ws.drop_last()),
            elide,
            mode,
            ws.last(),
        )
    }
}

/// A builder for customizing the format of hex dump output.
#[derive(Clone, Copy, PartialEq, Eq, Structural, Debug)]
pub struct HexDump {
    /// `true` if repeated lines of output should be replaced with `*`.
    pub elide_repeated: bool,
    /// How the octet columns are rendered.
    pub mode: Mode,
}

impl Default for HexDump {
    /// Elision off, Braille octets.
    fn default() -> (d: HexDump)
        ensures
            d == (HexDump { elide_repeated: false, mode: Mode::Braille }),
    {
        HexDump { elide_repeated: false, mode: Mode::Braille }
    }
}

impl HexDump {
    /// Create a new `HexDump`. Call the other methods to customize the
    /// output format, then [`start`](HexDump::start) to begin a dump.
    pub fn new() -> (h: HexDump)
        ensures
            h == (HexDump { elide_repeated: false, mode: Mode::Braille }),
    {
        HexDump { elide_repeated: false, mode: Mode::Braille }
    }

    /// Set whether the output should elide repeated lines by replacing them
    /// with a single `*`. The default is `false`.
    pub fn elide_repeated(self, v: bool) -> (h: HexDump)
        ensures
            h == (HexDump { elide_repeated: v, mode: self.mode }),
    {
        HexDump { elide_repeated: v, mode: self.mode }
    }

    /// Set how the octet columns are rendered. The default is Braille.
    pub fn mode(self, m: Mode) -> (h: HexDump)
        ensures
            h == (HexDump { elide_repeated: self.elide_repeated, mode: m }),
    {
        HexDump { elide_repeated: self.elide_repeated, mode: m }
    }

    /// Begin a dump with this configuration.
    pub fn start(self) -> (d: Dumper)
        ensures
            d@ == spec_init(),
            d.config == self,
    {
        let d = Dumper {
            config: self,
            offset: 0,
            prev: Vec::new(),
            elided: false,
            phase: false,
        };
        proof {
            assert(d@ =~= spec_init());
        }
        d
    }
}

/// An incremental dump in progress: feed it the source's windows in order,
/// write out the segments it returns, and close with [`finish`](Dumper::finish).
pub struct Dumper {
    /// The format this dump was started with.
    pub config: HexDump,
    /// Sum of the lengths of all windows fed so far; the address of the
    /// next window's first byte.
    pub offset: usize,
    /// An owned copy of the last non-elided window.
    pub prev: Vec<u8>,
    /// Whether the current run of duplicate windows already produced its
    /// `*` line.
    pub elided: bool,
    /// The phase of the color cycle at the start of the next line.
    pub phase: bool,
}

impl View for Dumper {
    type V = DumpState;

    open spec fn view(&self) -> DumpState {
        DumpState {
            offset: self.offset as nat,
            prev: self.prev@,
            elided: self.elided,
            phase: self.phase,
        }
    }
}

impl Dumper {
    /// Consume the next window of the source and return the segments to
    /// write for it: the formatted line, a `*` line opening a run of elided
    /// duplicates, or nothing inside such a run.
    pub fn feed(&mut self, w: &[u8]) -> (out: Vec<Seg>)
        requires
            w@.len() <= 16,
            old(self).offset + w@.len() <= usize::MAX,
        ensures
            final(self)@ == spec_step(
                old(self)@,
                old(self).config.elide_repeated,
                old(self).config.mode,
                w@,
            ),
            final(self).config == old(self).config,
            segs_text(out@) == spec_emit(
                old(self)@,
                old(self).config.elide_repeated,
                old(self).config.mode,
                w@,
            ),
            segs_colors(out@) == spec_emit_colors(
                old(self)@,
                old(self).config.elide_repeated,
                old(self).config.mode,
                w@,
            ),
    {
        let len = w.len();
        let cur = self.offset;
        self.offset = self.offset + len;
        if self.config.elide_repeated && slice_eq_vec(w, &self.prev) {
            if self.elided {
                let out: Vec<Seg> = Vec::new();
                proof {
                    assert(final(self)@ =~= spec_step(
                        old(self)@,
                        old(self).config.elide_repeated,
                        old(self).config.mode,
                        w@,
                    ));
                    assert(segs_text(out@) =~= Seq::<char>::empty());
                    assert(segs_colors(out@) =~= Seq::<(ColorPair, char)>::empty());
                }
                out
            } else {
                self.elided = true;
                let mut text: Vec<char> = Vec::new();
                text.push('*');
                text.push('\n');
                let mut out: Vec<Seg> = Vec::new();
                proof {
                    lemma_segs_push(out@, Seg::Plain(text));
                }
                out.push(Seg::Plain(text));
                proof {
                    assert(final(self)@ =~= spec_step(
                        old(self)@,
                        old(self).config.elide_repeated,
                        old(self).config.mode,
                        w@,
                    ));
                    assert(segs_text(out@) =~= seq!['*', '\n']);
                    assert(segs_colors(out@) =~= Seq::<(ColorPair, char)>::empty());
                }
                out
            }
        } else {
            self.elided = false;
            let out = format_line(w, cur, self.config.mode, self.phase);
            match self.config.mode {
                Mode::Braille => {
                    if len % 2 == 0 {
                        self.phase = !self.phase;
                    }
                },
                Mode::Hex => {},
            }
            self.prev = slice_to_vec(w);
            proof {
                assert(final(self)@ =~= spec_step(
                    old(self)@,
                    old(self).config.elide_repeated,
                    old(self).config.mode,
                    w@,
                ));
            }
            out
        }
    }

    /// The closing line of the dump: the total byte count in the same
    /// eight-digit format as the per-line offsets, and nothing else.
    pub fn finish(&self) -> (out: Vec<Seg>)
        ensures
            segs_text(out@) == spec_hex8(self.offset as nat) + seq!['\n'],
            segs_colors(out@) == Seq::<(ColorPair, char)>::empty(),
    {
        let mut text: Vec<char> = Vec::new();
        push_hex8(&mut text, self.offset);
        text.push('\n');
        let mut out: Vec<Seg> = Vec::new();
        proof {
            lemma_segs_push(out@, Seg::Plain(text));
        }
        out.push(Seg::Plain(text));
        proof {
            assert(segs_text(out@) =~= spec_hex8(self.offset as nat) + seq!['\n']);
            assert(segs_colors(out@) =~= Seq::<(ColorPair, char)>::empty());
        }
        out
    }
}

/// Byte-for-byte comparison of the current window against the kept copy of
/// the previous one.
fn slice_eq_vec(a: &[u8], b: &Vec<u8>) -> (r: bool)
    ensures
        r == (a@ == b@),
{
    if a.len() != b.len() {
        return false;
    }
    let mut i: usize = 0;
    while i < a.len()
        invariant
            i <= a@.len(),
            a@.len() == b@.len(),
            forall|j: int| 0 <= j < i ==> a@[j] == b@[j],
        decreases a@.len() - i,
    {
        if a[i] != b[i] {
            return false;
        }
        i = i + 1;
    }
    proof {
        assert(a@ =~= b@);
    }
    true
}

} // verus!
