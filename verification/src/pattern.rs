//! The code-signature pattern language: a textual pattern is compiled into
//! a sequence of atoms that the scanner interprets.
//!
//! Grammar, whitespace-separated and case-insensitive: `AB` a literal byte;
//! `??` any byte; `A?` / `?B` a nibble mask; `'` captures the cursor;
//! `*{…}` reads a 32-bit value, follows it as an address and matches the
//! braced pattern there; `${…}` follows a 32-bit relative displacement the
//! same way; `[ a | b ]` tries alternatives in order, first success wins.
//!
//! The compiler is modelled exactly: one character at a time through the
//! state machine `g_step`, whose run over the whole text decides both
//! acceptance and the compiled atoms.

use vstd::prelude::*;
use vstd::string::StringSliceAdditionalSpecFns;

use crate::error::Error;

verus! {

/// One atom of a compiled pattern.
#[derive(Debug)]
pub enum Atom {
    /// The byte at the cursor must equal this one; advance one.
    Byte(u8),
    /// Masked compare of the byte at the cursor; advance one.
    Nibble(u8, u8),
    /// Any byte; advance one.
    Any,
    /// Record the cursor into the next capture slot.
    Save,
    /// Read a 32-bit value, follow it as an address, match the sub-pattern
    /// there, then continue past the value.
    Ptr(Vec<Atom>),
    /// Read a 32-bit displacement, follow it relative to the cursor, match
    /// the sub-pattern there, then continue past the displacement.
    Rel(Vec<Atom>),
    /// Try each alternative in order; the first that matches wins.
    Alt(Vec<Vec<Atom>>),
}

/// The spec-level form of an atom.
pub enum GAtom {
    Byte(u8),
    Nibble(u8, u8),
    Any,
    Save,
    Ptr(Seq<GAtom>),
    Rel(Seq<GAtom>),
    Alt(Seq<Seq<GAtom>>),
}

/// The spec-level form of one atom.
pub open spec fn abs_atom(a: Atom) -> GAtom
    decreases a,
{
    match a {
        Atom::Byte(b) => GAtom::Byte(b),
        Atom::Nibble(m, v) => GAtom::Nibble(m, v),
        Atom::Any => GAtom::Any,
        Atom::Save => GAtom::Save,
        Atom::Ptr(sub) => GAtom::Ptr(abs_atoms(sub@)),
        Atom::Rel(sub) => GAtom::Rel(abs_atoms(sub@)),
        Atom::Alt(alts) => GAtom::Alt(abs_alts(alts@)),
    }
}

/// The spec-level form of an atom sequence.
pub open spec fn abs_atoms(s: Seq<Atom>) -> Seq<GAtom>
    decreases s,
{
    if s.len() == 0 {
        Seq::empty()
    } else {
        abs_atoms(s.drop_last()).push(abs_atom(s.last()))
    }
}

/// The spec-level form of a list of alternatives.
pub open spec fn abs_alts(s: Seq<Vec<Atom>>) -> Seq<Seq<GAtom>>
    decreases s,
{
    if s.len() == 0 {
        Seq::empty()
    } else {
        abs_alts(s.drop_last()).push(abs_atoms(s.last()@))
    }
}

/// Which group a `*` or `$` is waiting to open.
#[derive(Clone, Copy, Debug)]
pub enum GKind {
    Ptr,
    Rel,
}

/// A parser frame: the atoms of the enclosing level, saved while a group
/// is being read; an alternation frame also keeps its finished
/// alternatives.
pub enum GFrame {
    Ptr(Seq<GAtom>),
    Rel(Seq<GAtom>),
    Alt(Seq<GAtom>, Seq<Seq<GAtom>>),
}

/// The parser state after some prefix of the pattern text.
pub struct GState {
    pub frames: Seq<GFrame>,
    pub cur: Seq<GAtom>,
    pub pend: Option<(bool, u8)>,
    pub open_for: Option<GKind>,
}

/// A parser frame, executably.
pub enum Frame {
    Ptr(Vec<Atom>),
    Rel(Vec<Atom>),
    Alt(Vec<Atom>, Vec<Vec<Atom>>),
}

/// The spec-level form of one parser frame.
pub open spec fn abs_frame(f: Frame) -> GFrame {
    match f {
        Frame::Ptr(outer) => GFrame::Ptr(abs_atoms(outer@)),
        Frame::Rel(outer) => GFrame::Rel(abs_atoms(outer@)),
        Frame::Alt(outer, done) => GFrame::Alt(abs_atoms(outer@), abs_alts(done@)),
    }
}

/// The spec-level form of the frame stack.
pub open spec fn abs_frames(s: Seq<Frame>) -> Seq<GFrame>
    decreases s,
{
    if s.len() == 0 {
        Seq::empty()
    } else {
        abs_frames(s.drop_last()).push(abs_frame(s.last()))
    }
}

/// Abstraction distributes over appending an atom.
pub broadcast proof fn lemma_abs_atoms_push(s: Seq<Atom>, a: Atom)
    ensures
        #[trigger] abs_atoms(s.push(a)) == abs_atoms(s).push(abs_atom(a)),
{
    assert(s.push(a).drop_last() =~= s);
    assert(s.push(a).last() == a);
}

/// Abstraction distributes over appending an alternative.
pub broadcast proof fn lemma_abs_alts_push(s: Seq<Vec<Atom>>, a: Vec<Atom>)
    ensures
        #[trigger] abs_alts(s.push(a)) == abs_alts(s).push(abs_atoms(a@)),
{
    assert(s.push(a).drop_last() =~= s);
    assert(s.push(a).last() == a);
}

/// Abstraction distributes over pushing a frame.
pub broadcast proof fn lemma_abs_frames_push(s: Seq<Frame>, f: Frame)
    ensures
        #[trigger] abs_frames(s.push(f)) == abs_frames(s).push(abs_frame(f)),
{
    assert(s.push(f).drop_last() =~= s);
    assert(s.push(f).last() == f);
}

/// Abstraction keeps the number of frames.
pub broadcast proof fn lemma_abs_frames_len(s: Seq<Frame>)
    ensures
        #[trigger] abs_frames(s).len() == s.len(),
    decreases s,
{
    if s.len() > 0 {
        lemma_abs_frames_len(s.drop_last());
    }
}

/// Abstraction distributes over popping a frame.
pub broadcast proof fn lemma_abs_frames_pop(s: Seq<Frame>)
    requires
        s.len() > 0,
    ensures
        #[trigger] abs_frames(s).drop_last() == abs_frames(s.drop_last()),
        abs_frames(s).last() == abs_frame(s.last()),
{
    lemma_abs_frames_len(s.drop_last());
    assert(abs_frames(s.drop_last()).push(abs_frame(s.last())).drop_last() =~= abs_frames(
        s.drop_last(),
    ));
}

/// Whether `c` is pattern whitespace.
pub open spec fn spec_is_ws(c: u8) -> bool {
    c == 0x20 || c == 0x09 || c == 0x0A || c == 0x0D
}

/// The value of a hexadecimal digit, case-insensitive.
pub open spec fn spec_hex_val(c: u8) -> Option<u8> {
    if 0x30 <= c <= 0x39 {
        Some((c - 0x30) as u8)
    } else if 0x61 <= c <= 0x66 {
        Some((c - 0x61 + 10) as u8)
    } else if 0x41 <= c <= 0x46 {
        Some((c - 0x41 + 10) as u8)
    } else {
        None
    }
}

/// The atom a pair of half-byte tokens compiles to; `true` marks a
/// wildcard half.
pub open spec fn spec_pair_gatom(t1: (bool, u8), t2: (bool, u8)) -> GAtom {
    if t1.0 && t2.0 {
        GAtom::Any
    } else if t1.0 {
        GAtom::Nibble(0x0F, t2.1)
    } else if t2.0 {
        GAtom::Nibble(0xF0, (t1.1 * 16) as u8)
    } else {
        GAtom::Byte((t1.1 * 16 + t2.1) as u8)
    }
}

/// The initial parser state.
pub open spec fn g_init() -> GState {
    GState { frames: Seq::empty(), cur: Seq::empty(), pend: None, open_for: None }
}

/// One character of pattern text applied to the parser state, or the
/// parse error.
pub open spec fn g_step(st: GState, c: u8) -> Option<GState> {
    if spec_is_ws(c) {
        if st.pend is Some {
            None
        } else {
            Some(st)
        }
    } else if st.open_for is Some {
        if c == 0x7B {
            let f = if st.open_for == Some(GKind::Ptr) {
                GFrame::Ptr(st.cur)
            } else {
                GFrame::Rel(st.cur)
            };
            Some(
                GState { frames: st.frames.push(f), cur: Seq::empty(), open_for: None, ..st },
            )
        } else {
            None
        }
    } else if spec_hex_val(c) is Some || c == 0x3F {
        let tok = if c == 0x3F {
            (true, 0u8)
        } else {
            (false, spec_hex_val(c)->Some_0)
        };
        match st.pend {
            None => Some(GState { pend: Some(tok), ..st }),
            Some(t1) => Some(
                GState { cur: st.cur.push(spec_pair_gatom(t1, tok)), pend: None, ..st },
            ),
        }
    } else if st.pend is Some {
        None
    } else if c == 0x27 {
        Some(GState { cur: st.cur.push(GAtom::Save), ..st })
    } else if c == 0x2A {
        Some(GState { open_for: Some(GKind::Ptr), ..st })
    } else if c == 0x24 {
        Some(GState { open_for: Some(GKind::Rel), ..st })
    } else if c == 0x5B {
        Some(
            GState {
                frames: st.frames.push(GFrame::Alt(st.cur, Seq::empty())),
                cur: Seq::empty(),
                ..st
            },
        )
    } else if c == 0x7C {
        if st.frames.len() > 0 {
            match st.frames.last() {
                GFrame::Alt(outer, done) => Some(
                    GState {
                        frames: st.frames.drop_last().push(GFrame::Alt(outer, done.push(st.cur))),
                        cur: Seq::empty(),
                        ..st
                    },
                ),
                _ => None,
            }
        } else {
            None
        }
    } else if c == 0x5D {
        if st.frames.len() > 0 {
            match st.frames.last() {
                GFrame::Alt(outer, done) => Some(
                    GState {
                        frames: st.frames.drop_last(),
                        cur: outer.push(GAtom::Alt(done.push(st.cur))),
                        ..st
                    },
                ),
                _ => None,
            }
        } else {
            None
        }
    } else if c == 0x7D {
        if st.frames.len() > 0 {
            match st.frames.last() {
                GFrame::Ptr(outer) => Some(
                    GState {
                        frames: st.frames.drop_last(),
                        cur: outer.push(GAtom::Ptr(st.cur)),
                        ..st
                    },
                ),
                GFrame::Rel(outer) => Some(
                    GState {
                        frames: st.frames.drop_last(),
                        cur: outer.push(GAtom::Rel(st.cur)),
                        ..st
                    },
                ),
                _ => None,
            }
        } else {
            None
        }
    } else {
        None
    }
}

/// The parser state after the first `i` characters of the text, or the
/// parse error met on the way.
pub open spec fn g_run(s: Seq<u8>, i: int) -> Option<GState>
    decreases i,
{
    if i <= 0 {
        Some(g_init())
    } else {
        match g_run(s, i - 1) {
            None => None,
            Some(st) => g_step(st, s[i - 1]),
        }
    }
}

/// Once the run fails it stays failed.
pub proof fn lemma_g_run_none(s: Seq<u8>, i: int, j: int)
    requires
        0 <= i <= j,
        g_run(s, i) is None,
    ensures
        g_run(s, j) is None,
    decreases j - i,
{
    if j > i {
        lemma_g_run_none(s, i, j - 1);
    }
}

/// The compilation of a whole pattern text: the atoms of the accepting
/// run, or nothing when the text is rejected.
pub open spec fn spec_parse(s: Seq<u8>) -> Option<Seq<GAtom>> {
    match g_run(s, s.len() as int) {
        Some(st) => if st.frames.len() == 0 && st.pend is None && st.open_for is None {
            Some(st.cur)
        } else {
            None
        },
        None => None,
    }
}

/// A compiled pattern: an ordered list of atoms.
#[derive(Debug)]
pub struct Pattern {
    pub atoms: Vec<Atom>,
}

impl Pattern {
    /// The compiled atoms.
    pub open spec fn spec_atoms(&self) -> Seq<Atom> {
        self.atoms@
    }
}

/// Whether `c` is pattern whitespace.
fn is_ws(c: u8) -> (r: bool)
    ensures
        r == spec_is_ws(c),
{
    c == 0x20 || c == 0x09 || c == 0x0A || c == 0x0D
}

/// The value of a hexadecimal digit, case-insensitive.
fn hex_val(c: u8) -> (r: Option<u8>)
    ensures
        r == spec_hex_val(c),
{
    if 0x30 <= c && c <= 0x39 {
        Some(c - 0x30)
    } else if 0x61 <= c && c <= 0x66 {
        Some(c - 0x61 + 10)
    } else if 0x41 <= c && c <= 0x46 {
        Some(c - 0x41 + 10)
    } else {
        None
    }
}

/// The atom a pair of half-byte tokens compiles to.
fn pair_atom(t1: (bool, u8), t2: (bool, u8)) -> (r: Atom)
    requires
        t1.1 < 16,
        t2.1 < 16,
    ensures
        abs_atom(r) == spec_pair_gatom(t1, t2),
{
    if t1.0 && t2.0 {
        Atom::Any
    } else if t1.0 {
        Atom::Nibble(0x0F, t2.1)
    } else if t2.0 {
        Atom::Nibble(0xF0, t1.1 * 16)
    } else {
        Atom::Byte(t1.1 * 16 + t2.1)
    }
}

/// Compiles a pattern text into its atoms; any malformed text is refused
/// with `Invalid`.
pub fn parse_bytes(pat: &[u8]) -> (r: Result<Pattern, Error>)
    ensures
        (match r {
            Ok(p) => spec_parse(pat@) == Some(abs_atoms(p.spec_atoms())),
            Err(e) => spec_parse(pat@) is None && e == Error::Invalid,
        }),
{
    let n = pat.len();
    let mut frames: Vec<Frame> = Vec::new();
    let mut cur: Vec<Atom> = Vec::new();
    let mut pend: Option<(bool, u8)> = None;
    let mut opening: Option<GKind> = None;
    let mut i: usize = 0;
    proof {
        broadcast use lemma_abs_atoms_push, lemma_abs_alts_push, lemma_abs_frames_push, lemma_abs_frames_pop, lemma_abs_frames_len;
    }
    while i < n
        invariant
            n == pat@.len(),
            0 <= i <= n,
            pend is Some ==> pend->Some_0.1 < 16,
            g_run(pat@, i as int) == Some(
                GState {
                    frames: abs_frames(frames@),
                    cur: abs_atoms(cur@),
                    pend: pend,
                    open_for: opening,
                },
            ),
        decreases n - i,
    {
        let ghost st = GState {
            frames: abs_frames(frames@),
            cur: abs_atoms(cur@),
            pend: pend,
            open_for: opening,
        };
        let c = pat[i];
        proof {
            broadcast use lemma_abs_atoms_push, lemma_abs_alts_push, lemma_abs_frames_push, lemma_abs_frames_pop, lemma_abs_frames_len;
            assert(g_run(pat@, i + 1) == g_step(st, c));
        }
        if is_ws(c) {
            if pend.is_some() {
                proof {
                    lemma_g_run_none(pat@, i + 1, n as int);
                }
                return Err(Error::Invalid);
            }
        } else if opening.is_some() {
            if c == 0x7B {
                let outer = cur;
                cur = Vec::new();
                let f = (match opening {
                    Some(GKind::Ptr) => Frame::Ptr(outer),
                    _ => Frame::Rel(outer),
                });
                frames.push(f);
                opening = None;
            } else {
                proof {
                    lemma_g_run_none(pat@, i + 1, n as int);
                }
                return Err(Error::Invalid);
            }
        } else {
            let hv = hex_val(c);
            if hv.is_some() || c == 0x3F {
                let tok: (bool, u8) = if c == 0x3F {
                    (true, 0u8)
                } else {
                    (false, hv.unwrap())
                };
                match pend {
                    None => {
                        pend = Some(tok);
                    },
                    Some(t1) => {
                        cur.push(pair_atom(t1, tok));
                        pend = None;
                    },
                }
            } else if pend.is_some() {
                proof {
                    lemma_g_run_none(pat@, i + 1, n as int);
                }
                return Err(Error::Invalid);
            } else if c == 0x27 {
                cur.push(Atom::Save);
            } else if c == 0x2A {
                opening = Some(GKind::Ptr);
            } else if c == 0x24 {
                opening = Some(GKind::Rel);
            } else if c == 0x5B {
                let outer = cur;
                cur = Vec::new();
                frames.push(Frame::Alt(outer, Vec::new()));
            } else if c == 0x7C {
                match frames.pop() {
                    Some(Frame::Alt(outer, mut done)) => {
                        let alt = cur;
                        cur = Vec::new();
                        done.push(alt);
                        frames.push(Frame::Alt(outer, done));
                    },
                    _ => {
                        proof {
                            lemma_g_run_none(pat@, i + 1, n as int);
                        }
                        return Err(Error::Invalid);
                    },
                }
            } else if c == 0x5D {
                match frames.pop() {
                    Some(Frame::Alt(outer, mut done)) => {
                        let ghost outer_g = abs_atoms(outer@);
                        let ghost done_g = abs_alts(done@);
                        let ghost cur_g = abs_atoms(cur@);
                        done.push(cur);
                        cur = outer;
                        cur.push(Atom::Alt(done));
                        proof {
                            broadcast use lemma_abs_atoms_push, lemma_abs_alts_push;

                            assert(abs_alts(done@) == done_g.push(cur_g));
                            assert(abs_atoms(cur@) == outer_g.push(GAtom::Alt(done_g.push(cur_g))));
                        }
                    },
                    _ => {
                        proof {
                            lemma_g_run_none(pat@, i + 1, n as int);
                        }
                        return Err(Error::Invalid);
                    },
                }
            } else if c == 0x7D {
                match frames.pop() {
                    Some(Frame::Ptr(outer)) => {
                        let ghost outer_g = abs_atoms(outer@);
                        let ghost cur_g = abs_atoms(cur@);
                        let sub = cur;
                        cur = outer;
                        cur.push(Atom::Ptr(sub));
                        proof {
                            broadcast use lemma_abs_atoms_push;

                            assert(abs_atoms(cur@) == outer_g.push(GAtom::Ptr(cur_g)));
                        }
                    },
                    Some(Frame::Rel(outer)) => {
                        let ghost outer_g = abs_atoms(outer@);
                        let ghost cur_g = abs_atoms(cur@);
                        let sub = cur;
                        cur = outer;
                        cur.push(Atom::Rel(sub));
                        proof {
                            broadcast use lemma_abs_atoms_push;

                            assert(abs_atoms(cur@) == outer_g.push(GAtom::Rel(cur_g)));
                        }
                    },
                    _ => {
                        proof {
                            lemma_g_run_none(pat@, i + 1, n as int);
                        }
                        return Err(Error::Invalid);
                    },
                }
            } else {
                proof {
                    lemma_g_run_none(pat@, i + 1, n as int);
                }
                return Err(Error::Invalid);
            }
        }
        i += 1;
    }
    if frames.is_empty() && pend.is_none() && opening.is_none() {
        Ok(Pattern { atoms: cur })
    } else {
        Err(Error::Invalid)
    }
}

/// Compiles a pattern text into its atoms.
pub fn parse(pat: &str) -> (r: Result<Pattern, Error>)
    ensures
        (match r {
            Ok(p) => spec_parse(pat.spec_bytes()) == Some(abs_atoms(p.spec_atoms())),
            Err(e) => spec_parse(pat.spec_bytes()) is None && e == Error::Invalid,
        }),
{
    parse_bytes(pat.as_bytes())
}

} // verus!
