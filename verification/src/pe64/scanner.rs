//! The pattern scanner: executes a compiled pattern against a view, at one
//! RVA or across every executable section.
//!
//! A match is a sequence of RVAs: slot `0` is the start of the match, the
//! following slots are the captures in the order their atoms fired. The
//! whole execution is modelled by `spec_match`, a pure function of the
//! view's bytes, the atoms, the cursor and the captures so far — which is
//! what makes every scan deterministic.

use vstd::prelude::*;
use vstd::slice::slice_index_get;
use vstd::slice::slice_subrange;

use crate::image::IMAGE_SCN_CNT_CODE;
use crate::image::IMAGE_SCN_MEM_EXECUTE;
use crate::image::ImageSectionHeader;
use crate::pattern::Atom;
use crate::pattern::Pattern;
use crate::pe64::headers::lemma_validate_ok;
use crate::pe64::headers::read_number_of_sections;
use crate::pe64::headers::section_header_at;
use crate::pe64::headers::spec_image_base;
use crate::pe64::headers::spec_number_of_sections;
use crate::pe64::headers::spec_section;
use crate::pe64::headers::spec_sections_sane;
use crate::pe64::headers::spec_size_of_image;
use crate::pe64::headers::spec_validate;
use crate::pe64::pe::read_image_base;
use crate::pe64::pe::read_size_of_image_pe;
use crate::pe64::pe::Pe;
use crate::util::le32;
use crate::util::read_le32;

verus! {

/// The byte the view serves at `cur`, if it serves one.
pub open spec fn spec_read1<P: Pe>(pe: P, cur: u32) -> Option<u8> {
    match pe.spec_slice(cur, 1, 1) {
        Ok(oe) => Some(pe.spec_image()[oe.0]),
        Err(_) => None,
    }
}

/// The 32-bit little-endian value the view serves at `cur`, if it serves
/// four bytes.
pub open spec fn spec_read4<P: Pe>(pe: P, cur: u32) -> Option<int> {
    match pe.spec_slice(cur, 4, 1) {
        Ok(oe) => Some(le32(pe.spec_image(), oe.0)),
        Err(_) => None,
    }
}

/// The RVA a 32-bit operand of a `*{…}` follow names: a VA inside the
/// declared image is rebased, a bare value below the image size is taken
/// as an RVA, anything else fails the follow.
pub open spec fn spec_ptr_target<P: Pe>(pe: P, v: int) -> Option<u32> {
    let base = spec_image_base(pe.spec_image());
    let size = spec_size_of_image(pe.spec_image());
    if base <= v < base + size {
        Some((v - base) as u32)
    } else if 0 <= v < size {
        Some(v as u32)
    } else {
        None
    }
}

/// The RVA a 32-bit displacement of a `${…}` follow names, relative to the
/// end of the displacement, kept within the declared image.
pub open spec fn spec_rel_target(cur: u32, v: int, size: int) -> Option<u32> {
    let d = if v >= 0x80000000 {
        v - 0x100000000
    } else {
        v
    };
    let t = cur + 4 + d;
    if 0 <= t < size {
        Some(t as u32)
    } else {
        None
    }
}

/// The meaning of a pattern: matching `atoms` at `cur` with the captures
/// `caps` so far either fails, or yields the cursor past the match and the
/// extended captures.
pub open spec fn spec_match<P: Pe>(pe: P, atoms: Seq<Atom>, cur: u32, caps: Seq<u32>) -> Option<
    (u32, Seq<u32>),
>
    decreases atoms,
{
    if atoms.len() == 0 {
        Some((cur, caps))
    } else {
        let tail = atoms.drop_first();
        match atoms[0] {
            Atom::Byte(b) => match spec_read1(pe, cur) {
                Some(x) => if x == b && cur < 0xFFFFFFFFu32 {
                    spec_match(pe, tail, (cur + 1) as u32, caps)
                } else {
                    None
                },
                None => None,
            },
            Atom::Nibble(m, v) => match spec_read1(pe, cur) {
                Some(x) => if x & m == v && cur < 0xFFFFFFFFu32 {
                    spec_match(pe, tail, (cur + 1) as u32, caps)
                } else {
                    None
                },
                None => None,
            },
            Atom::Any => match spec_read1(pe, cur) {
                Some(x) => if cur < 0xFFFFFFFFu32 {
                    spec_match(pe, tail, (cur + 1) as u32, caps)
                } else {
                    None
                },
                None => None,
            },
            Atom::Save => spec_match(pe, tail, cur, caps.push(cur)),
            Atom::Ptr(sub) => if cur <= 0xFFFFFFFBu32 {
                match spec_read4(pe, cur) {
                    Some(v) => match spec_ptr_target(pe, v) {
                        Some(t) => match spec_match(pe, sub@, t, caps) {
                            Some(rr) => spec_match(pe, tail, (cur + 4) as u32, rr.1),
                            None => None,
                        },
                        None => None,
                    },
                    None => None,
                }
            } else {
                None
            },
            Atom::Rel(sub) => if cur <= 0xFFFFFFFBu32 {
                match spec_read4(pe, cur) {
                    Some(v) => match spec_rel_target(
                        cur,
                        v,
                        spec_size_of_image(pe.spec_image()),
                    ) {
                        Some(t) => match spec_match(pe, sub@, t, caps) {
                            Some(rr) => spec_match(pe, tail, (cur + 4) as u32, rr.1),
                            None => None,
                        },
                        None => None,
                    },
                    None => None,
                }
            } else {
                None
            },
            Atom::Alt(alts) => match spec_try_alts(pe, alts@, cur, caps) {
                Some(rr) => spec_match(pe, tail, rr.0, rr.1),
                None => None,
            },
        }
    }
}

/// The first alternative that matches wins; none matching fails.
pub open spec fn spec_try_alts<P: Pe>(
    pe: P,
    alts: Seq<Vec<Atom>>,
    cur: u32,
    caps: Seq<u32>,
) -> Option<(u32, Seq<u32>)>
    decreases alts,
{
    if alts.len() == 0 {
        None
    } else {
        match spec_match(pe, alts[0]@, cur, caps) {
            Some(rr) => Some(rr),
            None => spec_try_alts(pe, alts.drop_first(), cur, caps),
        }
    }
}

/// The match a pattern yields at `start`: slot `0` is `start`, the rest
/// are the captures in firing order.
pub open spec fn spec_exec<P: Pe>(pe: P, atoms: Seq<Atom>, start: u32) -> Option<Seq<u32>> {
    match spec_match(pe, atoms, start, seq![start]) {
        Some(rr) => Some(rr.1),
        None => None,
    }
}

/// An empty pattern matches everywhere: it yields exactly the match whose
/// only slot is the scanned RVA.
pub proof fn lemma_empty_pattern<P: Pe>(pe: P, start: u32)
    ensures
        spec_exec(pe, Seq::<Atom>::empty(), start) == Some(seq![start]),
{
}

/// Copies a capture list.
fn copy_caps(caps: &Vec<u32>) -> (r: Vec<u32>)
    ensures
        r@ == caps@,
{
    let mut r: Vec<u32> = Vec::new();
    let mut i: usize = 0;
    while i < caps.len()
        invariant
            0 <= i <= caps@.len(),
            r@ == caps@.subrange(0, i as int),
        decreases caps@.len() - i,
    {
        r.push(caps[i]);
        i += 1;
    }
    proof {
        assert(r@ =~= caps@);
    }
    r
}

/// Reads one byte through the view.
fn read1<P: Pe>(pe: &P, cur: u32) -> (r: Option<u8>)
    requires
        spec_validate(pe.spec_image()) is Ok,
    ensures
        r == spec_read1(*pe, cur),
{
    match pe.slice(cur, 1, 1) {
        Ok(s) => {
            proof {
                pe.lemma_slice_ok(cur, 1, 1);
            }
            Some(*slice_index_get(s, 0))
        },
        Err(_) => None,
    }
}

/// Reads a 32-bit little-endian value through the view.
fn read4<P: Pe>(pe: &P, cur: u32) -> (r: Option<u32>)
    requires
        spec_validate(pe.spec_image()) is Ok,
    ensures
        (match (r, spec_read4(*pe, cur)) {
            (Some(x), Some(q)) => x == q,
            (None, None) => true,
            _ => false,
        }),
{
    match pe.slice(cur, 4, 1) {
        Ok(s) => {
            proof {
                pe.lemma_slice_ok(cur, 4, 1);
            }
            Some(read_le32(s, 0))
        },
        Err(_) => None,
    }
}

/// Resolves the operand of a `*{…}` follow.
fn ptr_target<P: Pe>(pe: &P, v: u32) -> (r: Option<u32>)
    requires
        spec_validate(pe.spec_image()) is Ok,
    ensures
        r == spec_ptr_target(*pe, v as int),
{
    let image = pe.image();
    proof {
        lemma_validate_ok(pe.spec_image());
    }
    let base = read_image_base(image);
    let size = read_size_of_image_pe(image);
    if base <= v as u64 && v as u64 - base < size as u64 {
        Some((v as u64 - base) as u32)
    } else if (v as u64) < size as u64 {
        Some(v)
    } else {
        None
    }
}

/// Resolves the displacement of a `${…}` follow.
fn rel_target<P: Pe>(pe: &P, cur: u32, v: u32) -> (r: Option<u32>)
    requires
        spec_validate(pe.spec_image()) is Ok,
    ensures
        r == spec_rel_target(cur, v as int, spec_size_of_image(pe.spec_image())),
{
    let image = pe.image();
    proof {
        lemma_validate_ok(pe.spec_image());
    }
    let size = read_size_of_image_pe(image);
    let d: i64 = if v >= 0x80000000 {
        v as i64 - 0x100000000
    } else {
        v as i64
    };
    let t: i64 = cur as i64 + 4 + d;
    if t >= 0 && (t as u64) < size as u64 {
        Some(t as u32)
    } else {
        None
    }
}

/// Matches `atoms` at `cur`, extending the captures `caps`.
fn match_seq<P: Pe>(pe: &P, atoms: &[Atom], cur: u32, caps: Vec<u32>) -> (r: Option<
    (u32, Vec<u32>),
>)
    requires
        spec_validate(pe.spec_image()) is Ok,
    ensures
        (match (r, spec_match(*pe, atoms@, cur, caps@)) {
            (Some(rr), Some(qq)) => rr.0 == qq.0 && rr.1@ == qq.1,
            (None, None) => true,
            _ => false,
        }),
    decreases atoms@,
{
    let n = atoms.len();
    if n == 0 {
        return Some((cur, caps));
    }
    let rest = slice_subrange(atoms, 1, n);
    proof {
        assert(rest@ =~= atoms@.drop_first());
    }
    match slice_index_get(atoms, 0) {
        Atom::Byte(b) => {
            match read1(pe, cur) {
                Some(x) => if x == *b && cur < 0xFFFFFFFF {
                    match_seq(pe, rest, cur + 1, caps)
                } else {
                    None
                },
                None => None,
            }
        },
        Atom::Nibble(m, v) => {
            match read1(pe, cur) {
                Some(x) => if x & *m == *v && cur < 0xFFFFFFFF {
                    match_seq(pe, rest, cur + 1, caps)
                } else {
                    None
                },
                None => None,
            }
        },
        Atom::Any => {
            match read1(pe, cur) {
                Some(_x) => if cur < 0xFFFFFFFF {
                    match_seq(pe, rest, cur + 1, caps)
                } else {
                    None
                },
                None => None,
            }
        },
        Atom::Save => {
            let mut caps2 = caps;
            caps2.push(cur);
            match_seq(pe, rest, cur, caps2)
        },
        Atom::Ptr(sub) => {
            if cur <= 0xFFFFFFFB {
                match read4(pe, cur) {
                    Some(v) => match ptr_target(pe, v) {
                        Some(t) => {
                            proof {
                                assert(decreases_to!(atoms@ => atoms@[0]));
                                assert(decreases_to!(atoms@[0] => sub@));
                            }
                            match match_seq(pe, sub.as_slice(), t, caps) {
                                Some(rr) => match_seq(pe, rest, cur + 4, rr.1),
                                None => None,
                            }
                        },
                        None => None,
                    },
                    None => None,
                }
            } else {
                None
            }
        },
        Atom::Rel(sub) => {
            if cur <= 0xFFFFFFFB {
                match read4(pe, cur) {
                    Some(v) => match rel_target(pe, cur, v) {
                        Some(t) => {
                            proof {
                                assert(decreases_to!(atoms@ => atoms@[0]));
                                assert(decreases_to!(atoms@[0] => sub@));
                            }
                            match match_seq(pe, sub.as_slice(), t, caps) {
                                Some(rr) => match_seq(pe, rest, cur + 4, rr.1),
                                None => None,
                            }
                        },
                        None => None,
                    },
                    None => None,
                }
            } else {
                None
            }
        },
        Atom::Alt(alts) => {
            proof {
                assert(decreases_to!(atoms@ => atoms@[0]));
                assert(decreases_to!(atoms@[0] => alts@));
            }
            match try_alts(pe, alts.as_slice(), cur, caps) {
                Some(rr) => match_seq(pe, rest, rr.0, rr.1),
                None => None,
            }
        },
    }
}

/// Tries each alternative at `cur`; the first that matches wins.
fn try_alts<P: Pe>(pe: &P, alts: &[Vec<Atom>], cur: u32, caps: Vec<u32>) -> (r: Option<
    (u32, Vec<u32>),
>)
    requires
        spec_validate(pe.spec_image()) is Ok,
    ensures
        (match (r, spec_try_alts(*pe, alts@, cur, caps@)) {
            (Some(rr), Some(qq)) => rr.0 == qq.0 && rr.1@ == qq.1,
            (None, None) => true,
            _ => false,
        }),
    decreases alts@,
{
    let n = alts.len();
    if n == 0 {
        return None;
    }
    let saved = copy_caps(&caps);
    let first = slice_index_get(alts, 0);
    proof {
        assert(decreases_to!(alts@ => alts@[0]));
    }
    match match_seq(pe, first.as_slice(), cur, caps) {
        Some(rr) => Some(rr),
        None => {
            let rest = slice_subrange(alts, 1, n);
            proof {
                assert(rest@ =~= alts@.drop_first());
            }
            try_alts(pe, rest, cur, saved)
        },
    }
}

/// Every slot a successful match records stays within the view's extent:
/// the cursor only ever advances past bytes the view serves, and every
/// followed target is range-checked against the image before it is used.
pub proof fn lemma_match_slots_in_extent<P: Pe>(
    pe: P,
    atoms: Seq<Atom>,
    cur: u32,
    caps: Seq<u32>,
)
    requires
        spec_validate(pe.spec_image()) is Ok,
        cur <= pe.spec_extent(),
        forall|k: int| 0 <= k < caps.len() ==> caps[k] <= pe.spec_extent(),
        spec_match(pe, atoms, cur, caps) is Some,
    ensures
        ({
            let rr = spec_match(pe, atoms, cur, caps)->Some_0;
            &&& rr.0 <= pe.spec_extent()
            &&& forall|k: int| 0 <= k < rr.1.len() ==> rr.1[k] <= pe.spec_extent()
        }),
    decreases atoms,
{
    if atoms.len() == 0 {
    } else {
        let ext = pe.spec_extent();
        let tail = atoms.drop_first();
        match atoms[0] {
            Atom::Byte(b) => {
                pe.lemma_slice_ok(cur, 1, 1);
                lemma_match_slots_in_extent(pe, tail, (cur + 1) as u32, caps);
            },
            Atom::Nibble(m, v) => {
                pe.lemma_slice_ok(cur, 1, 1);
                lemma_match_slots_in_extent(pe, tail, (cur + 1) as u32, caps);
            },
            Atom::Any => {
                pe.lemma_slice_ok(cur, 1, 1);
                lemma_match_slots_in_extent(pe, tail, (cur + 1) as u32, caps);
            },
            Atom::Save => {
                assert forall|k: int| 0 <= k < caps.push(cur).len() implies caps.push(cur)[k]
                    <= ext by {
                    if k < caps.len() {
                        assert(caps.push(cur)[k] == caps[k]);
                    }
                }
                lemma_match_slots_in_extent(pe, tail, cur, caps.push(cur));
            },
            Atom::Ptr(sub) => {
                pe.lemma_slice_ok(cur, 4, 1);
                pe.lemma_size_extent();
                let v = spec_read4(pe, cur)->Some_0;
                let t = spec_ptr_target(pe, v)->Some_0;
                lemma_match_slots_in_extent(pe, sub@, t, caps);
                let rr = spec_match(pe, sub@, t, caps)->Some_0;
                lemma_match_slots_in_extent(pe, tail, (cur + 4) as u32, rr.1);
            },
            Atom::Rel(sub) => {
                pe.lemma_slice_ok(cur, 4, 1);
                pe.lemma_size_extent();
                let v = spec_read4(pe, cur)->Some_0;
                let t = spec_rel_target(cur, v, spec_size_of_image(pe.spec_image()))->Some_0;
                lemma_match_slots_in_extent(pe, sub@, t, caps);
                let rr = spec_match(pe, sub@, t, caps)->Some_0;
                lemma_match_slots_in_extent(pe, tail, (cur + 4) as u32, rr.1);
            },
            Atom::Alt(alts) => {
                lemma_alts_slots_in_extent(pe, alts@, cur, caps);
                let rr = spec_try_alts(pe, alts@, cur, caps)->Some_0;
                lemma_match_slots_in_extent(pe, tail, rr.0, rr.1);
            },
        }
    }
}

/// As `lemma_match_slots_in_extent`, for a list of alternatives.
proof fn lemma_alts_slots_in_extent<P: Pe>(pe: P, alts: Seq<Vec<Atom>>, cur: u32, caps: Seq<u32>)
    requires
        spec_validate(pe.spec_image()) is Ok,
        cur <= pe.spec_extent(),
        forall|k: int| 0 <= k < caps.len() ==> caps[k] <= pe.spec_extent(),
        spec_try_alts(pe, alts, cur, caps) is Some,
    ensures
        ({
            let rr = spec_try_alts(pe, alts, cur, caps)->Some_0;
            &&& rr.0 <= pe.spec_extent()
            &&& forall|k: int| 0 <= k < rr.1.len() ==> rr.1[k] <= pe.spec_extent()
        }),
    decreases alts,
{
    if alts.len() > 0 {
        if spec_match(pe, alts[0]@, cur, caps) is Some {
            lemma_match_slots_in_extent(pe, alts[0]@, cur, caps);
        } else {
            lemma_alts_slots_in_extent(pe, alts.drop_first(), cur, caps);
        }
    }
}

/// Every slot of every match a scan yields stays within the view's
/// extent.
pub proof fn lemma_exec_slots_in_extent<P: Pe>(pe: P, atoms: Seq<Atom>, start: u32)
    requires
        spec_validate(pe.spec_image()) is Ok,
        start <= pe.spec_extent(),
        spec_exec(pe, atoms, start) is Some,
    ensures
        forall|k: int|
            0 <= k < spec_exec(pe, atoms, start)->Some_0.len() ==> spec_exec(
                pe,
                atoms,
                start,
            )->Some_0[k] <= pe.spec_extent(),
{
    lemma_match_slots_in_extent(pe, atoms, start, seq![start]);
}

/// Every follow target the scanner accepts passed the in-image check:
/// both the absolute and the relative follow resolve only to an RVA
/// strictly below the declared image size.
pub proof fn lemma_follow_targets_in_image<P: Pe>(pe: P, cur: u32, v: int)
    ensures
        spec_ptr_target(pe, v) is Some ==> spec_ptr_target(pe, v)->Some_0 < spec_size_of_image(
            pe.spec_image(),
        ),
        spec_rel_target(cur, v, spec_size_of_image(pe.spec_image())) is Some ==> spec_rel_target(
            cur,
            v,
            spec_size_of_image(pe.spec_image()),
        )->Some_0 < spec_size_of_image(pe.spec_image()),
{
}

/// A match only ever extends the captures it was given: the slots handed
/// in stay in place, new ones are appended after them.
pub proof fn lemma_match_extends_caps<P: Pe>(pe: P, atoms: Seq<Atom>, cur: u32, caps: Seq<u32>)
    requires
        spec_match(pe, atoms, cur, caps) is Some,
    ensures
        ({
            let rr = spec_match(pe, atoms, cur, caps)->Some_0;
            &&& rr.1.len() >= caps.len()
            &&& forall|k: int| 0 <= k < caps.len() ==> rr.1[k] == caps[k]
        }),
    decreases atoms,
{
    if atoms.len() == 0 {
    } else {
        let tail = atoms.drop_first();
        match atoms[0] {
            Atom::Byte(b) => {
                lemma_match_extends_caps(pe, tail, (cur + 1) as u32, caps);
            },
            Atom::Nibble(m, v) => {
                lemma_match_extends_caps(pe, tail, (cur + 1) as u32, caps);
            },
            Atom::Any => {
                lemma_match_extends_caps(pe, tail, (cur + 1) as u32, caps);
            },
            Atom::Save => {
                lemma_match_extends_caps(pe, tail, cur, caps.push(cur));
                let rr = spec_match(pe, tail, cur, caps.push(cur))->Some_0;
                assert forall|k: int| 0 <= k < caps.len() implies rr.1[k] == caps[k] by {
                    assert(rr.1[k] == caps.push(cur)[k]);
                }
            },
            Atom::Ptr(sub) => {
                let v = spec_read4(pe, cur)->Some_0;
                let t = spec_ptr_target(pe, v)->Some_0;
                lemma_match_extends_caps(pe, sub@, t, caps);
                let rr = spec_match(pe, sub@, t, caps)->Some_0;
                lemma_match_extends_caps(pe, tail, (cur + 4) as u32, rr.1);
                let rr2 = spec_match(pe, tail, (cur + 4) as u32, rr.1)->Some_0;
                assert forall|k: int| 0 <= k < caps.len() implies rr2.1[k] == caps[k] by {
                    assert(rr2.1[k] == rr.1[k]);
                    assert(rr.1[k] == caps[k]);
                }
            },
            Atom::Rel(sub) => {
                let v = spec_read4(pe, cur)->Some_0;
                let t = spec_rel_target(cur, v, spec_size_of_image(pe.spec_image()))->Some_0;
                lemma_match_extends_caps(pe, sub@, t, caps);
                let rr = spec_match(pe, sub@, t, caps)->Some_0;
                lemma_match_extends_caps(pe, tail, (cur + 4) as u32, rr.1);
                let rr2 = spec_match(pe, tail, (cur + 4) as u32, rr.1)->Some_0;
                assert forall|k: int| 0 <= k < caps.len() implies rr2.1[k] == caps[k] by {
                    assert(rr2.1[k] == rr.1[k]);
                    assert(rr.1[k] == caps[k]);
                }
            },
            Atom::Alt(alts) => {
                lemma_alts_extend_caps(pe, alts@, cur, caps);
                let rr = spec_try_alts(pe, alts@, cur, caps)->Some_0;
                lemma_match_extends_caps(pe, tail, rr.0, rr.1);
                let rr2 = spec_match(pe, tail, rr.0, rr.1)->Some_0;
                assert forall|k: int| 0 <= k < caps.len() implies rr2.1[k] == caps[k] by {
                    assert(rr2.1[k] == rr.1[k]);
                    assert(rr.1[k] == caps[k]);
                }
            },
        }
    }
}

/// As `lemma_match_extends_caps`, for a list of alternatives.
proof fn lemma_alts_extend_caps<P: Pe>(pe: P, alts: Seq<Vec<Atom>>, cur: u32, caps: Seq<u32>)
    requires
        spec_try_alts(pe, alts, cur, caps) is Some,
    ensures
        ({
            let rr = spec_try_alts(pe, alts, cur, caps)->Some_0;
            &&& rr.1.len() >= caps.len()
            &&& forall|k: int| 0 <= k < caps.len() ==> rr.1[k] == caps[k]
        }),
    decreases alts,
{
    if alts.len() > 0 {
        if spec_match(pe, alts[0]@, cur, caps) is Some {
            lemma_match_extends_caps(pe, alts[0]@, cur, caps);
        } else {
            lemma_alts_extend_caps(pe, alts.drop_first(), cur, caps);
        }
    }
}

/// Whether a match list is sound for an image of the given size: it holds
/// its start in slot `0`, inside the image, and every slot stays within
/// the image bounds.
pub open spec fn spec_match_in_image(m: Seq<u32>, size: int) -> bool {
    &&& m.len() >= 1
    &&& m[0] < size
    &&& forall|k: int| 0 <= k < m.len() ==> m[k] <= size
}

/// Every slot of a successful match stays within the declared image, on
/// any view whose extent is the image size: slot `0` is the start, every
/// capture is at most `SizeOfImage` — a capture written after the very
/// last byte of the image names the one-past-the-end cursor, which is why
/// the bound is inclusive — and every follow target is strictly inside.
pub proof fn lemma_exec_slots_in_image<P: Pe>(pe: P, atoms: Seq<Atom>, start: u32)
    requires
        spec_validate(pe.spec_image()) is Ok,
        pe.spec_extent() == spec_size_of_image(pe.spec_image()),
        start < spec_size_of_image(pe.spec_image()),
        spec_exec(pe, atoms, start) is Some,
    ensures
        spec_match_in_image(
            spec_exec(pe, atoms, start)->Some_0,
            spec_size_of_image(pe.spec_image()),
        ),
{
    let size = spec_size_of_image(pe.spec_image());
    assert(seq![start][0] == start);
    lemma_match_slots_in_extent(pe, atoms, start, seq![start]);
    lemma_match_extends_caps(pe, atoms, start, seq![start]);
    let rr = spec_match(pe, atoms, start, seq![start])->Some_0;
    let m = spec_exec(pe, atoms, start)->Some_0;
    assert(m == rr.1);
    assert(m[0] == start);
    assert forall|k: int| 0 <= k < m.len() implies m[k] <= size by {
        assert(rr.1[k] <= pe.spec_extent());
    }
}

/// As `lemma_exec_slots_in_image`, for every match of a range scan whose
/// starts lie inside the image.
proof fn lemma_scan_range_slots_in_image<P: Pe>(pe: P, atoms: Seq<Atom>, lo: int, hi: int)
    requires
        spec_validate(pe.spec_image()) is Ok,
        pe.spec_extent() == spec_size_of_image(pe.spec_image()),
        hi <= spec_size_of_image(pe.spec_image()),
    ensures
        forall|i: int|
            0 <= i < spec_scan_range(pe, atoms, lo, hi).len() ==> spec_match_in_image(
                #[trigger] spec_scan_range(pe, atoms, lo, hi)[i],
                spec_size_of_image(pe.spec_image()),
            ),
    decreases hi - lo,
{
    let size = spec_size_of_image(pe.spec_image());
    if lo < hi && 0 <= lo && lo <= 0xFFFFFFFF {
        lemma_scan_range_slots_in_image(pe, atoms, lo + 1, hi);
        let rest = spec_scan_range(pe, atoms, lo + 1, hi);
        if spec_exec(pe, atoms, lo as u32) is Some {
            lemma_exec_slots_in_image(pe, atoms, lo as u32);
            let m = spec_exec(pe, atoms, lo as u32)->Some_0;
            assert forall|i: int| 0 <= i < (seq![m] + rest).len() implies spec_match_in_image(
                #[trigger] (seq![m] + rest)[i],
                size,
            ) by {
                if i == 0 {
                    assert((seq![m] + rest)[0] == m);
                } else {
                    assert((seq![m] + rest)[i] == rest[i - 1]);
                }
            }
        }
    }
}

/// As `lemma_matches_code_slots_in_image`, from section `si` on.
proof fn lemma_mc_from_slots_in_image<P: Pe>(pe: P, atoms: Seq<Atom>, si: int)
    requires
        spec_validate(pe.spec_image()) is Ok,
        pe.spec_extent() == spec_size_of_image(pe.spec_image()),
    ensures
        forall|i: int|
            0 <= i < spec_matches_code_from(pe, atoms, si).len() ==> spec_match_in_image(
                #[trigger] spec_matches_code_from(pe, atoms, si)[i],
                spec_size_of_image(pe.spec_image()),
            ),
    decreases spec_number_of_sections(pe.spec_image()) - si,
{
    let img = pe.spec_image();
    let size = spec_size_of_image(img);
    if 0 <= si < spec_number_of_sections(img) {
        lemma_validate_ok(img);
        let s = spec_section(img, si);
        assert(s.VirtualAddress + s.VirtualSize <= size);
        let part = if spec_section_scanned(s) {
            spec_scan_range(pe, atoms, s.VirtualAddress as int, s.VirtualAddress + s.VirtualSize)
        } else {
            Seq::<Seq<u32>>::empty()
        };
        if spec_section_scanned(s) {
            lemma_scan_range_slots_in_image(
                pe,
                atoms,
                s.VirtualAddress as int,
                s.VirtualAddress + s.VirtualSize,
            );
        }
        lemma_mc_from_slots_in_image(pe, atoms, si + 1);
        let rest = spec_matches_code_from(pe, atoms, si + 1);
        assert forall|i: int| 0 <= i < (part + rest).len() implies spec_match_in_image(
            #[trigger] (part + rest)[i],
            size,
        ) by {
            if i < part.len() {
                assert((part + rest)[i] == part[i]);
            } else {
                assert((part + rest)[i] == rest[i - part.len()]);
            }
        }
    }
}

/// On any view whose extent is the declared image size, every match a
/// whole-image code scan yields is sound: slot `0` is a start inside the
/// image and every slot stays within the image bounds.
pub proof fn lemma_matches_code_slots_in_image<P: Pe>(pe: P, atoms: Seq<Atom>)
    requires
        spec_validate(pe.spec_image()) is Ok,
        pe.spec_extent() == spec_size_of_image(pe.spec_image()),
    ensures
        forall|i: int|
            0 <= i < spec_matches_code(pe, atoms).len() ==> spec_match_in_image(
                #[trigger] spec_matches_code(pe, atoms)[i],
                spec_size_of_image(pe.spec_image()),
            ),
{
    lemma_mc_from_slots_in_image(pe, atoms, 0);
}

/// A mapped view's extent is the declared image size, so every match of a
/// scan over it stays within the image.
pub proof fn lemma_view_matches_in_image<'a>(pe: crate::pe64::view::PeView<'a>, atoms: Seq<Atom>)
    requires
        spec_validate(pe.spec_image()) is Ok,
    ensures
        forall|i: int|
            0 <= i < spec_matches_code(pe, atoms).len() ==> spec_match_in_image(
                #[trigger] spec_matches_code(pe, atoms)[i],
                spec_size_of_image(pe.spec_image()),
            ),
{
    lemma_matches_code_slots_in_image(pe, atoms);
}

/// On a file view of an image whose sections keep their raw data inside
/// the declared size, every match of a scan stays within the image. A
/// section declaring raw data past `SizeOfImage` can carry a match beyond
/// it; such images are the ones this bound leaves out.
pub proof fn lemma_file_matches_in_image<'a>(pe: crate::pe64::file::PeFile<'a>, atoms: Seq<Atom>)
    requires
        spec_validate(pe.spec_image()) is Ok,
        crate::pe64::file::spec_raw_within_image(pe.spec_image()),
    ensures
        forall|i: int|
            0 <= i < spec_matches_code(pe, atoms).len() ==> spec_match_in_image(
                #[trigger] spec_matches_code(pe, atoms)[i],
                spec_size_of_image(pe.spec_image()),
            ),
{
    crate::pe64::file::lemma_file_extent_exact(pe.spec_image());
    lemma_matches_code_slots_in_image(pe, atoms);
}

/// Matching is a pure function of the image bytes: two views over equal
/// blobs match every pattern alike.
pub proof fn lemma_match_pure<P: Pe>(pe1: P, pe2: P, atoms: Seq<Atom>, cur: u32, caps: Seq<u32>)
    requires
        pe1.spec_image() == pe2.spec_image(),
    ensures
        spec_match(pe1, atoms, cur, caps) == spec_match(pe2, atoms, cur, caps),
    decreases atoms,
{
    if atoms.len() > 0 {
        pe1.lemma_slice_pure(&pe2, cur, 1, 1);
        pe1.lemma_slice_pure(&pe2, cur, 4, 1);
        let tail = atoms.drop_first();
        match atoms[0] {
            Atom::Byte(b) => {
                if spec_read1(pe1, cur) is Some && cur < 0xFFFFFFFFu32 {
                    lemma_match_pure(pe1, pe2, tail, (cur + 1) as u32, caps);
                }
            },
            Atom::Nibble(m, v) => {
                if spec_read1(pe1, cur) is Some && cur < 0xFFFFFFFFu32 {
                    lemma_match_pure(pe1, pe2, tail, (cur + 1) as u32, caps);
                }
            },
            Atom::Any => {
                if spec_read1(pe1, cur) is Some && cur < 0xFFFFFFFFu32 {
                    lemma_match_pure(pe1, pe2, tail, (cur + 1) as u32, caps);
                }
            },
            Atom::Save => {
                lemma_match_pure(pe1, pe2, tail, cur, caps.push(cur));
            },
            Atom::Ptr(sub) => {
                if cur <= 0xFFFFFFFBu32 && spec_read4(pe1, cur) is Some {
                    let v = spec_read4(pe1, cur)->Some_0;
                    if spec_ptr_target(pe1, v) is Some {
                        let t = spec_ptr_target(pe1, v)->Some_0;
                        lemma_match_pure(pe1, pe2, sub@, t, caps);
                        if spec_match(pe1, sub@, t, caps) is Some {
                            let rr = spec_match(pe1, sub@, t, caps)->Some_0;
                            lemma_match_pure(pe1, pe2, tail, (cur + 4) as u32, rr.1);
                        }
                    }
                }
            },
            Atom::Rel(sub) => {
                if cur <= 0xFFFFFFFBu32 && spec_read4(pe1, cur) is Some {
                    let v = spec_read4(pe1, cur)->Some_0;
                    let size = spec_size_of_image(pe1.spec_image());
                    if spec_rel_target(cur, v, size) is Some {
                        let t = spec_rel_target(cur, v, size)->Some_0;
                        lemma_match_pure(pe1, pe2, sub@, t, caps);
                        if spec_match(pe1, sub@, t, caps) is Some {
                            let rr = spec_match(pe1, sub@, t, caps)->Some_0;
                            lemma_match_pure(pe1, pe2, tail, (cur + 4) as u32, rr.1);
                        }
                    }
                }
            },
            Atom::Alt(alts) => {
                lemma_alts_pure(pe1, pe2, alts@, cur, caps);
                if spec_try_alts(pe1, alts@, cur, caps) is Some {
                    let rr = spec_try_alts(pe1, alts@, cur, caps)->Some_0;
                    lemma_match_pure(pe1, pe2, tail, rr.0, rr.1);
                }
            },
        }
    }
}

/// As `lemma_match_pure`, for a list of alternatives.
proof fn lemma_alts_pure<P: Pe>(pe1: P, pe2: P, alts: Seq<Vec<Atom>>, cur: u32, caps: Seq<u32>)
    requires
        pe1.spec_image() == pe2.spec_image(),
    ensures
        spec_try_alts(pe1, alts, cur, caps) == spec_try_alts(pe2, alts, cur, caps),
    decreases alts,
{
    if alts.len() > 0 {
        lemma_match_pure(pe1, pe2, alts[0]@, cur, caps);
        lemma_alts_pure(pe1, pe2, alts.drop_first(), cur, caps);
    }
}

/// A whole code scan is a pure function of the image bytes and the
/// pattern: the same sequence of matches comes from every view over the
/// same blob, every time.
pub proof fn lemma_matches_code_pure<P: Pe>(pe1: P, pe2: P, atoms: Seq<Atom>)
    requires
        pe1.spec_image() == pe2.spec_image(),
    ensures
        spec_matches_code(pe1, atoms) == spec_matches_code(pe2, atoms),
{
    lemma_matches_code_from_pure(pe1, pe2, atoms, 0);
}

/// As `lemma_matches_code_pure`, from section `si` on.
proof fn lemma_matches_code_from_pure<P: Pe>(pe1: P, pe2: P, atoms: Seq<Atom>, si: int)
    requires
        pe1.spec_image() == pe2.spec_image(),
    ensures
        spec_matches_code_from(pe1, atoms, si) == spec_matches_code_from(pe2, atoms, si),
    decreases spec_number_of_sections(pe1.spec_image()) - si,
{
    let img = pe1.spec_image();
    if 0 <= si < spec_number_of_sections(img) {
        let s = spec_section(img, si);
        lemma_scan_range_pure(pe1, pe2, atoms, s.VirtualAddress as int, s.VirtualAddress
            + s.VirtualSize);
        lemma_matches_code_from_pure(pe1, pe2, atoms, si + 1);
    }
}

/// As `lemma_matches_code_pure`, for one range of start RVAs.
proof fn lemma_scan_range_pure<P: Pe>(pe1: P, pe2: P, atoms: Seq<Atom>, lo: int, hi: int)
    requires
        pe1.spec_image() == pe2.spec_image(),
    ensures
        spec_scan_range(pe1, atoms, lo, hi) == spec_scan_range(pe2, atoms, lo, hi),
    decreases hi - lo,
{
    if lo < hi && 0 <= lo <= 0xFFFFFFFF {
        lemma_match_pure(pe1, pe2, atoms, lo as u32, seq![lo as u32]);
        lemma_scan_range_pure(pe1, pe2, atoms, lo + 1, hi);
    }
}

/// A scanner over a view: executes compiled patterns against it.
pub struct Scanner<P: Pe> {
    pe: P,
}

/// The match lists of a range of start RVAs, in ascending order.
pub open spec fn spec_scan_range<P: Pe>(pe: P, atoms: Seq<Atom>, lo: int, hi: int) -> Seq<
    Seq<u32>,
>
    decreases hi - lo,
{
    if lo >= hi || lo < 0 || lo > 0xFFFFFFFF {
        Seq::empty()
    } else {
        let rest = spec_scan_range(pe, atoms, lo + 1, hi);
        match spec_exec(pe, atoms, lo as u32) {
            Some(m) => seq![m] + rest,
            None => rest,
        }
    }
}

/// Whether a section holds code the scanner walks.
pub open spec fn spec_section_scanned(s: ImageSectionHeader) -> bool {
    s.Characteristics & (IMAGE_SCN_CNT_CODE | IMAGE_SCN_MEM_EXECUTE) != 0
}

/// The matches of every executable section from index `si` on, sections
/// in table order, starts in ascending order within each.
pub open spec fn spec_matches_code_from<P: Pe>(pe: P, atoms: Seq<Atom>, si: int) -> Seq<Seq<u32>>
    decreases spec_number_of_sections(pe.spec_image()) - si,
{
    let img = pe.spec_image();
    if si < 0 || si >= spec_number_of_sections(img) {
        Seq::empty()
    } else {
        let s = spec_section(img, si);
        let part = if spec_section_scanned(s) {
            spec_scan_range(pe, atoms, s.VirtualAddress as int, s.VirtualAddress + s.VirtualSize)
        } else {
            Seq::empty()
        };
        part + spec_matches_code_from(pe, atoms, si + 1)
    }
}

/// Every match of the pattern across the image's executable sections.
pub open spec fn spec_matches_code<P: Pe>(pe: P, atoms: Seq<Atom>) -> Seq<Seq<u32>> {
    spec_matches_code_from(pe, atoms, 0)
}

/// The views of a list of matches.
pub open spec fn spec_match_views(r: Seq<Vec<u32>>) -> Seq<Seq<u32>> {
    Seq::new(r.len(), |i: int| r[i]@)
}

impl<P: Pe> Scanner<P> {
    /// The view this scanner reads.
    pub closed spec fn spec_pe(&self) -> P {
        self.pe
    }

    /// A scanner over the given view.
    pub fn new(pe: P) -> (s: Scanner<P>)
        ensures
            s.spec_pe() == pe,
    {
        Scanner { pe }
    }

    /// Attempts to match the pattern at `start` exactly. Slot `0` of the
    /// match is `start`; the captures follow in firing order.
    pub fn exec(&self, pat: &Pattern, start: u32) -> (r: Option<Vec<u32>>)
        requires
            spec_validate(self.spec_pe().spec_image()) is Ok,
        ensures
            (match (r, spec_exec(self.spec_pe(), pat.spec_atoms(), start)) {
                (Some(v), Some(q)) => v@ == q,
                (None, None) => true,
                _ => false,
            }),
    {
        let mut caps: Vec<u32> = Vec::new();
        caps.push(start);
        proof {
            assert(caps@ =~= seq![start]);
        }
        match match_seq(&self.pe, pat.atoms.as_slice(), start, caps) {
            Some(rr) => Some(rr.1),
            None => None,
        }
    }

    /// Scans every executable section and returns all matches: sections in
    /// table order, starts in ascending order within each. A scan that
    /// finds nothing returns the empty list, not an error.
    pub fn matches_code(&self, pat: &Pattern) -> (r: Vec<Vec<u32>>)
        requires
            spec_validate(self.spec_pe().spec_image()) is Ok,
        ensures
            spec_match_views(r@) == spec_matches_code(self.spec_pe(), pat.spec_atoms()),
    {
        let ghost pe_g = self.spec_pe();
        let ghost atoms_g = pat.spec_atoms();
        let image = self.pe.image();
        proof {
            lemma_validate_ok(image@);
        }
        let nsec = read_number_of_sections(image);
        let mut r: Vec<Vec<u32>> = Vec::new();
        let mut si: usize = 0;
        while si < nsec
            invariant
                spec_validate(self.spec_pe().spec_image()) is Ok,
                pe_g == self.spec_pe(),
                atoms_g == pat.spec_atoms(),
                image@ == self.spec_pe().spec_image(),
                nsec == spec_number_of_sections(image@),
                0 <= si <= nsec,
                spec_matches_code(pe_g, atoms_g) =~= spec_match_views(r@)
                    + spec_matches_code_from(pe_g, atoms_g, si as int),
            decreases nsec - si,
        {
            let s = section_header_at(image, si);
            if s.Characteristics & (IMAGE_SCN_CNT_CODE | IMAGE_SCN_MEM_EXECUTE) != 0 {
                proof {
                    assert(spec_sections_sane(image@));
                    assert(spec_section(image@, si as int).VirtualAddress + spec_section(
                        image@,
                        si as int,
                    ).VirtualSize <= spec_size_of_image(image@));
                }
                let ve: u32 = ((s.VirtualAddress as u64 + s.VirtualSize as u64) as u32);
                let mut rva: u32 = s.VirtualAddress;
                while rva < ve
                    invariant
                        spec_validate(self.spec_pe().spec_image()) is Ok,
                        pe_g == self.spec_pe(),
                        atoms_g == pat.spec_atoms(),
                        s.VirtualAddress <= rva <= ve,
                        ve == s.VirtualAddress + s.VirtualSize,
                        spec_matches_code(pe_g, atoms_g) =~= spec_match_views(r@)
                            + spec_scan_range(pe_g, atoms_g, rva as int, ve as int)
                            + spec_matches_code_from(pe_g, atoms_g, si as int + 1),
                    decreases ve - rva,
                {
                    match self.exec(pat, rva) {
                        Some(m) => {
                            proof {
                                assert(spec_match_views(r@.push(m)) =~= spec_match_views(
                                    r@,
                                ).push(m@));
                            }
                            r.push(m);
                        },
                        None => {
                        },
                    }
                    rva = rva + 1;
                }
            }
            si = si + 1;
        }
        proof {
            assert(spec_match_views(r@) =~= spec_matches_code(pe_g, atoms_g));
        }
        r
    }
}

} // verus!
