use vstd::prelude::*;

verus! {

/// Number of cube faces a voxel can expose.
pub const FACE_COUNT: usize = 6;

/// A set of cube faces, stored as a bitmask with one bit per face.
///
/// Face `f` (for `0 <= f < 6`) is held by bit `face_bit(f)`, in the order
/// top, bottom, left, right, forward, backward.
#[derive(Clone, Copy, Debug, PartialEq, Eq, Structural)]
pub struct Sides {
    pub bits: u32,
}

pub const TOP: u32 = 1;

pub const BOTTOM: u32 = 2;

pub const LEFT: u32 = 4;

pub const RIGHT: u32 = 8;

pub const FORWARD: u32 = 16;

pub const BACKWARD: u32 = 32;

/// The bit that stands for face `f`.
pub open spec fn face_bit(f: int) -> u32 {
    if f == 0 {
        1
    } else if f == 1 {
        2
    } else if f == 2 {
        4
    } else if f == 3 {
        8
    } else if f == 4 {
        16
    } else {
        32
    }
}

pub open spec fn is_face_bit(b: u32) -> bool {
    b == 1 || b == 2 || b == 4 || b == 8 || b == 16 || b == 32
}

/// Whether `bits` holds face `f`.
pub open spec fn bits_have(bits: u32, f: int) -> bool {
    bits & face_bit(f) == face_bit(f)
}

proof fn lemma_or_single_bit(a: u32, b: u32, c: u32)
    requires
        is_face_bit(b),
        is_face_bit(c),
    ensures
        ((a | b) & c == c) == ((a & c == c) || b == c),
{
    assert(((a | b) & c == c) == ((a & c == c) || b == c)) by (bit_vector)
        requires
            b == 1 || b == 2 || b == 4 || b == 8 || b == 16 || b == 32,
            c == 1 || c == 2 || c == 4 || c == 8 || c == 16 || c == 32,
    ;
}

proof fn lemma_or_bound(a: u32, b: u32)
    requires
        a < 64,
        b < 64,
    ensures
        a | b < 64,
{
    assert(a | b < 64) by (bit_vector)
        requires
            a < 64,
            b < 64,
    ;
}

proof fn lemma_zero_has_none(f: int)
    ensures
        !bits_have(0, f),
{
    let b = face_bit(f);
    assert(is_face_bit(b));
    assert(0u32 & b != b) by (bit_vector)
        requires
            b == 1 || b == 2 || b == 4 || b == 8 || b == 16 || b == 32,
    ;
}

impl Sides {
    /// Whether face `f` is in the set.
    pub open spec fn has(self, f: int) -> bool {
        bits_have(self.bits, f)
    }

    /// The set as six flags, one per face in table order.
    pub open spec fn faces(self) -> Seq<bool> {
        Seq::new(6, |f: int| self.has(f))
    }

    /// Well formed: only the six face bits may be set.
    pub open spec fn wf(self) -> bool {
        self.bits < 64
    }

    /// The empty set.
    pub fn none() -> (r: Sides)
        ensures
            r.bits == 0,
            r.wf(),
    {
        Sides { bits: 0 }
    }

    /// The single-face set for face `f`, in table order.
    pub fn face(f: usize) -> (r: Sides)
        requires
            f < FACE_COUNT,
        ensures
            r.bits == face_bit(f as int),
            r.wf(),
    {
        let bits = if f == 0 {
            TOP
        } else if f == 1 {
            BOTTOM
        } else if f == 2 {
            LEFT
        } else if f == 3 {
            RIGHT
        } else if f == 4 {
            FORWARD
        } else {
            BACKWARD
        };
        Sides { bits }
    }

    /// Whether every face of `other` is in `self`.
    pub fn contains(&self, other: Sides) -> (r: bool)
        ensures
            r == (self.bits & other.bits == other.bits),
    {
        self.bits & other.bits == other.bits
    }

    /// Adds the faces of `other` to `self`.
    pub fn insert(&mut self, other: Sides)
        ensures
            final(self).bits == old(self).bits | other.bits,
    {
        self.bits = self.bits | other.bits;
    }
}

/// Adding face `g` to a set gains exactly that face and keeps every other one.
pub proof fn lemma_insert_face(s: Sides, g: int, f: int)
    requires
        0 <= g < 6,
        0 <= f < 6,
        s.wf(),
    ensures
        bits_have(s.bits | face_bit(g), f) == (s.has(f) || f == g),
        (s.bits | face_bit(g)) < 64,
{
    lemma_or_single_bit(s.bits, face_bit(g), face_bit(f));
    lemma_or_bound(s.bits, face_bit(g));
}

/// The empty set holds no face.
pub proof fn lemma_none_empty(f: int)
    ensures
        !bits_have(0, f),
{
    lemma_zero_has_none(f);
}

} // verus!
