use vstd::prelude::*;

use crate::cpu::register::R;

verus! {

/// A segment override, or the default segment of an operand.
#[derive(Debug, Copy, Clone, PartialEq, Eq, Structural)]
pub enum Segment {
    Default,
    CS,
    DS,
    ES,
    FS,
    GS,
    SS,
}

/// The assembler name of a segment; the default segment reads as "ds".
pub open spec fn segment_name(s: Segment) -> Seq<char> {
    match s {
        Segment::Default | Segment::DS => seq!['d', 's'],
        Segment::CS => seq!['c', 's'],
        Segment::ES => seq!['e', 's'],
        Segment::FS => seq!['f', 's'],
        Segment::GS => seq!['g', 's'],
        Segment::SS => seq!['s', 's'],
    }
}

/// The segment register that holds the base of a segment.
pub open spec fn segment_register(s: Segment) -> R {
    match s {
        Segment::Default | Segment::DS => R::DS,
        Segment::CS => R::CS,
        Segment::ES => R::ES,
        Segment::FS => R::FS,
        Segment::GS => R::GS,
        Segment::SS => R::SS,
    }
}

impl Segment {
    pub fn as_str(&self) -> (r: &'static str)
        ensures
            r@ == segment_name(*self),
    {
        match *self {
            Segment::Default | Segment::DS => {
                proof { reveal_strlit("ds"); }
                "ds"
            },
            Segment::CS => {
                proof { reveal_strlit("cs"); }
                "cs"
            },
            Segment::ES => {
                proof { reveal_strlit("es"); }
                "es"
            },
            Segment::FS => {
                proof { reveal_strlit("fs"); }
                "fs"
            },
            Segment::GS => {
                proof { reveal_strlit("gs"); }
                "gs"
            },
            Segment::SS => {
                proof { reveal_strlit("ss"); }
                "ss"
            },
        }
    }

    pub fn as_register(self) -> (r: R)
        ensures
            r == segment_register(self),
            r.is_sreg(),
    {
        match self {
            Segment::Default | Segment::DS => R::DS,
            Segment::CS => R::CS,
            Segment::ES => R::ES,
            Segment::FS => R::FS,
            Segment::GS => R::GS,
            Segment::SS => R::SS,
        }
    }
}

} // verus!
