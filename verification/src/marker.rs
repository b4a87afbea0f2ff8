//! The two tagged sources and the marker byte sequences that
//! distinguish them in the combined destination stream.

use vstd::prelude::*;

verus! {

/// Which of the two tagged inputs a chunk came from.  Source `A`
/// carries standard-output semantics and is shown in the default
/// style; source `B` carries standard-error semantics and is shown
/// highlighted.  The enumeration is closed: every match on it is
/// exhaustive without a fallback arm.
#[derive(Clone, Copy, Debug, PartialEq, Eq, Structural)]
pub enum Source {
    A,
    B,
}

impl Source {
    /// The other of the two sources.
    pub open spec fn spec_other(self) -> Source {
        match self {
            Source::A => Source::B,
            Source::B => Source::A,
        }
    }

    /// Returns the other of the two sources.
    pub fn other(self) -> (r: Source)
        ensures
            r == self.spec_other(),
            r != self,
    {
        match self {
            Source::A => Source::B,
            Source::B => Source::A,
        }
    }
}

/// The default/reset marker: the ANSI SGR sequence `ESC [ 0 m`.
pub open spec fn default_marker() -> Seq<u8> {
    seq![0x1bu8, 0x5bu8, 0x30u8, 0x6du8]
}

/// The highlight marker: the ANSI SGR sequence `ESC [ 31 m`.
pub open spec fn highlight_marker() -> Seq<u8> {
    seq![0x1bu8, 0x5bu8, 0x33u8, 0x31u8, 0x6du8]
}

/// The marker sequence written when `s` becomes the active source.
pub open spec fn marker_for(s: Source) -> Seq<u8> {
    match s {
        Source::A => default_marker(),
        Source::B => highlight_marker(),
    }
}

/// Builds the default/reset marker bytes.
pub fn default_marker_bytes() -> (r: Vec<u8>)
    ensures
        r@ == default_marker(),
{
    let mut v: Vec<u8> = Vec::new();
    v.push(0x1b);
    v.push(0x5b);
    v.push(0x30);
    v.push(0x6d);
    proof {
        assert(v@ =~= default_marker());
    }
    v
}

/// Builds the marker bytes for source `s`.
pub fn marker_bytes(s: Source) -> (r: Vec<u8>)
    ensures
        r@ == marker_for(s),
{
    match s {
        Source::A => default_marker_bytes(),
        Source::B => {
            let mut v: Vec<u8> = Vec::new();
            v.push(0x1b);
            v.push(0x5b);
            v.push(0x33);
            v.push(0x31);
            v.push(0x6d);
            proof {
                assert(v@ =~= highlight_marker());
            }
            v
        },
    }
}

} // verus!
