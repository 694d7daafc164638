//! The set of optional instruction-set extensions a hart is built with.
use vstd::prelude::*;

verus! {

#[derive(Debug, Clone, Copy, PartialEq, Eq, Structural)]
pub struct Extensions {
    pub m: bool,
    pub a: bool,
    pub c: bool,
    pub f: bool,
    pub d: bool,
}

impl Extensions {
    /// No extension enabled.
    pub fn new() -> (r: Extensions)
        ensures
            !r.m && !r.a && !r.c && !r.f && !r.d,
    {
        Extensions { m: false, a: false, c: false, f: false, d: false }
    }

    /// Width of the floating-point registers these extensions call for.
    pub open spec fn spec_flen(&self) -> u8 {
        if self.d {
            64
        } else if self.f {
            32
        } else {
            0
        }
    }
}

impl Default for Extensions {
    fn default() -> (r: Extensions)
        ensures
            !r.m && !r.a && !r.c && !r.f && !r.d,
    {
        Extensions::new()
    }
}

} // verus!
