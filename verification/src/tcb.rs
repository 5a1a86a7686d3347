//! The firmware version bundle ("TCB"): a tuple of independent monotonic
//! version counters. Ordering is component-wise, so two bundles are
//! comparable only if every component of one is at least the corresponding
//! component of the other.

use vstd::prelude::*;

verus! {

/// A firmware version bundle: one security version number per independently
/// updatable firmware component.
#[derive(Clone, Copy, Debug, PartialEq, Eq, Structural)]
pub struct TcbVersion {
    /// Security version of the secure-processor bootloader.
    pub bootloader: u8,
    /// Security version of the secure-processor operating system.
    pub tee: u8,
    /// Security version of the SNP firmware.
    pub snp: u8,
    /// Lowest microcode patch level of all cores.
    pub microcode: u8,
}

/// Component-wise order: `a` is at or below `b` when every counter of `a`
/// is at most the corresponding counter of `b`.
pub open spec fn tcb_leq(a: TcbVersion, b: TcbVersion) -> bool {
    &&& a.bootloader <= b.bootloader
    &&& a.tee <= b.tee
    &&& a.snp <= b.snp
    &&& a.microcode <= b.microcode
}

impl TcbVersion {
    /// Build a bundle from its four component versions.
    pub fn new(bootloader: u8, tee: u8, snp: u8, microcode: u8) -> (r: TcbVersion)
        ensures
            r == (TcbVersion { bootloader, tee, snp, microcode }),
    {
        TcbVersion { bootloader, tee, snp, microcode }
    }

    /// Decide the component-wise order against `other`.
    pub fn leq(&self, other: &TcbVersion) -> (r: bool)
        ensures
            r == tcb_leq(*self, *other),
    {
        self.bootloader <= other.bootloader && self.tee <= other.tee && self.snp <= other.snp
            && self.microcode <= other.microcode
    }
}

} // verus!
