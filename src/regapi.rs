use vstd::prelude::*;

verus! {

/// A handle on a contiguous aperture of 32-bit device registers.
///
/// The handle does not own the device: two handles may name the same base.
#[derive(Clone, Copy, Debug, PartialEq, Eq, Structural)]
pub struct RegFile {
    base: usize,
}

impl RegFile {
    /// The base address of the aperture.
    pub closed spec fn base_spec(&self) -> usize {
        self.base
    }

    /// The register file whose aperture starts at `address`.
    pub fn at_addr(address: usize) -> (r: RegFile)
        ensures
            r.base_spec() == address,
    {
        RegFile { base: address }
    }

    /// The base address of the aperture.
    pub fn base(&self) -> (r: usize)
        ensures
            r == self.base_spec(),
    {
        self.base
    }

    /// The address of the register at `reg_offset`, or `None` where it does
    /// not fit in a machine word.
    pub fn reg_addr(&self, reg_offset: u32) -> (r: Option<usize>)
        ensures
            r == (if self.base_spec() + reg_offset <= usize::MAX {
                Some((self.base_spec() + reg_offset) as usize)
            } else {
                None::<usize>
            }),
    {
        let off = reg_offset as usize;
        if off <= usize::MAX - self.base {
            Some(self.base + off)
        } else {
            None
        }
    }
}

} // verus!
