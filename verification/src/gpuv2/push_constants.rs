//! Push-constant range descriptions, sized by the payload type.
use vstd::prelude::*;

verus! {

/// One push-constant range: which stages read it, where it starts and how
/// many bytes it covers.
#[derive(Clone, Copy, Debug, PartialEq, Eq, Structural)]
pub struct PushConstantRange {
    pub stage_flags: u32,
    pub offset: u32,
    pub size: u32,
}

/// An accumulating list of push-constant ranges.
#[derive(Clone, Debug)]
pub struct Ranges {
    pub ranges: Vec<PushConstantRange>,
}

impl Ranges {
    pub fn new() -> (r: Self)
        ensures
            r.ranges@.len() == 0,
    {
        Ranges { ranges: Vec::new() }
    }

    /// Appends a range covering one value of `T` at `offset`, visible to
    /// `flags`.
    pub fn add<T>(self, offset: u32, flags: u32) -> (r: Self)
        requires
            vstd::layout::size_of::<T>() <= u32::MAX,
        ensures
            r.ranges@ == self.ranges@.push(
                PushConstantRange {
                    stage_flags: flags,
                    offset,
                    size: vstd::layout::size_of::<T>() as u32,
                },
            ),
    {
        let size = core::mem::size_of::<T>();
        let range = PushConstantRange { stage_flags: flags, offset, size: size as u32 };
        let mut ranges = self.ranges;
        ranges.push(range);
        Ranges { ranges }
    }

    /// The ranges recorded so far, in recorded order.
    pub fn build(&self) -> (r: &[PushConstantRange])
        ensures
            r@ == self.ranges@,
    {
        self.ranges.as_slice()
    }
}

} // verus!
