use vstd::prelude::*;

verus! {

/// A reference to a widget of the user interface: a slot index into the
/// widget pool and the generation of that slot. Two handles name the same
/// widget exactly when both parts agree; the handle with index and generation
/// zero names no widget.
#[derive(Clone, Copy, Debug, PartialEq, Eq, Structural)]
pub struct WidgetHandle {
    pub index: u32,
    pub generation: u32,
}

impl WidgetHandle {
    pub fn new(index: u32, generation: u32) -> (r: WidgetHandle)
        ensures
            r.index == index,
            r.generation == generation,
    {
        WidgetHandle { index, generation }
    }

    /// The handle that names no widget.
    pub fn none() -> (r: WidgetHandle)
        ensures
            r.index == 0,
            r.generation == 0,
    {
        WidgetHandle { index: 0, generation: 0 }
    }

    pub open spec fn spec_is_none(&self) -> bool {
        self.index == 0 && self.generation == 0
    }

    #[verifier::when_used_as_spec(spec_is_none)]
    pub fn is_none(&self) -> (r: bool)
        ensures
            r == self.spec_is_none(),
    {
        self.index == 0 && self.generation == 0
    }
}

} // verus!
