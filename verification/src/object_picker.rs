//! Picking the object under the mouse cursor.
use vstd::prelude::*;

verus! {

/// Finds the object drawn at a pixel. It keeps no state yet: picking is not implemented.
pub struct ObjectPicker {}

impl ObjectPicker {
    /// A picker for a render target of `width` by `height` pixels.
    pub fn new(_width: usize, _height: usize) -> (r: ObjectPicker)
        ensures
            r == (ObjectPicker {}),
    {
        ObjectPicker {}
    }
}

} // verus!
