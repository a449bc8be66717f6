//! Settings of the Vulkan validation layers.
use vstd::prelude::*;

verus! {

/// Whether validation is on, and which validation layers it needs.
pub struct VkValidationInfo {
    pub is_enable: bool,
    pub required_validation_layers: [&'static str; 1],
}

impl VkValidationInfo {
    /// The names of the required layers, as owned strings, in order.
    pub fn to_vec_owned(&self) -> (r: Vec<String>)
        ensures
            r@.len() == self.required_validation_layers@.len(),
            forall|i: int|
                0 <= i < r@.len() ==> #[trigger] r@[i]@ == self.required_validation_layers@[i]@,
    {
        let mut layers: Vec<String> = Vec::new();
        let n = self.required_validation_layers.len();
        for i in 0..n
            invariant
                n == self.required_validation_layers@.len(),
                layers@.len() == i,
                forall|j: int|
                    0 <= j < i ==> #[trigger] layers@[j]@ == self.required_validation_layers@[j]@,
        {
            layers.push(self.required_validation_layers[i].to_string());
        }
        layers
    }
}

} // verus!
