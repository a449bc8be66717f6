//! Choosing an entity in the editor with the number pad.
use vstd::prelude::*;

verus! {

/// The entity that a key selects: pressing number-pad key 1 to 5 selects entity 0 to 4.
/// `numpad_digit` is the digit of the key when it is a number-pad digit key, and `pressed`
/// whether the key went down. Any other key, or a key release, selects nothing.
pub fn selected_entity_index(numpad_digit: Option<u8>, pressed: bool) -> (r: Option<u32>)
    ensures
        r == match numpad_digit {
            Some(d) => if pressed && 1 <= d <= 5 {
                Some((d - 1) as u32)
            } else {
                None::<u32>
            },
            None => None::<u32>,
        },
{
    match numpad_digit {
        Some(d) => {
            if pressed && 1 <= d && d <= 5 {
                Some((d - 1) as u32)
            } else {
                None
            }
        },
        None => None,
    }
}

} // verus!
