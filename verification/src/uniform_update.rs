//! The checks made before a uniform object is written into its uniform buffer.
use vstd::prelude::*;

verus! {

/// Why a uniform object cannot be written into its uniform buffer.
#[derive(Clone, Copy, Debug, PartialEq, Eq, Structural)]
pub enum UniformUpdateError {
    /// The shader has no uniform buffer at all.
    NoUniformBuffers,
    /// No uniform object has the given index.
    NoUniformObject,
    /// No uniform buffer has the given index.
    NoUniformBuffer,
    /// The uniform object's size is not the size that its buffer was made for.
    SizeMismatch,
}

/// Checks an update of uniform object `object_index`: there must be uniform buffers, an
/// object and a buffer with that index, and the object must have the size its buffer was
/// made for. On success, the number of bytes to write: the object's size.
pub fn check_uniform_update(
    buffer_sizes: &Vec<usize>,
    object_sizes: &Vec<usize>,
    object_index: usize,
) -> (r: Result<usize, UniformUpdateError>)
    ensures
        r == Err::<usize, UniformUpdateError>(UniformUpdateError::NoUniformBuffers)
            <==> buffer_sizes@.len() == 0,
        r == Err::<usize, UniformUpdateError>(UniformUpdateError::NoUniformObject) <==> (
        buffer_sizes@.len() > 0 && object_index >= object_sizes@.len()),
        r == Err::<usize, UniformUpdateError>(UniformUpdateError::NoUniformBuffer) <==> (
        buffer_sizes@.len() > 0 && object_index < object_sizes@.len() && object_index
            >= buffer_sizes@.len()),
        r == Err::<usize, UniformUpdateError>(UniformUpdateError::SizeMismatch) <==> (
        object_index < object_sizes@.len() && object_index < buffer_sizes@.len()
            && buffer_sizes@[object_index as int] != object_sizes@[object_index as int]),
        r is Ok <==> (object_index < object_sizes@.len() && object_index < buffer_sizes@.len()
            && buffer_sizes@[object_index as int] == object_sizes@[object_index as int]),
        r matches Ok(n) ==> n == object_sizes@[object_index as int],
{
    if buffer_sizes.len() == 0 {
        Err(UniformUpdateError::NoUniformBuffers)
    } else if object_index >= object_sizes.len() {
        Err(UniformUpdateError::NoUniformObject)
    } else if object_index >= buffer_sizes.len() {
        Err(UniformUpdateError::NoUniformBuffer)
    } else if buffer_sizes[object_index] != object_sizes[object_index] {
        Err(UniformUpdateError::SizeMismatch)
    } else {
        Ok(object_sizes[object_index])
    }
}

} // verus!
