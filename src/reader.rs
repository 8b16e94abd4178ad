use vstd::prelude::*;
use crate::error::PeCoffImageError;

verus! {

/// The status code of a read callback.
#[verifier::external_type_specification]
#[verifier::external_body]
pub struct ExStatus(r_efi::efi::Status);

/// The numeric code that a status wraps.
pub uninterp spec fn status_code(s: r_efi::efi::Status) -> usize;

/// Relies on r_efi's `Status::as_usize`, which hands back the numeric code
/// that the status wraps.
pub assume_specification[ r_efi::efi::Status::as_usize ](s: &r_efi::efi::Status) -> (r: usize)
    ensures
        r == status_code(*s),
;

/// Relies on r_efi's `Status::from_usize`, which wraps a numeric code.
pub assume_specification[ r_efi::efi::Status::from_usize ](v: usize) -> (r: r_efi::efi::Status)
    ensures
        status_code(r) == v,
;

/// The numeric code of a successful status.
pub const STATUS_SUCCESS_CODE: usize = 0;

/// A source of image bytes: the caller's read callback together with the
/// opaque handle it is given on every call.
pub trait ImageReader {
    /// Asks for `*read_size` bytes of the image at `file_offset`, to be written
    /// to `buffer`. The callee sets `*read_size` to the number of bytes it wrote.
    /// A slice keeps its length across the call.
    fn read_file(&self, file_offset: usize, read_size: &mut usize, buffer: &mut [u8]) -> (status:
        r_efi::efi::Status)
        ensures
            final(buffer)@.len() == old(buffer)@.len(),
    ;
}

/// What a read amounts to, given the status code the callback returned, the
/// count it reported as written, and the capacity of the buffer it was given.
pub open spec fn read_outcome_spec(code: usize, reported: usize, capacity: usize) -> Result<usize, PeCoffImageError> {
    if code == STATUS_SUCCESS_CODE && reported <= capacity {
        Ok(reported)
    } else {
        Err(PeCoffImageError::ImageErrorImageRead)
    }
}

/// Decides a read: a successful status with a reported count that fits the
/// buffer yields that count; anything else is a read failure.
pub fn read_outcome(code: usize, reported: usize, capacity: usize) -> (r: Result<usize, PeCoffImageError>)
    ensures
        r == read_outcome_spec(code, reported, capacity),
        code != STATUS_SUCCESS_CODE ==> r == Err::<usize, PeCoffImageError>(PeCoffImageError::ImageErrorImageRead),
        reported > capacity ==> r == Err::<usize, PeCoffImageError>(PeCoffImageError::ImageErrorImageRead),
        r matches Ok(n) ==> n == reported && n <= capacity,
{
    if code == STATUS_SUCCESS_CODE && reported <= capacity {
        Ok(reported)
    } else {
        Err(PeCoffImageError::ImageErrorImageRead)
    }
}

/// The number of bytes an in-memory image hands out for a request of
/// `requested` bytes at `offset` into a buffer of `capacity` bytes.
pub open spec fn memory_read_len(image_len: int, offset: int, requested: int, capacity: int) -> int {
    let available = if offset >= image_len { 0 } else { image_len - offset };
    let wanted = if requested <= capacity { requested } else { capacity };
    if wanted <= available { wanted } else { available }
}

/// An image that is already in memory, read through the same interface as
/// any other image source.
pub struct MemoryImage {
    bytes: Vec<u8>,
}

impl MemoryImage {
    pub closed spec fn spec_bytes(&self) -> Seq<u8> {
        self.bytes@
    }

    pub fn new(bytes: Vec<u8>) -> (r: MemoryImage)
        ensures
            r.spec_bytes() == bytes@,
    {
        MemoryImage { bytes }
    }
}

impl ImageReader for MemoryImage {
    /// Copies what the image holds at the offset, as much as was asked for
    /// and fits the buffer, and reports that count with a successful status.
    fn read_file(&self, file_offset: usize, read_size: &mut usize, buffer: &mut [u8]) -> (status:
        r_efi::efi::Status)
        ensures
            status_code(status) == STATUS_SUCCESS_CODE,
            *final(read_size) == memory_read_len(
                self.spec_bytes().len() as int,
                file_offset as int,
                *old(read_size) as int,
                old(buffer)@.len() as int,
            ),
            forall|j: int|
                0 <= j < *final(read_size) ==> #[trigger] final(buffer)@[j] == self.spec_bytes()[file_offset
                    + j],
    {
        let image_len = self.bytes.len();
        let available: usize = if file_offset >= image_len { 0 } else { image_len - file_offset };
        let wanted: usize = if *read_size <= buffer.len() { *read_size } else { buffer.len() };
        let count: usize = if wanted <= available { wanted } else { available };
        let mut i: usize = 0;
        while i < count
            invariant
                count <= buffer@.len() == old(buffer)@.len(),
                count <= available,
                available == 0 || file_offset + available == image_len,
                image_len == self.bytes@.len(),
                i <= count,
                forall|j: int| 0 <= j < i ==> buffer@[j] == self.bytes@[file_offset + j],
            decreases count - i,
        {
            buffer[i] = self.bytes[file_offset + i];
            i = i + 1;
        }
        *read_size = count;
        r_efi::efi::Status::from_usize(STATUS_SUCCESS_CODE)
    }
}

} // verus!
