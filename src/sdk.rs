//! Helpers offered to strategy authors.
use vstd::prelude::*;

use crate::wire::push_u64_le;

verus! {

/// Size in bytes of a pool's scratch storage.
pub const STORAGE_SIZE: usize = 1024;

/// Largest return-data buffer the runtime accepts.
pub const MAX_RETURN_DATA: usize = 1024;

/// Why storage could not be written.
#[derive(Clone, Copy, Debug, PartialEq, Eq, Structural)]
pub enum StorageError {
    /// The buffer is longer than the pool's storage.
    TooLarge,
}

/// Relies on pinocchio::program::set_return_data: posts `data` as the program's
/// return data (a no-op off-chain). The runtime caps the buffer at 1024 bytes.
#[verifier::external_body]
fn post_return_data(data: &[u8])
    requires
        data@.len() <= MAX_RETURN_DATA,
{
    pinocchio::program::set_return_data(data)
}

/// Posts `value`, as its eight little-endian bytes, as the program's return data.
pub fn set_return_data_u64(value: u64) {
    let mut bytes: Vec<u8> = Vec::new();
    push_u64_le(&mut bytes, value);
    post_return_data(bytes.as_slice());
}

/// Accepts `storage` to be written as the pool's storage when it fits in the
/// pool's 1024 bytes, and refuses it as `TooLarge` otherwise.
pub fn set_storage(storage: &[u8]) -> (r: Result<(), StorageError>)
    ensures
        r == (if storage@.len() > STORAGE_SIZE {
            Err::<(), StorageError>(StorageError::TooLarge)
        } else {
            Ok(())
        }),
{
    if storage.len() > STORAGE_SIZE {
        return Err(StorageError::TooLarge);
    }
    Ok(())
}

} // verus!
