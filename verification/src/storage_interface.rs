//! Interfaces for log storage devices.
//!
//! Reads and appends move a byte buffer to the device and get it back
//! through the matching client callback when the operation completes.
//! Clients are referred to by small integer handles, as elsewhere in
//! this crate.

use vstd::prelude::*;

verus! {

use crate::return_code::ReturnCode;

/// A length in bytes within a storage interface.
pub type StorageLen = usize;

/// Outcome of starting a storage operation: accepted, or refused with a
/// code and the caller's buffer handed back.
pub type OperationResult = Result<(), (ReturnCode, Option<Vec<u8>>)>;

/// A seekable position within a storage interface: the very beginning,
/// or a position whose representation is up to the implementer.
#[derive(Clone, Copy, Debug, PartialEq, Eq, Structural)]
pub enum StorageCookie {
    SeekBeginning,
    Cookie(usize),
}

/// Reading from log storage.
pub trait LogRead {
    /// Register the client called when read operations complete.
    fn set_read_client(&mut self, read_client: u32);

    /// Read `length` bytes into `buffer`, starting from the current read
    /// position.
    fn read(&mut self, buffer: Vec<u8>, length: StorageLen) -> OperationResult;

    /// The cookie for the current read position.
    fn current_read_offset(&self) -> StorageCookie;

    /// Seek to a new read position.
    fn seek(&mut self, offset: StorageCookie) -> ReturnCode;

    /// Approximate log capacity in bytes.
    fn get_size(&self) -> StorageLen;
}

/// Receives the completions of [`LogRead`] operations.
pub trait LogReadClient {
    /// A read completed: the buffer comes back with `length` bytes.
    fn read_done(&mut self, buffer: Vec<u8>, length: StorageLen, error: ReturnCode);

    /// A seek completed.
    fn seek_done(&mut self, error: ReturnCode);
}

/// Writing to log storage.
pub trait LogWrite {
    /// Register the client called when append operations complete.
    fn set_append_client(&mut self, append_client: u32);

    /// Append `length` bytes of `buffer` to the end of the log.
    fn append(&mut self, buffer: Vec<u8>, length: StorageLen) -> OperationResult;

    /// The cookie for the current append position.
    fn current_append_offset(&self) -> StorageCookie;

    /// Sync the log to storage.
    fn sync(&mut self) -> ReturnCode;

    /// Erase the entire log.
    fn erase(&mut self) -> ReturnCode;
}

/// Receives the completions of [`LogWrite`] operations.
pub trait LogWriteClient {
    /// An append completed: the buffer comes back, with whether earlier
    /// records were lost to make room.
    fn append_done(
        &mut self,
        buffer: Vec<u8>,
        length: StorageLen,
        records_lost: bool,
        error: ReturnCode,
    );

    /// A sync completed.
    fn sync_done(&mut self, error: ReturnCode);

    /// An erase completed.
    fn erase_done(&mut self, error: ReturnCode);
}

} // verus!
