//! The interfaces that a page log service implements for the engine.
//!
//! The engine hands its session and argument blocks over as C structures;
//! here they are carried as their addresses, which an implementation passes
//! back to the engine unchanged. Return values are WiredTiger return codes
//! (0 for success).

use vstd::prelude::*;

verus! {

/// Operations on the pages of one table of a page log service.
pub trait WTPageLogHandleTrait {
    /// Writes the page `buf` as page `page_id` of checkpoint `checkpoint_id`.
    fn put(&self, session: usize, page_id: u64, checkpoint_id: u64, args: usize, buf: usize) -> i32;

    /// Reads page `page_id` of checkpoint `checkpoint_id` into
    /// `results_array`, storing the number of results in `results_count`.
    fn get(
        &self,
        session: usize,
        page_id: u64,
        checkpoint_id: u64,
        args: usize,
        results_array: usize,
        results_count: usize,
    ) -> i32;

    /// Lists the page identifiers of the checkpoint at `checkpoint_lsn`.
    fn get_page_ids(&self, session: usize, checkpoint_lsn: u64, item: usize, size: usize) -> i32;

    /// Discards page `page_id` of checkpoint `checkpoint_id`.
    fn discard(&self, session: usize, page_id: u64, checkpoint_id: u64, args: usize) -> i32;

    /// Closes the handle.
    fn close(&self, session: usize) -> i32;

    /// Stores a page in the service's cache.
    fn cache_put(
        &self,
        session: usize,
        page_id: u64,
        checkpoint_id: u64,
        args: usize,
        buf: usize,
    ) -> i32;

    /// Whether the service's cache holds a page.
    fn cache_has(&self, session: usize, page_id: u64, checkpoint_id: u64, args: usize) -> i32;

    /// Removes a page from the service's cache.
    fn cache_del(&self, session: usize, page_id: u64, checkpoint_id: u64, args: usize) -> i32;

    /// Whether the service has a cache.
    fn cache_available(&self, session: usize) -> bool;
}

/// A page log service: checkpoints, log positions and table handles.
pub trait WTPageLogTrait {
    /// The handles that the service opens on tables.
    type Handle: WTPageLogHandleTrait;

    /// Adds a reference to the service.
    fn add_reference(&self) -> i32;

    /// Abandons an incomplete checkpoint.
    fn abandon_checkpoint(&self, session: usize) -> i32;

    /// Begins checkpoint `checkpoint_id`.
    fn begin_checkpoint(&self, session: usize, checkpoint_id: u64) -> i32;

    /// Completes a checkpoint described by the argument block `args`.
    fn complete_checkpoint(&self, session: usize, args: usize) -> i32;

    /// Completes checkpoint `checkpoint_id`, storing the position of its
    /// completion record in `lsnp`.
    fn complete_checkpoint_ext(
        &self,
        session: usize,
        checkpoint_id: u64,
        checkpoint_timestamp: u64,
        checkpoint_metadata: usize,
        lsnp: usize,
    ) -> i32;

    /// Stores the most recent completed checkpoint number in `checkpoint_id`.
    fn get_complete_checkpoint(&self, session: usize, checkpoint_id: usize) -> i32;

    /// Stores the position, number, timestamp and metadata of the most recent
    /// completed checkpoint.
    fn get_complete_checkpoint_ext(
        &self,
        session: usize,
        checkpoint_lsn: usize,
        checkpoint_id: usize,
        checkpoint_timestamp: usize,
        checkpoint_metadata: usize,
    ) -> i32;

    /// Stores the position of the last written page in `lsn`.
    fn get_last_lsn(&self, session: usize, lsn: usize) -> i32;

    /// Stores the most recently opened checkpoint number in `checkpoint_id`.
    fn get_open_checkpoint(&self, session: usize, checkpoint_id: usize) -> i32;

    /// Opens a handle on table `table_id`.
    fn open_handle(&self, session: usize, table_id: u64) -> Self::Handle;

    /// Sets the last materialized log position.
    fn set_last_materialized_lsn(&self, session: usize, lsn: u64) -> i32;

    /// Discards table `table_id` from the service from `start_lsn` on,
    /// storing the resulting position in `lsnp`.
    fn trim_table(&self, session: usize, table_id: u64, start_lsn: u64, lsnp: usize) -> i32;

    /// Releases the service.
    fn terminate(&self, session: usize) -> i32;
}

} // verus!
