//! A vector container with a built-in cursor.
//!
//! The cursor moves forward and backward over the container's elements and always
//! keeps to the container's bounds, or wraps around when rotation is enabled.
//! Changes made through the container's own methods keep the cursor in step with
//! the container's length; changes made directly on the backing vector need a call
//! of `update_cursor` afterwards.
mod container;
mod cursor;
mod laws;
mod result;

pub use container::{deref_opt, CursorVec, CursorVecView};
pub use cursor::{Cursor, CursorState, CursorStateView, CursorView};
pub use laws::{
    lemma_no_drift_at_end, lemma_no_drift_at_start, lemma_resync_bounds_cursor,
    lemma_rotating_forward_n, lemma_rotation_wraps_to_first, lemma_set_container_then_cursor,
    lemma_update_cursor_idempotent,
};
pub use result::{error, is_true, ok, OpResult};
