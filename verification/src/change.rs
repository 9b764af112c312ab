//! Updates that name only some of the fields of a record.

use vstd::prelude::*;

verus! {

/// The value of a field after an update that may or may not name it: the
/// value that the update gives, or else the one that was there.
pub open spec fn updated<T>(current: T, change: Option<T>) -> T {
    match change {
        Some(value) => value,
        None => current,
    }
}

} // verus!
