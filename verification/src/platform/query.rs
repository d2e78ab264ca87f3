//! Which native queries the tree answers.

use vstd::prelude::*;

verus! {

/// The object identifier that asks for the client area of a window.
pub const OBJID_CLIENT: i32 = -4;

/// The object identifier that asks for the root accessible object.
pub const UIA_ROOT_OBJECT_ID: i32 = -25;

/// The object identifier that a query's `lparam` holds: its low 32 bits, as
/// a signed number. Senders widen the identifier in different ways, so the
/// high bits say nothing.
pub open spec fn object_id_of(lparam: isize) -> int {
    let low = (lparam as int) % 0x1_0000_0000;
    if low >= 0x8000_0000 {
        low - 0x1_0000_0000
    } else {
        low
    }
}

/// Whether a query with this `lparam` is for the tree: it asks for the
/// client area or for the root accessible object. Any other query is left to
/// the window's default handling.
pub open spec fn asks_for_root(lparam: isize) -> bool {
    object_id_of(lparam) == OBJID_CLIENT || object_id_of(lparam) == UIA_ROOT_OBJECT_ID
}

/// The object identifier that a query's `lparam` holds.
pub fn object_id(lparam: isize) -> (id: i32)
    ensures
        id == object_id_of(lparam),
{
    let wide: i64 = lparam as i64;
    let rest: i64 = wide % 0x1_0000_0000;
    let low: i64 = if rest < 0 {
        rest + 0x1_0000_0000
    } else {
        rest
    };
    if low >= 0x8000_0000 {
        (low - 0x1_0000_0000) as i32
    } else {
        low as i32
    }
}

/// Whether a query with this `lparam` is for the tree.
pub fn wants_root(lparam: isize) -> (wanted: bool)
    ensures
        wanted == asks_for_root(lparam),
{
    let id = object_id(lparam);
    id == OBJID_CLIENT || id == UIA_ROOT_OBJECT_ID
}

} // verus!
