//! Sparse storage for one layer of the grid: a hash map from coordinates to
//! cell values, hashed with `ahash`.
//!
//! `ahash::HashMap<K, V>` is the standard library's hash map with
//! `ahash::RandomState` as its hasher. Its contents are the map's view, a
//! `Map<(u16, u16), i64>`. The functions here that consult the hasher are
//! believed, not proved.

use ahash::HashMap;
use vstd::prelude::*;

verus! {

#[verifier::external_type_specification]
#[verifier::external_body]
pub struct ExRandomState(ahash::RandomState);

/// The code of the space character, which every unwritten cell holds.
pub const SPACE: i64 = 32;

/// Calls `HashMap::get` on an `ahash::HashMap` and copies the value out.
///
/// Believed: the result is the value stored under `(x, y)`, or `None` when
/// nothing is stored there.
#[verifier::external_body]
pub(crate) fn lookup(cells: &HashMap<(u16, u16), i64>, x: u16, y: u16) -> (found: Option<i64>)
    ensures
        found == (if cells@.contains_key((x, y)) {
            Some(cells@[(x, y)])
        } else {
            None
        }),
{
    cells.get(&(x, y)).copied()
}

/// Calls `HashMap::insert` on an `ahash::HashMap`.
///
/// Believed: afterwards `(x, y)` holds `v` and every other cell is as before.
#[verifier::external_body]
pub(crate) fn store(cells: &mut HashMap<(u16, u16), i64>, x: u16, y: u16, v: i64)
    ensures
        final(cells)@ == old(cells)@.insert((x, y), v),
{
    cells.insert((x, y), v);
}

/// Calls `HashMap::keys` on an `ahash::HashMap` and collects the coordinates.
///
/// Believed: the result lists exactly the coordinates that hold a value. The
/// order in which they come is left open.
#[verifier::external_body]
pub(crate) fn written(cells: &HashMap<(u16, u16), i64>) -> (keys: Vec<(u16, u16)>)
    ensures
        keys@.to_set() == cells@.dom(),
{
    cells.keys().copied().collect()
}

} // verus!
