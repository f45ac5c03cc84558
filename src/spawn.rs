//! Where the player appears: at the first instance of the first "Spawn"
//! entry of the level data's table of contents, or at a fixed place when
//! there is none.
use vstd::prelude::*;

use crate::text::str_eq;

verus! {

/// World x of the place used when the level data gives no spawn point.
pub const DEFAULT_SPAWN_X: i64 = 445;

/// World y of the place used when the level data gives no spawn point.
pub const DEFAULT_SPAWN_Y: i64 = -200;

/// An entry of the level data's table of contents: an entity identifier
/// and the position (y down) of its first instance, if it has any.
#[derive(Debug, Clone)]
pub struct TocEntry {
    pub identifier: String,
    pub first_instance: Option<(i32, i32)>,
}

/// Whether `entries[i]` is the first entry named "Spawn".
pub open spec fn is_first_spawn(entries: Seq<TocEntry>, i: int) -> bool {
    &&& 0 <= i < entries.len()
    &&& entries[i].identifier@ == "Spawn"@
    &&& forall|j: int| 0 <= j < i ==> entries[j].identifier@ != "Spawn"@
}

/// The spawn point (world position, y up) that a table of contents gives.
pub open spec fn spawn_point(entries: Seq<TocEntry>) -> (int, int) {
    if exists|i: int| is_first_spawn(entries, i) {
        let i = choose|i: int| is_first_spawn(entries, i);
        match entries[i].first_instance {
            Some(p) => (p.0 as int, -(p.1 as int)),
            None => (DEFAULT_SPAWN_X as int, DEFAULT_SPAWN_Y as int),
        }
    } else {
        (DEFAULT_SPAWN_X as int, DEFAULT_SPAWN_Y as int)
    }
}

/// The world position (y up) where the player spawns.
pub fn spawn_position(entries: &Vec<TocEntry>) -> (r: (i64, i64))
    ensures
        (r.0 as int, r.1 as int) == spawn_point(entries@),
{
    let mut i: usize = 0;
    while i < entries.len()
        invariant
            i <= entries@.len(),
            forall|j: int| 0 <= j < i ==> entries@[j].identifier@ != "Spawn"@,
        decreases entries@.len() - i,
    {
        if str_eq(entries[i].identifier.as_str(), "Spawn") {
            proof {
                assert(is_first_spawn(entries@, i as int));
                let k = choose|k: int| is_first_spawn(entries@, k);
                assert(k == i as int) by {
                    if k < i as int {
                        assert(entries@[k].identifier@ != "Spawn"@);
                    } else if k > i as int {
                        assert(entries@[i as int].identifier@ != "Spawn"@);
                    }
                }
            }
            return match entries[i].first_instance {
                Some((x, y)) => (x as i64, -(y as i64)),
                None => (DEFAULT_SPAWN_X, DEFAULT_SPAWN_Y),
            };
        }
        i = i + 1;
    }
    (DEFAULT_SPAWN_X, DEFAULT_SPAWN_Y)
}

} // verus!
