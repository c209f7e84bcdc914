//! Where events are kept, and the order they are listed in.

use crate::c2c::order::{arranged, is_stable_order, stable_order};
use crate::c2c::types::C2CEvent;
use vstd::prelude::*;
use vstd::string::StringExecFns;

verus! {

/// The components of the directory of all events.
pub open spec fn events_dir_of(home: Option<String>) -> Seq<Seq<char>> {
    seq![
        match home {
            Some(h) => h@,
            None => "."@,
        },
        ".tidbit"@,
        "c2c_events"@,
    ]
}

/// The directory of all events, under the home directory or under `.`
/// without one.
pub fn events_dir(home: Option<String>) -> (dir: Vec<String>)
    ensures
        dir.deep_view() == events_dir_of(home),
{
    let mut dir: Vec<String> = Vec::new();
    match home {
        Some(h) => dir.push(h),
        None => dir.push(".".to_owned()),
    }
    dir.push(".tidbit".to_owned());
    dir.push("c2c_events".to_owned());
    assert(dir.deep_view() =~= events_dir_of(home));
    dir
}

/// The file that holds the event with the given identifier.
pub fn event_path(home: Option<String>, id: &str) -> (path: Vec<String>)
    ensures
        path.deep_view() == events_dir_of(home).push(id@ + ".json"@),
{
    let mut p = events_dir(home);
    p.push(String::from_str(id).concat(".json"));
    assert(p.deep_view() =~= events_dir_of(home).push(id@ + ".json"@));
    p
}

/// The timestamps of the events, in order.
pub open spec fn timestamps_of(events: Seq<C2CEvent>) -> Seq<u64> {
    Seq::new(events.len(), |i: int| events[i].timestamp)
}

/// Whether `listed` is `events` from the most recent to the oldest:
/// sorted by timestamp, events of equal timestamp in the order they
/// stood, and the whole reversed.
pub open spec fn is_listing(events: Seq<C2CEvent>, listed: Seq<C2CEvent>) -> bool {
    exists|order: Seq<usize>| #[trigger]
        is_stable_order(timestamps_of(events), order) && listed == arranged(events, order).reverse()
}

/// Lists events from the most recent to the oldest.
pub fn load_all_events(events: &[C2CEvent]) -> (listed: Vec<C2CEvent>)
    ensures
        is_listing(events@, listed@),
{
    let mut keys: Vec<u64> = Vec::new();
    let mut i: usize = 0;
    while i < events.len()
        invariant
            i <= events.len(),
            keys@.len() == i,
            forall|k: int| 0 <= k < i ==> keys@[k] == events@[k].timestamp,
        decreases events.len() - i,
    {
        keys.push(events[i].timestamp);
        i += 1;
    }
    assert(keys@ =~= timestamps_of(events@));
    let order = stable_order(keys.as_slice());
    let n = order.len();
    let mut listed: Vec<C2CEvent> = Vec::new();
    let mut j: usize = 0;
    while j < n
        invariant
            j <= n,
            n == order@.len(),
            is_stable_order(keys@, order@),
            keys@.len() == events@.len(),
            listed@.len() == j,
            forall|k: int| 0 <= k < j ==> listed@[k] == events@[order@[n - 1 - k] as int],
        decreases n - j,
    {
        listed.push(events[order[n - 1 - j]].clone());
        j += 1;
    }
    assert(listed@ =~= arranged(events@, order@).reverse());
    listed
}

} // verus!
