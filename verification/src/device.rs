//! The device directory: which input devices there are, and where one is.
//!
//! The audio host is asked by the caller. What it reported arrives here as
//! one entry per endpoint, in the host's order: the endpoint's name, or
//! nothing where the name could not be read.

use vstd::prelude::*;

verus! {

/// An input device as offered for selection.
///
/// The host gives no identifier that outlasts a session, so a device is
/// selected by its name: `id` repeats `name`.
#[derive(Debug, PartialEq, Eq)]
pub struct AudioDevice {
    pub name: String,
    pub id: String,
}

/// A device with its texts as character sequences.
pub struct DeviceEntry {
    pub name: Seq<char>,
    pub id: Seq<char>,
}

impl View for AudioDevice {
    type V = DeviceEntry;

    open spec fn view(&self) -> DeviceEntry {
        DeviceEntry { name: self.name@, id: self.id@ }
    }
}

impl DeepView for AudioDevice {
    type V = DeviceEntry;

    open spec fn deep_view(&self) -> DeviceEntry {
        self@
    }
}

/// The entry for a device of the given name.
pub open spec fn entry(name: Seq<char>) -> DeviceEntry {
    DeviceEntry { name: name, id: name }
}

/// The directory made of a host report: one entry for each endpoint whose
/// name could be read, in the host's order. Names are neither sorted nor
/// merged, so a name that is reported twice is listed twice.
pub open spec fn directory(reported: Seq<Option<Seq<char>>>) -> Seq<DeviceEntry>
    decreases reported.len(),
{
    if reported.len() == 0 {
        Seq::empty()
    } else {
        let front = directory(reported.drop_last());
        match reported.last() {
            Some(name) => front.push(entry(name)),
            None => front,
        }
    }
}

/// Where the device that answers to `id` stands in a host report: at the
/// first endpoint whose name could be read and equals `id`.
pub open spec fn position(reported: Seq<Option<Seq<char>>>, id: Seq<char>) -> Option<nat>
    decreases reported.len(),
{
    if reported.len() == 0 {
        None
    } else {
        match position(reported.drop_last(), id) {
            Some(i) => Some(i),
            None => if reported.last() == Some(id) {
                Some((reported.len() - 1) as nat)
            } else {
                None
            },
        }
    }
}

/// The directory of two reports joined is the two directories joined.
pub proof fn lemma_directory_of_joined(a: Seq<Option<Seq<char>>>, b: Seq<Option<Seq<char>>>)
    ensures
        directory(a + b) == directory(a) + directory(b),
    decreases b.len(),
{
    if b.len() == 0 {
        assert(a + b == a);
        assert(directory(a) + directory(b) == directory(a));
    } else {
        lemma_directory_of_joined(a, b.drop_last());
        assert((a + b).drop_last() == a + b.drop_last());
        assert((a + b).last() == b.last());
        match b.last() {
            Some(name) => {
                assert((directory(a) + directory(b.drop_last())).push(entry(name)) == directory(a)
                    + directory(b.drop_last()).push(entry(name)));
            },
            None => {},
        }
    }
}

/// A position is the first place where the name stands, and there is no
/// position exactly when the name stands nowhere.
pub proof fn lemma_position_is_first(reported: Seq<Option<Seq<char>>>, id: Seq<char>)
    ensures
        match position(reported, id) {
            Some(i) => {
                &&& i < reported.len()
                &&& reported[i as int] == Some(id)
                &&& forall|j: int| 0 <= j < i ==> reported[j] != Some(id)
            },
            None => forall|j: int| 0 <= j < reported.len() ==> reported[j] != Some(id),
        },
    decreases reported.len(),
{
    if reported.len() > 0 {
        let front = reported.drop_last();
        lemma_position_is_first(front, id);
        assert(forall|j: int| 0 <= j < front.len() ==> front[j] == reported[j]);
    }
}

/// Builds the directory from a host report.
pub fn list_devices(reported: &[Option<String>]) -> (devices: Vec<AudioDevice>)
    ensures
        devices.deep_view() == directory(reported.deep_view()),
{
    let mut devices: Vec<AudioDevice> = Vec::new();
    let mut i: usize = 0;
    while i < reported.len()
        invariant
            i <= reported.len(),
            devices.deep_view() == directory(reported.deep_view().take(i as int)),
        decreases reported.len() - i,
    {
        let ghost before = devices.deep_view();
        match &reported[i] {
            Some(name) => {
                devices.push(AudioDevice { name: name.clone(), id: name.clone() });
                assert(devices.deep_view() == before.push(entry(name@)));
            },
            None => {},
        }
        proof {
            let upto = reported.deep_view().take(i + 1);
            assert(upto.drop_last() == reported.deep_view().take(i as int));
            assert(upto.last() == reported[i as int].deep_view());
        }
        i += 1;
    }
    proof {
        assert(reported.deep_view().take(i as int) == reported.deep_view());
    }
    devices
}

/// Finds the device that answers to `id` in a host report.
pub fn locate(reported: &[Option<String>], id: &str) -> (found: Option<usize>)
    ensures
        match found {
            Some(i) => position(reported.deep_view(), id@) == Some(i as nat),
            None => position(reported.deep_view(), id@) is None,
        },
{
    let wanted: String = id.to_owned();
    let mut i: usize = 0;
    while i < reported.len()
        invariant
            i <= reported.len(),
            wanted@ == id@,
            position(reported.deep_view().take(i as int), id@) is None,
        decreases reported.len() - i,
    {
        let hit: bool = match &reported[i] {
            Some(name) => *name == wanted,
            None => false,
        };
        proof {
            let upto = reported.deep_view().take(i + 1);
            assert(upto.drop_last() == reported.deep_view().take(i as int));
            assert(upto.last() == reported[i as int].deep_view());
        }
        if hit {
            proof {
                lemma_position_holds(reported.deep_view(), id@, i + 1);
            }
            return Some(i);
        }
        i += 1;
    }
    proof {
        assert(reported.deep_view().take(i as int) == reported.deep_view());
    }
    None
}

/// A position found in the front of a report is the position in the whole.
proof fn lemma_position_holds(reported: Seq<Option<Seq<char>>>, id: Seq<char>, n: int)
    requires
        0 <= n <= reported.len(),
        position(reported.take(n), id) is Some,
    ensures
        position(reported, id) == position(reported.take(n), id),
    decreases reported.len() - n,
{
    if n < reported.len() {
        let longer = reported.take(n + 1);
        assert(longer.drop_last() == reported.take(n));
        lemma_position_holds(reported, id, n + 1);
    } else {
        assert(reported.take(n) == reported);
    }
}

} // verus!
