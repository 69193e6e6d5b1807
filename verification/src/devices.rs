//! Output devices: which of the devices that the system lists is opened for
//! a name, and which names are shown to the user.
//!
//! The system is asked for the devices outside this library. The name of a
//! device may be unreadable; the list handed over then holds none in its
//! place, so that positions in the list stay positions among the devices.

use crate::text::text_equals;
use vstd::prelude::*;

verus! {

/// Which output a stream is opened on.
#[derive(Clone, Copy, Debug, PartialEq, Eq, Structural)]
pub enum OutputChoice {
    /// The device at this position of the list. If it cannot be opened,
    /// no output is open: the default is not tried in its place.
    Listed(usize),
    /// The default output of the system.
    Default,
}

/// Whether the device at `index` has the name `wanted`.
pub open spec fn is_named(names: Seq<Option<String>>, index: int, wanted: Seq<char>) -> bool {
    names[index] is Some && names[index]->0@ == wanted
}

/// Whether `index` is the position of the first device named `wanted`.
pub open spec fn is_first_named(names: Seq<Option<String>>, index: int, wanted: Seq<char>) -> bool {
    &&& 0 <= index < names.len()
    &&& is_named(names, index, wanted)
    &&& forall|j: int| 0 <= j < index ==> !is_named(names, j, wanted)
}

/// Whether no device is named `wanted`.
pub open spec fn none_named(names: Seq<Option<String>>, wanted: Seq<char>) -> bool {
    forall|j: int| 0 <= j < names.len() ==> !is_named(names, j, wanted)
}

/// The names that could be read, in the order of the list.
pub open spec fn readable(names: Seq<Option<String>>) -> Seq<String>
    decreases names.len(),
{
    if names.len() == 0 {
        Seq::empty()
    } else if names.last() is Some {
        readable(names.drop_last()).push(names.last()->0)
    } else {
        readable(names.drop_last())
    }
}

/// The position of the first device named `wanted`, if there is one.
pub fn find_device(names: &Vec<Option<String>>, wanted: &str) -> (found: Option<usize>)
    ensures
        match found {
            Some(index) => is_first_named(names@, index as int, wanted@),
            None => none_named(names@, wanted@),
        },
{
    let mut i: usize = 0;
    while i < names.len()
        invariant
            i <= names.len(),
            forall|j: int| 0 <= j < i ==> !is_named(names@, j, wanted@),
        decreases names.len() - i,
    {
        let here: bool = match &names[i] {
            Some(name) => text_equals(name.as_str(), wanted),
            None => false,
        };
        if here {
            return Some(i);
        }
        i += 1;
    }
    None
}

/// The output to open when the device `wanted` was asked for: the first
/// listed device of that name; the default where none was asked for or no
/// listed device has the name.
pub fn choose_output(names: &Vec<Option<String>>, wanted: &Option<String>) -> (choice: OutputChoice)
    ensures
        match choice {
            OutputChoice::Listed(index) => wanted is Some && is_first_named(
                names@,
                index as int,
                wanted->0@,
            ),
            OutputChoice::Default => wanted is Some ==> none_named(names@, wanted->0@),
        },
{
    match wanted {
        Some(name) => match find_device(names, name.as_str()) {
            Some(index) => OutputChoice::Listed(index),
            None => OutputChoice::Default,
        },
        None => OutputChoice::Default,
    }
}

/// The names of the output devices that are shown to the user: those that
/// could be read, in the order in which the system lists the devices.
pub fn list_audio_devices(names: Vec<Option<String>>) -> (shown: Vec<String>)
    ensures
        shown@ == readable(names@),
{
    let mut shown: Vec<String> = Vec::new();
    let mut i: usize = 0;
    while i < names.len()
        invariant
            i <= names.len(),
            shown@ == readable(names@.take(i as int)),
        decreases names.len() - i,
    {
        proof {
            assert(names@.take(i + 1).drop_last() =~= names@.take(i as int));
        }
        match &names[i] {
            Some(name) => shown.push(name.clone()),
            None => {},
        }
        i += 1;
    }
    assert(names@.take(names@.len() as int) =~= names@);
    shown
}

/// No name is invented and none is shown twice over: the list shown is never
/// longer than the list of devices.
pub proof fn lemma_readable_is_no_longer(names: Seq<Option<String>>)
    ensures
        readable(names).len() <= names.len(),
    decreases names.len(),
{
    if names.len() > 0 {
        lemma_readable_is_no_longer(names.drop_last());
    }
}

} // verus!
