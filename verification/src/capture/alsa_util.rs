//! Friendly names from the sound system's device hints.
//!
//! The sound system lists its devices as hints: a name, a description meant
//! for people, and the direction the device carries sound in. The table built
//! here gives, for the name of a device that can capture, its description.

use vstd::prelude::*;

verus! {

/// The direction in which a device carries sound.
#[derive(Clone, Copy, Debug, PartialEq, Eq, Structural)]
pub enum Direction {
    /// Towards the loudspeaker.
    Playback,
    /// From the microphone.
    Capture,
}

/// One device hint, as the sound system gave it.
#[derive(Clone, Debug)]
pub struct Hint {
    /// The name by which the device is opened.
    pub name: Option<String>,
    /// What to call the device in front of a person.
    pub desc: Option<String>,
    /// The direction of the device; `None` if it carries sound both ways.
    pub direction: Option<Direction>,
}

/// Why a list of hints gives no table. The number is the place of the
/// offending hint in the list.
#[derive(Clone, Copy, Debug, PartialEq, Eq, Structural)]
pub enum HintError {
    /// The hint has no name.
    MissingName(usize),
    /// The hint has a name, but no description.
    MissingDescription(usize),
}

/// The hint has both a name and a description.
pub open spec fn is_complete(hint: Hint) -> bool {
    hint.name is Some && hint.desc is Some
}

/// The device of the hint can capture: its direction is not given, or is
/// capture.
pub open spec fn can_capture(hint: Hint) -> bool {
    hint.direction != Some(Direction::Playback)
}

/// `index` is the place of the first hint that lacks a name or a description.
pub open spec fn is_first_incomplete(hints: Seq<Hint>, index: int) -> bool {
    &&& 0 <= index < hints.len()
    &&& !is_complete(hints[index])
    &&& forall|earlier: int| 0 <= earlier < index ==> is_complete(#[trigger] hints[earlier])
}

/// Every hint has a name and a description.
pub open spec fn all_complete(hints: Seq<Hint>) -> bool {
    forall|i: int| 0 <= i < hints.len() ==> is_complete(#[trigger] hints[i])
}

/// `error` is what is wrong with the hints: it names the first hint that
/// lacks something, and the name if that is lacking.
pub open spec fn is_failure_of(hints: Seq<Hint>, error: HintError) -> bool {
    match error {
        HintError::MissingName(index) => {
            &&& is_first_incomplete(hints, index as int)
            &&& hints[index as int].name is None
        },
        HintError::MissingDescription(index) => {
            &&& is_first_incomplete(hints, index as int)
            &&& hints[index as int].name is Some
        },
    }
}

/// The table that the hints give: the description of each device that can
/// capture, under its name. Of two hints with one name the later counts.
pub open spec fn capture_table(hints: Seq<Hint>) -> Map<Seq<char>, Seq<char>>
    decreases hints.len(),
{
    if hints.len() == 0 {
        Map::empty()
    } else {
        let earlier = capture_table(hints.drop_last());
        let hint = hints.last();
        if is_complete(hint) && can_capture(hint) {
            earlier.insert(hint.name->0@, hint.desc->0@)
        } else {
            earlier
        }
    }
}

struct Entry {
    name: String,
    desc: String,
}

spec fn table_of(entries: Seq<Entry>) -> Map<Seq<char>, Seq<char>>
    decreases entries.len(),
{
    if entries.len() == 0 {
        Map::empty()
    } else {
        table_of(entries.drop_last()).insert(entries.last().name@, entries.last().desc@)
    }
}

proof fn last_entry_counts(entries: Seq<Entry>, place: int, name: Seq<char>)
    requires
        0 <= place <= entries.len(),
        forall|later: int| place <= later < entries.len() ==> (#[trigger] entries[later]).name@ != name,
    ensures
        place == 0 ==> !table_of(entries).contains_key(name),
        place > 0 && entries[place - 1].name@ == name ==> table_of(entries).contains_key(name)
            && table_of(entries)[name] == entries[place - 1].desc@,
    decreases entries.len() - place,
{
    if place < entries.len() {
        let shorter = entries.drop_last();
        assert forall|later: int| place <= later < shorter.len() implies (
        #[trigger] shorter[later]).name@ != name by {
            assert(shorter[later] == entries[later]);
        }
        last_entry_counts(shorter, place, name);
        assert(entries.last() == entries[entries.len() - 1]);
        if place > 0 {
            assert(shorter[place - 1] == entries[place - 1]);
        }
    } else if place == 0 {
        assert(entries.len() == 0);
    } else {
        assert(entries.last() == entries[place - 1]);
    }
}

/// Descriptions of capture devices, by device name.
pub struct HintTable {
    entries: Vec<Entry>,
}

impl View for HintTable {
    type V = Map<Seq<char>, Seq<char>>;

    closed spec fn view(&self) -> Map<Seq<char>, Seq<char>> {
        table_of(self.entries@)
    }
}

impl HintTable {
    /// A table without entries.
    pub fn new() -> (table: Self)
        ensures
            table@ == Map::<Seq<char>, Seq<char>>::empty(),
    {
        HintTable { entries: Vec::new() }
    }

    /// Enters the description under the name, in place of an earlier one if
    /// there is one.
    pub fn insert(&mut self, name: String, desc: String)
        ensures
            final(self)@ == old(self)@.insert(name@, desc@),
    {
        self.entries.push(Entry { name, desc });
        proof {
            assert(self.entries@.drop_last() =~= old(self).entries@);
        }
    }

    /// The description entered under the name, if there is one.
    pub fn get(&self, name: &str) -> (desc: Option<&String>)
        ensures
            match desc {
                Some(found) => self@.contains_key(name@) && found@ == self@[name@],
                None => !self@.contains_key(name@),
            },
    {
        let wanted: String = name.to_owned();
        let mut place: usize = self.entries.len();
        while place > 0
            invariant
                place <= self.entries@.len(),
                wanted@ == name@,
                forall|later: int|
                    place <= later < self.entries@.len() ==> (#[trigger] self.entries@[later]).name@
                        != name@,
            decreases place,
        {
            if self.entries[place - 1].name == wanted {
                proof {
                    last_entry_counts(self.entries@, place as int, name@);
                }
                return Some(&self.entries[place - 1].desc);
            }
            place = place - 1;
        }
        proof {
            last_entry_counts(self.entries@, 0, name@);
        }
        None
    }
}

/// The table of the capture devices among the hints.
///
/// Every hint must have a name and a description, whichever its direction:
/// the first that lacks one is reported, by its place and by what it lacks.
pub fn get_alsa_hints(hints: &Vec<Hint>) -> (result: Result<HintTable, HintError>)
    ensures
        match result {
            Ok(table) => all_complete(hints@) && table@ == capture_table(hints@),
            Err(error) => is_failure_of(hints@, error),
        },
{
    let mut table: HintTable = HintTable::new();
    let mut i: usize = 0;
    while i < hints.len()
        invariant
            i <= hints@.len(),
            forall|j: int| 0 <= j < i ==> is_complete(#[trigger] hints@[j]),
            table@ == capture_table(hints@.take(i as int)),
        decreases hints@.len() - i,
    {
        let hint: &Hint = &hints[i];
        proof {
            assert(hints@.take(i + 1).drop_last() =~= hints@.take(i as int));
            assert(hints@.take(i + 1).last() == hints@[i as int]);
        }
        match &hint.name {
            None => {
                return Err(HintError::MissingName(i));
            },
            Some(name) => {
                match &hint.desc {
                    None => {
                        return Err(HintError::MissingDescription(i));
                    },
                    Some(desc) => {
                        let capture: bool = match hint.direction {
                            None => true,
                            Some(Direction::Capture) => true,
                            Some(Direction::Playback) => false,
                        };
                        if capture {
                            table.insert(name.clone(), desc.clone());
                        }
                    },
                }
            },
        }
        i = i + 1;
    }
    proof {
        assert(hints@.take(hints@.len() as int) =~= hints@);
    }
    Ok(table)
}

/// The description that the hints give for the device of this name, if they
/// give one. The hints are held to the same demands as in
/// [`get_alsa_hints`].
pub fn get_alsa_hint_for(hints: &Vec<Hint>, name: &str) -> (result: Result<
    Option<String>,
    HintError,
>)
    ensures
        match result {
            Ok(Some(desc)) => {
                &&& all_complete(hints@)
                &&& capture_table(hints@).contains_key(name@)
                &&& desc@ == capture_table(hints@)[name@]
            },
            Ok(None) => all_complete(hints@) && !capture_table(hints@).contains_key(name@),
            Err(error) => is_failure_of(hints@, error),
        },
{
    match get_alsa_hints(hints) {
        Ok(table) => {
            match table.get(name) {
                Some(desc) => Ok(Some(desc.clone())),
                None => Ok(None),
            }
        },
        Err(error) => Err(error),
    }
}

} // verus!
