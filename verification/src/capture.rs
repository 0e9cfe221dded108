//! Input devices and the names they are shown under.

pub mod alsa_util;

use vstd::prelude::*;

use crate::capture::alsa_util::{
    all_complete, get_alsa_hint_for, is_failure_of, Hint, HintError, HintTable,
};

verus! {

/// An input device of the sound system, with a name fit for a person.
#[derive(Clone, Debug)]
pub struct InputDevice {
    /// The name by which the sound system knows the device.
    pub device_name: String,
    /// The name under which the device is shown.
    pub friendly_name: String,
}

/// The text in lower case, as `str::to_lowercase` gives it.
pub uninterp spec fn lowercased(text: Seq<char>) -> Seq<char>;

/// `part` occurs in `text`, as a run of neighbouring characters.
pub open spec fn has_infix(text: Seq<char>, part: Seq<char>) -> bool {
    exists|start: int|
        0 <= start <= text.len() - part.len() && #[trigger] text.subrange(
            start,
            start + part.len(),
        ) == part
}

/// The name shown for a device when the sound system could not tell its
/// name.
pub open spec fn unknown_name() -> Seq<char> {
    "Unknown"@
}

/// The name of a device as it was reported, or [`unknown_name`].
pub open spec fn reported_name(name: Option<String>) -> Seq<char> {
    match name {
        Some(name) => name@,
        None => unknown_name(),
    }
}

/// The name under which a device is shown. `lowered` is its name in lower
/// case. The two sound servers are called by their own names, whatever the
/// device is called in full; any other device goes by its description in the
/// table, or, without one, by its name.
pub open spec fn friendly_name_from(
    lowered: Seq<char>,
    device_name: Seq<char>,
    hints: Map<Seq<char>, Seq<char>>,
) -> Seq<char> {
    if has_infix(lowered, "pipewire"@) {
        "Pipewire Media Server"@
    } else if has_infix(lowered, "pulse"@) {
        "PulseAudio"@
    } else if hints.contains_key(device_name) {
        hints[device_name]
    } else {
        device_name
    }
}

/// The name under which a device of this name is shown.
pub open spec fn friendly_name_of(device_name: Seq<char>, hints: Map<Seq<char>, Seq<char>>) -> Seq<
    char,
> {
    friendly_name_from(lowercased(device_name), device_name, hints)
}

/// Calls `str::to_lowercase`, which returns the lower-case equivalent of the
/// text as a new `String`, by the rules of Unicode. The contract gives that
/// result a name and says nothing more of it.
#[verifier::external_body]
fn lowercase(text: &str) -> (lowered: String)
    ensures
        lowered@ == lowercased(text@),
{
    text.to_lowercase()
}

/// Calls `str::contains` with a string as the pattern, which says whether
/// the pattern matches a part of the text.
#[verifier::external_body]
fn text_contains(text: &str, part: &str) -> (found: bool)
    ensures
        found == has_infix(text@, part@),
{
    text.contains(part)
}

impl InputDevice {
    /// A device with the two names given.
    pub fn new(device_name: String, friendly_name: String) -> (device: Self)
        ensures
            device.device_name == device_name,
            device.friendly_name == friendly_name,
    {
        InputDevice { device_name, friendly_name }
    }
}

/// The name under which a device is shown, given its name, and its name in
/// lower case.
pub fn friendly_name_for(lowered: &str, device_name: &str, hints: &HintTable) -> (friendly: String)
    ensures
        friendly@ == friendly_name_from(lowered@, device_name@, hints@),
{
    if text_contains(lowered, "pipewire") {
        "Pipewire Media Server".to_owned()
    } else if text_contains(lowered, "pulse") {
        "PulseAudio".to_owned()
    } else {
        match hints.get(device_name) {
            Some(desc) => desc.clone(),
            None => device_name.to_owned(),
        }
    }
}

/// The name under which a device of this name is shown.
pub fn friendly_name(device_name: &str, hints: &HintTable) -> (friendly: String)
    ensures
        friendly@ == friendly_name_of(device_name@, hints@),
{
    let lowered: String = lowercase(device_name);
    friendly_name_for(lowered.as_str(), device_name, hints)
}

/// The default input device. It goes by its own name, whether or not the
/// hints describe it; the hints are read all the same, and held to the same
/// demands as in [`get_alsa_hint_for`].
pub fn get_default_device(device_name: String, hints: &Vec<Hint>) -> (result: Result<
    Option<InputDevice>,
    HintError,
>)
    ensures
        match result {
            Ok(device) => {
                &&& all_complete(hints@)
                &&& device matches Some(found) && found.device_name@ == device_name@
                    && found.friendly_name@ == device_name@
            },
            Err(error) => is_failure_of(hints@, error),
        },
{
    match get_alsa_hint_for(hints, device_name.as_str()) {
        Ok(_) => {
            let friendly: String = device_name.clone();
            Ok(Some(InputDevice::new(device_name, friendly)))
        },
        Err(error) => Err(error),
    }
}

/// The input devices, each with the name it is shown under, in the order of
/// the names given. A device whose name the sound system could not tell is
/// called "Unknown".
pub fn get_input_devices(names: &Vec<Option<String>>, hints: &HintTable) -> (devices: Vec<
    InputDevice,
>)
    ensures
        devices@.len() == names@.len(),
        forall|i: int|
            0 <= i < names@.len() ==> {
                &&& (#[trigger] devices@[i]).device_name@ == reported_name(names@[i])
                &&& devices@[i].friendly_name@ == friendly_name_of(
                    reported_name(names@[i]),
                    hints@,
                )
            },
{
    let mut devices: Vec<InputDevice> = Vec::new();
    let mut i: usize = 0;
    while i < names.len()
        invariant
            i <= names@.len(),
            devices@.len() == i,
            forall|j: int|
                0 <= j < i ==> {
                    &&& (#[trigger] devices@[j]).device_name@ == reported_name(names@[j])
                    &&& devices@[j].friendly_name@ == friendly_name_of(
                        reported_name(names@[j]),
                        hints@,
                    )
                },
        decreases names@.len() - i,
    {
        let device_name: String = match &names[i] {
            Some(name) => name.clone(),
            None => "Unknown".to_owned(),
        };
        let friendly: String = friendly_name(device_name.as_str(), hints);
        devices.push(InputDevice::new(device_name, friendly));
        i = i + 1;
    }
    devices
}

} // verus!
