//! The Armoury Crate key: which input device to listen on, and which events
//! are presses of the key.
use vstd::prelude::*;
use crate::text::{contains, spec_contains, spec_to_lowercase, to_lowercase};

verus! {

/// KEY_PROG1 (148): the Armoury Crate button, reported by the `Asus WMI
/// hotkeys` input device.
pub const ARMOURY_KEYCODES: [u16; 1] = [148];

/// What the device search does with one input device.
#[derive(PartialEq, Eq, Structural, Clone, Copy, Debug)]
pub enum DeviceChoice {
    /// Listen on this device and stop searching.
    Take,
    /// Remember this device in case no ASUS hotkey device turns up.
    Fallback,
    /// Ignore this device.
    Skip,
}

/// An ASUS hotkey device: its lower-cased name mentions asus and either wmi
/// or hotkey.
pub open spec fn spec_is_asus_hotkey_name(lower: Seq<char>) -> bool {
    spec_contains(lower, "asus"@) && (spec_contains(lower, "wmi"@) || spec_contains(
        lower,
        "hotkey"@,
    ))
}

/// The device reports one of the Armoury key codes.
pub open spec fn spec_has_armoury_key(keys: Seq<u16>) -> bool {
    keys.contains(ARMOURY_KEYCODES[0])
}

fn has_armoury_key(keys: &Vec<u16>) -> (r: bool)
    ensures
        r == spec_has_armoury_key(keys@),
{
    let mut i: usize = 0;
    while i < keys.len()
        invariant
            i <= keys.len(),
            forall|k: int| 0 <= k < i ==> keys@[k] != ARMOURY_KEYCODES[0],
        decreases keys.len() - i,
    {
        if keys[i] == ARMOURY_KEYCODES[0] {
            return true;
        }
        i += 1;
    }
    false
}

/// The decision for a device with the lower-cased name `lower` and the
/// supported keys `keys` (if it reports them), when a fallback is or is not
/// already known.
pub open spec fn spec_device_choice(lower: Seq<char>, keys: Option<Seq<u16>>, have_fallback: bool) -> DeviceChoice {
    match keys {
        Some(k) => if spec_is_asus_hotkey_name(lower) && spec_has_armoury_key(k) {
            DeviceChoice::Take
        } else if spec_has_armoury_key(k) && !have_fallback {
            DeviceChoice::Fallback
        } else {
            DeviceChoice::Skip
        },
        None => DeviceChoice::Skip,
    }
}

pub open spec fn spec_keys_view(keys: Option<&Vec<u16>>) -> Option<Seq<u16>> {
    match keys {
        Some(k) => Some(k@),
        None => None,
    }
}

/// The decision for one device, given its name (if any), the keys it
/// supports (if it reports them) and whether a fallback is already known: an
/// ASUS hotkey device with the key is taken; the first other device with the
/// key becomes the fallback; everything else is skipped. The name is compared
/// in lower case.
pub fn armoury_device_choice(name: Option<&str>, keys: Option<&Vec<u16>>, have_fallback: bool) -> (r: DeviceChoice)
    ensures
        r == spec_device_choice(
            spec_to_lowercase(
                match name {
                    Some(n) => n@,
                    None => ""@,
                },
            ),
            spec_keys_view(keys),
            have_fallback,
        ),
{
    let lower = match name {
        Some(n) => to_lowercase(n),
        None => to_lowercase(""),
    };
    device_choice_for_lowercase(lower.as_str(), keys, have_fallback)
}

/// The decision for one device whose name is already lower-cased.
pub fn device_choice_for_lowercase(lower: &str, keys: Option<&Vec<u16>>, have_fallback: bool) -> (r: DeviceChoice)
    ensures
        r == spec_device_choice(lower@, spec_keys_view(keys), have_fallback),
{
    let is_asus = contains(lower, "asus") && (contains(lower, "wmi") || contains(lower, "hotkey"));
    match keys {
        Some(k) => {
            let has_key = has_armoury_key(k);
            if is_asus && has_key {
                DeviceChoice::Take
            } else if has_key && !have_fallback {
                DeviceChoice::Fallback
            } else {
                DeviceChoice::Skip
            }
        },
        None => DeviceChoice::Skip,
    }
}

/// Whether a key event is a press (value 1) of the Armoury key.
pub fn is_armoury_press(code: u16, value: i32) -> (r: bool)
    ensures
        r == (value == 1 && code == ARMOURY_KEYCODES[0]),
{
    value == 1 && code == ARMOURY_KEYCODES[0]
}

} // verus!
