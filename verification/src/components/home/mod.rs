//! The home page: the laptop picture and the battery summary.
pub mod mode_strip;
pub mod systems_monitor;

use vstd::prelude::*;
use crate::text::{
    contains, owned, parse_trimmed_u8, spec_contains, spec_parse_unsigned, spec_to_uppercase,
    spec_trim, str_eq, to_uppercase, trim,
};

verus! {

/// The bundled laptop pictures.
#[derive(PartialEq, Eq, Structural, Clone, Copy, Debug)]
pub enum LaptopImage {
    Tuf,
    Rog,
    Zenbook,
    Vivobook,
    ProArt,
    ExpertBook,
}

/// The picture for an upper-cased product name: the first series named in
/// it, checked in the order ROG, TUF, Zenbook, Vivobook, ProArt, ExpertBook;
/// TUF when none is.
pub open spec fn spec_laptop_image(p: Seq<char>) -> LaptopImage {
    if spec_contains(p, "ROG"@) {
        LaptopImage::Rog
    } else if spec_contains(p, "TUF"@) {
        LaptopImage::Tuf
    } else if spec_contains(p, "ZENBOOK"@) || spec_contains(p, "ZEN"@) {
        LaptopImage::Zenbook
    } else if spec_contains(p, "VIVOBOOK"@) || spec_contains(p, "VIVO"@) {
        LaptopImage::Vivobook
    } else if spec_contains(p, "PROART"@) {
        LaptopImage::ProArt
    } else if spec_contains(p, "EXPERTBOOK"@) || spec_contains(p, "EXPERT"@) {
        LaptopImage::ExpertBook
    } else {
        LaptopImage::Tuf
    }
}

/// The laptop picture for a DMI product name, compared in upper case.
pub fn select_laptop_img(product_name: &str) -> (r: LaptopImage)
    ensures
        r == spec_laptop_image(spec_to_uppercase(product_name@)),
{
    let p = to_uppercase(product_name);
    laptop_img_for_uppercase(p.as_str())
}

/// The laptop picture for a product name that is already in upper case.
pub fn laptop_img_for_uppercase(p: &str) -> (r: LaptopImage)
    ensures
        r == spec_laptop_image(p@),
{
    if contains(p, "ROG") {
        LaptopImage::Rog
    } else if contains(p, "TUF") {
        LaptopImage::Tuf
    } else if contains(p, "ZENBOOK") || contains(p, "ZEN") {
        LaptopImage::Zenbook
    } else if contains(p, "VIVOBOOK") || contains(p, "VIVO") {
        LaptopImage::Vivobook
    } else if contains(p, "PROART") {
        LaptopImage::ProArt
    } else if contains(p, "EXPERTBOOK") || contains(p, "EXPERT") {
        LaptopImage::ExpertBook
    } else {
        LaptopImage::Tuf
    }
}

/// The product name shown on the home page: the trimmed DMI name, or
/// "ASUS Laptop" when it could not be read.
pub fn product_label(contents: Option<&str>) -> (r: String)
    ensures
        r@ == match contents {
            Some(c) => spec_trim(c@),
            None => "ASUS Laptop"@,
        },
{
    match contents {
        Some(c) => trim(c),
        None => owned("ASUS Laptop"),
    }
}

/// The charging state of the battery.
#[derive(Clone, Debug)]
pub enum BatteryStatus {
    Charging,
    Discharging,
    Full,
    /// Any other state, as the kernel names it.
    Other(String),
}

/// The battery state from the trimmed sysfs `status` text; "Unknown" when
/// it could not be read.
pub fn battery_status(contents: Option<&str>) -> (r: BatteryStatus)
    ensures
        ({
            let raw = match contents {
                Some(c) => spec_trim(c@),
                None => "Unknown"@,
            };
            if raw == "Charging"@ {
                r == BatteryStatus::Charging
            } else if raw == "Discharging"@ {
                r == BatteryStatus::Discharging
            } else if raw == "Full"@ {
                r == BatteryStatus::Full
            } else {
                r matches BatteryStatus::Other(s) && s@ == raw
            }
        }),
{
    let raw = match contents {
        Some(c) => trim(c),
        None => owned("Unknown"),
    };
    if str_eq(raw.as_str(), "Charging") {
        BatteryStatus::Charging
    } else if str_eq(raw.as_str(), "Discharging") {
        BatteryStatus::Discharging
    } else if str_eq(raw.as_str(), "Full") {
        BatteryStatus::Full
    } else {
        BatteryStatus::Other(raw)
    }
}

/// A sysfs percentage (capacity or charge threshold): the trimmed text as a
/// number, or `default` when it could not be read or parsed.
pub fn percent_reading(contents: Option<&str>, default: u8) -> (r: u8)
    ensures
        r == match contents {
            Some(c) => match spec_parse_unsigned(spec_trim(c@), u8::MAX as nat) {
                Some(v) => v as u8,
                None => default,
            },
            None => default,
        },
{
    match contents {
        Some(c) => match parse_trimmed_u8(c) {
            Some(v) => v,
            None => default,
        },
        None => default,
    }
}

} // verus!
