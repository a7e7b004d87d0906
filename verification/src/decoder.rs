//! Night Light state decoder.
//!
//! The Night Light feature persists its state as an opaque binary blob in a
//! per-user registry value. The whole format assumption of this crate sits in
//! the constants below: one byte that marks the record as carrying the
//! active/inactive flag, and the byte after it that holds the flag itself.
//! A blob too short to contain both bytes decodes to light, so that readers
//! tolerate truncation and intermediate states written by other processes.

use vstd::prelude::*;

verus! {

/// Per-user registry path of the key that holds the Night Light state blob.
pub const NIGHT_LIGHT_KEY_PATH: &'static str =
    "Software\\Microsoft\\Windows\\CurrentVersion\\CloudStore\\Store\\DefaultAccount\\Current\\default$windows.data.bluelightreduction.bluelightreductionstate\\windows.data.bluelightreduction.bluelightreductionstate";

/// Name of the binary value that holds the blob.
pub const NIGHT_LIGHT_VALUE_NAME: &'static str = "Data";

/// Index of the byte that marks the blob as a Night Light state record.
pub const NIGHT_LIGHT_MARKER_INDEX: usize = 23;

/// Value the marker byte must hold.
pub const NIGHT_LIGHT_MARKER: u8 = 0x10;

/// Index of the byte that carries the on/off flag.
pub const NIGHT_LIGHT_FLAG_INDEX: usize = 24;

/// Flag value meaning Night Light is on (so the appearance should be dark).
pub const NIGHT_LIGHT_ON: u8 = 0x00;

/// The decoded appearance: dark exactly when the blob is long enough to hold
/// both decisive bytes, the marker byte matches, and the flag byte says on.
pub open spec fn night_light_dark(b: Seq<u8>) -> bool {
    &&& b.len() >= 25
    &&& b[NIGHT_LIGHT_MARKER_INDEX as int] == NIGHT_LIGHT_MARKER
    &&& b[NIGHT_LIGHT_FLAG_INDEX as int] == NIGHT_LIGHT_ON
}

/// Decode the Night Light blob into the desired appearance. Never fails:
/// any blob that does not positively signal "Night Light on" decodes to
/// light (`false`).
pub fn decode_night_light(blob: &[u8]) -> (dark: bool)
    ensures
        dark == night_light_dark(blob@),
{
    blob.len() > NIGHT_LIGHT_FLAG_INDEX && blob[NIGHT_LIGHT_MARKER_INDEX] == NIGHT_LIGHT_MARKER
        && blob[NIGHT_LIGHT_FLAG_INDEX] == NIGHT_LIGHT_ON
}

} // verus!
