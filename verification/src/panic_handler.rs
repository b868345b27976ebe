//! What the fatal-fault hook of device code reports.
//!
//! The hook prints one line through the print routine, with the place of the
//! fault and the coordinates of the block and the thread, and then stops the
//! thread. Printing and stopping are the caller's; what is printed is
//! decided here.

use vstd::prelude::*;

verus! {

/// The format string of the report. Its conversions take, in order: the
/// file as a string, the line as a 32-bit unsigned number, and the three
/// coordinates of the block and of the thread as 64-bit unsigned numbers.
pub const PANIC_FORMAT: &'static str =
    "Kernel panicked at '%s:%u' on block(%lu,%lu,%lu) and thread(%lu,%lu,%lu).\n";

/// The file that is reported where the place of the fault is not known.
pub const UNKNOWN_FILE: &'static str = "unknown";

/// The file and line to report: those of the fault if they are known, else
/// `unknown` and line zero.
pub fn location_or_unknown<'a>(location: Option<(&'a str, u32)>) -> (r: (&'a str, u32))
    ensures
        r == match location {
            Some(place) => place,
            None => (UNKNOWN_FILE, 0u32),
        },
{
    match location {
        Some(place) => place,
        None => (UNKNOWN_FILE, 0),
    }
}

} // verus!
