//! The wall clock, read in whole seconds since the Unix epoch.
use vstd::prelude::*;

verus! {

#[verifier::external_type_specification]
#[verifier::external_body]
pub struct ExSystemTime(std::time::SystemTime);

#[verifier::external_type_specification]
#[verifier::external_body]
pub struct ExSystemTimeError(std::time::SystemTimeError);

/// `SystemTime::now`: the reading of the wall clock. Nothing is known of it.
pub assume_specification[ std::time::SystemTime::now ]() -> (now: std::time::SystemTime);

/// Calls `SystemTime::duration_since` on a reading, against `UNIX_EPOCH`:
/// the time since the epoch, or an error where the reading lies before it.
/// Nothing is claimed of either.
#[verifier::external_body]
fn since_epoch(reading: &std::time::SystemTime) -> (between: Result<
    std::time::Duration,
    std::time::SystemTimeError,
>) {
    reading.duration_since(std::time::UNIX_EPOCH)
}

/// `Duration::as_secs`: the whole seconds of a duration.
pub assume_specification[ std::time::Duration::as_secs ](duration: &std::time::Duration) -> (seconds: u64);

/// Whether `text` is the words in which some error of the system clock
/// describes itself.
pub open spec fn clock_complaint(text: String) -> bool {
    exists|e: std::time::SystemTimeError| #[trigger]
        vstd::string::to_string_from_display_ensures::<std::time::SystemTimeError>(&e, text)
}

/// Seconds since the Unix epoch by the wall clock, or the clock's complaint
/// where it reads earlier than the epoch. Of a reading that succeeds nothing
/// holds but that it is what the clock said.
pub fn unix_seconds() -> (reading: Result<u64, String>)
    ensures
        reading matches Err(text) ==> clock_complaint(text),
{
    let reading = std::time::SystemTime::now();
    match since_epoch(&reading) {
        Ok(since) => Ok(since.as_secs()),
        Err(e) => Err(e.to_string()),
    }
}

} // verus!
