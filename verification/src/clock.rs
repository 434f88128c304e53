use vstd::prelude::*;

verus! {

/// A wall-clock timestamp, held as plain calendar fields.
///
/// The clock collaborator reads the system time and hands the loop one of
/// these; the library only ever compares the hour of day and formats the
/// fields for the outgoing payload.
#[derive(Clone, Copy, Debug, PartialEq, Eq, Structural)]
pub struct Timestamp {
    pub year: u16,
    pub month: u8,
    pub day: u8,
    pub hour: u8,
    pub minute: u8,
    pub second: u8,
}

impl Timestamp {
    /// The fields form a plausible calendar time: a four-digit year, a month
    /// and day starting at one, and a time of day within its ranges.
    pub open spec fn wf(self) -> bool {
        &&& self.year <= 9999
        &&& 1 <= self.month <= 12
        &&& 1 <= self.day <= 31
        &&& self.hour < 24
        &&& self.minute < 60
        &&& self.second < 60
    }

    /// Builds a timestamp, rejecting fields outside their calendar ranges.
    pub fn new(year: u16, month: u8, day: u8, hour: u8, minute: u8, second: u8) -> (r: Option<
        Timestamp,
    >)
        ensures
            r matches Some(t) ==> t == (Timestamp { year, month, day, hour, minute, second })
                && t.wf(),
            r is Some <==> (Timestamp { year, month, day, hour, minute, second }).wf(),
    {
        if year <= 9999 && 1 <= month && month <= 12 && 1 <= day && day <= 31 && hour < 24
            && minute < 60 && second < 60 {
            Some(Timestamp { year, month, day, hour, minute, second })
        } else {
            None
        }
    }
}

} // verus!
