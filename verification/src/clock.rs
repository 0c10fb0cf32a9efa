//! The wall clock, and the timestamp and seed texts that the gateway expects.

use crate::digits::{
    four_digits, push_four_digits, push_three_digits, push_two_digits, three_digits, two_digits,
};
use crate::errors::{ConnectorError, ConnectorErrorView};
use vstd::prelude::*;
use vstd::string::*;

verus! {

/// A moment in UTC, by its calendar and clock components.
#[derive(Debug, Clone, Copy, PartialEq, Eq)]
pub struct UtcInstant {
    pub year: i32,
    pub month: u8,
    pub day: u8,
    pub hour: u8,
    pub minute: u8,
    pub second: u8,
    pub millisecond: u16,
}

impl UtcInstant {
    /// Whether the components can be written as a timestamp: a year of four digits
    /// and every other component within its calendar or clock range.
    pub open spec fn is_formattable(&self) -> bool {
        &&& 0 <= self.year <= 9999
        &&& 1 <= self.month <= 12
        &&& 1 <= self.day <= 31
        &&& self.hour < 24
        &&& self.minute < 60
        &&& self.second < 60
        &&& self.millisecond < 1000
    }

    /// The timestamp of the moment: date, `T`, time to the millisecond, and `Z`.
    pub open spec fn timestamp_text(&self) -> Seq<char> {
        four_digits(self.year as int) + seq!['-'] + two_digits(self.month as int) + seq!['-']
            + two_digits(self.day as int) + seq!['T'] + two_digits(self.hour as int) + seq![':']
            + two_digits(self.minute as int) + seq![':'] + two_digits(self.second as int)
            + seq!['.'] + three_digits(self.millisecond as int) + seq!['Z']
    }

    /// Reads the wall clock.
    ///
    /// Calls `time::OffsetDateTime::now_utc` and copies the components of the moment
    /// it returns. Nothing is claimed of them: the moment is whatever the clock says.
    #[verifier::external_body]
    pub(crate) fn now() -> (r: UtcInstant) {
        let now = time::OffsetDateTime::now_utc();
        UtcInstant {
            year: now.year(),
            month: u8::from(now.month()),
            day: now.day(),
            hour: now.hour(),
            minute: now.minute(),
            second: now.second(),
            millisecond: now.millisecond(),
        }
    }

    /// Writes the moment as a timestamp such as `2024-01-01T00:00:00.000Z`.
    ///
    /// A moment whose year does not fit four digits, or with a component outside its
    /// range, cannot be written and is a request-encoding error.
    pub fn format_timestamp(&self) -> (r: Result<String, ConnectorError>)
        ensures
            match r {
                Ok(text) => self.is_formattable() && text@ == self.timestamp_text(),
                Err(e) => !self.is_formattable() && e@ == ConnectorErrorView::RequestEncodingFailed,
            },
    {
        if self.year < 0 || self.year > 9999 || self.month < 1 || self.month > 12 || self.day < 1
            || self.day > 31 || self.hour >= 24 || self.minute >= 60 || self.second >= 60
            || self.millisecond >= 1000 {
            return Err(ConnectorError::RequestEncodingFailed);
        }
        proof {
            reveal_strlit("-");
            reveal_strlit("T");
            reveal_strlit(":");
            reveal_strlit(".");
            reveal_strlit("Z");
        }
        let mut out = String::new();
        push_four_digits(&mut out, self.year as u64);
        out.append("-");
        push_two_digits(&mut out, self.month as u64);
        out.append("-");
        push_two_digits(&mut out, self.day as u64);
        out.append("T");
        push_two_digits(&mut out, self.hour as u64);
        out.append(":");
        push_two_digits(&mut out, self.minute as u64);
        out.append(":");
        push_two_digits(&mut out, self.second as u64);
        out.append(".");
        push_three_digits(&mut out, self.millisecond as u64);
        out.append("Z");
        assert(out@ =~= self.timestamp_text());
        Ok(out)
    }
}

/// The number of trailing characters of a timestamp that the seed replaces.
pub const ZONE_MARKER_LEN: usize = 5;

/// The seed that belongs to a timestamp: the timestamp without its last five
/// characters, followed by `+00:00`. A shorter text has no seed.
pub open spec fn seed_text(timestamp: Seq<char>) -> Option<Seq<char>> {
    if timestamp.len() >= ZONE_MARKER_LEN {
        Some(timestamp.subrange(0, timestamp.len() - ZONE_MARKER_LEN) + "+00:00"@)
    } else {
        None
    }
}

/// The seed that belongs to a moment: that of its timestamp, where the moment can be
/// written.
pub open spec fn seed_of_instant(now: UtcInstant) -> Option<Seq<char>> {
    if now.is_formattable() {
        seed_text(now.timestamp_text())
    } else {
        None
    }
}

/// Derives the seed from a timestamp by replacing its last five characters with
/// `+00:00`. A text of fewer than five characters is a request-encoding error.
pub fn seed_from_timestamp(timestamp: &str) -> (r: Result<String, ConnectorError>)
    ensures
        match r {
            Ok(seed) => seed_text(timestamp@) == Some(seed@),
            Err(e) => seed_text(timestamp@) is None && e@
                == ConnectorErrorView::RequestEncodingFailed,
        },
{
    let len: usize = timestamp.unicode_len();
    if len < ZONE_MARKER_LEN {
        Err(ConnectorError::RequestEncodingFailed)
    } else {
        let kept = timestamp.substring_char(0, len - ZONE_MARKER_LEN);
        Ok(kept.to_owned().concat("+00:00"))
    }
}

/// Every moment that can be written has a seed: its date and time to the second,
/// followed by `+00:00`, twenty-five characters in all.
pub proof fn lemma_seed_of_instant(instant: UtcInstant)
    requires
        instant.is_formattable(),
    ensures
        instant.timestamp_text().len() == 24,
        seed_text(instant.timestamp_text()) == Some(
            four_digits(instant.year as int) + seq!['-'] + two_digits(instant.month as int)
                + seq!['-'] + two_digits(instant.day as int) + seq!['T'] + two_digits(
                instant.hour as int,
            ) + seq![':'] + two_digits(instant.minute as int) + seq![':'] + two_digits(
                instant.second as int,
            ) + "+00:00"@,
        ),
        seed_text(instant.timestamp_text()).unwrap().len() == 25,
{
    reveal_strlit("+00:00");
    let text = instant.timestamp_text();
    let kept = four_digits(instant.year as int) + seq!['-'] + two_digits(instant.month as int)
        + seq!['-'] + two_digits(instant.day as int) + seq!['T'] + two_digits(instant.hour as int)
        + seq![':'] + two_digits(instant.minute as int) + seq![':'] + two_digits(
        instant.second as int,
    );
    assert(text.subrange(0, text.len() - ZONE_MARKER_LEN) =~= kept);
}

} // verus!
