//! Texts for display: a task's size, its current speed and the time it
//! still needs.

use crate::entities::{Task, TaskStatus, Transfer};
use crate::text::{push_decimal, spec_decimal};
use byte_unit::{Byte, UnitType};
use vstd::prelude::*;

verus! {

/// The text that `byte_unit` gives for a number of bytes in the largest
/// fitting decimal unit, with at most two decimals, such as `1.23 GB`.
pub uninterp spec fn spec_decimal_unit(bytes: u64) -> Seq<char>;

/// Renders a number of bytes by `byte_unit`: `Byte::from`, then
/// `Byte::get_appropriate_unit` with `UnitType::Decimal`, then the `Display`
/// of `AdjustedByte` with the format `{:#.2}`. The contract only gives the
/// outcome its name: it depends on the number alone.
#[verifier::external_body]
fn decimal_unit(bytes: u64) -> (s: String)
    ensures
        s@ == spec_decimal_unit(bytes),
{
    format!("{:#.2}", Byte::from(bytes).get_appropriate_unit(UnitType::Decimal))
}

/// The speed that a status shows: the download speed while downloading, the
/// upload speed while seeding, none otherwise.
pub open spec fn spec_shown_speed(status: TaskStatus, transfer: Transfer) -> u64 {
    match status {
        TaskStatus::Downloading => transfer.speed_download,
        TaskStatus::Seeding => transfer.speed_upload,
        _ => 0,
    }
}

/// A speed label around a rendered amount: `(` amount `/s)`.
pub open spec fn spec_speed_label(amount: Seq<char>) -> Seq<char> {
    "("@ + amount + "/s)"@
}

/// A speed label around a rendered amount: `(` amount `/s)`.
pub fn speed_label(amount: &str) -> (s: String)
    ensures
        s@ == spec_speed_label(amount@),
{
    let mut s = String::from_str("(");
    s.append(amount);
    s.append("/s)");
    s
}

/// Whole seconds until a download ends at its current speed, or -1 where
/// that is unknown: the speed is zero, or more is downloaded than the size.
/// The quotient is rounded down and capped at the largest `i64`.
pub open spec fn spec_seconds_left(size: u64, downloaded: u64, speed: u64) -> int {
    if speed == 0 || downloaded > size {
        -1
    } else if (size - downloaded) / (speed as int) > i64::MAX {
        i64::MAX as int
    } else {
        (size - downloaded) / (speed as int)
    }
}

/// Whole seconds until a download ends at its current speed, or -1 where
/// that is unknown.
pub fn seconds_left(size: u64, downloaded: u64, speed: u64) -> (r: i64)
    ensures
        r == spec_seconds_left(size, downloaded, speed),
{
    if speed == 0 || downloaded > size {
        -1
    } else {
        let q: u64 = (size - downloaded) / speed;
        if q > 0x7fff_ffff_ffff_ffff {
            i64::MAX
        } else {
            q as i64
        }
    }
}

/// A duration in seconds in its two or three largest units; `Unknown` for
/// a negative one.
pub open spec fn spec_time_left(input: int) -> Seq<char> {
    if input < 0 {
        "Unknown"@
    } else if input < 60 {
        spec_decimal(input as nat) + " s"@
    } else if input < 3600 {
        spec_decimal((input / 60) as nat) + " m "@ + spec_decimal((input % 60) as nat) + " s"@
    } else if input < 86400 {
        spec_decimal((input / 3600) as nat) + " h "@ + spec_decimal(((input % 3600) / 60) as nat)
            + " m"@
    } else {
        spec_decimal((input / 86400) as nat) + " d "@ + spec_decimal(
            ((input % 86400) / 3600) as nat,
        ) + " h "@ + spec_decimal((((input % 86400) % 3600) / 60) as nat) + " m"@
    }
}

/// A duration in seconds in its two or three largest units; `Unknown` for
/// a negative one.
pub fn convert_time_left(input: i64) -> (s: String)
    ensures
        s@ == spec_time_left(input as int),
{
    if input < 0 {
        return String::from_str("Unknown");
    }
    let total: u64 = input as u64;
    let mut s = String::new();
    if total < 60 {
        push_decimal(&mut s, total);
        s.append(" s");
    } else if total < 3600 {
        push_decimal(&mut s, total / 60);
        s.append(" m ");
        push_decimal(&mut s, total % 60);
        s.append(" s");
    } else if total < 86400 {
        push_decimal(&mut s, total / 3600);
        s.append(" h ");
        push_decimal(&mut s, (total % 3600) / 60);
        s.append(" m");
    } else {
        push_decimal(&mut s, total / 86400);
        s.append(" d ");
        push_decimal(&mut s, (total % 86400) / 3600);
        s.append(" h ");
        push_decimal(&mut s, ((total % 86400) % 3600) / 60);
        s.append(" m");
    }
    s
}

impl Task {
    /// The text of `calculate_speed`.
    pub open spec fn spec_speed_text(&self) -> Seq<char> {
        match self.additional {
            Some(additional) => match additional.transfer {
                Some(transfer) => if spec_shown_speed(self.status, transfer) > 0 {
                    spec_speed_label(spec_decimal_unit(spec_shown_speed(self.status, transfer)))
                } else {
                    Seq::empty()
                },
                None => Seq::empty(),
            },
            None => Seq::empty(),
        }
    }

    /// The text of `calculate_time_left`.
    pub open spec fn spec_time_left_text(&self) -> Seq<char> {
        match self.additional {
            Some(additional) => match additional.transfer {
                Some(transfer) => if self.status is Downloading {
                    "⏳Time left: "@ + spec_time_left(
                        spec_seconds_left(
                            self.size,
                            transfer.size_downloaded,
                            transfer.speed_download,
                        ),
                    )
                } else {
                    Seq::empty()
                },
                None => Seq::empty(),
            },
            None => Seq::empty(),
        }
    }

    /// The task's total size in the largest fitting decimal unit.
    pub fn calculate_size(&self) -> (s: String)
        ensures
            s@ == spec_decimal_unit(self.size),
    {
        decimal_unit(self.size)
    }

    /// The task's current speed as a label: the download speed while it
    /// downloads, the upload speed while it seeds. Empty in any other
    /// status, without transfer counters, and at speed zero.
    pub fn calculate_speed(&self) -> (s: String)
        ensures
            s@ == self.spec_speed_text(),
    {
        match &self.additional {
            Some(additional) => match &additional.transfer {
                Some(transfer) => {
                    let speed = match self.status {
                        TaskStatus::Downloading => transfer.speed_download,
                        TaskStatus::Seeding => transfer.speed_upload,
                        _ => 0,
                    };
                    if speed > 0 {
                        let amount = decimal_unit(speed);
                        speed_label(amount.as_str())
                    } else {
                        String::new()
                    }
                },
                None => String::new(),
            },
            None => String::new(),
        }
    }

    /// The time that a downloading task still needs at its current speed.
    /// Empty in any other status and without transfer counters.
    pub fn calculate_time_left(&self) -> (s: String)
        ensures
            s@ == self.spec_time_left_text(),
    {
        match &self.additional {
            Some(additional) => match &additional.transfer {
                Some(transfer) => match self.status {
                    TaskStatus::Downloading => {
                        let seconds = seconds_left(
                            self.size,
                            transfer.size_downloaded,
                            transfer.speed_download,
                        );
                        let rest = convert_time_left(seconds);
                        let mut s = String::from_str("⏳Time left: ");
                        s.append(rest.as_str());
                        s
                    },
                    _ => String::new(),
                },
                None => String::new(),
            },
            None => String::new(),
        }
    }
}

} // verus!
