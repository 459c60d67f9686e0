//! How spans and amounts are scaled for a reader.

use vstd::prelude::*;
use crate::config::SpaceUsage;
use crate::text::{as_chars, decimal, push_decimal_text};
use crate::time::Duration;

verus! {

/// The unit in which a span is shown.
#[derive(Debug, PartialEq, Eq, Structural, Copy, Clone)]
pub enum TimeScale {
    Nanos,
    Micros,
    Millis,
    Secs,
}

/// The unit in which a span of `nanos` nanoseconds is shown: nanoseconds
/// below a thousand of them, microseconds below ten milliseconds,
/// milliseconds below a second, seconds from there on.
pub open spec fn scale_spec(nanos: nat) -> TimeScale {
    if nanos < 1_000 {
        TimeScale::Nanos
    } else if nanos < 10_000_000 {
        TimeScale::Micros
    } else if nanos < 1_000_000_000 {
        TimeScale::Millis
    } else {
        TimeScale::Secs
    }
}

impl TimeScale {
    /// How many nanoseconds one of the unit holds.
    pub open spec fn spec_nanos(self) -> nat {
        match self {
            TimeScale::Nanos => 1,
            TimeScale::Micros => 1_000,
            TimeScale::Millis => 1_000_000,
            TimeScale::Secs => 1_000_000_000,
        }
    }

    /// What is written after a number of the unit.
    pub open spec fn spec_suffix(self) -> Seq<char> {
        match self {
            TimeScale::Nanos => "ns"@,
            TimeScale::Micros => "us"@,
            TimeScale::Millis => "ms"@,
            TimeScale::Secs => "s"@,
        }
    }

    pub fn nanos(&self) -> (n: u64)
        ensures
            n == self.spec_nanos(),
    {
        match self {
            TimeScale::Nanos => 1,
            TimeScale::Micros => 1_000,
            TimeScale::Millis => 1_000_000,
            TimeScale::Secs => 1_000_000_000,
        }
    }

    pub fn suffix(&self) -> (s: &'static str)
        ensures
            s@ == self.spec_suffix(),
    {
        match self {
            TimeScale::Nanos => "ns",
            TimeScale::Micros => "us",
            TimeScale::Millis => "ms",
            TimeScale::Secs => "s",
        }
    }
}

/// A span as it is shown to a reader.
#[derive(Clone, Copy, Debug)]
pub struct DurationDisplay(pub Duration);

impl DurationDisplay {
    /// The unit in which the span is shown.
    pub fn scale(&self) -> (scale: TimeScale)
        ensures
            scale == scale_spec(self.0@),
    {
        let nanos = self.0.as_nanos();
        if nanos < 1_000 {
            TimeScale::Nanos
        } else if nanos < 10_000_000 {
            TimeScale::Micros
        } else if nanos < 1_000_000_000 {
            TimeScale::Millis
        } else {
            TimeScale::Secs
        }
    }

    /// The span in whole units of its scale, and what is left over in
    /// nanoseconds.
    pub fn parts(&self) -> (r: (u128, u128))
        ensures
            r.0 == self.0@ / scale_spec(self.0@).spec_nanos(),
            r.1 == self.0@ % scale_spec(self.0@).spec_nanos(),
    {
        let nanos = self.0.as_nanos();
        let unit = self.scale().nanos() as u128;
        (nanos / unit, nanos % unit)
    }
}

pub trait DurationExt {
    /// The span in whole milliseconds.
    spec fn spec_milliseconds(&self) -> nat;

    fn as_milliseconds(&self) -> (millis: u128)
        ensures
            millis == self.spec_milliseconds(),
    ;
}

impl DurationExt for Duration {
    open spec fn spec_milliseconds(&self) -> nat {
        self@ / 1_000_000
    }

    fn as_milliseconds(&self) -> (millis: u128) {
        self.as_nanos() / 1_000_000
    }
}

/// The unit in which an amount of memory is shown.
#[derive(Debug, PartialEq, Eq, Structural, Copy, Clone)]
pub enum SpaceScale {
    Gibibytes,
    Mebibytes,
    Kibibytes,
    Gigabytes,
    Megabytes,
    Kilobytes,
    Bytes,
}

impl SpaceScale {
    /// How many bytes one of the unit holds.
    pub open spec fn spec_bytes(self) -> nat {
        match self {
            SpaceScale::Gibibytes => 1_073_741_824,
            SpaceScale::Mebibytes => 1_048_576,
            SpaceScale::Kibibytes => 1_024,
            SpaceScale::Gigabytes => 1_000_000_000,
            SpaceScale::Megabytes => 1_000_000,
            SpaceScale::Kilobytes => 1_000,
            SpaceScale::Bytes => 1,
        }
    }

    /// The name of the unit, after a space.
    pub open spec fn spec_name(self) -> Seq<char> {
        match self {
            SpaceScale::Gibibytes => " gibibytes"@,
            SpaceScale::Mebibytes => " mebibytes"@,
            SpaceScale::Kibibytes => " kibibytes"@,
            SpaceScale::Gigabytes => " gigabytes"@,
            SpaceScale::Megabytes => " megabytes"@,
            SpaceScale::Kilobytes => " kilobytes"@,
            SpaceScale::Bytes => " bytes"@,
        }
    }

    pub fn bytes(&self) -> (n: u64)
        ensures
            n == self.spec_bytes(),
    {
        match self {
            SpaceScale::Gibibytes => 1_073_741_824,
            SpaceScale::Mebibytes => 1_048_576,
            SpaceScale::Kibibytes => 1_024,
            SpaceScale::Gigabytes => 1_000_000_000,
            SpaceScale::Megabytes => 1_000_000,
            SpaceScale::Kilobytes => 1_000,
            SpaceScale::Bytes => 1,
        }
    }

    pub fn name(&self) -> (s: &'static str)
        ensures
            s@ == self.spec_name(),
    {
        match self {
            SpaceScale::Gibibytes => " gibibytes",
            SpaceScale::Mebibytes => " mebibytes",
            SpaceScale::Kibibytes => " kibibytes",
            SpaceScale::Gigabytes => " gigabytes",
            SpaceScale::Megabytes => " megabytes",
            SpaceScale::Kilobytes => " kilobytes",
            SpaceScale::Bytes => " bytes",
        }
    }
}

/// The unit in which `bytes` bytes are shown: the first that divides the
/// amount, of the binary units from the largest down, then of the decimal
/// units from the largest down, and bytes where none does.
pub open spec fn space_scale_spec(bytes: nat) -> SpaceScale {
    if bytes % 1_073_741_824 == 0 {
        SpaceScale::Gibibytes
    } else if bytes % 1_048_576 == 0 {
        SpaceScale::Mebibytes
    } else if bytes % 1_024 == 0 {
        SpaceScale::Kibibytes
    } else if bytes % 1_000_000_000 == 0 {
        SpaceScale::Gigabytes
    } else if bytes % 1_000_000 == 0 {
        SpaceScale::Megabytes
    } else if bytes % 1_000 == 0 {
        SpaceScale::Kilobytes
    } else {
        SpaceScale::Bytes
    }
}

/// An amount of memory as it is shown: the number of units, and their name.
pub open spec fn space_text_spec(bytes: nat) -> Seq<char> {
    let scale = space_scale_spec(bytes);
    as_chars(decimal(bytes / scale.spec_bytes())) + scale.spec_name()
}

/// The unit in which `usage` is shown.
pub fn space_scale(usage: SpaceUsage) -> (scale: SpaceScale)
    ensures
        scale == space_scale_spec(usage@),
{
    let bytes = usage.as_bytes();
    if bytes % 1_073_741_824 == 0 {
        SpaceScale::Gibibytes
    } else if bytes % 1_048_576 == 0 {
        SpaceScale::Mebibytes
    } else if bytes % 1_024 == 0 {
        SpaceScale::Kibibytes
    } else if bytes % 1_000_000_000 == 0 {
        SpaceScale::Gigabytes
    } else if bytes % 1_000_000 == 0 {
        SpaceScale::Megabytes
    } else if bytes % 1_000 == 0 {
        SpaceScale::Kilobytes
    } else {
        SpaceScale::Bytes
    }
}

/// `usage` as it is shown.
pub fn space_text(usage: SpaceUsage) -> (text: String)
    ensures
        text@ == space_text_spec(usage@),
{
    let scale = space_scale(usage);
    let mut text = String::new();
    push_decimal_text(&mut text, (usage.as_bytes() / scale.bytes()) as u128);
    text.append(scale.name());
    assert(text@ =~= space_text_spec(usage@));
    text
}

} // verus!
