//! Output units: bits or bytes at kilo, mega or giga scale.

use vstd::prelude::*;

verus! {

/// The unit in which volumes and rates are reported. Upper-case letters on
/// the command line select bits, lower-case letters select bytes.
#[derive(Clone, Copy, Debug, PartialEq, Eq, Structural)]
pub enum UnitScale {
    /// `K`: thousands of bits.
    Kilobits,
    /// `M`: millions of bits.
    Megabits,
    /// `G`: thousand millions of bits.
    Gigabits,
    /// `k`: units of 1024 bytes.
    Kilobytes,
    /// `m`: units of 1024 * 1024 bytes.
    Megabytes,
    /// `g`: units of 1024 * 1024 * 1024 bytes.
    Gigabytes,
}

/// The scale character is none of `K`, `M`, `G`, `k`, `m`, `g`.
#[derive(Clone, Copy, Debug, PartialEq, Eq, Structural)]
pub struct UnknownScale {
    /// The character that was given.
    pub given: char,
}

/// The unit that a scale character selects, if it selects one.
pub open spec fn spec_unit_of_char(c: char) -> Option<UnitScale> {
    if c == 'K' {
        Some(UnitScale::Kilobits)
    } else if c == 'M' {
        Some(UnitScale::Megabits)
    } else if c == 'G' {
        Some(UnitScale::Gigabits)
    } else if c == 'k' {
        Some(UnitScale::Kilobytes)
    } else if c == 'm' {
        Some(UnitScale::Megabytes)
    } else if c == 'g' {
        Some(UnitScale::Gigabytes)
    } else {
        None
    }
}

impl UnitScale {
    /// The number of bits in one unit. For the byte units this already
    /// holds the factor 8 between bytes and bits.
    pub open spec fn spec_divisor(self) -> nat {
        match self {
            UnitScale::Kilobits => 1_000,
            UnitScale::Megabits => 1_000_000,
            UnitScale::Gigabits => 1_000_000_000,
            UnitScale::Kilobytes => 8_192,
            UnitScale::Megabytes => 8_388_608,
            UnitScale::Gigabytes => 8_589_934_592,
        }
    }

    /// The number of bytes in one unit: an eighth of `spec_divisor`.
    pub open spec fn spec_bytes_per_unit(self) -> nat {
        match self {
            UnitScale::Kilobits => 125,
            UnitScale::Megabits => 125_000,
            UnitScale::Gigabits => 125_000_000,
            UnitScale::Kilobytes => 1_024,
            UnitScale::Megabytes => 1_048_576,
            UnitScale::Gigabytes => 1_073_741_824,
        }
    }

    /// The text written behind a value in this unit.
    pub open spec fn spec_label(self) -> Seq<char> {
        match self {
            UnitScale::Kilobits => "Kbits"@,
            UnitScale::Megabits => "Mbits"@,
            UnitScale::Gigabits => "Gbits"@,
            UnitScale::Kilobytes => "KB"@,
            UnitScale::Megabytes => "MB"@,
            UnitScale::Gigabytes => "GB"@,
        }
    }

    /// Reads a scale character. Anything but `K`, `M`, `G`, `k`, `m`, `g`
    /// is refused, with the character handed back in the error.
    pub fn from_char(c: char) -> (r: Result<UnitScale, UnknownScale>)
        ensures
            match spec_unit_of_char(c) {
                Some(u) => r == Ok::<UnitScale, UnknownScale>(u),
                None => r == Err::<UnitScale, UnknownScale>(UnknownScale { given: c }),
            },
    {
        if c == 'K' {
            Ok(UnitScale::Kilobits)
        } else if c == 'M' {
            Ok(UnitScale::Megabits)
        } else if c == 'G' {
            Ok(UnitScale::Gigabits)
        } else if c == 'k' {
            Ok(UnitScale::Kilobytes)
        } else if c == 'm' {
            Ok(UnitScale::Megabytes)
        } else if c == 'g' {
            Ok(UnitScale::Gigabytes)
        } else {
            Err(UnknownScale { given: c })
        }
    }

    /// The number of bits in one unit.
    pub fn divisor(self) -> (d: u64)
        ensures
            d == self.spec_divisor(),
    {
        match self {
            UnitScale::Kilobits => 1_000,
            UnitScale::Megabits => 1_000_000,
            UnitScale::Gigabits => 1_000_000_000,
            UnitScale::Kilobytes => 8_192,
            UnitScale::Megabytes => 8_388_608,
            UnitScale::Gigabytes => 8_589_934_592,
        }
    }

    /// The number of bytes in one unit.
    pub fn bytes_per_unit(self) -> (d: u64)
        ensures
            d == self.spec_bytes_per_unit(),
            8 * d == self.spec_divisor(),
    {
        match self {
            UnitScale::Kilobits => 125,
            UnitScale::Megabits => 125_000,
            UnitScale::Gigabits => 125_000_000,
            UnitScale::Kilobytes => 1_024,
            UnitScale::Megabytes => 1_048_576,
            UnitScale::Gigabytes => 1_073_741_824,
        }
    }

    /// The text written behind a value in this unit.
    pub fn label(self) -> (s: &'static str)
        ensures
            s@ == self.spec_label(),
    {
        match self {
            UnitScale::Kilobits => "Kbits",
            UnitScale::Megabits => "Mbits",
            UnitScale::Gigabits => "Gbits",
            UnitScale::Kilobytes => "KB",
            UnitScale::Megabytes => "MB",
            UnitScale::Gigabytes => "GB",
        }
    }
}

} // verus!
