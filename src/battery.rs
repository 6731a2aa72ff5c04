use vstd::prelude::*;

use crate::text::{decimal, digit_text, push_decimal};

verus! {

/// Capacity, in percent, of a full battery; no reading holds more.
pub const FULL_CAPACITY: u8 = 100;

/// Capacity, in percent, above which the battery counts as charged.
pub const CHARGED_ENOUGH: u8 = 90;

/// Capacity, in percent, at or below which the battery counts as low.
pub const LOW_CAPACITY: u8 = 15;

/// How long a full battery lasts, in seconds.
pub const BATTERY_LIFETIME_SECS: u64 = 7 * 60 * 60;

/// One reading of the router's battery.
#[derive(Clone, Copy, Debug, PartialEq, Eq, Structural)]
pub struct Battery {
    /// Charge in percent, 0 to 100 for a reading of the router.
    pub capacity: u8,
    /// Voltage in millivolts.
    pub voltage_mv: u32,
    /// Whether a charger is feeding the battery.
    pub charging: bool,
}

/// The digits after the decimal point of a number of thousandths, without
/// trailing zeros; empty for a whole number.
pub open spec fn thousandths_text(f: nat) -> Seq<char> {
    if f == 0 {
        Seq::empty()
    } else if f % 100 == 0 {
        "."@ + digit_text(f / 100)
    } else if f % 10 == 0 {
        "."@ + digit_text(f / 100) + digit_text(f / 10 % 10)
    } else {
        "."@ + digit_text(f / 100) + digit_text(f / 10 % 10) + digit_text(f % 10)
    }
}

/// A voltage given in millivolts, written in volts.
pub open spec fn volts_text(mv: nat) -> Seq<char> {
    decimal(mv / 1000) + thousandths_text(mv % 1000)
}

/// A duration given in seconds, written in hours rounded down to a tenth
/// when it is over an hour, else in whole minutes rounded down.
pub open spec fn time_text(secs: nat) -> Seq<char> {
    if secs > 3600 {
        let tenths = secs / 360;
        let fraction = if tenths % 10 == 0 {
            Seq::empty()
        } else {
            "."@ + digit_text(tenths % 10)
        };
        decimal(tenths / 10) + fraction + "h"@
    } else {
        decimal(secs / 60) + "m"@
    }
}

/// Writes a duration given in seconds for the user: hours to a tenth when
/// it is over an hour, else minutes.
pub fn to_time_string(secs: u64) -> (r: String)
    ensures
        r@ == time_text(secs as nat),
{
    let mut s = String::new();
    if secs > 3600 {
        let tenths = secs / 360;
        push_decimal(&mut s, tenths / 10);
        if tenths % 10 != 0 {
            s.append(".");
            push_decimal(&mut s, tenths % 10);
        }
        s.append("h");
    } else {
        push_decimal(&mut s, secs / 60);
        s.append("m");
    }
    assert(s@ =~= time_text(secs as nat));
    s
}

fn push_volts(s: &mut String, mv: u32)
    ensures
        final(s)@ == old(s)@ + volts_text(mv as nat),
{
    push_decimal(s, (mv / 1000) as u64);
    let f = (mv % 1000) as u64;
    if f != 0 {
        s.append(".");
        push_decimal(s, f / 100);
        if f % 100 != 0 {
            push_decimal(s, f / 10 % 10);
            if f % 10 != 0 {
                push_decimal(s, f % 10);
            }
        }
    }
    assert(final(s)@ =~= old(s)@ + volts_text(mv as nat));
}

impl Battery {
    pub open spec fn spec_charged_enough(&self) -> bool {
        self.capacity > CHARGED_ENOUGH
    }

    /// Whether the capacity is above the charged-enough mark.
    #[verifier::when_used_as_spec(spec_charged_enough)]
    pub fn charged_enough(&self) -> (r: bool)
        ensures
            r == self.spec_charged_enough(),
    {
        self.capacity > CHARGED_ENOUGH
    }

    /// The icon for the battery: a lightning bolt while charging, else a
    /// full or an empty battery.
    pub open spec fn badge_text(&self) -> Seq<char> {
        if self.charging {
            "⚡️"@
        } else if self.capacity > LOW_CAPACITY {
            "🔋"@
        } else {
            "🪫"@
        }
    }

    /// The icon for the battery.
    pub fn badge(&self) -> (r: &'static str)
        ensures
            r@ == self.badge_text(),
    {
        if self.charging {
            "⚡️"
        } else if self.capacity > LOW_CAPACITY {
            "🔋"
        } else {
            "🪫"
        }
    }

    pub open spec fn spec_lifetime(&self) -> nat {
        (BATTERY_LIFETIME_SECS * self.capacity / 100) as nat
    }

    /// Seconds that the charge lasts, the full lifetime scaled by capacity.
    pub fn lifetime(&self) -> (r: u64)
        ensures
            r == self.spec_lifetime(),
    {
        assert(BATTERY_LIFETIME_SECS == 25200);
        BATTERY_LIFETIME_SECS * self.capacity as u64 / 100
    }

    /// The reading as shown to the user: icon, capacity, voltage and the
    /// time the charge lasts.
    pub open spec fn text(&self) -> Seq<char> {
        self.badge_text() + " "@ + decimal(self.capacity as nat) + "% "@ + volts_text(
            self.voltage_mv as nat,
        ) + "V ~"@ + time_text(self.spec_lifetime())
    }

    /// The reading as shown to the user.
    pub fn to_string(&self) -> (r: String)
        ensures
            r@ == self.text(),
    {
        let mut s = String::from_str(self.badge());
        s.append(" ");
        push_decimal(&mut s, self.capacity as u64);
        s.append("% ");
        push_volts(&mut s, self.voltage_mv);
        s.append("V ~");
        let lifetime = to_time_string(self.lifetime());
        s.append(lifetime.as_str());
        s
    }
}

} // verus!
