use vstd::prelude::*;

use crate::text::{decimal, push_decimal};

verus! {

/// The radio the router is connected with, and its signal level. LTE levels
/// are percentages; GSM levels are a raw scale of about 0 to 20.
#[derive(Clone, Copy, Debug, PartialEq, Eq, Structural)]
pub enum Net {
    Lte(u8),
    Gsm(u8),
    NoSignal,
}

/// Signal bars, 0 to 4, for an LTE level.
pub open spec fn lte_bars(level: u8) -> u8 {
    if level > 39 {
        4
    } else if level > 27 {
        3
    } else if level > 18 {
        2
    } else if level > 9 {
        1
    } else {
        0
    }
}

/// Signal bars, 0 to 4, for a GSM level.
pub open spec fn gsm_bars(level: u8) -> u8 {
    if level > 18 {
        4
    } else if level > 13 {
        3
    } else if level > 8 {
        2
    } else if level > 2 {
        1
    } else {
        0
    }
}

/// The drawing of a number of signal bars out of four.
pub open spec fn bars_text(bars: u8) -> Seq<char> {
    if bars == 4 {
        "llll"@
    } else if bars == 3 {
        "lll."@
    } else if bars == 2 {
        "ll.."@
    } else if bars == 1 {
        "l..."@
    } else {
        "...."@
    }
}

fn bars_str(bars: u8) -> (r: &'static str)
    ensures
        r@ == bars_text(bars),
{
    if bars == 4 {
        "llll"
    } else if bars == 3 {
        "lll."
    } else if bars == 2 {
        "ll.."
    } else if bars == 1 {
        "l..."
    } else {
        "...."
    }
}

impl Net {
    pub open spec fn spec_bars(&self) -> u8 {
        match *self {
            Net::Lte(level) => lte_bars(level),
            Net::Gsm(level) => gsm_bars(level),
            Net::NoSignal => 0,
        }
    }

    /// The signal strength as 0 to 4 bars.
    #[verifier::when_used_as_spec(spec_bars)]
    pub fn bars(&self) -> (r: u8)
        ensures
            r == self.spec_bars(),
            r <= 4,
    {
        match *self {
            Net::Lte(level) => if level > 39 {
                4
            } else if level > 27 {
                3
            } else if level > 18 {
                2
            } else if level > 9 {
                1
            } else {
                0
            },
            Net::Gsm(level) => if level > 18 {
                4
            } else if level > 13 {
                3
            } else if level > 8 {
                2
            } else if level > 2 {
                1
            } else {
                0
            },
            Net::NoSignal => 0,
        }
    }

    /// The reading as shown to the user: an icon, the radio, the bars and
    /// the level.
    pub open spec fn text(&self) -> Seq<char> {
        match *self {
            Net::Lte(level) => "📡 LTE "@ + bars_text(lte_bars(level)) + " "@ + decimal(
                level as nat,
            ) + "%"@,
            Net::Gsm(level) => "📠 GSM "@ + bars_text(gsm_bars(level)) + " "@ + decimal(
                level as nat,
            ) + "%"@,
            Net::NoSignal => "📵 No signal"@,
        }
    }

    /// The reading as shown to the user.
    pub fn to_string(&self) -> (r: String)
        ensures
            r@ == self.text(),
    {
        let (mut s, level) = match *self {
            Net::Lte(level) => (String::from_str("📡 LTE "), level),
            Net::Gsm(level) => (String::from_str("📠 GSM "), level),
            Net::NoSignal => return String::from_str("📵 No signal"),
        };
        s.append(bars_str(self.bars()));
        s.append(" ");
        push_decimal(&mut s, level as u64);
        s.append("%");
        s
    }
}

} // verus!
