use vstd::prelude::*;

use crate::battery::{Battery, CHARGED_ENOUGH};
use crate::router::{Command, Router};
use crate::text::{decimal, push_decimal};

verus! {

/// A button of the status notification: its label and the command that a
/// tap on it queues.
#[derive(Clone, Copy, Debug, PartialEq, Eq)]
pub struct Button {
    pub label: &'static str,
    pub command: Command,
}

pub open spec fn badge_text(router: Router) -> Seq<char> {
    if router.off_when_charged && router.spec_charging() {
        "🔌"@
    } else {
        ""@
    }
}

/// A plug while the policy waits for a charging router to be charged;
/// otherwise empty.
pub fn off_when_charged_badge(router: &Router) -> (r: &'static str)
    ensures
        r@ == badge_text(*router),
{
    if router.off_when_charged && router.charging() {
        "🔌"
    } else {
        ""
    }
}

pub open spec fn title_text(router: Router) -> Seq<char> {
    "Router > "@ + router.status.text() + " "@ + badge_text(router)
}

/// The title of the status notification: the status and the policy badge.
pub fn title(router: &Router) -> (r: String)
    ensures
        r@ == title_text(*router),
{
    let mut s = String::from_str("Router > ");
    s.append(router.status.as_str());
    s.append(" ");
    s.append(off_when_charged_badge(router));
    s
}

pub open spec fn info_text(router: Router) -> Seq<char> {
    match (router.battery, router.net) {
        (Some(b), Some(n)) => b.text() + "\t\t"@ + n.text(),
        (Some(b), None) => b.text(),
        _ => Seq::empty(),
    }
}

/// The body of the status notification: the battery reading and, when
/// there is one, the network reading; empty before any battery reading.
pub fn info(router: &Router) -> (r: String)
    ensures
        r@ == info_text(*router),
{
    match (&router.battery, &router.net) {
        (Some(b), Some(n)) => {
            let mut s = b.to_string();
            s.append("\t\t");
            let net = n.to_string();
            s.append(net.as_str());
            s
        },
        (Some(b), None) => b.to_string(),
        _ => String::new(),
    }
}

pub open spec fn spec_offers_policy_toggle(router: Router) -> bool {
    &&& router.spec_charging()
    &&& router.battery matches Some(b) && b.capacity < CHARGED_ENOUGH
}

/// Whether the policy can be switched: the router charges and is below the
/// charged-enough mark.
pub fn offers_policy_toggle(router: &Router) -> (r: bool)
    ensures
        r == spec_offers_policy_toggle(*router),
{
    match &router.battery {
        Some(b) => b.charging && b.capacity < CHARGED_ENOUGH,
        None => false,
    }
}

/// The label of the button that switches the policy.
pub open spec fn toggle_label(off_when_charged: bool) -> Seq<char> {
    if off_when_charged {
        "KEEP ON"@
    } else {
        "CHARGE & OFF"@
    }
}

/// The buttons of the status notification. None unless the router is on;
/// then power-off and reboot, and a switch of the policy while
/// [`offers_policy_toggle`] holds.
pub fn buttons(router: &Router) -> (r: Vec<Button>)
    ensures
        !(router.status is On) ==> r@.len() == 0,
        router.status is On ==> {
            &&& r@.len() == if spec_offers_policy_toggle(*router) {
                3int
            } else {
                2int
            }
            &&& r@[0].label@ == "OFF"@ && r@[0].command == Command::Off
            &&& r@[1].label@ == "REBOOT"@ && r@[1].command == Command::Reboot
            &&& spec_offers_policy_toggle(*router) ==> r@[2].label@ == toggle_label(
                router.off_when_charged,
            ) && r@[2].command == Command::OffWhenCharged(!router.off_when_charged)
        },
{
    let mut r: Vec<Button> = Vec::new();
    if router.status.is_on() {
        r.push(Button { label: "OFF", command: Command::Off });
        r.push(Button { label: "REBOOT", command: Command::Reboot });
        if offers_policy_toggle(router) {
            let label = if router.off_when_charged {
                "KEEP ON"
            } else {
                "CHARGE & OFF"
            };
            r.push(Button { label, command: Command::OffWhenCharged(!router.off_when_charged) });
        }
    }
    r
}

pub open spec fn short_status_text(b: Battery) -> Seq<char> {
    b.badge_text() + " ~"@ + decimal(b.capacity as nat) + "%"@
}

/// The battery icon and capacity of a last known reading, if any.
pub fn last_battery_short_status(battery: &Option<Battery>) -> (r: Option<String>)
    ensures
        match *battery {
            Some(b) => r matches Some(s) && s@ == short_status_text(b),
            None => r is None,
        },
{
    match battery {
        Some(b) => {
            let mut s = String::from_str(b.badge());
            s.append(" ~");
            push_decimal(&mut s, b.capacity as u64);
            s.append("%");
            Some(s)
        },
        None => None,
    }
}

pub open spec fn poll_summary_text(router: Router) -> Seq<char> {
    if router.status is On {
        info_text(router)
    } else {
        "Disconnected "@ + match router.battery {
            Some(b) => short_status_text(b),
            None => Seq::empty(),
        }
    }
}

/// The body of the notification that a single poll shows: the readings
/// while the router is on, else `Disconnected` and the last known battery
/// icon and capacity, if any.
pub fn poll_summary(router: &Router) -> (r: String)
    ensures
        r@ == poll_summary_text(*router),
{
    if router.status.is_on() {
        info(router)
    } else {
        let mut s = String::from_str("Disconnected ");
        match last_battery_short_status(&router.battery) {
            Some(short) => s.append(short.as_str()),
            None => {},
        }
        s
    }
}

} // verus!
