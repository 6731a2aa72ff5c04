use router_agent::battery::{to_time_string, Battery};
use router_agent::net::Net;
use router_agent::presentation::{
    buttons, info, last_battery_short_status, off_when_charged_badge, offers_policy_toggle,
    poll_summary, title,
};
use router_agent::router::{Command, Router, Status};

fn battery(capacity: u8, voltage_mv: u32, charging: bool) -> Battery {
    Battery { capacity, voltage_mv, charging }
}

#[test]
fn net_text_lte_buckets() {
    assert_eq!(Net::Lte(45).to_string(), "📡 LTE llll 45%");
    assert_eq!(Net::Lte(40).to_string(), "📡 LTE llll 40%");
    assert_eq!(Net::Lte(39).to_string(), "📡 LTE lll. 39%");
    assert_eq!(Net::Lte(28).to_string(), "📡 LTE lll. 28%");
    assert_eq!(Net::Lte(27).to_string(), "📡 LTE ll.. 27%");
    assert_eq!(Net::Lte(19).to_string(), "📡 LTE ll.. 19%");
    assert_eq!(Net::Lte(18).to_string(), "📡 LTE l... 18%");
    assert_eq!(Net::Lte(10).to_string(), "📡 LTE l... 10%");
    assert_eq!(Net::Lte(9).to_string(), "📡 LTE .... 9%");
    assert_eq!(Net::Lte(0).to_string(), "📡 LTE .... 0%");
}

#[test]
fn net_text_gsm_buckets() {
    assert_eq!(Net::Gsm(19).to_string(), "📠 GSM llll 19%");
    assert_eq!(Net::Gsm(18).to_string(), "📠 GSM lll. 18%");
    assert_eq!(Net::Gsm(14).to_string(), "📠 GSM lll. 14%");
    assert_eq!(Net::Gsm(13).to_string(), "📠 GSM ll.. 13%");
    assert_eq!(Net::Gsm(9).to_string(), "📠 GSM ll.. 9%");
    assert_eq!(Net::Gsm(8).to_string(), "📠 GSM l... 8%");
    assert_eq!(Net::Gsm(3).to_string(), "📠 GSM l... 3%");
    assert_eq!(Net::Gsm(2).to_string(), "📠 GSM .... 2%");
    assert_eq!(Net::Gsm(255).to_string(), "📠 GSM llll 255%");
}

#[test]
fn net_no_signal() {
    assert_eq!(Net::NoSignal.to_string(), "📵 No signal");
    assert_eq!(Net::NoSignal.bars(), 0);
    assert_eq!(Net::Lte(100).bars(), 4);
    assert_eq!(Net::Gsm(10).bars(), 2);
}

#[test]
fn battery_badges() {
    assert_eq!(battery(10, 3500, true).badge(), "⚡️");
    assert_eq!(battery(16, 3500, false).badge(), "🔋");
    assert_eq!(battery(15, 3500, false).badge(), "🪫");
}

#[test]
fn battery_charged_enough_mark() {
    assert!(battery(91, 4100, false).charged_enough());
    assert!(!battery(90, 4100, false).charged_enough());
}

#[test]
fn battery_lifetime_scales_with_capacity() {
    assert_eq!(battery(100, 4200, false).lifetime(), 25200);
    assert_eq!(battery(45, 3800, false).lifetime(), 11340);
    assert_eq!(battery(0, 3300, false).lifetime(), 0);
}

#[test]
fn time_strings() {
    assert_eq!(to_time_string(0), "0m");
    assert_eq!(to_time_string(59), "0m");
    assert_eq!(to_time_string(2520), "42m");
    assert_eq!(to_time_string(3600), "60m");
    assert_eq!(to_time_string(3601), "1h");
    assert_eq!(to_time_string(3960), "1.1h");
    assert_eq!(to_time_string(7200), "2h");
    assert_eq!(to_time_string(11340), "3.1h");
    assert_eq!(to_time_string(25200), "7h");
}

#[test]
fn battery_text() {
    assert_eq!(battery(45, 3800, false).to_string(), "🔋 45% 3.8V ~3.1h");
    assert_eq!(battery(10, 3650, false).to_string(), "🪫 10% 3.65V ~42m");
    assert_eq!(battery(100, 4200, true).to_string(), "⚡️ 100% 4.2V ~7h");
    assert_eq!(battery(50, 4000, false).to_string(), "🔋 50% 4V ~3.5h");
    assert_eq!(battery(20, 4005, false).to_string(), "🔋 20% 4.005V ~1.4h");
    assert_eq!(battery(20, 12345, false).to_string(), "🔋 20% 12.345V ~1.4h");
}

#[test]
fn notification_title() {
    let r = Router::new();
    assert_eq!(title(&r), "Router > disconnected ");
    let r = Router { status: Status::On, battery: Some(battery(50, 3900, true)), net: None, off_when_charged: true };
    assert_eq!(off_when_charged_badge(&r), "🔌");
    assert_eq!(title(&r), "Router > on 🔌");
    let r = Router { off_when_charged: false, ..r };
    assert_eq!(off_when_charged_badge(&r), "");
    let r = Router { status: Status::ShuttingDown, battery: Some(battery(50, 3900, false)), net: None, off_when_charged: true };
    assert_eq!(title(&r), "Router > shutting down .. ");
}

#[test]
fn notification_body() {
    let b = battery(45, 3800, false);
    let r = Router { status: Status::On, battery: Some(b), net: Some(Net::Lte(30)), off_when_charged: false };
    assert_eq!(info(&r), "🔋 45% 3.8V ~3.1h\t\t📡 LTE lll. 30%");
    let r = Router { status: Status::Disconnected, net: None, ..r };
    assert_eq!(info(&r), "🔋 45% 3.8V ~3.1h");
    let r = Router { battery: None, net: Some(Net::Lte(30)), ..r };
    assert_eq!(info(&r), "");
    assert_eq!(info(&Router::new()), "");
}

#[test]
fn buttons_only_when_on() {
    for status in [Status::Disconnected, Status::ShuttingDown, Status::Rebooting, Status::Off] {
        let r = Router { status, battery: Some(battery(50, 3900, true)), net: None, off_when_charged: false };
        assert!(buttons(&r).is_empty());
    }
}

#[test]
fn buttons_when_on_and_not_charging() {
    let r = Router { status: Status::On, battery: Some(battery(50, 3900, false)), net: None, off_when_charged: false };
    assert!(!offers_policy_toggle(&r));
    let bs = buttons(&r);
    assert_eq!(bs.len(), 2);
    assert_eq!((bs[0].label, bs[0].command), ("OFF", Command::Off));
    assert_eq!((bs[1].label, bs[1].command), ("REBOOT", Command::Reboot));
}

#[test]
fn buttons_offer_policy_while_charging_below_mark() {
    let r = Router { status: Status::On, battery: Some(battery(50, 3900, true)), net: None, off_when_charged: false };
    assert!(offers_policy_toggle(&r));
    let bs = buttons(&r);
    assert_eq!(bs.len(), 3);
    assert_eq!((bs[2].label, bs[2].command), ("CHARGE & OFF", Command::OffWhenCharged(true)));
    let r = Router { off_when_charged: true, ..r };
    let bs = buttons(&r);
    assert_eq!((bs[2].label, bs[2].command), ("KEEP ON", Command::OffWhenCharged(false)));
    let r = Router { battery: Some(battery(90, 4100, true)), ..r };
    assert_eq!(buttons(&r).len(), 2);
    let r = Router { battery: Some(battery(89, 4100, true)), ..r };
    assert_eq!(buttons(&r).len(), 3);
}

#[test]
fn short_battery_status() {
    assert_eq!(last_battery_short_status(&None), None);
    assert_eq!(last_battery_short_status(&Some(battery(45, 3800, false))), Some("🔋 ~45%".to_string()));
    assert_eq!(last_battery_short_status(&Some(battery(7, 3400, true))), Some("⚡️ ~7%".to_string()));
}

#[test]
fn single_poll_body() {
    let b = battery(45, 3800, false);
    let r = Router { status: Status::On, battery: Some(b), net: Some(Net::Lte(30)), off_when_charged: false };
    assert_eq!(poll_summary(&r), "🔋 45% 3.8V ~3.1h\t\t📡 LTE lll. 30%");
    let r = Router { status: Status::Disconnected, net: None, ..r };
    assert_eq!(poll_summary(&r), "Disconnected 🔋 ~45%");
    assert_eq!(poll_summary(&Router::new()), "Disconnected ");
}
