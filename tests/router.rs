use router_agent::battery::Battery;
use router_agent::net::Net;
use router_agent::router::{Command, Request, Router, Status};

fn battery(capacity: u8, voltage_mv: u32, charging: bool) -> Battery {
    Battery { capacity, voltage_mv, charging }
}

fn router(status: Status, battery: Option<Battery>, net: Option<Net>, off_when_charged: bool) -> Router {
    Router { status, battery, net, off_when_charged }
}

#[test]
fn starts_disconnected_with_nothing_read() {
    let r = Router::new();
    assert_eq!(r, router(Status::Disconnected, None, None, false));
    assert_eq!(Router::default(), r);
    assert_eq!(Status::default(), Status::Disconnected);
}

#[test]
fn first_successful_poll_turns_on() {
    let mut r = Router::new();
    assert_eq!(r.handle(Command::Update), Request::Poll);
    let b = battery(45, 3800, false);
    let power_off = r.update(b, Net::Lte(30));
    assert!(!power_off);
    assert_eq!(r, router(Status::On, Some(b), Some(Net::Lte(30)), false));
}

#[test]
fn policy_fires_when_charged_enough() {
    let mut r = router(Status::On, Some(battery(80, 4000, true)), Some(Net::Lte(50)), true);
    assert_eq!(r.handle(Command::Update), Request::Poll);
    let b = battery(95, 4150, true);
    let power_off = r.update(b, Net::Lte(50));
    assert!(power_off);
    assert!(!r.off_when_charged);
    assert_eq!(r.status, Status::ShuttingDown);
    assert_eq!(r.battery, Some(b));
}

#[test]
fn policy_fires_when_charging_stops() {
    let mut r = router(Status::On, Some(battery(50, 3900, true)), Some(Net::Gsm(12)), true);
    assert_eq!(r.handle(Command::Update), Request::Poll);
    let b = battery(55, 3920, false);
    let power_off = r.update(b, Net::Gsm(12));
    assert!(power_off);
    assert!(!r.off_when_charged);
    assert_eq!(r.status, Status::ShuttingDown);
}

#[test]
fn failed_poll_while_shutting_down_means_off() {
    let b = battery(70, 4000, false);
    let mut r = router(Status::ShuttingDown, Some(b), Some(Net::Lte(20)), false);
    assert_eq!(r.handle(Command::Update), Request::Poll);
    r.handle_connection_error();
    assert_eq!(r.status, Status::Off);
    assert_eq!(r.net, None);
    assert_eq!(r.battery, Some(b));
}

#[test]
fn failed_power_off_keeps_queue_running() {
    let b = battery(60, 3950, false);
    let mut r = router(Status::On, Some(b), Some(Net::Lte(40)), true);
    assert_eq!(r.handle(Command::Off), Request::PowerOff);
    // Nothing changes until the login for the power-off succeeds.
    assert_eq!(r, router(Status::On, Some(b), Some(Net::Lte(40)), true));
    r.off();
    // The power-off call itself fails: the caller reports it, the state
    // already shows the power-off as issued.
    assert_eq!(r.status, Status::ShuttingDown);
    assert!(!r.off_when_charged);
    // The next command is still taken.
    assert_eq!(r.handle(Command::Update), Request::Poll);
    assert!(!r.update(b, Net::Lte(40)));
    assert_eq!(r.status, Status::On);
}

#[test]
fn failed_poll_when_on_disconnects() {
    let b = battery(33, 3700, true);
    let mut r = router(Status::On, Some(b), Some(Net::Lte(20)), true);
    r.handle_connection_error();
    assert_eq!(r, router(Status::Disconnected, Some(b), None, true));
}

#[test]
fn failed_poll_keeps_other_statuses() {
    for status in [Status::Disconnected, Status::Rebooting, Status::Off] {
        let mut r = router(status, None, Some(Net::NoSignal), false);
        r.handle_connection_error();
        assert_eq!(r.status, status);
        assert_eq!(r.net, None);
    }
}

#[test]
fn successful_poll_sets_both_readings() {
    let mut r = router(Status::Rebooting, None, None, false);
    let b = battery(10, 3500, false);
    assert!(!r.update(b, Net::NoSignal));
    assert_eq!(r, router(Status::On, Some(b), Some(Net::NoSignal), false));
}

#[test]
fn policy_off_keeps_router_on() {
    let mut r = router(Status::On, Some(battery(80, 4000, true)), None, false);
    let b = battery(95, 4150, false);
    assert!(!r.update(b, Net::Lte(50)));
    assert_eq!(r.status, Status::On);
}

#[test]
fn policy_needs_more_than_ninety_percent() {
    let mut r = router(Status::On, Some(battery(80, 4000, true)), None, true);
    assert!(!r.update(battery(90, 4100, true), Net::Lte(50)));
    assert_eq!(r.status, Status::On);
    assert!(r.off_when_charged);
    assert!(r.update(battery(91, 4100, true), Net::Lte(50)));
    assert_eq!(r.status, Status::ShuttingDown);
}

#[test]
fn policy_without_previous_reading_waits() {
    let mut r = router(Status::Disconnected, None, None, true);
    assert!(!r.update(battery(40, 3800, false), Net::Lte(50)));
    assert_eq!(r.status, Status::On);
    assert!(r.off_when_charged);
}

#[test]
fn reboot_when_on() {
    let mut r = router(Status::On, None, Some(Net::Lte(50)), true);
    assert_eq!(r.handle(Command::Reboot), Request::Reboot);
    assert_eq!(r, router(Status::Rebooting, None, Some(Net::Lte(50)), true));
}

#[test]
fn destructive_commands_ignored_unless_on() {
    for status in [Status::Disconnected, Status::ShuttingDown, Status::Rebooting, Status::Off] {
        for cmd in [Command::Off, Command::Reboot] {
            let before = router(status, Some(battery(50, 3900, true)), None, true);
            let mut r = before;
            assert_eq!(r.handle(cmd), Request::Nothing);
            assert_eq!(r, before);
        }
    }
}

#[test]
fn off_when_charged_is_idempotent() {
    let before = router(Status::On, Some(battery(50, 3900, true)), Some(Net::Lte(30)), false);
    let mut r = before;
    assert_eq!(r.handle(Command::OffWhenCharged(true)), Request::Nothing);
    let once = r;
    assert_eq!(once, Router { off_when_charged: true, ..before });
    assert_eq!(r.handle(Command::OffWhenCharged(true)), Request::Nothing);
    assert_eq!(r, once);
    assert_eq!(r.handle(Command::OffWhenCharged(false)), Request::Nothing);
    assert_eq!(r, before);
}

#[test]
fn shutting_down_always_clears_policy() {
    let mut r = router(Status::On, Some(battery(50, 3900, true)), None, true);
    assert_eq!(r.handle(Command::Off), Request::PowerOff);
    r.off();
    assert_eq!(r.status, Status::ShuttingDown);
    assert!(!r.off_when_charged);
}

#[test]
fn charging_and_charged_enough_read_last_battery() {
    let r = router(Status::On, Some(battery(91, 4100, true)), None, false);
    assert!(r.charging());
    assert!(r.charged_enough());
    let r = router(Status::On, Some(battery(90, 4100, false)), None, false);
    assert!(!r.charging());
    assert!(!r.charged_enough());
    let r = Router::new();
    assert!(!r.charging());
    assert!(!r.charged_enough());
}

#[test]
fn status_text() {
    assert_eq!(Status::Disconnected.as_str(), "disconnected");
    assert_eq!(Status::On.as_str(), "on");
    assert_eq!(Status::ShuttingDown.as_str(), "shutting down ..");
    assert_eq!(Status::Rebooting.as_str(), "rebooting ..");
    assert_eq!(Status::Off.as_str(), "off");
    assert!(Status::On.is_on());
    assert!(!Status::Rebooting.is_on());
}

#[test]
fn power_off_with_failed_login_changes_nothing() {
    let before = router(Status::On, Some(battery(50, 3900, true)), Some(Net::Lte(25)), true);
    let mut r = before;
    assert_eq!(r.handle(Command::Off), Request::PowerOff);
    // The login fails: the caller reports it and does not call `off`.
    assert_eq!(r, before);
}

#[test]
fn poll_step_leaves_state_until_outcome_is_known() {
    let before = router(Status::On, Some(battery(50, 3900, true)), Some(Net::Lte(25)), true);
    let mut r = before;
    assert_eq!(r.handle(Command::Update), Request::Poll);
    assert_eq!(r, before);
}
