use vstd::prelude::*;

use crate::api::Error;
use crate::battery::Battery;
use crate::net::Net;

verus! {

/// A request to the state machine, as it arrives through the command queue.
#[derive(Clone, Copy, Debug, PartialEq, Eq, Structural)]
pub enum Command {
    /// Poll the router now.
    Update,
    /// Power the router off.
    Off,
    /// Reboot the router.
    Reboot,
    /// Switch the one-shot "power off once charged" policy on or off.
    OffWhenCharged(bool),
}

/// What the agent believes of the router.
#[derive(Clone, Copy, Debug, PartialEq, Eq, Structural)]
pub enum Status {
    Disconnected,
    On,
    ShuttingDown,
    Rebooting,
    Off,
}

impl Status {
    pub open spec fn spec_is_on(self) -> bool {
        self is On
    }

    /// Whether the router is reachable and idle.
    #[verifier::when_used_as_spec(spec_is_on)]
    pub fn is_on(self) -> (r: bool)
        ensures
            r == (self is On),
    {
        matches!(self, Status::On)
    }

    pub open spec fn text(self) -> Seq<char> {
        match self {
            Status::Disconnected => "disconnected"@,
            Status::On => "on"@,
            Status::ShuttingDown => "shutting down .."@,
            Status::Rebooting => "rebooting .."@,
            Status::Off => "off"@,
        }
    }

    /// The status as shown to the user.
    pub fn as_str(&self) -> (r: &'static str)
        ensures
            r@ == self.text(),
    {
        match self {
            Status::Disconnected => "disconnected",
            Status::On => "on",
            Status::ShuttingDown => "shutting down ..",
            Status::Rebooting => "rebooting ..",
            Status::Off => "off",
        }
    }
}

impl Default for Status {
    /// The status at start-up.
    fn default() -> (r: Status)
        ensures
            r is Disconnected,
    {
        Status::Disconnected
    }
}

/// The router API work that a command asks for, to be carried out by the
/// caller of [`Router::handle`].
#[derive(Clone, Copy, Debug, PartialEq, Eq, Structural)]
pub enum Request {
    /// No call to the router.
    Nothing,
    /// Log in, read the battery and the network, and hand the readings to
    /// [`Router::update`], or call [`Router::handle_connection_error`] when
    /// any of it failed.
    Poll,
    /// Log in, call [`Router::off`], and power the router off; a failure is
    /// the command's error.
    PowerOff,
    /// Log in and reboot the router; a failure is the command's error.
    Reboot,
}

/// What the poll of an `Update` returned: a battery and a network reading
/// from one session, or the error that cut the poll short.
pub type Reading = Result<(Battery, Net), Error>;

/// The authoritative state of the agent, changed only by its own steps
/// ([`Router::handle`], [`Router::update`], [`Router::off`],
/// [`Router::handle_connection_error`]), one command at a time.
#[derive(Clone, Copy, Debug, PartialEq, Eq, Structural)]
pub struct Router {
    pub status: Status,
    /// Last battery reading; kept when the router becomes unreachable.
    pub battery: Option<Battery>,
    /// Last network reading; dropped when the router becomes unreachable.
    pub net: Option<Net>,
    /// Power the router off once it is charged or its charger is unplugged.
    pub off_when_charged: bool,
}

impl Router {
    pub open spec fn initial() -> Router {
        Router { status: Status::Disconnected, battery: None, net: None, off_when_charged: false }
    }

    /// The state at start-up: disconnected, nothing read, policy off.
    pub fn new() -> (r: Router)
        ensures
            r == Router::initial(),
    {
        Router { status: Status::Disconnected, battery: None, net: None, off_when_charged: false }
    }

    pub open spec fn spec_charging(&self) -> bool {
        self.battery matches Some(b) && b.charging
    }

    pub open spec fn spec_charged_enough(&self) -> bool {
        self.battery matches Some(b) && b.spec_charged_enough()
    }

    /// Whether the last battery reading was charging.
    #[verifier::when_used_as_spec(spec_charging)]
    pub fn charging(&self) -> (r: bool)
        ensures
            r == self.spec_charging(),
    {
        match &self.battery {
            Some(b) => b.charging,
            None => false,
        }
    }

    /// Whether the last battery reading was charged enough.
    #[verifier::when_used_as_spec(spec_charged_enough)]
    pub fn charged_enough(&self) -> (r: bool)
        ensures
            r == self.spec_charged_enough(),
    {
        match &self.battery {
            Some(b) => b.charged_enough(),
            None => false,
        }
    }

    /// Whether a new battery reading makes the policy power the router off:
    /// the policy is active and the battery is charged enough, or it was
    /// charging before and no longer is.
    pub open spec fn policy_fires(self, new_battery: Battery) -> bool {
        &&& self.off_when_charged
        &&& (new_battery.spec_charged_enough() || (self.spec_charging() && !new_battery.charging))
    }

    /// The router API work that `cmd` asks for in this state.
    pub open spec fn request_for(self, cmd: Command) -> Request {
        match cmd {
            Command::Update => Request::Poll,
            Command::Off => if self.status is On {
                Request::PowerOff
            } else {
                Request::Nothing
            },
            Command::Reboot => if self.status is On {
                Request::Reboot
            } else {
                Request::Nothing
            },
            Command::OffWhenCharged(_) => Request::Nothing,
        }
    }

    /// The state once a power-off is issued: the policy is one-shot.
    pub open spec fn shutting_down(self) -> Router {
        Router { status: Status::ShuttingDown, off_when_charged: false, ..self }
    }

    /// The state after [`Router::handle`] took `cmd`.
    pub open spec fn after_command(self, cmd: Command) -> Router {
        match cmd {
            Command::Reboot => if self.status is On {
                Router { status: Status::Rebooting, ..self }
            } else {
                self
            },
            Command::OffWhenCharged(b) => Router { off_when_charged: b, ..self },
            _ => self,
        }
    }

    /// What becomes of the status when the router cannot be reached.
    pub open spec fn lost_status(status: Status) -> Status {
        match status {
            Status::On => Status::Disconnected,
            Status::ShuttingDown => Status::Off,
            other => other,
        }
    }

    /// The state after [`Router::handle_connection_error`]: the network
    /// reading is dropped, the battery reading kept.
    pub open spec fn connection_lost(self) -> Router {
        Router { status: Router::lost_status(self.status), net: None, ..self }
    }

    /// The state after [`Router::update`] took a battery and a network
    /// reading.
    pub open spec fn after_read(self, battery: Battery, net: Net) -> Router {
        let read = Router { status: Status::On, battery: Some(battery), net: Some(net), ..self };
        if self.policy_fires(battery) {
            read.shutting_down()
        } else {
            read
        }
    }

    /// The state after a poll: its readings, or the loss of connectivity
    /// that a failed poll means.
    pub open spec fn after_update(self, reading: Reading) -> Router {
        match reading {
            Ok((b, n)) => self.after_read(b, n),
            Err(_) => self.connection_lost(),
        }
    }

    /// Takes one command off the queue and returns the router API work it
    /// asks for; destructive commands are only passed on while the router is
    /// on. A reboot marks the router as rebooting before the call is made.
    /// For a power-off, the caller logs in, then calls [`Router::off`], then
    /// makes the call; for a poll, it hands the readings to
    /// [`Router::update`], or calls [`Router::handle_connection_error`] when
    /// the poll failed.
    pub fn handle(&mut self, cmd: Command) -> (r: Request)
        ensures
            r == old(self).request_for(cmd),
            *final(self) == old(self).after_command(cmd),
    {
        match cmd {
            Command::Update => Request::Poll,
            Command::Off => {
                if self.status.is_on() {
                    Request::PowerOff
                } else {
                    Request::Nothing
                }
            },
            Command::Reboot => {
                if self.status.is_on() {
                    self.status = Status::Rebooting;
                    Request::Reboot
                } else {
                    Request::Nothing
                }
            },
            Command::OffWhenCharged(off_when_charged) => {
                self.off_when_charged = off_when_charged;
                Request::Nothing
            },
        }
    }

    /// Takes the battery and network readings of a successful poll. Returns
    /// whether the policy asks for a power-off now, through the session of
    /// that same poll; the state then already shows the power-off as issued.
    pub fn update(&mut self, battery: Battery, net: Net) -> (power_off: bool)
        ensures
            *final(self) == old(self).after_read(battery, net),
            power_off == old(self).policy_fires(battery),
    {
        let should_off = self.should_off(&battery);
        self.status = Status::On;
        self.battery = Some(battery);
        self.net = Some(net);
        if should_off {
            self.off();
        }
        should_off
    }

    fn should_off(&self, new_battery: &Battery) -> (r: bool)
        ensures
            r == self.policy_fires(*new_battery),
    {
        self.off_when_charged && (new_battery.charged_enough() || self.charging_off(new_battery))
    }

    fn charging_off(&self, new_battery: &Battery) -> (r: bool)
        ensures
            r == (self.spec_charging() && !new_battery.charging),
    {
        self.charging() && !new_battery.charging
    }

    /// Records a power-off as issued, once its session is open and before
    /// the call is made: the router is shutting down and the policy is
    /// spent, whatever the call then returns.
    pub fn off(&mut self)
        ensures
            *final(self) == old(self).shutting_down(),
    {
        self.status = Status::ShuttingDown;
        self.off_when_charged = false;
    }

    /// Takes a failed poll: a loss of connectivity, not a fault.
    pub fn handle_connection_error(&mut self)
        ensures
            *final(self) == old(self).connection_lost(),
    {
        self.status = match self.status {
            Status::On => Status::Disconnected,
            Status::ShuttingDown => Status::Off,
            other => other,
        };
        self.net = None;
    }
}

impl Default for Router {
    /// The state at start-up.
    fn default() -> (r: Router)
        ensures
            r == Router::initial(),
    {
        Router::new()
    }
}

impl Router {
    /// The state once one command has been carried out: taken by
    /// [`Router::handle`], then completed as the request asks. `reading` is
    /// what a poll returned, and is only looked at for an `Update`;
    /// `logged_in` says whether the login for a power-off succeeded.
    pub open spec fn step(self, cmd: Command, reading: Reading, logged_in: bool) -> Router {
        let handled = self.after_command(cmd);
        match self.request_for(cmd) {
            Request::Poll => handled.after_update(reading),
            Request::PowerOff => if logged_in {
                handled.shutting_down()
            } else {
                handled
            },
            _ => handled,
        }
    }

    /// The state after a sequence of commands, each with what the router
    /// API answered.
    pub open spec fn run(self, events: Seq<(Command, Reading, bool)>) -> Router
        decreases events.len(),
    {
        if events.len() == 0 {
            self
        } else {
            let (cmd, reading, logged_in) = events.last();
            self.run(events.drop_last()).step(cmd, reading, logged_in)
        }
    }

    /// The facts that every state reached from [`Router::initial`] keeps: no
    /// network reading is held while the router is disconnected or off.
    pub open spec fn consistent(self) -> bool {
        (self.status is Disconnected || self.status is Off) ==> self.net is None
    }
}

/// The transition table of the state machine: the statuses that a command
/// may lead to from `from`. A poll that fails loses connectivity; one that
/// succeeds finds the router on, unless the policy powers it off. A
/// power-off whose login failed sent nothing and changes nothing.
pub open spec fn table_allows(
    from: Status,
    cmd: Command,
    read_ok: bool,
    logged_in: bool,
    to: Status,
) -> bool {
    match cmd {
        Command::Update => if read_ok {
            to is On || to is ShuttingDown
        } else {
            to == Router::lost_status(from)
        },
        Command::Off => if from is On && logged_in {
            to is ShuttingDown
        } else {
            to == from
        },
        Command::Reboot => if from is On {
            to is Rebooting
        } else {
            to == from
        },
        Command::OffWhenCharged(_) => to == from,
    }
}

/// Every command moves the status along the transition table.
pub proof fn lemma_step_follows_table(r: Router, cmd: Command, reading: Reading, logged_in: bool)
    ensures
        table_allows(r.status, cmd, reading is Ok, logged_in, r.step(cmd, reading, logged_in).status),
{
}

/// Over any sequence of commands, each status follows from the one before
/// by the transition table.
pub proof fn lemma_run_follows_table(r: Router, events: Seq<(Command, Reading, bool)>)
    ensures
        forall|i: int|
            0 <= i < events.len() ==> table_allows(
                #[trigger] r.run(events.take(i)).status,
                events[i].0,
                events[i].1 is Ok,
                events[i].2,
                r.run(events.take(i + 1)).status,
            ),
{
    assert forall|i: int| 0 <= i < events.len() implies table_allows(
        #[trigger] r.run(events.take(i)).status,
        events[i].0,
        events[i].1 is Ok,
        events[i].2,
        r.run(events.take(i + 1)).status,
    ) by {
        assert(events.take(i + 1).drop_last() =~= events.take(i));
        assert(events.take(i + 1).last() == events[i]);
        lemma_step_follows_table(r.run(events.take(i)), events[i].0, events[i].1, events[i].2);
    }
}

/// A command that brings the router into `ShuttingDown` leaves the policy
/// flag off, whichever way it got there.
pub proof fn lemma_shutdown_clears_policy(r: Router, cmd: Command, reading: Reading, logged_in: bool)
    ensures
        ({
            let next = r.step(cmd, reading, logged_in);
            next.status is ShuttingDown && (r.status !is ShuttingDown || cmd is Update)
                ==> !next.off_when_charged
        }),
{
}

/// A successful poll stores both readings; a failed one drops the network
/// reading and keeps the battery reading.
pub proof fn lemma_update_readings(r: Router, reading: Reading, logged_in: bool)
    ensures
        ({
            let next = r.step(Command::Update, reading, logged_in);
            &&& reading matches Ok((b, n)) ==> next.battery == Some(b) && next.net == Some(n)
            &&& reading is Err ==> next.net is None && next.battery == r.battery
        }),
{
}

/// Setting the policy flag changes nothing but the flag, and setting it
/// again to the same value changes nothing at all.
pub proof fn lemma_off_when_charged_idempotent(
    r: Router,
    b: bool,
    x: Reading,
    y: Reading,
    p: bool,
    q: bool,
)
    ensures
        r.step(Command::OffWhenCharged(b), x, p) == (Router { off_when_charged: b, ..r }),
        r.step(Command::OffWhenCharged(b), x, p).step(Command::OffWhenCharged(b), y, q) == r.step(
            Command::OffWhenCharged(b),
            x,
            p,
        ),
{
}

/// A power-off or reboot while the router is not on asks nothing of the
/// router API and leaves the state as it was.
pub proof fn lemma_destructive_ignored_unless_on(
    r: Router,
    cmd: Command,
    reading: Reading,
    logged_in: bool,
)
    requires
        cmd is Off || cmd is Reboot,
        r.status !is On,
    ensures
        r.request_for(cmd) is Nothing,
        r.step(cmd, reading, logged_in) == r,
{
}

/// A power-off leaves the router's status as it was or shutting down, and
/// both readings as they were, whether its login or the call itself fails:
/// the outcome of the call is the caller's error and does not reach the
/// state.
pub proof fn lemma_off_keeps_readings(r: Router, reading: Reading, logged_in: bool)
    ensures
        ({
            let next = r.step(Command::Off, reading, logged_in);
            &&& next.status == r.status || next.status is ShuttingDown
            &&& next.battery == r.battery
            &&& next.net == r.net
            &&& !logged_in ==> next == r
        }),
{
}

/// Every command keeps the state consistent.
pub proof fn lemma_step_consistent(r: Router, cmd: Command, reading: Reading, logged_in: bool)
    requires
        r.consistent(),
    ensures
        r.step(cmd, reading, logged_in).consistent(),
{
}

/// Every state reached from start-up is consistent.
pub proof fn lemma_run_consistent(events: Seq<(Command, Reading, bool)>)
    ensures
        Router::initial().run(events).consistent(),
    decreases events.len(),
{
    if events.len() > 0 {
        let (cmd, reading, logged_in) = events.last();
        lemma_run_consistent(events.drop_last());
        lemma_step_consistent(Router::initial().run(events.drop_last()), cmd, reading, logged_in);
    }
}

} // verus!
