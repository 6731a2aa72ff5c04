use vstd::prelude::*;

use crate::battery::{Battery, FULL_CAPACITY};
use crate::net::Net;
use crate::text::{
    bounded_decimal, chars_of, find, find_from, lemma_find_from_found, parse_decimal, replace_all, replaced_from,
};

verus! {

/// What can go wrong between the agent and the router.
#[derive(Clone, Copy, Debug, PartialEq, Eq, Structural)]
pub enum Error {
    /// Login failed, or the session was rejected.
    Auth,
    /// A status payload lacked a field or held a malformed value.
    Read,
    /// A power-off or reboot request failed.
    Command,
    /// The command queue has no producer left.
    QueueClosed,
}

/// The session credential that the router's login hands out.
#[derive(Debug, PartialEq, Eq)]
pub struct AuthCookie(pub String);

impl AuthCookie {
    /// The cookie's text.
    pub fn as_str(&self) -> (r: &str)
        ensures
            r@ == self.0@,
    {
        self.0.as_str()
    }
}

/// The text between the first occurrence of `from` in `s` and the first
/// occurrence of `to` after it.
pub open spec fn between(s: Seq<char>, from: Seq<char>, to: Seq<char>) -> Option<Seq<char>> {
    match find_from(s, from, 0) {
        Some(i) => match find_from(s, to, i + from.len()) {
            Some(j) => Some(s.subrange(i + from.len(), j)),
            None => None,
        },
        None => None,
    }
}

/// The text of the first `<name>...</name>` element of `s`.
pub open spec fn field_text(s: Seq<char>, name: Seq<char>) -> Option<Seq<char>> {
    between(s, "<"@ + name + ">"@, "</"@ + name + ">"@)
}

/// The value of the first `<name>` element of `s`, read as an unsigned
/// decimal literal of at most `max`.
pub open spec fn field_number(s: Seq<char>, name: Seq<char>, max: nat) -> Option<nat> {
    match field_text(s, name) {
        Some(t) => bounded_decimal(t, max),
        None => None,
    }
}

/// The session cookie in the login script's output: what follows
/// `Set-cookie: ` up to the next `;`.
pub open spec fn cookie_of(s: Seq<char>) -> Option<Seq<char>> {
    between(s, "Set-cookie: "@, ";"@)
}

/// The battery reading in a battery payload: capacity in percent, at most
/// a full charge; voltage in millivolts; a charger status of 1 while
/// charging.
pub open spec fn battery_of(s: Seq<char>) -> Option<Battery> {
    match (
        field_number(s, "capacity"@, FULL_CAPACITY as nat),
        field_number(s, "voltage_now"@, 0xffff_ffff),
        field_number(s, "usbchg_status"@, 0xff),
    ) {
        (Some(c), Some(v), Some(u)) => Some(
            Battery { capacity: c as u8, voltage_mv: v as u32, charging: u == 1 },
        ),
        _ => None,
    }
}

/// The network reading in a network payload: system modes 2 and 3 are LTE,
/// 1 is GSM, any other is no signal; the level is the `rssi` field.
pub open spec fn net_of(s: Seq<char>) -> Option<Net> {
    match (field_number(s, "rssi"@, 0xff), field_number(s, "sys_mode"@, 0xff)) {
        (Some(level), Some(mode)) => Some(
            if mode == 2 || mode == 3 {
                Net::Lte(level as u8)
            } else if mode == 1 {
                Net::Gsm(level as u8)
            } else {
                Net::NoSignal
            },
        ),
        _ => None,
    }
}

/// The part of `s` between the first occurrence of `from` and the first
/// occurrence of `to` after it.
pub fn slice_between<'a>(s: &'a str, from: &str, to: &str) -> (r: Option<&'a str>)
    ensures
        match r {
            Some(t) => between(s@, from@, to@) == Some(t@),
            None => between(s@, from@, to@) is None,
        },
{
    let chars = chars_of(s);
    let from_chars = chars_of(from);
    let to_chars = chars_of(to);
    let i = match find(&chars, &from_chars, 0) {
        Some(i) => i,
        None => return None,
    };
    proof {
        lemma_find_from_found(s@, from@, 0);
        assert(i + from_chars.len() <= chars.len());
    }
    let start = i + from_chars.len();
    let end = match find(&chars, &to_chars, start) {
        Some(end) => end,
        None => return None,
    };
    proof {
        lemma_find_from_found(s@, to@, start as int);
    }
    Some(s.substring_char(start, end))
}

/// The text of the first `<field>...</field>` element of `s`.
pub fn xml_field<'a>(s: &'a str, field: &str) -> (r: Result<&'a str, Error>)
    ensures
        match r {
            Ok(t) => field_text(s@, field@) == Some(t@),
            Err(e) => e is Read && field_text(s@, field@) is None,
        },
{
    let mut open = String::from_str("<");
    open.append(field);
    open.append(">");
    let mut close = String::from_str("</");
    close.append(field);
    close.append(">");
    match slice_between(s, open.as_str(), close.as_str()) {
        Some(t) => Ok(t),
        None => Err(Error::Read),
    }
}

fn field_number_in(s: &str, name: &str, max: u64) -> (r: Option<u64>)
    requires
        max < 0x1_0000_0000,
    ensures
        match r {
            Some(v) => field_number(s@, name@, max as nat) == Some(v as nat),
            None => field_number(s@, name@, max as nat) is None,
        },
{
    match xml_field(s, name) {
        Ok(t) => parse_decimal(t, max),
        Err(_) => None,
    }
}

/// Fills the session cookie into a script that talks to the router: each
/// `{auth_cookie}` in it becomes the cookie.
pub fn with_cookie(script: &str, cookie: &AuthCookie) -> (r: String)
    ensures
        r@ == replaced_from(script@, "{auth_cookie}"@, cookie.0@, 0),
{
    proof {
        reveal_strlit("{auth_cookie}");
    }
    replace_all(script, "{auth_cookie}", cookie.as_str())
}

/// Reads the session cookie out of the login script's output.
pub fn login(output: &str) -> (r: Result<AuthCookie, Error>)
    ensures
        match r {
            Ok(c) => cookie_of(output@) == Some(c.0@),
            Err(e) => e is Auth && cookie_of(output@) is None,
        },
{
    match slice_between(output, "Set-cookie: ", ";") {
        Some(c) => Ok(AuthCookie(String::from_str(c))),
        None => Err(Error::Auth),
    }
}

/// Reads the battery reading out of the battery script's output. A
/// capacity above a full charge is a read error.
pub fn battery(output: &str) -> (r: Result<Battery, Error>)
    ensures
        match r {
            Ok(b) => battery_of(output@) == Some(b),
            Err(e) => e is Read && battery_of(output@) is None,
        },
        r matches Ok(b) ==> b.capacity <= FULL_CAPACITY,
        field_number(output@, "capacity"@, 0xff) matches Some(c) && c > FULL_CAPACITY ==> r is Err,
{
    let capacity = match field_number_in(output, "capacity", FULL_CAPACITY as u64) {
        Some(v) => v as u8,
        None => return Err(Error::Read),
    };
    let voltage_mv = match field_number_in(output, "voltage_now", 0xffff_ffff) {
        Some(v) => v as u32,
        None => return Err(Error::Read),
    };
    let charging = match field_number_in(output, "usbchg_status", 0xff) {
        Some(v) => v == 1,
        None => return Err(Error::Read),
    };
    Ok(Battery { capacity, voltage_mv, charging })
}

/// Reads the network reading out of the network script's output.
pub fn net(output: &str) -> (r: Result<Net, Error>)
    ensures
        match r {
            Ok(n) => net_of(output@) == Some(n),
            Err(e) => e is Read && net_of(output@) is None,
        },
{
    let level = match field_number_in(output, "rssi", 0xff) {
        Some(v) => v as u8,
        None => return Err(Error::Read),
    };
    let mode = match field_number_in(output, "sys_mode", 0xff) {
        Some(v) => v,
        None => return Err(Error::Read),
    };
    let net = if mode == 2 || mode == 3 {
        Net::Lte(level)
    } else if mode == 1 {
        Net::Gsm(level)
    } else {
        Net::NoSignal
    };
    Ok(net)
}

} // verus!
