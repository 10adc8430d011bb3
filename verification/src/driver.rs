//! WebDriver-compatible server processes (ChromeDriver, Appium): how each is
//! launched and when it counts as ready.  The program spawns the process,
//! polls its `/status` endpoint and asks [`readiness_step`] what to do next.
use vstd::prelude::*;

use crate::text::{decimal, decimal_string, push_decimal, push_str, string_from};

verus! {

/// The type of WebDriver-compatible server being managed.
#[derive(Debug, Clone, Copy, PartialEq, Eq)]
pub enum DriverKind {
    /// ChromeDriver — serves the W3C WebDriver protocol for Chrome.
    ChromeDriver,
    /// Appium — serves the W3C WebDriver protocol for mobile platforms.
    Appium,
}

/// How to launch a driver on a port.
#[derive(Debug)]
pub struct DriverLaunch {
    /// Arguments for the driver binary.
    pub args: Vec<String>,
    /// The driver's WebDriver endpoint.
    pub url: String,
    /// How long to wait for the driver to become ready, in milliseconds.
    pub ready_timeout_ms: u64,
}

pub open spec fn driver_url_spec(port: u16) -> Seq<char> {
    "http://localhost:"@ + decimal(port as nat)
}

pub open spec fn launch_args_spec(kind: DriverKind, port: u16) -> Seq<Seq<char>> {
    match kind {
        DriverKind::ChromeDriver => seq!["--port="@ + decimal(port as nat)],
        DriverKind::Appium => seq!["--port"@, decimal(port as nat)],
    }
}

/// ChromeDriver gets ten seconds to start, Appium (which loads plugins) thirty.
pub open spec fn ready_timeout_spec(kind: DriverKind) -> u64 {
    match kind {
        DriverKind::ChromeDriver => 10_000,
        DriverKind::Appium => 30_000,
    }
}

/// The launch of a driver of `kind` listening on `port`; Appium keeps its
/// default root base path.
pub fn driver_launch(kind: DriverKind, port: u16) -> (r: DriverLaunch)
    ensures
        crate::text::strs(r.args@) == launch_args_spec(kind, port),
        r.url@ == driver_url_spec(port),
        r.ready_timeout_ms == ready_timeout_spec(kind),
{
    let mut args: Vec<String> = Vec::new();
    let p = decimal_string(port as u64);
    match kind {
        DriverKind::ChromeDriver => {
            let mut a = string_from("--port=");
            push_str(&mut a, p.as_str());
            args.push(a);
        },
        DriverKind::Appium => {
            args.push(string_from("--port"));
            args.push(p);
        },
    }
    let mut url = string_from("http://localhost:");
    push_str(&mut url, decimal_string(port as u64).as_str());
    let ready_timeout_ms: u64 = match kind {
        DriverKind::ChromeDriver => 10_000,
        DriverKind::Appium => 30_000,
    };
    assert(crate::text::strs(args@) =~= launch_args_spec(kind, port));
    DriverLaunch { args, url, ready_timeout_ms }
}

/// The digits of a millisecond fraction (`1..=999`), three wide with
/// trailing zeros dropped.
pub open spec fn frac_digits(f: nat) -> Seq<char> {
    if f % 100 == 0 {
        decimal(f / 100)
    } else if f % 10 == 0 {
        (if f < 100 {
            seq!['0']
        } else {
            seq![]
        }) + decimal(f / 10)
    } else {
        (if f < 10 {
            seq!['0', '0']
        } else if f < 100 {
            seq!['0']
        } else {
            seq![]
        }) + decimal(f)
    }
}

/// A whole number of milliseconds as `Duration`'s `Debug` writes it:
/// `0ns`, `250ms`, `10s`, `1.5s`.
pub open spec fn duration_text(ms: u64) -> Seq<char> {
    if ms == 0 {
        "0ns"@
    } else if ms < 1000 {
        decimal(ms as nat) + "ms"@
    } else if ms % 1000 == 0 {
        decimal((ms / 1000) as nat) + "s"@
    } else {
        decimal((ms / 1000) as nat) + seq!['.'] + frac_digits((ms % 1000) as nat) + "s"@
    }
}

fn duration_text_exec(ms: u64) -> (r: Vec<char>)
    ensures
        r@ == duration_text(ms),
{
    let mut v: Vec<char> = Vec::new();
    if ms == 0 {
        crate::text::extend_str(&mut v, "0ns");
    } else if ms < 1000 {
        push_decimal(&mut v, ms);
        crate::text::extend_str(&mut v, "ms");
    } else if ms % 1000 == 0 {
        push_decimal(&mut v, ms / 1000);
        crate::text::extend_str(&mut v, "s");
    } else {
        push_decimal(&mut v, ms / 1000);
        v.push('.');
        let f = ms % 1000;
        if f % 100 == 0 {
            push_decimal(&mut v, f / 100);
        } else if f % 10 == 0 {
            if f < 100 {
                v.push('0');
            }
            push_decimal(&mut v, f / 10);
        } else {
            if f < 10 {
                v.push('0');
                v.push('0');
            } else if f < 100 {
                v.push('0');
            }
            push_decimal(&mut v, f);
        }
        crate::text::extend_str(&mut v, "s");
    }
    assert(v@ =~= duration_text(ms));
    v
}

/// What to do after one poll of a driver's `/status` endpoint.
#[derive(Debug, PartialEq, Eq)]
pub enum ReadyStep {
    /// The driver answered with a success status.
    Ready,
    /// Poll again after this many milliseconds.
    RetryAfterMs(u64),
    /// The deadline has passed; the start failed with this message.
    TimedOut(String),
}

/// The URL polled for readiness.
pub fn status_url(base_url: &str) -> (r: String)
    ensures
        r@ == base_url@ + "/status"@,
{
    let mut s = string_from(base_url);
    push_str(&mut s, "/status");
    s
}

/// The decision after a poll: ready on a success status; otherwise time out
/// once `now_ms` has reached the deadline, else retry in 500 ms.
pub fn readiness_step(
    base_url: &str,
    timeout_ms: u64,
    success: bool,
    now_ms: u64,
    deadline_ms: u64,
) -> (r: ReadyStep)
    ensures
        success ==> r == ReadyStep::Ready,
        !success && now_ms < deadline_ms ==> r == ReadyStep::RetryAfterMs(500),
        !success && now_ms >= deadline_ms ==> (r matches ReadyStep::TimedOut(m) && m@ == "Driver at "@
            + base_url@ + " did not become ready within "@ + duration_text(timeout_ms)),
{
    if success {
        return ReadyStep::Ready;
    }
    if now_ms < deadline_ms {
        return ReadyStep::RetryAfterMs(500);
    }
    let mut m = string_from("Driver at ");
    push_str(&mut m, base_url);
    push_str(&mut m, " did not become ready within ");
    let d = duration_text_exec(timeout_ms);
    crate::text::push_chars(&mut m, &d, 0, d.len());
    assert(d@.subrange(0, d@.len() as int) =~= d@);
    ReadyStep::TimedOut(m)
}

/// A stable process label for multi-process log output: `<name>[pid=<pid>]`.
pub fn process_label(name: &str, pid: u32) -> (r: String)
    ensures
        r@ == name@ + "[pid="@ + decimal(pid as nat) + "]"@,
{
    let mut s = string_from(name);
    push_str(&mut s, "[pid=");
    push_str(&mut s, decimal_string(pid as u64).as_str());
    push_str(&mut s, "]");
    s
}

} // verus!
