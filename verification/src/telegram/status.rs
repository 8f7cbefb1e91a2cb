//! The status report that a chat receives.

use vstd::prelude::*;
use vstd::string::StringExecFns;
use crate::kernel::state::SessionCounters;
use crate::text::push_char;

verus! {

/// The decimal digit of a value below ten.
pub open spec fn digit_of(d: nat) -> char {
    if d == 0 {
        '0'
    } else if d == 1 {
        '1'
    } else if d == 2 {
        '2'
    } else if d == 3 {
        '3'
    } else if d == 4 {
        '4'
    } else if d == 5 {
        '5'
    } else if d == 6 {
        '6'
    } else if d == 7 {
        '7'
    } else if d == 8 {
        '8'
    } else {
        '9'
    }
}

/// A number written in decimal, without leading zeros.
pub open spec fn decimal_of(n: nat) -> Seq<char>
    decreases n,
{
    if n < 10 {
        seq![digit_of(n)]
    } else {
        decimal_of(n / 10).push(digit_of(n % 10))
    }
}

/// The decimal digit of a value below ten.
fn digit(d: u64) -> (c: char)
    requires
        d < 10,
    ensures
        c == digit_of(d as nat),
{
    if d == 0 {
        '0'
    } else if d == 1 {
        '1'
    } else if d == 2 {
        '2'
    } else if d == 3 {
        '3'
    } else if d == 4 {
        '4'
    } else if d == 5 {
        '5'
    } else if d == 6 {
        '6'
    } else if d == 7 {
        '7'
    } else if d == 8 {
        '8'
    } else {
        '9'
    }
}

/// Writes a number in decimal.
pub fn decimal(n: u64) -> (text: String)
    ensures
        text@ == decimal_of(n as nat),
{
    let mut low_first: Vec<char> = Vec::new();
    let mut rest: u64 = n;
    while rest >= 10
        invariant
            decimal_of(n as nat) == decimal_of(rest as nat) + low_first@.reverse(),
        decreases rest,
    {
        let ghost before = low_first@;
        low_first.push(digit(rest % 10));
        proof {
            let d = digit_of((rest % 10) as nat);
            assert(low_first@.reverse() =~= seq![d] + before.reverse());
            assert(decimal_of((rest / 10) as nat).push(d) + before.reverse() =~= decimal_of(
                (rest / 10) as nat,
            ) + low_first@.reverse());
        }
        rest = rest / 10;
    }
    let mut text = String::new();
    push_char(&mut text, digit(rest));
    let mut i: usize = low_first.len();
    while i > 0
        invariant
            i <= low_first.len(),
            rest < 10,
            text@ == seq![digit_of(rest as nat)] + low_first@.reverse().subrange(
                0,
                low_first.len() - i,
            ),
        decreases i,
    {
        i -= 1;
        push_char(&mut text, low_first[i]);
        assert(text@ =~= seq![digit_of(rest as nat)] + low_first@.reverse().subrange(
            0,
            low_first.len() - i,
        ));
    }
    assert(low_first@.reverse().subrange(0, low_first.len() as int) =~= low_first@.reverse());
    text
}

/// The status report: that the system is up, for how long, and how many
/// builds it ran and fixes it applied.
pub open spec fn status_text(counters: SessionCounters) -> Seq<char> {
    "AXON Online\nUptime: "@ + decimal_of(counters.uptime_seconds as nat) + "s\nBuilds: "@
        + decimal_of(counters.builds_run as nat) + "\nFixes: "@ + decimal_of(
        counters.fixes_applied as nat,
    )
}

/// Writes the status report.
pub fn status_message(counters: &SessionCounters) -> (message: String)
    ensures
        message@ == status_text(*counters),
{
    let mut message = String::from_str("AXON Online\nUptime: ");
    message.append(decimal(counters.uptime_seconds).as_str());
    message.append("s\nBuilds: ");
    message.append(decimal(counters.builds_run).as_str());
    message.append("\nFixes: ");
    message.append(decimal(counters.fixes_applied).as_str());
    message
}

} // verus!
