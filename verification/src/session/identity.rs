//! Who and when: the identity of a session.

use vstd::prelude::*;
use vstd::string::StringExecFns;
use crate::event::event::CorrelationId;
use crate::kernel::clock::{elapsed, now, seconds_between, Moment};
use crate::kernel::correlation::{hex_char, hex_digit, nibble_at, random_id};
use crate::text::push_char;

verus! {

/// The identity of a session and the counters kept with it.
#[derive(Debug, Clone, PartialEq, Eq)]
pub struct SessionIdentity {
    pub session_id: CorrelationId,
    /// When the session started.
    pub started_at: Moment,
    pub hostname: String,
    pub version: String,
    pub total_runs: u64,
    pub crashes_fixed: u64,
    pub builds_run: u64,
}

/// The short name of a session: `ax_` and the first six hexadecimal digits
/// of its identifier.
pub open spec fn short_id_of(id: CorrelationId) -> Seq<char> {
    seq!['a', 'x', '_'] + Seq::new(6, |n: int| hex_digit(nibble_at(id, n as u32)))
}

/// Asks the operating system for the name of this machine.
///
/// Calls `hostname::get` and turns the name into text, replacing what is
/// not valid Unicode; `None` if the system gives no name. The name depends
/// on the machine, so nothing is claimed of it.
#[verifier::external_body]
pub(crate) fn host_name() -> (name: Option<String>) {
    hostname::get().ok().map(|name| name.to_string_lossy().to_string())
}

/// The name a machine goes by when it gives none.
pub open spec fn unknown_host() -> Seq<char> {
    "unknown"@
}

/// The name to record for a machine.
pub fn host_or_unknown(name: Option<String>) -> (host: String)
    ensures
        host@ == match name {
            Some(text) => text@,
            None => unknown_host(),
        },
{
    match name {
        Some(text) => text,
        None => String::from_str("unknown"),
    }
}

impl SessionIdentity {
    /// The identity of a session that starts now on this machine, under an
    /// identifier drawn at random: a first run, with no crash fixed and no
    /// build run yet.
    pub fn new(version: String) -> (identity: SessionIdentity)
        ensures
            identity.version == version,
            identity.total_runs == 1,
            identity.crashes_fixed == 0,
            identity.builds_run == 0,
    {
        SessionIdentity::from_parts(
            random_id(),
            now(),
            host_or_unknown(host_name()),
            version,
        )
    }

    /// A first run: no crash fixed and no build run yet.
    pub fn from_parts(
        session_id: CorrelationId,
        started_at: Moment,
        hostname: String,
        version: String,
    ) -> (identity: SessionIdentity)
        ensures
            identity.session_id == session_id,
            identity.started_at == started_at,
            identity.hostname == hostname,
            identity.version == version,
            identity.total_runs == 1,
            identity.crashes_fixed == 0,
            identity.builds_run == 0,
    {
        SessionIdentity {
            session_id,
            started_at,
            hostname,
            version,
            total_runs: 1,
            crashes_fixed: 0,
            builds_run: 0,
        }
    }

    /// Whole seconds from the start of the session to `at`.
    pub fn uptime_at(&self, at: Moment) -> (seconds: i64)
        ensures
            seconds == elapsed(self.started_at, at),
    {
        seconds_between(self.started_at, at)
    }

    /// Whole seconds from the start of the session to the present.
    pub fn uptime_seconds(&self) -> (seconds: i64)
        ensures
            exists|at: Moment| seconds == #[trigger] elapsed(self.started_at, at),
    {
        let at = now();
        self.uptime_at(at)
    }

    /// The short name of the session.
    pub fn short_id(&self) -> (name: String)
        ensures
            name@ == short_id_of(self.session_id),
    {
        let mut name = String::new();
        push_char(&mut name, 'a');
        push_char(&mut name, 'x');
        push_char(&mut name, '_');
        let mut n: u32 = 0;
        while n < 6
            invariant
                n <= 6,
                name@ == seq!['a', 'x', '_'] + Seq::new(
                    n as nat,
                    |k: int| hex_digit(nibble_at(self.session_id, k as u32)),
                ),
            decreases 6 - n,
        {
            let shift: u128 = (124 - 4 * n) as u128;
            let nibble: u8 = ((self.session_id >> shift) & 0xf) as u8;
            push_char(&mut name, hex_char(nibble));
            n += 1;
            assert(name@ =~= seq!['a', 'x', '_'] + Seq::new(
                n as nat,
                |k: int| hex_digit(nibble_at(self.session_id, k as u32)),
            ));
        }
        name
    }
}

} // verus!
