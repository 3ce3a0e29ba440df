use crate::error::MyError;
use vstd::prelude::*;

verus! {

/// The failpoint hook in the target's mutation-generation code path that a
/// run toggles.
pub fn corrupt_mutations_failpoint() -> (r: &'static str)
    ensures
        r@ == "github.com/pingcap/tidb/table/tables/corruptMutations"@,
{
    "github.com/pingcap/tidb/table/tables/corruptMutations"
}

/// The control URL of a named failpoint on the target process.
pub open spec fn spec_failpoint_url(status_addr: Seq<char>, name: Seq<char>) -> Seq<char> {
    "http://"@ + status_addr + "/fail/"@ + name
}

/// The URL an enable (PUT) or disable (DELETE) control call addresses.
pub fn failpoint_url(status_addr: &str, name: &str) -> (r: String)
    ensures
        r@ == spec_failpoint_url(status_addr@, name@),
{
    let mut s = String::from_str("http://");
    s.append(status_addr);
    s.append("/fail/");
    s.append(name);
    s
}

/// The directive that makes every triggered invocation inject the named
/// corruption.
pub open spec fn spec_return_directive(injection: Seq<char>) -> Seq<char> {
    "return(\""@ + injection + "\")"@
}

/// The directive that injects the named corruption into exactly the next
/// triggered invocation, then stops.  The `1*` prefix is interpreted by the
/// target process alone; the controller only transports it.
pub open spec fn spec_first_only_directive(injection: Seq<char>) -> Seq<char> {
    "1*"@ + spec_return_directive(injection)
}

/// Builds the every-invocation directive.
pub fn return_directive(injection: &str) -> (r: String)
    ensures
        r@ == spec_return_directive(injection@),
{
    let mut s = String::from_str("return(\"");
    s.append(injection);
    s.append("\")");
    s
}

/// Builds the next-invocation-only directive.
pub fn first_only_directive(injection: &str) -> (r: String)
    ensures
        r@ == spec_first_only_directive(injection@),
{
    let mut s = String::from_str("1*");
    let rest = return_directive(injection);
    s.append(rest.as_str());
    s
}

/// Whether an HTTP status code reports success.
pub open spec fn spec_status_ok(status: u16) -> bool {
    200 <= status < 300
}

/// What the controller concludes from the response to an enable or disable
/// call: a 2xx status succeeds, anything else is a fault-injection error
/// carrying the response body text.  Disabling is idempotent on the target,
/// so a repeated disable simply succeeds again.
pub fn failpoint_call_outcome(status: u16, body: &str) -> (r: Result<(), MyError>)
    ensures
        match r {
            Ok(()) => spec_status_ok(status),
            Err(e) => !spec_status_ok(status) && e@ == crate::error::MyErrorV::FaultInjection(
                body@,
            ),
        },
{
    if 200 <= status && status < 300 {
        Ok(())
    } else {
        Err(MyError::FaultInjection(String::from_str(body)))
    }
}

/// Run-scoped cumulative counters, carried explicitly instead of living in
/// process-wide globals.
pub struct RunMetrics {
    /// Milliseconds spent in failpoint control calls.
    pub failpoint_ms: u64,
    /// Milliseconds spent creating tables.
    pub create_table_ms: u64,
}

impl RunMetrics {
    /// Fresh counters for one run.
    pub fn new() -> (r: Self)
        ensures
            r.failpoint_ms == 0,
            r.create_table_ms == 0,
    {
        RunMetrics { failpoint_ms: 0, create_table_ms: 0 }
    }

    /// Adds elapsed control-call time, saturating at the counter's limit.
    pub fn add_failpoint_ms(&mut self, d: u64)
        ensures
            final(self).failpoint_ms == if old(self).failpoint_ms + d <= u64::MAX {
                old(self).failpoint_ms + d
            } else {
                u64::MAX as int
            },
            final(self).create_table_ms == old(self).create_table_ms,
    {
        self.failpoint_ms = if self.failpoint_ms <= u64::MAX - d {
            self.failpoint_ms + d
        } else {
            u64::MAX
        };
    }

    /// Adds elapsed table-creation time, saturating at the counter's limit.
    pub fn add_create_table_ms(&mut self, d: u64)
        ensures
            final(self).create_table_ms == if old(self).create_table_ms + d <= u64::MAX {
                old(self).create_table_ms + d
            } else {
                u64::MAX as int
            },
            final(self).failpoint_ms == old(self).failpoint_ms,
    {
        self.create_table_ms = if self.create_table_ms <= u64::MAX - d {
            self.create_table_ms + d
        } else {
            u64::MAX
        };
    }
}

} // verus!
