//! Redirection of native log records to the host runtime's logger.
//!
//! Each native record's severity is mapped through a fixed, total,
//! order-preserving table to one of the host logger's leveled methods.  When
//! no thread-local calling environment can be obtained (the record comes
//! from a thread never attached to the host runtime), the record is routed
//! to the process's standard error stream instead of being dropped.  Routing
//! never fails: every record yields exactly one action for the shell to
//! perform.

use vstd::prelude::*;

verus! {

/// Native log severities, least severe first.
#[derive(Clone, Copy, PartialEq, Eq, Structural, Debug)]
pub enum NativeLevel {
    Trace,
    Debug,
    Info,
    Warn,
    Error,
}

/// The leveled logging methods the host logger object exposes, least severe
/// first.  `Finer` is resolved and cached with the others but is not in the
/// image of the severity table.
#[derive(Clone, Copy, PartialEq, Eq, Structural, Debug)]
pub enum HostLogMethod {
    Finer,
    Fine,
    Info,
    Warning,
    Severe,
}

/// Severity rank of a native level, for the order-preservation statement.
pub open spec fn native_rank(l: NativeLevel) -> int {
    match l {
        NativeLevel::Trace => 0,
        NativeLevel::Debug => 1,
        NativeLevel::Info => 2,
        NativeLevel::Warn => 3,
        NativeLevel::Error => 4,
    }
}

/// Severity rank of a host logger method.
pub open spec fn host_rank(m: HostLogMethod) -> int {
    match m {
        HostLogMethod::Finer => 0,
        HostLogMethod::Fine => 1,
        HostLogMethod::Info => 2,
        HostLogMethod::Warning => 3,
        HostLogMethod::Severe => 4,
    }
}

/// The fixed severity table: trace and debug to fine, info to info, warn to
/// warning, error to severe.
pub open spec fn spec_host_method(l: NativeLevel) -> HostLogMethod {
    match l {
        NativeLevel::Trace => HostLogMethod::Fine,
        NativeLevel::Debug => HostLogMethod::Fine,
        NativeLevel::Info => HostLogMethod::Info,
        NativeLevel::Warn => HostLogMethod::Warning,
        NativeLevel::Error => HostLogMethod::Severe,
    }
}

/// The host logger method a native severity maps to.  Total and
/// deterministic: one defined method for every level.
pub fn host_method_for(l: NativeLevel) -> (m: HostLogMethod)
    ensures
        m == spec_host_method(l),
{
    match l {
        NativeLevel::Trace => HostLogMethod::Fine,
        NativeLevel::Debug => HostLogMethod::Fine,
        NativeLevel::Info => HostLogMethod::Info,
        NativeLevel::Warn => HostLogMethod::Warning,
        NativeLevel::Error => HostLogMethod::Severe,
    }
}

/// The one action the shell performs for a log record: call a leveled
/// method on the host logger, or fall back to the process's standard error
/// stream.
pub enum LogRoute {
    HostCall { method: HostLogMethod, message: String },
    ConsoleFallback { message: String },
}

/// Routes one native log record.  With a calling environment available the
/// record goes to the mapped host logger method; without one it goes to
/// standard error.  The message is carried unchanged either way, so no
/// record is ever dropped and routing itself cannot fail.
pub fn route_record(env_available: bool, level: NativeLevel, message: String) -> (r: LogRoute)
    ensures
        env_available ==> r == (LogRoute::HostCall {
            method: spec_host_method(level),
            message,
        }),
        !env_available ==> r == (LogRoute::ConsoleFallback { message }),
{
    if env_available {
        LogRoute::HostCall { method: host_method_for(level), message }
    } else {
        LogRoute::ConsoleFallback { message }
    }
}

/// The severity table is total and order-preserving: every native level has
/// a defined host method, and a record no less severe than another is never
/// mapped to a less severe host method.
pub proof fn lemma_host_method_monotone()
    ensures
        forall|l1: NativeLevel, l2: NativeLevel|
            native_rank(l1) <= native_rank(l2) ==> host_rank(#[trigger] spec_host_method(l1))
                <= host_rank(#[trigger] spec_host_method(l2)),
{
}

} // verus!
