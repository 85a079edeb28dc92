//! Native bridge core for a managed-runtime installation manager.
//!
//! The bridge lets a managed host runtime call native installation-management
//! functionality.  This crate is the verified core of that bridge: the
//! one-time handle cache, the marshalling rules between native values and
//! managed-runtime objects, the log-severity mapping, and the unification of
//! native error domains into one boundary-safe failure representation.  The
//! foreign-call shell around it (the actual host-runtime calls) hands this
//! core plain values and receives plain values back.

use vstd::prelude::*;

pub mod cache;
pub mod component;
pub mod dispatch;
pub mod error_bridge;
pub mod log_bridge;
pub mod marshal;
pub mod version;

verus! {

/// The version string this bridge reports to the host runtime.
pub fn uvm_version() -> (r: &'static str)
    ensures
        r@ == "0.6.0"@,
{
    "0.6.0"
}

} // verus!
