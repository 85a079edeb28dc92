//! Entry-point completion: the decision half of each exported operation.
//!
//! Every entry point follows the same shape: the shell ensures the one-time
//! setup has run, marshals the incoming managed arguments to native values,
//! invokes the business-logic collaborator, and hands the collaborator's
//! outcome to one of the completion steps here.  A success is marshalled to
//! the managed value the operation returns; a failure is rendered by the
//! error bridge and replaced by the failure sentinel of the operation's
//! return shape, so the call returns normally instead of unwinding across
//! the boundary.

use vstd::prelude::*;

use crate::component::{spec_constant_name, Component};
use crate::error_bridge::{report_and_convert, spec_log_lines, spec_views_of, BoundaryError, ReturnShape};
use crate::marshal::{
    get_installation, marshal_components, marshal_installations, InstallationRecord,
    ManagedInstallation,
};
use crate::version::{spec_version_chars, SemanticVersion};

verus! {

/// The project-version string the detect operation returns: the version
/// itself, with the revision hash appended in parentheses when the caller
/// asked for it and the project supplied one.
pub fn format_project_version(
    version: &SemanticVersion,
    revision_hash: Option<&str>,
    with_revision_hash: bool,
) -> (r: String)
    ensures
        with_revision_hash ==> (revision_hash matches Some(h) ==> r@ == spec_version_chars(
            *version,
        ) + " ("@ + h@ + ")"@),
        (!with_revision_hash || revision_hash is None) ==> r@ == spec_version_chars(*version),
{
    let mut s = crate::version::format_version(version);
    if with_revision_hash {
        if let Some(h) = revision_hash {
            s.append(" (");
            s.append(h);
            s.append(")");
        }
    }
    s
}

/// Completion of an entry point returning one managed installation object
/// (locate, install, at-location): a success is marshalled, a failure is
/// logged and becomes the null-object sentinel.
pub fn complete_installation_entry(result: Result<InstallationRecord, BoundaryError>) -> (r: (
    Vec<String>,
    Option<ManagedInstallation>,
))
    ensures
        result matches Ok(rec) ==> {
            &&& r.1 matches Some(m)
            &&& m.location.absolute_path@ == rec.path@
            &&& m.version@ == spec_version_chars(rec.version)
            &&& r.0@.len() == 0
        },
        result matches Err(e) ==> {
            &&& r.1 is None
            &&& spec_views_of(r.0@) == spec_log_lines(e)
            &&& r.0@.len() >= 1
        },
{
    match result {
        Ok(rec) => (Vec::new(), Some(get_installation(&rec))),
        Err(e) => {
            let (lines, _sentinel) = report_and_convert(&e, ReturnShape::Object);
            (lines, None)
        },
    }
}

/// Completion of an entry point returning a string (bridge version, detect
/// project version): a success passes through, a failure is logged and
/// becomes the null-string sentinel.
pub fn complete_text_entry(result: Result<String, BoundaryError>) -> (r: (
    Vec<String>,
    Option<String>,
))
    ensures
        result matches Ok(s) ==> r.1 == Some(s) && r.0@.len() == 0,
        result matches Err(e) ==> {
            &&& r.1 is None
            &&& spec_views_of(r.0@) == spec_log_lines(e)
            &&& r.0@.len() >= 1
        },
{
    match result {
        Ok(s) => (Vec::new(), Some(s)),
        Err(e) => {
            let (lines, _sentinel) = report_and_convert(&e, ReturnShape::Text);
            (lines, None)
        },
    }
}

/// Completion of the list-installations entry point: a success is
/// marshalled element by element in order, a failure is logged and becomes
/// the null-array sentinel.
pub fn complete_installations_entry(result: Result<Vec<InstallationRecord>, BoundaryError>) -> (r:
    (Vec<String>, Option<Vec<ManagedInstallation>>))
    ensures
        result matches Ok(records) ==> {
            &&& r.1 matches Some(list)
            &&& list@.len() == records@.len()
            &&& forall|i: int|
                0 <= i < records@.len() ==> (#[trigger] list@[i]).location.absolute_path@
                    == records@[i].path@ && list@[i].version@ == spec_version_chars(
                    records@[i].version,
                )
            &&& r.0@.len() == 0
        },
        result matches Err(e) ==> {
            &&& r.1 is None
            &&& spec_views_of(r.0@) == spec_log_lines(e)
            &&& r.0@.len() >= 1
        },
{
    match result {
        Ok(records) => (Vec::new(), Some(marshal_installations(&records))),
        Err(e) => {
            let (lines, _sentinel) = report_and_convert(&e, ReturnShape::Array);
            (lines, None)
        },
    }
}

/// Completion of an entry point returning an array of component constants
/// (installed components, available components): a success yields the
/// managed constant names in order, a failure is logged and becomes the
/// null-array sentinel.
pub fn complete_components_entry(result: Result<Vec<Component>, BoundaryError>) -> (r: (
    Vec<String>,
    Option<Vec<&'static str>>,
))
    ensures
        result matches Ok(components) ==> {
            &&& r.1 matches Some(names)
            &&& names@.len() == components@.len()
            &&& forall|i: int|
                0 <= i < components@.len() ==> (#[trigger] names@[i])@ == spec_constant_name(
                    components@[i],
                )
            &&& r.0@.len() == 0
        },
        result matches Err(e) ==> {
            &&& r.1 is None
            &&& spec_views_of(r.0@) == spec_log_lines(e)
            &&& r.0@.len() >= 1
        },
{
    match result {
        Ok(components) => (Vec::new(), Some(marshal_components(&components))),
        Err(e) => {
            let (lines, _sentinel) = report_and_convert(&e, ReturnShape::Array);
            (lines, None)
        },
    }
}

} // verus!
