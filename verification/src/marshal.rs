//! Marshalling between native boundary values and managed-runtime objects.
//!
//! The managed runtime's objects are modelled by the plain values the bridge
//! reads from and writes into them: a managed file object by the
//! absolute-path string it is constructed from, a managed installation
//! object by its file object and version string.  The shell constructs the
//! real foreign objects from these values and reads these values back out of
//! foreign objects it receives.

use vstd::prelude::*;

use crate::component::{constant_name, spec_constant_name, Component};
use crate::error_bridge::{same_diagnostic, BoundaryError, BoundaryErrorKind};
use crate::version::{
    format_version, parse_version, spec_version_chars, spec_version_of, valid_version_chars,
    SemanticVersion,
};

verus! {

/// The bridge's model of a managed file object: the absolute-path string it
/// was constructed from and its absolute-path accessor returns.
#[derive(Debug)]
pub struct ManagedFile {
    pub absolute_path: String,
}

/// The bridge's model of a managed installation object: a file object for
/// its location and its version string.
#[derive(Debug)]
pub struct ManagedInstallation {
    pub location: ManagedFile,
    pub version: String,
}

/// A native installation record: the installation's path and its structured
/// version.
#[derive(Debug)]
pub struct InstallationRecord {
    pub path: String,
    pub version: SemanticVersion,
}

/// Path marshalling, native to managed: constructs a managed file object
/// from an absolute-path string.
pub fn get_file(path: &str) -> (f: ManagedFile)
    ensures
        f.absolute_path@ == path@,
{
    ManagedFile { absolute_path: path.to_owned() }
}

/// Path marshalling, managed to native: invokes the managed file object's
/// absolute-path accessor and returns the path string it holds.
pub fn get_path(file: &ManagedFile) -> (p: String)
    ensures
        p@ == file.absolute_path@,
{
    file.absolute_path.clone()
}

/// Path round-trip: a path marshalled into a managed file object, as
/// `get_file` ensures, and read back out of it, as `get_path` ensures,
/// comes back equal to the absolute path the object was built from.
pub proof fn lemma_path_round_trip(path: Seq<char>, file: ManagedFile, back: Seq<char>)
    requires
        file.absolute_path@ == path,
        back == file.absolute_path@,
    ensures
        back == path,
{
}

/// Installation marshalling, native to managed: a managed installation
/// object carrying the record's path and its formatted version string.
pub fn get_installation(record: &InstallationRecord) -> (m: ManagedInstallation)
    ensures
        m.location.absolute_path@ == record.path@,
        m.version@ == spec_version_chars(record.version),
{
    ManagedInstallation {
        location: get_file(record.path.as_str()),
        version: format_version(&record.version),
    }
}

/// Installation marshalling, managed to native: reads the two fields back
/// and parses the version string, failing with a conversion error when the
/// managed object holds a malformed version.
pub fn read_installation(m: &ManagedInstallation) -> (r: Result<InstallationRecord, BoundaryError>)
    ensures
        r is Ok <==> valid_version_chars(m.version@),
        r matches Ok(rec) ==> rec.path@ == m.location.absolute_path@ && rec.version
            == spec_version_of(m.version@),
        r matches Err(e) ==> e.kind == BoundaryErrorKind::Conversion,
{
    match parse_version(m.version.as_str()) {
        Ok(v) => Ok(InstallationRecord { path: get_path(&m.location), version: v }),
        Err(e) => Err(e),
    }
}

/// Sequence marshalling for installation records: one managed object per
/// record, in the original order.
pub fn marshal_installations(records: &Vec<InstallationRecord>) -> (r: Vec<ManagedInstallation>)
    ensures
        r@.len() == records@.len(),
        forall|i: int|
            0 <= i < records@.len() ==> (#[trigger] r@[i]).location.absolute_path@
                == records@[i].path@ && r@[i].version@ == spec_version_chars(records@[i].version),
{
    let mut r: Vec<ManagedInstallation> = Vec::new();
    let mut i: usize = 0;
    while i < records.len()
        invariant
            i <= records@.len(),
            r@.len() == i,
            forall|j: int|
                0 <= j < i ==> (#[trigger] r@[j]).location.absolute_path@ == records@[j].path@
                    && r@[j].version@ == spec_version_chars(records@[j].version),
        decreases records@.len() - i,
    {
        r.push(get_installation(&records[i]));
        i += 1;
    }
    r
}

/// Sequence marshalling for components: the managed constant name of each
/// component, in the original order.  Total, since the name table is.
pub fn marshal_components(components: &Vec<Component>) -> (r: Vec<&'static str>)
    ensures
        r@.len() == components@.len(),
        forall|i: int|
            0 <= i < components@.len() ==> (#[trigger] r@[i])@ == spec_constant_name(
                components@[i],
            ),
{
    let mut r: Vec<&'static str> = Vec::new();
    let mut i: usize = 0;
    while i < components.len()
        invariant
            i <= components@.len(),
            r@.len() == i,
            forall|j: int|
                0 <= j < i ==> (#[trigger] r@[j])@ == spec_constant_name(components@[j]),
        decreases components@.len() - i,
    {
        r.push(constant_name(components[i]));
        i += 1;
    }
    r
}

/// Managed-array completion.  The shell constructs the array's elements one
/// by one, each a foreign call that can fail; this step decides the whole
/// construction: every element succeeded and the array is completed in
/// order, or the first failing element's error surfaces and the array is
/// abandoned.
pub fn collect_array_elements(items: &Vec<Result<u64, BoundaryError>>) -> (r: Result<
    Vec<u64>,
    BoundaryError,
>)
    ensures
        r is Ok <==> (forall|i: int| 0 <= i < items@.len() ==> (#[trigger] items@[i]) is Ok),
        r matches Ok(v) ==> v@.len() == items@.len() && (forall|i: int|
            0 <= i < items@.len() ==> (#[trigger] v@[i]) == items@[i]->Ok_0),
        r matches Err(e) ==> exists|j: int|
            {
                &&& 0 <= j < items@.len()
                &&& (#[trigger] items@[j]) is Err
                &&& forall|k: int| 0 <= k < j ==> (#[trigger] items@[k]) is Ok
                &&& same_diagnostic(e, items@[j]->Err_0)
            },
{
    let mut out: Vec<u64> = Vec::new();
    let mut i: usize = 0;
    while i < items.len()
        invariant
            i <= items@.len(),
            out@.len() == i,
            forall|k: int| 0 <= k < i ==> (#[trigger] items@[k]) is Ok,
            forall|k: int| 0 <= k < i ==> (#[trigger] out@[k]) == items@[k]->Ok_0,
        decreases items@.len() - i,
    {
        match &items[i] {
            Ok(h) => {
                out.push(*h);
            },
            Err(e) => {
                return Err(e.duplicate());
            },
        }
        i += 1;
    }
    Ok(out)
}

/// Whether `c` is already among the collected components.
fn contains_component(list: &Vec<Component>, c: Component) -> (b: bool)
    ensures
        b == list@.contains(c),
{
    let mut i: usize = 0;
    while i < list.len()
        invariant
            i <= list@.len(),
            forall|j: int| 0 <= j < i ==> list@[j] != c,
        decreases list@.len() - i,
    {
        if list[i] == c {
            return true;
        }
        i += 1;
    }
    proof {
        assert(!list@.contains(c));
    }
    false
}

/// The component the wire integer at position `k` maps to.
pub open spec fn wire_component(wire: Seq<i32>, k: int) -> Component {
    crate::component::spec_component_of_wire(wire[k] as int)
}

/// Component-set marshalling for the install operation: maps each wire
/// integer through the fixed table and collects the results as a set — no
/// duplicates, and a component is in the result exactly when some wire
/// value maps to it.
pub fn marshal_component_set(wire: &Vec<i32>) -> (r: Vec<Component>)
    ensures
        forall|c: Component|
            #[trigger] r@.contains(c) <==> exists|k: int|
                0 <= k < wire@.len() && #[trigger] wire_component(wire@, k) == c,
        forall|i: int, j: int| 0 <= i < j < r@.len() ==> r@[i] != r@[j],
{
    let mut r: Vec<Component> = Vec::new();
    let mut i: usize = 0;
    while i < wire.len()
        invariant
            i <= wire@.len(),
            forall|c: Component|
                #[trigger] r@.contains(c) <==> exists|k: int|
                    0 <= k < i && #[trigger] wire_component(wire@, k) == c,
            forall|a: int, b: int| 0 <= a < b < r@.len() ==> r@[a] != r@[b],
        decreases wire@.len() - i,
    {
        let c = crate::component::component_from_wire(wire[i]);
        let ghost prev = r@;
        let present = contains_component(&r, c);
        if !present {
            r.push(c);
        }
        proof {
            assert(wire_component(wire@, i as int) == c);
            assert forall|x: Component| #[trigger] r@.contains(x) implies exists|k: int|
                0 <= k < i + 1 && #[trigger] wire_component(wire@, k) == x by {
                if prev.contains(x) {
                    let k = choose|k: int| 0 <= k < i && #[trigger] wire_component(wire@, k) == x;
                    assert(0 <= k < i + 1 && wire_component(wire@, k) == x);
                } else {
                    let idx = choose|idx: int| 0 <= idx < r@.len() && r@[idx] == x;
                    if idx < prev.len() {
                        assert(prev[idx] == x);
                    }
                    assert(x == c);
                    assert(wire_component(wire@, i as int) == x);
                }
            }
            assert forall|x: Component|
                (exists|k: int| 0 <= k < i + 1 && #[trigger] wire_component(wire@, k) == x) implies #[trigger] r@
                .contains(x) by {
                let k = choose|k: int| 0 <= k < i + 1 && #[trigger] wire_component(wire@, k) == x;
                if k < i {
                    assert(prev.contains(x));
                    let idx = choose|idx: int| 0 <= idx < prev.len() && prev[idx] == x;
                    assert(r@[idx] == x);
                } else {
                    if present {
                        assert(r@.contains(c));
                    } else {
                        assert(r@[prev.len() as int] == c);
                    }
                }
            }
            assert forall|a: int, b: int| 0 <= a < b < r@.len() implies r@[a] != r@[b] by {
                if b < prev.len() {
                    assert(prev[a] == r@[a] && prev[b] == r@[b]);
                } else {
                    assert(r@[b] == c && r@[a] == prev[a]);
                    if prev[a] == c {
                        assert(prev.contains(c));
                    }
                }
            }
        }
        i += 1;
    }
    r
}

} // verus!
