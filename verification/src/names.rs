//! Derived names: the network namespace name and path for a container id,
//! and the transient control-group scope unit bound to it.

use vstd::prelude::*;
use vstd::string::*;

verus! {

/// The name under which a container's network namespace is registered.
pub open spec fn spec_netns_name(id: Seq<char>) -> Seq<char> {
    "ns-"@ + id
}

/// The filesystem path at which a container's network namespace is
/// discoverable, under the well-known namespace directory.
pub open spec fn spec_netns_path(id: Seq<char>) -> Seq<char> {
    "/run/netns/"@ + spec_netns_name(id)
}

/// The name of the transient scope unit that carries a container's
/// resource limits.
pub open spec fn spec_scope_unit_name(id: Seq<char>) -> Seq<char> {
    "rocker-"@ + id + ".scope"@
}

/// The human-readable description attached to that scope unit.
pub open spec fn spec_scope_description(id: Seq<char>) -> Seq<char> {
    "rocker container: "@ + id
}

/// Builds `ns-<id>`, the network namespace name for a container.
pub fn netns_name(id: &str) -> (r: String)
    ensures
        r@ == spec_netns_name(id@),
{
    String::from_str("ns-").concat(id)
}

/// Builds `/run/netns/ns-<id>`, the path of the namespace handle.
pub fn netns_path(id: &str) -> (r: String)
    ensures
        r@ == spec_netns_path(id@),
{
    let name = netns_name(id);
    let r = String::from_str("/run/netns/").concat(name.as_str());
    proof {
        assert(r@ =~= spec_netns_path(id@));
    }
    r
}

/// Builds `rocker-<id>.scope`, the scope unit name for a container.
pub fn scope_unit_name(id: &str) -> (r: String)
    ensures
        r@ == spec_scope_unit_name(id@),
{
    let r = String::from_str("rocker-").concat(id).concat(".scope");
    proof {
        assert(r@ =~= spec_scope_unit_name(id@));
    }
    r
}

/// Builds the description string of a container's scope unit.
pub fn scope_description(id: &str) -> (r: String)
    ensures
        r@ == spec_scope_description(id@),
{
    String::from_str("rocker container: ").concat(id)
}

} // verus!
