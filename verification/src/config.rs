//! The immutable description of one container launch.

use vstd::prelude::*;

verus! {

/// What a caller asks the runtime to run: a unique container id, the
/// filesystem to change root into, the single-token entrypoint command,
/// and the hostname the container sees (it defaults to the id).
#[derive(Debug, Clone)]
pub struct ContainerSpec {
    pub id: String,
    pub root_path: String,
    pub entrypoint: String,
    pub hostname: String,
}

impl ContainerSpec {
    /// Builds a launch description whose hostname defaults to the id.
    pub fn new(id: String, root_path: String, entrypoint: String) -> (s: Self)
        ensures
            s.id == id,
            s.root_path == root_path,
            s.entrypoint == entrypoint,
            s.hostname == id,
    {
        let hostname = id.clone();
        ContainerSpec { id, root_path, entrypoint, hostname }
    }

    /// Builds a launch description with an explicit hostname.
    pub fn with_hostname(id: String, root_path: String, entrypoint: String, hostname: String) -> (s:
        Self)
        ensures
            s.id == id,
            s.root_path == root_path,
            s.entrypoint == entrypoint,
            s.hostname == hostname,
    {
        ContainerSpec { id, root_path, entrypoint, hostname }
    }
}

} // verus!
