use vstd::prelude::*;

pub mod fs;
pub mod http;
pub mod permissions;
pub mod scripts;

verus! {

// `permissions` holds the store of granted and refused permissions and the
// access check every capability goes through; `fs` and `http` hold the
// checks that file and network operations make before acting; `scripts`
// holds the registry of named scripts and the plan of a run.

} // verus!
