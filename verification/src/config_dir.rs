//! Where the application keeps its configuration.
use vstd::prelude::*;

verus! {

#[verifier::external_type_specification]
#[verifier::external_body]
pub struct ExPathBuf(std::path::PathBuf);

/// The directory holding the configuration files, shared with the
/// settings commands.
pub struct ConfigDir(pub std::path::PathBuf);

} // verus!
