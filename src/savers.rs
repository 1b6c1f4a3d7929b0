use vstd::prelude::*;
use crate::config::RunError;
use crate::repo::Repo;

verus! {

/// Encodes repositories in the TOML-like format. That format is a declared
/// extension point without a codec: encoding always fails.
pub fn save_toml(repos: &Vec<Repo>) -> (r: Result<String, RunError>)
    ensures
        r == Err::<String, RunError>(RunError::NotImplemented),
{
    Err(RunError::NotImplemented)
}

/// Decodes repositories from the TOML-like format; like encoding, always fails.
pub fn read_toml(text: &String) -> (r: Result<Vec<Repo>, RunError>)
    ensures
        r == Err::<Vec<Repo>, RunError>(RunError::NotImplemented),
{
    Err(RunError::NotImplemented)
}

} // verus!
