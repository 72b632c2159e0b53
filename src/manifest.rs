use vstd::prelude::*;

use crate::policy::Compute;

verus! {

/// Failures of reading a project manifest.
#[derive(Debug, Clone)]
pub enum ManifestError {
    FsError(String),
    ParseError(String),
}

impl ManifestError {
    pub fn message(&self) -> (r: String)
        ensures
            r@ == match *self {
                ManifestError::FsError(m) => "Filesystem error > "@ + m@,
                ManifestError::ParseError(m) => "Parse error > "@ + m@,
            },
    {
        match self {
            ManifestError::FsError(m) => {
                let mut s = String::from_str("Filesystem error > ");
                s.append(m.as_str());
                s
            },
            ManifestError::ParseError(m) => {
                let mut s = String::from_str("Parse error > ");
                s.append(m.as_str());
                s
            },
        }
    }
}

/// The `[workflow]` table.
#[derive(Debug, Clone)]
pub struct Workflow {
    pub name: Option<String>,
    pub version: Option<String>,
    pub entrypoint: Option<String>,
}

/// The `[tasks]` table: defaults for the policies of a project's tasks.
#[derive(Debug, Clone)]
pub struct DefaultPolicy {
    pub default_compute: Option<Compute>,
    pub default_ram: Option<String>,
    pub default_timeout: Option<String>,
    pub default_max_retries: Option<u64>,
    pub default_allowed_files: Option<Vec<String>>,
}

/// A parsed `capsule.toml`.
#[derive(Debug, Clone)]
pub struct CapsuleToml {
    pub workflow: Option<Workflow>,
    pub tasks: Option<DefaultPolicy>,
}

impl CapsuleToml {
    /// The manifest of a project without a `capsule.toml`.
    pub fn empty() -> (r: Self)
        ensures
            r.workflow is None,
            r.tasks is None,
    {
        CapsuleToml { workflow: None, tasks: None }
    }
}

/// A source file together with its project's manifest.
#[derive(Debug, Clone)]
pub struct Manifest {
    pub source_path: String,
    pub capsule_toml: CapsuleToml,
}

impl Manifest {
    /// The entry point that the manifest names, if any.
    pub fn entrypoint(&self) -> (r: Option<String>)
        ensures
            match self.capsule_toml.workflow {
                Some(w) => match w.entrypoint {
                    Some(e) => r matches Some(x) && x@ == e@,
                    None => r is None,
                },
                None => r is None,
            },
    {
        match &self.capsule_toml.workflow {
            Some(w) => match &w.entrypoint {
                Some(e) => Some(e.clone()),
                None => None,
            },
            None => None,
        }
    }
}

} // verus!
