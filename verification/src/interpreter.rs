//! The interpreter resolver: decides which executable will run the backend
//! script, from the caller's observations of the environment and the disk.
//!
//! Resolution order, first match wins: an explicit override variable naming
//! an interpreter path, accepted only if that path exists; a
//! virtual-environment root variable, from which the platform-specific
//! interpreter sub-path is derived and accepted only if it exists; and
//! finally the platform default bare executable name, returned
//! unconditionally, deferring any failure to spawn time. The resolver never
//! fails: it always returns a value.

use vstd::prelude::*;

verus! {

/// Which platform conventions govern derived interpreter paths and the
/// default executable name.
#[derive(Clone, Copy, PartialEq, Eq, Structural, Debug)]
pub enum Platform {
    Windows,
    Unix,
}

/// The caller's observations of the environment: the two variables consulted,
/// and whether the paths they lead to exist on disk.
pub struct InterpreterProbe {
    /// Value of the interpreter override variable, if it was set.
    pub override_path: Option<String>,
    /// Whether the override path exists on disk; consulted only when the
    /// override variable was set.
    pub override_exists: bool,
    /// Value of the virtual-environment root variable, if it was set.
    pub venv_root: Option<String>,
    /// Whether the interpreter path derived from the virtual-environment
    /// root exists on disk; consulted only when that variable was set.
    pub venv_interpreter_exists: bool,
}

/// The interpreter path inside a virtual environment rooted at `root`.
pub open spec fn venv_interpreter_spec(root: Seq<char>, platform: Platform) -> Seq<char> {
    match platform {
        Platform::Windows => root + "/Scripts/python.exe"@,
        Platform::Unix => root + "/bin/python"@,
    }
}

/// The platform default interpreter name, used as the unconditional fallback.
pub open spec fn default_interpreter_spec(platform: Platform) -> Seq<char> {
    match platform {
        Platform::Windows => "python.exe"@,
        Platform::Unix => "python3"@,
    }
}

/// Resolution once the override is out of the picture: the
/// virtual-environment interpreter if its variable is set and the derived
/// path exists, else the platform default.
pub open spec fn venv_or_default_spec(probe: InterpreterProbe, platform: Platform) -> Seq<char> {
    match probe.venv_root {
        Some(root) => if probe.venv_interpreter_exists {
            venv_interpreter_spec(root@, platform)
        } else {
            default_interpreter_spec(platform)
        },
        None => default_interpreter_spec(platform),
    }
}

/// The full resolution order: an override that exists wins outright,
/// otherwise the virtual environment is tried, otherwise the default.
pub open spec fn resolved_interpreter_spec(probe: InterpreterProbe, platform: Platform) -> Seq<char> {
    match probe.override_path {
        Some(path) => if probe.override_exists {
            path@
        } else {
            venv_or_default_spec(probe, platform)
        },
        None => venv_or_default_spec(probe, platform),
    }
}

/// Name of the environment variable that overrides the interpreter path.
pub fn interpreter_override_var() -> (r: &'static str)
    ensures
        r@ == "TRADINGAGENTS_PYTHON"@,
{
    "TRADINGAGENTS_PYTHON"
}

/// Name of the environment variable that points at a virtual-environment
/// root.
pub fn venv_root_var() -> (r: &'static str)
    ensures
        r@ == "VIRTUAL_ENV"@,
{
    "VIRTUAL_ENV"
}

/// The platform default interpreter name.
pub fn default_interpreter(platform: Platform) -> (r: String)
    ensures
        r@ == default_interpreter_spec(platform),
{
    match platform {
        Platform::Windows => String::from_str("python.exe"),
        Platform::Unix => String::from_str("python3"),
    }
}

/// The interpreter path inside the virtual environment rooted at `root`.
pub fn venv_interpreter(root: &str, platform: Platform) -> (r: String)
    ensures
        r@ == venv_interpreter_spec(root@, platform),
{
    let mut path = root.to_owned();
    match platform {
        Platform::Windows => path.append("/Scripts/python.exe"),
        Platform::Unix => path.append("/bin/python"),
    }
    path
}

/// Resolve the interpreter from the probed environment. Always returns a
/// value; existence of the final fallback is deliberately not checked, so a
/// missing interpreter only surfaces when the spawn is attempted.
pub fn preferred_interpreter(probe: &InterpreterProbe, platform: Platform) -> (r: String)
    ensures
        r@ == resolved_interpreter_spec(*probe, platform),
{
    if let Some(path) = &probe.override_path {
        if probe.override_exists {
            return path.clone();
        }
    }
    if let Some(root) = &probe.venv_root {
        if probe.venv_interpreter_exists {
            return venv_interpreter(root.as_str(), platform);
        }
    }
    default_interpreter(platform)
}

/// Law: an override that names no existing file is never used — resolution
/// falls through to the virtual-environment-derived path or the platform
/// default, exactly as if the override decided nothing.
pub proof fn lemma_missing_override_falls_through(probe: InterpreterProbe, platform: Platform)
    requires
        !probe.override_exists,
    ensures
        resolved_interpreter_spec(probe, platform) == venv_or_default_spec(probe, platform),
{
}

/// Law: an override that names an existing file is always used, whatever the
/// virtual-environment variable holds and whatever else exists on disk.
pub proof fn lemma_existing_override_wins(probe: InterpreterProbe, platform: Platform, path: String)
    requires
        probe.override_path == Some(path),
        probe.override_exists,
    ensures
        resolved_interpreter_spec(probe, platform) == path@,
{
}

/// Law: with neither variable set, a platform whose default interpreter is
/// `python3` resolves to exactly `python3`.
pub proof fn lemma_bare_unix_default(probe: InterpreterProbe)
    requires
        probe.override_path is None,
        probe.venv_root is None,
    ensures
        resolved_interpreter_spec(probe, Platform::Unix) == "python3"@,
{
}

} // verus!
