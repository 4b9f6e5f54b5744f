//! SSH client settings and the verdicts of SSH config validation.
use vstd::prelude::*;
use crate::errors::SshConfigError;
use crate::text::opt_view;

verus! {

/// SSH client settings: an optional OpenSSH-style config file.
#[derive(Debug, Clone)]
pub struct SSHConfig {
    pub config_file: Option<String>,
}

/// What checking a path for existence found.
#[derive(Debug, Clone)]
pub enum PathProbe {
    /// The path exists.
    Exists,
    /// The path does not exist.
    Missing,
    /// Checking failed because access was denied.
    PermissionDenied(String),
    /// Checking failed because the path was not found.
    NotFound(String),
    /// Checking failed for another reason.
    Failed(String),
}

/// What opening and parsing an existing SSH config file gave.
#[derive(Debug, Clone)]
pub enum SshLoadOutcome {
    /// The file could not be opened.
    OpenFailed(String),
    /// The file was opened but its contents are not valid strict SSH config syntax.
    ParseFailed(String),
    /// The file was opened and parsed.
    Parsed,
}

/// Whether `r` is the existence verdict for `path` and `probe`: success when
/// the path exists; `NotFound` when it is missing or checking found no path;
/// `PermissionDenied` or `CheckFailed` (with the failure's message) otherwise.
pub open spec fn is_exists_verdict(r: Result<(), SshConfigError>, path: Seq<char>, probe: PathProbe) -> bool {
    match probe {
        PathProbe::Exists => r is Ok,
        PathProbe::Missing => r matches Err(SshConfigError::NotFound { path: p }) && p@ == path,
        PathProbe::NotFound(_) => r matches Err(SshConfigError::NotFound { path: p }) && p@ == path,
        PathProbe::PermissionDenied(m) => r matches Err(
            SshConfigError::PermissionDenied { path: p, message: e },
        ) && p@ == path && e@ == m@,
        PathProbe::Failed(m) => r matches Err(SshConfigError::CheckFailed { path: p, message: e })
            && p@ == path && e@ == m@,
    }
}

/// Whether `r` is the verdict on a loaded file at `path`.
pub open spec fn is_load_verdict(r: Result<(), SshConfigError>, path: Seq<char>, load: SshLoadOutcome) -> bool {
    match load {
        SshLoadOutcome::Parsed => r is Ok,
        SshLoadOutcome::OpenFailed(m) => r matches Err(SshConfigError::OpenFailed { path: p, message: e })
            && p@ == path && e@ == m@,
        SshLoadOutcome::ParseFailed(m) => r matches Err(SshConfigError::ParseFailed { path: p, message: e })
            && p@ == path && e@ == m@,
    }
}

/// What opening and parsing an existing SSH config file into a `C` gave.
#[derive(Debug)]
pub enum SshParseOutcome<C> {
    /// The file could not be opened.
    OpenFailed(String),
    /// The file was opened but its contents are not valid strict SSH config syntax.
    ParseFailed(String),
    /// The parsed config.
    Parsed(C),
}

/// Whether `r` is the parse verdict on a file at `path` given the outcome `load`.
pub open spec fn is_parse_verdict<C>(r: Result<Option<C>, SshConfigError>, path: Seq<char>, load: SshParseOutcome<C>) -> bool {
    match load {
        SshParseOutcome::Parsed(c) => r == Ok::<Option<C>, SshConfigError>(Some(c)),
        SshParseOutcome::OpenFailed(m) => r matches Err(SshConfigError::OpenFailed { path: p, message: e })
            && p@ == path && e@ == m@,
        SshParseOutcome::ParseFailed(m) => r matches Err(SshConfigError::ParseFailed { path: p, message: e })
            && p@ == path && e@ == m@,
    }
}

impl SSHConfig {
    /// A builder with no config file set.
    pub fn builder() -> (res: SSHConfigBuilder)
        ensures
            res.config_file is None,
    {
        SSHConfigBuilder { config_file: None }
    }

    /// The configured SSH config file, if any.
    pub fn config_file(&self) -> (res: Option<&str>)
        ensures
            crate::inventory::models::opt_str(res) == opt_view(self.config_file),
    {
        crate::inventory::models::as_deref(&self.config_file)
    }

    /// The verdict on whether `path` exists, given what checking it found.
    pub fn ensure_exists(&self, path: &str, probe: PathProbe) -> (res: Result<(), SshConfigError>)
        ensures
            is_exists_verdict(res, path@, probe),
    {
        match probe {
            PathProbe::Exists => Ok(()),
            PathProbe::Missing => Err(SshConfigError::NotFound { path: String::from_str(path) }),
            PathProbe::NotFound(_) => Err(SshConfigError::NotFound { path: String::from_str(path) }),
            PathProbe::PermissionDenied(message) => Err(
                SshConfigError::PermissionDenied { path: String::from_str(path), message },
            ),
            PathProbe::Failed(message) => Err(
                SshConfigError::CheckFailed { path: String::from_str(path), message },
            ),
        }
    }

    /// The verdict on an existing config file at `path`, given what opening and
    /// parsing it gave.
    pub fn load_verdict(&self, path: &str, load: SshLoadOutcome) -> (res: Result<(), SshConfigError>)
        ensures
            is_load_verdict(res, path@, load),
    {
        match load {
            SshLoadOutcome::Parsed => Ok(()),
            SshLoadOutcome::OpenFailed(message) => Err(
                SshConfigError::OpenFailed { path: String::from_str(path), message },
            ),
            SshLoadOutcome::ParseFailed(message) => Err(
                SshConfigError::ParseFailed { path: String::from_str(path), message },
            ),
        }
    }

    /// Validation: success when no config file is set; otherwise the file is
    /// checked with `probe` (an error ends it), then loaded with `load`, whose
    /// outcome gives the verdict. `probe` and `load` run only when needed.
    pub fn validate<P: FnOnce() -> PathProbe, L: FnOnce() -> SshLoadOutcome>(&self, probe: P, load: L) -> (res: Result<(), SshConfigError>)
        requires
            call_requires(probe, ()),
            call_requires(load, ()),
        ensures
            match self.config_file {
                None => res is Ok,
                Some(path) => exists|found: PathProbe| #[trigger] call_ensures(probe, (), found) && if found is Exists {
                    exists|loaded: SshLoadOutcome| #[trigger] call_ensures(load, (), loaded) && is_load_verdict(res, path@, loaded)
                } else {
                    is_exists_verdict(res, path@, found)
                },
            },
    {
        match &self.config_file {
            Some(path) => {
                let found = probe();
                match self.ensure_exists(path.as_str(), found) {
                    Ok(()) => {
                        let loaded = load();
                        self.load_verdict(path.as_str(), loaded)
                    },
                    Err(e) => Err(e),
                }
            },
            None => Ok(()),
        }
    }

    /// Parsing: nothing when no config file is set; otherwise the file is
    /// checked with `probe` (an error ends it), then parsed with `load`: the
    /// parsed config, or the error its outcome gives. `probe` and `load` run
    /// only when needed.
    pub fn parse<C, P: FnOnce() -> PathProbe, L: FnOnce() -> SshParseOutcome<C>>(&self, probe: P, load: L) -> (res: Result<Option<C>, SshConfigError>)
        requires
            call_requires(probe, ()),
            call_requires(load, ()),
        ensures
            match self.config_file {
                None => res == Ok::<Option<C>, SshConfigError>(None),
                Some(path) => exists|found: PathProbe| #[trigger] call_ensures(probe, (), found) && if found is Exists {
                    exists|parsed: SshParseOutcome<C>| #[trigger] call_ensures(load, (), parsed) && is_parse_verdict(res, path@, parsed)
                } else {
                    res matches Err(e) && is_exists_verdict(Err(e), path@, found)
                },
            },
    {
        match &self.config_file {
            Some(path) => {
                let found = probe();
                match self.ensure_exists(path.as_str(), found) {
                    Ok(()) => {
                        let parsed = load();
                        match parsed {
                            SshParseOutcome::Parsed(config) => Ok(Some(config)),
                            SshParseOutcome::OpenFailed(message) => Err(
                                SshConfigError::OpenFailed { path: path.clone(), message },
                            ),
                            SshParseOutcome::ParseFailed(message) => Err(
                                SshConfigError::ParseFailed { path: path.clone(), message },
                            ),
                        }
                    },
                    Err(e) => Err(e),
                }
            },
            None => Ok(None),
        }
    }
}

impl Default for SSHConfig {
    fn default() -> (res: Self)
        ensures
            res.config_file is None,
    {
        SSHConfig { config_file: None }
    }
}

/// Builder for [`SSHConfig`].
pub struct SSHConfigBuilder {
    pub config_file: Option<String>,
}

impl SSHConfigBuilder {
    pub fn config_file(self, path: &str) -> (res: Self)
        ensures
            opt_view(res.config_file) == Some(path@),
    {
        SSHConfigBuilder { config_file: Some(String::from_str(path)) }
    }

    pub fn build(self) -> (res: SSHConfig)
        ensures
            opt_view(res.config_file) == opt_view(self.config_file),
    {
        SSHConfig { config_file: self.config_file }
    }
}

impl Default for SSHConfigBuilder {
    fn default() -> (res: Self)
        ensures
            res.config_file is None,
    {
        SSHConfigBuilder { config_file: None }
    }
}

} // verus!
