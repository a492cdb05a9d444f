//! Locating the calibration helper and deciding which helper runs a reload or
//! an install needs. The caller launches the commands and reports back how an
//! install ended.
use vstd::prelude::*;

verus! {

/// One place where the helper may be installed, as the caller found it.
#[derive(Clone, Debug, PartialEq, Eq)]
pub struct HelperCandidate {
    /// Full path of the helper at this place.
    pub path: String,
    /// Whether a file exists at that path.
    pub exists: bool,
    /// Whether the path ends in a non-empty file name.
    pub has_file_name: bool,
}

/// A launch of the helper.
#[derive(Clone, Debug, PartialEq, Eq)]
pub enum HelperCommand {
    /// `<helper> -L`: reassert the last installed profile; launched without
    /// waiting and without a console window.
    ReloadLast { helper: String },
    /// `<helper> -I <profile>`: install a profile; launched and waited for.
    Install { helper: String, profile: String },
}

/// Why installing a profile failed.
#[derive(Clone, Copy, Debug, PartialEq, Eq, Structural)]
pub enum InstallError {
    /// The helper was found at none of the places searched.
    HelperMissing,
    /// The helper ran and reported failure; the active profile is unchanged.
    HelperRejected,
}

/// How an install ended, and the reload to launch before reporting it.
#[derive(Debug, PartialEq, Eq)]
pub struct InstallOutcome {
    pub result: Result<(), InstallError>,
    pub reload: Option<HelperCommand>,
}

/// A candidate that can be used.
pub open spec fn usable(c: HelperCandidate) -> bool {
    c.exists && c.has_file_name
}

/// The helper's path: the working directory's candidate first, then the one
/// beside the executable.
pub open spec fn located(working_dir: HelperCandidate, beside_exe: HelperCandidate) -> Option<
    Seq<char>,
> {
    if usable(working_dir) {
        Some(working_dir.path@)
    } else if usable(beside_exe) {
        Some(beside_exe.path@)
    } else {
        None
    }
}

/// The view of an optional string.
pub open spec fn opt_view(s: Option<String>) -> Option<Seq<char>> {
    match s {
        Some(p) => Some(p@),
        None => None,
    }
}

/// The reload command for a located helper.
pub open spec fn reload_of(helper: String) -> HelperCommand {
    HelperCommand::ReloadLast { helper }
}

/// The reload launched for a lookup of the helper: none when it is missing.
pub open spec fn reload_spec(helper: Option<String>) -> Option<HelperCommand> {
    match helper {
        Some(h) => Some(reload_of(h)),
        None => None,
    }
}

/// How an install ends once the helper has exited with or without success.
pub open spec fn finish_spec(helper: String, succeeded: bool) -> InstallOutcome {
    if succeeded {
        InstallOutcome { result: Ok(()), reload: Some(reload_of(helper)) }
    } else {
        InstallOutcome { result: Err(InstallError::HelperRejected), reload: None }
    }
}

/// The views of a list of strings.
pub open spec fn views(v: Seq<String>) -> Seq<Seq<char>> {
    v.map_values(|s: String| s@)
}

/// The arguments the helper is launched with.
pub open spec fn args_of(cmd: HelperCommand) -> Seq<Seq<char>> {
    match cmd {
        HelperCommand::ReloadLast { .. } => seq!["-L"@],
        HelperCommand::Install { profile, .. } => seq!["-I"@, profile@],
    }
}

/// Picks the helper: the working directory's `bin/` candidate when it can be
/// used, else the one in `bin/` beside the executable, else none.
pub fn find_dispwin(working_dir: &HelperCandidate, beside_exe: &HelperCandidate) -> (r: Option<
    String,
>)
    ensures
        opt_view(r) == located(*working_dir, *beside_exe),
{
    if working_dir.exists && working_dir.has_file_name {
        Some(working_dir.path.clone())
    } else if beside_exe.exists && beside_exe.has_file_name {
        Some(beside_exe.path.clone())
    } else {
        None
    }
}

impl HelperCommand {
    /// The helper program to launch.
    pub fn program(&self) -> (r: &String)
        ensures
            r == (match *self {
                HelperCommand::ReloadLast { helper } => helper,
                HelperCommand::Install { helper, .. } => helper,
            }),
    {
        match self {
            HelperCommand::ReloadLast { helper } => helper,
            HelperCommand::Install { helper, .. } => helper,
        }
    }

    /// The arguments to launch the helper with.
    pub fn args(&self) -> (r: Vec<String>)
        ensures
            views(r@) == args_of(*self),
    {
        let mut r: Vec<String> = Vec::new();
        match self {
            HelperCommand::ReloadLast { .. } => {
                r.push("-L".to_owned());
            },
            HelperCommand::Install { profile, .. } => {
                r.push("-I".to_owned());
                r.push(profile.clone());
            },
        }
        assert(views(r@) =~= args_of(*self));
        r
    }

    /// Whether the caller waits for the helper to exit.
    pub fn waits(&self) -> (r: bool)
        ensures
            r == (*self is Install),
    {
        match self {
            HelperCommand::ReloadLast { .. } => false,
            HelperCommand::Install { .. } => true,
        }
    }
}

/// The launch that reasserts the last profile; nothing when the helper is
/// missing, so that an automatic check never nags.
pub fn reload_profile(helper: &Option<String>) -> (r: Option<HelperCommand>)
    ensures
        r == reload_spec(*helper),
{
    match helper {
        Some(h) => Some(HelperCommand::ReloadLast { helper: h.clone() }),
        None => None,
    }
}

/// The launch that installs `profile`, or `HelperMissing` when no helper was
/// found, in which case nothing is launched.
pub fn install_profile(helper: &Option<String>, profile: &str) -> (r: Result<
    HelperCommand,
    InstallError,
>)
    ensures
        helper is None <==> r == Err::<HelperCommand, InstallError>(InstallError::HelperMissing),
        helper is Some ==> (r matches Ok(HelperCommand::Install { helper: h, profile: p }) && h
            == helper.unwrap() && p@ == profile@),
{
    match helper {
        Some(h) => Ok(HelperCommand::Install { helper: h.clone(), profile: profile.to_owned() }),
        None => Err(InstallError::HelperMissing),
    }
}

/// How an install ends once the helper has exited: on success, one reload of
/// the freshly installed profile is launched before success is reported; on
/// failure nothing more is launched and `HelperRejected` is reported.
pub fn install_finished(helper: &String, succeeded: bool) -> (r: InstallOutcome)
    ensures
        r == finish_spec(*helper, succeeded),
{
    if succeeded {
        InstallOutcome {
            result: Ok(()),
            reload: Some(HelperCommand::ReloadLast { helper: helper.clone() }),
        }
    } else {
        InstallOutcome { result: Err(InstallError::HelperRejected), reload: None }
    }
}

/// When both candidates can be used, the working directory's one is chosen.
pub proof fn lemma_working_dir_preferred(working_dir: HelperCandidate, beside_exe: HelperCandidate)
    requires
        usable(working_dir),
        usable(beside_exe),
    ensures
        located(working_dir, beside_exe) == Some(working_dir.path@),
{
}

/// An install that succeeds launches exactly one reload, the same one a
/// manual reload launches with that helper, and only then reports success;
/// one that fails launches nothing more.
pub proof fn lemma_success_reloads_once(helper: String)
    ensures
        finish_spec(helper, true).result == Ok::<(), InstallError>(()),
        finish_spec(helper, true).reload == reload_spec(Some(helper)),
        finish_spec(helper, true).reload is Some,
        finish_spec(helper, false).result == Err::<(), InstallError>(InstallError::HelperRejected),
        finish_spec(helper, false).reload is None,
{
}

} // verus!
