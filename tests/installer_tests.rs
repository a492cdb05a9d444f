use icc_auto_reloader::installer::{
    find_dispwin, install_finished, install_profile, reload_profile, HelperCandidate,
    HelperCommand, InstallError,
};

fn candidate(path: &str, exists: bool, has_file_name: bool) -> HelperCandidate {
    HelperCandidate { path: path.to_string(), exists, has_file_name }
}

#[test]
fn working_directory_helper_is_preferred() {
    let wd = candidate("bin/dispwin.exe", true, true);
    let exe = candidate("C:/app/bin/dispwin.exe", true, true);
    assert_eq!(find_dispwin(&wd, &exe), Some("bin/dispwin.exe".to_string()));
}

#[test]
fn executable_relative_helper_is_the_fallback() {
    let wd = candidate("bin/dispwin.exe", false, true);
    let exe = candidate("C:/app/bin/dispwin.exe", true, true);
    assert_eq!(find_dispwin(&wd, &exe), Some("C:/app/bin/dispwin.exe".to_string()));
}

#[test]
fn candidate_without_file_name_is_skipped() {
    let wd = candidate("bin/..", true, false);
    let exe = candidate("", true, false);
    assert_eq!(find_dispwin(&wd, &exe), None);
    let none = candidate("bin/dispwin.exe", false, true);
    assert_eq!(find_dispwin(&none, &none), None);
}

#[test]
fn reload_reasserts_the_last_profile() {
    let cmd = reload_profile(&Some("bin/dispwin.exe".to_string())).unwrap();
    assert_eq!(cmd, HelperCommand::ReloadLast { helper: "bin/dispwin.exe".to_string() });
    assert_eq!(cmd.program(), "bin/dispwin.exe");
    assert_eq!(cmd.args(), vec!["-L".to_string()]);
    assert!(!cmd.waits());
}

#[test]
fn reload_without_helper_launches_nothing() {
    assert_eq!(reload_profile(&None), None);
}

#[test]
fn install_without_helper_fails_with_helper_missing() {
    assert_eq!(install_profile(&None, "x.icc"), Err(InstallError::HelperMissing));
}

#[test]
fn install_launches_the_helper_and_waits() {
    let cmd = install_profile(&Some("bin/dispwin.exe".to_string()), "x.icc").unwrap();
    assert_eq!(
        cmd,
        HelperCommand::Install { helper: "bin/dispwin.exe".to_string(), profile: "x.icc".to_string() }
    );
    assert_eq!(cmd.program(), "bin/dispwin.exe");
    assert_eq!(cmd.args(), vec!["-I".to_string(), "x.icc".to_string()]);
    assert!(cmd.waits());
}

#[test]
fn successful_install_reloads_once_then_succeeds() {
    let outcome = install_finished(&"bin/dispwin.exe".to_string(), true);
    assert_eq!(outcome.result, Ok(()));
    assert_eq!(
        outcome.reload,
        Some(HelperCommand::ReloadLast { helper: "bin/dispwin.exe".to_string() })
    );
}

#[test]
fn rejected_install_reports_and_launches_nothing() {
    let outcome = install_finished(&"bin/dispwin.exe".to_string(), false);
    assert_eq!(outcome.result, Err(InstallError::HelperRejected));
    assert_eq!(outcome.reload, None);
}
