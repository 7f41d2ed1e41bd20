use nix_installer::action::{Action, ActionErrorKind, ActionState};
use nix_installer::delete_user::{contains_bytes, DeleteUser, DeletionCommand, DsclOutcome, HostOs};

#[test]
fn absent_user_fails_with_no_user() {
    for host in [HostOs::Darwin, HostOs::Other] {
        let e = DeleteUser::plan_on(host, "nixbld1".to_string(), true, Ok(false)).unwrap_err();
        assert_eq!(e.origin.0, "delete_user");
        assert!(matches!(e.kind, ActionErrorKind::NoUser(ref n) if n == "nixbld1"));
    }
}

#[test]
fn missing_deletion_command_fails_off_darwin() {
    let e = DeleteUser::plan_on(HostOs::Other, "u".to_string(), false, Ok(true)).unwrap_err();
    assert!(matches!(e.kind, ActionErrorKind::MissingUserDeletionCommand));
    let s = DeleteUser::plan_on(HostOs::Darwin, "u".to_string(), false, Ok(true)).unwrap();
    assert_eq!(s.state, ActionState::Uncompleted);
    assert_eq!(s.action.name, "u");
}

#[test]
fn unreadable_user_database_fails() {
    let e = DeleteUser::plan_on(HostOs::Other, "u".to_string(), true, Err("EIO".to_string())).unwrap_err();
    assert!(matches!(e.kind, ActionErrorKind::GettingUserId(ref n, ref m) if n == "u" && m == "EIO"));
}

#[test]
fn existing_user_plans_uncompleted() {
    let s = DeleteUser::plan_on(HostOs::Other, "u".to_string(), true, Ok(true)).unwrap();
    assert_eq!(s.state, ActionState::Uncompleted);
}

#[test]
fn plan_on_this_host_finds_absent_user() {
    let e = DeleteUser::plan("u".to_string(), true, Ok(false)).unwrap_err();
    assert!(matches!(e.kind, ActionErrorKind::NoUser(_)));
}

#[test]
fn deletion_command_choice() {
    assert_eq!(DeleteUser::deletion_command_on(HostOs::Darwin, false, false).unwrap(), DeletionCommand::Dscl);
    assert_eq!(DeleteUser::deletion_command_on(HostOs::Other, true, true).unwrap(), DeletionCommand::Userdel);
    assert_eq!(DeleteUser::deletion_command_on(HostOs::Other, false, true).unwrap(), DeletionCommand::Deluser);
    let e = DeleteUser::deletion_command_on(HostOs::Other, false, false).unwrap_err();
    assert!(matches!(e.kind, ActionErrorKind::MissingUserDeletionCommand));
    let u = DeleteUser { name: "u".to_string() };
    assert!(u.deletion_command(true, false).is_ok());
}

#[test]
fn dscl_outcomes() {
    let token = b"<dscl_cmd> DS Error: -14120 (eDSPermissionError)".to_vec();
    assert_eq!(DeleteUser::dscl_outcome(Some(0), &vec![]), DsclOutcome::Deleted);
    assert_eq!(DeleteUser::dscl_outcome(Some(40), &token), DsclOutcome::NoSecureToken);
    assert_eq!(DeleteUser::dscl_outcome(Some(40), &b"-1412".to_vec()), DsclOutcome::Failed);
    assert_eq!(DeleteUser::dscl_outcome(Some(1), &token), DsclOutcome::Failed);
    assert_eq!(DeleteUser::dscl_outcome(None, &token), DsclOutcome::Failed);
    assert!(DeleteUser::dscl_result(Some(40), token).is_ok());
    let e = DeleteUser::dscl_result(Some(2), b"boom".to_vec()).unwrap_err();
    match e.kind {
        ActionErrorKind::CommandOutput { program, code, stderr } => {
            assert_eq!(program, "/usr/bin/dscl");
            assert_eq!(code, Some(2));
            assert_eq!(stderr, b"boom".to_vec());
        },
        other => panic!("unexpected kind {:?}", other),
    }
}

#[test]
fn byte_search_edges() {
    assert!(contains_bytes(&vec![], &[]));
    assert!(!contains_bytes(&vec![1], &[1, 2]));
    assert!(contains_bytes(&vec![1, 2, 3], &[2, 3]));
    assert!(!contains_bytes(&vec![1, 2, 3], &[3, 2]));
}

#[test]
fn delete_user_revert_is_noop_and_descriptions() {
    let mut u = DeleteUser { name: "nixbld3".to_string() };
    assert!(u.revert().is_ok());
    assert_eq!(u.name, "nixbld3");
    assert_eq!(
        u.tracing_synopsis(),
        "Delete user `nixbld3`, which exists due to a previous install, but is no longer required"
    );
    let d = u.execute_description();
    assert_eq!(d.len(), 1);
    assert_eq!(d[0].title, u.tracing_synopsis());
    assert_eq!(d[0].details.len(), 1);
    assert!(u.revert_description().is_empty());
}

#[test]
fn host_probe_follows_build_target() {
    let darwin = matches!(
        target_lexicon::OperatingSystem::host(),
        target_lexicon::OperatingSystem::Darwin | target_lexicon::OperatingSystem::MacOSX { .. }
    );
    let u = DeleteUser { name: "u".to_string() };
    assert_eq!(u.deletion_command(false, false).is_ok(), darwin);
    assert_eq!(DeleteUser::plan("u".to_string(), false, Ok(true)).is_ok(), darwin);
}
