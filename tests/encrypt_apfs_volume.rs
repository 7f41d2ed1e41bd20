use nix_installer::action::{Action, ActionErrorKind, ActionState, StatefulAction, Step};
use nix_installer::encrypt_apfs_volume::{
    find_volume_encryption, generate_password, ApfsContainer, ApfsVolume, EncryptApfsVolume,
    EncryptApfsVolumeError, VolumeCommand, PASSWORD_ALPHABET, PASSWORD_LEN,
};

fn created(state: ActionState) -> StatefulAction<()> {
    StatefulAction { action: (), state }
}

fn volumes(list: &[(&str, bool)]) -> Vec<ApfsContainer> {
    vec![
        ApfsContainer { volumes: vec![] },
        ApfsContainer {
            volumes: list.iter().map(|(n, e)| ApfsVolume { name: n.to_string(), encryption: *e }).collect(),
        },
    ]
}

fn plan(secret: bool, state: ActionState, list: &[(&str, bool)]) -> Result<StatefulAction<EncryptApfsVolume>, nix_installer::action::ActionError> {
    EncryptApfsVolume::plan("disk3".to_string(), "Nix Store".to_string(), &created(state), secret, &volumes(list))
}

#[test]
fn secret_and_created_volume_plan_completed() {
    let s = plan(true, ActionState::Completed, &[]).unwrap();
    assert_eq!(s.state, ActionState::Completed);
    assert_eq!(s.execute_step(), Step::Skip);
    assert_eq!(s.action.disk, "disk3");
    assert_eq!(s.action.name, "Nix Store");
}

#[test]
fn secret_without_volume_fails() {
    let e = plan(true, ActionState::Uncompleted, &[]).unwrap_err();
    assert_eq!(e.origin.0, "encrypt_apfs_volume");
    assert!(matches!(
        e.kind,
        ActionErrorKind::EncryptApfsVolume(EncryptApfsVolumeError::ExistingPasswordFound(ref n, ref d))
            if n == "Nix Store" && d == "disk3"
    ));
}

#[test]
fn volume_without_secret_fails() {
    let e = plan(false, ActionState::Completed, &[]).unwrap_err();
    assert!(matches!(
        e.kind,
        ActionErrorKind::EncryptApfsVolume(EncryptApfsVolumeError::MissingPasswordForExistingVolume(_, _))
    ));
}

#[test]
fn neither_plans_uncompleted() {
    let s = plan(false, ActionState::Uncompleted, &[("Other", false)]).unwrap();
    assert_eq!(s.state, ActionState::Uncompleted);
    assert_eq!(s.execute_step(), Step::Run);
}

#[test]
fn existing_volume_must_be_encrypted() {
    let e = plan(false, ActionState::Uncompleted, &[("Nix Store", false)]).unwrap_err();
    assert!(matches!(
        e.kind,
        ActionErrorKind::EncryptApfsVolume(EncryptApfsVolumeError::ExistingVolumeNotEncrypted(_, _))
    ));
    let s = plan(false, ActionState::Uncompleted, &[("Nix Store", true)]).unwrap();
    assert_eq!(s.state, ActionState::Completed);
}

#[test]
fn volume_listing_only_when_undecided() {
    assert!(EncryptApfsVolume::needs_volume_listing(false, ActionState::Uncompleted));
    assert!(!EncryptApfsVolume::needs_volume_listing(true, ActionState::Uncompleted));
    assert!(!EncryptApfsVolume::needs_volume_listing(false, ActionState::Completed));
}

#[test]
fn first_volume_of_a_name_counts() {
    let c = volumes(&[("A", true), ("B", false), ("B", true)]);
    assert_eq!(find_volume_encryption(&c, &"B".to_string()), Some(false));
    assert_eq!(find_volume_encryption(&c, &"A".to_string()), Some(true));
    assert_eq!(find_volume_encryption(&c, &"C".to_string()), None);
    assert_eq!(find_volume_encryption(&vec![], &"C".to_string()), None);
}

#[test]
fn password_shape() {
    let p = generate_password();
    assert_eq!(p.chars().count(), PASSWORD_LEN);
    assert_eq!(PASSWORD_LEN, 32);
    assert!(p.chars().all(|c| PASSWORD_ALPHABET.contains(c)));
    assert_eq!(PASSWORD_ALPHABET.len(), 73);
    assert_ne!(generate_password(), generate_password());
}

#[test]
fn execute_stores_secret_before_encrypting() {
    let v = EncryptApfsVolume { disk: "disk3".to_string(), name: "Nix Store".to_string() };
    let cmds = v.execute_commands();
    assert_eq!(cmds.len(), 4);
    let stored = match &cmds[0] {
        VolumeCommand::StorePassword { name, disk, password } => {
            assert_eq!(name, "Nix Store");
            assert_eq!(disk, "disk3");
            password.clone()
        },
        other => panic!("unexpected command {:?}", other),
    };
    assert_eq!(stored.chars().count(), 32);
    assert!(matches!(&cmds[1], VolumeCommand::Mount { name } if name == "Nix Store"));
    assert!(matches!(&cmds[2], VolumeCommand::Encrypt { name, password } if name == "Nix Store" && *password == stored));
    assert!(matches!(&cmds[3], VolumeCommand::ForceUnmount { name } if name == "Nix Store"));
}

#[test]
fn revert_deletes_only_the_secret() {
    let v = EncryptApfsVolume { disk: "disk3".to_string(), name: "Nix Store".to_string() };
    let cmds = v.revert_commands();
    assert_eq!(cmds.len(), 1);
    assert!(matches!(&cmds[0], VolumeCommand::DeletePassword { name, disk } if name == "Nix Store" && disk == "disk3"));
}

#[test]
fn encrypt_descriptions() {
    let v = EncryptApfsVolume { disk: "disk3".to_string(), name: "Nix Store".to_string() };
    assert_eq!(v.tracing_synopsis(), "Encrypt volume `Nix Store` on disk `disk3`");
    assert_eq!(v.execute_description()[0].title, "Encrypt volume `Nix Store` on disk `disk3`");
    assert_eq!(v.revert_description()[0].title, "Remove encryption keys for volume `disk3`");
    assert_eq!(EncryptApfsVolume::action_tag().0, "encrypt_apfs_volume");
}

#[test]
fn password_follows_draws() {
    let draws: Vec<usize> = (0..32).map(|i| (i * 7) % 73).collect();
    let p = nix_installer::encrypt_apfs_volume::password_from_draws(&draws);
    let expected: String = draws.iter().map(|&k| PASSWORD_ALPHABET.as_bytes()[k] as char).collect();
    assert_eq!(p, expected);
    assert!(p.starts_with("AHOV"));
    assert_eq!(nix_installer::encrypt_apfs_volume::password_from_draws(&vec![72, 0, 52]), "~A0");
    assert_eq!(nix_installer::encrypt_apfs_volume::password_from_draws(&vec![]), "");
}

#[test]
fn missing_secret_is_no_revert_failure() {
    assert!(EncryptApfsVolume::delete_password_result(Some(0), vec![]).is_ok());
    assert!(EncryptApfsVolume::delete_password_result(Some(44), b"could not be found".to_vec()).is_ok());
    let e = EncryptApfsVolume::delete_password_result(Some(1), b"denied".to_vec()).unwrap_err();
    assert!(matches!(e.kind, ActionErrorKind::CommandOutput { ref program, code: Some(1), .. } if program == "/usr/bin/security"));
    assert!(EncryptApfsVolume::delete_password_result(None, vec![]).is_err());
}
