use nix_installer::action::{
    aggregate_errors, collect_reverts, ActionError, ActionErrorKind, ActionState, ActionTag, StatefulAction, Step,
    Action,
};
use nix_installer::delete_user::DeleteUser;

fn err(name: &str) -> ActionError {
    ActionError::new(ActionErrorKind::NoUser(name.to_string()), ActionTag("delete_user"))
}

fn no_user_name(e: &ActionError) -> String {
    match &e.kind {
        ActionErrorKind::NoUser(n) => n.clone(),
        other => panic!("unexpected kind {:?}", other),
    }
}

#[test]
fn completed_action_skips_execute() {
    let mut s = StatefulAction::completed(DeleteUser { name: "a".to_string() });
    assert_eq!(s.execute_step(), Step::Skip);
    assert!(s.finish_execute(Ok(())).is_ok());
    assert_eq!(s.state, ActionState::Completed);
    assert_eq!(s.execute_step(), Step::Skip);
    assert_eq!(s.revert_step(), Step::Run);
}

#[test]
fn uncompleted_action_skips_revert() {
    let s = StatefulAction::uncompleted(DeleteUser { name: "a".to_string() });
    assert_eq!(s.revert_step(), Step::Skip);
    assert_eq!(s.execute_step(), Step::Run);
}

#[test]
fn execute_then_revert_round_trip() {
    let mut s = StatefulAction::uncompleted(DeleteUser { name: "a".to_string() });
    assert!(s.finish_execute(Ok(())).is_ok());
    assert_eq!(s.state, ActionState::Completed);
    assert_eq!(s.execute_step(), Step::Skip);
    assert!(s.finish_revert(Ok(())).is_ok());
    assert_eq!(s.state, ActionState::Uncompleted);
    assert_eq!(s.action.name, "a");
}

#[test]
fn failed_execute_stays_uncompleted() {
    let mut s = StatefulAction::uncompleted(DeleteUser { name: "a".to_string() });
    let r = s.finish_execute(Err(err("a")));
    assert_eq!(no_user_name(&r.unwrap_err()), "a");
    assert_eq!(s.state, ActionState::Uncompleted);
}

#[test]
fn failed_revert_stays_completed() {
    let mut s = StatefulAction::completed(DeleteUser { name: "a".to_string() });
    assert!(s.finish_revert(Err(err("a"))).is_err());
    assert_eq!(s.state, ActionState::Completed);
}

#[test]
fn three_failed_reverts_are_all_kept_in_order() {
    let r = collect_reverts(ActionTag("provision_nix"), vec![Err(err("x")), Ok(()), Err(err("y")), Err(err("z"))]);
    let e = r.unwrap_err();
    assert_eq!(e.origin.0, "provision_nix");
    match e.kind {
        ActionErrorKind::MultipleChildren(all) => {
            assert_eq!(all.len(), 3);
            let names: Vec<String> = all.iter().map(no_user_name).collect();
            assert_eq!(names, vec!["x", "y", "z"]);
        },
        other => panic!("unexpected kind {:?}", other),
    }
}

#[test]
fn one_failed_revert_is_returned_as_is() {
    let r = collect_reverts(ActionTag("provision_nix"), vec![Ok(()), Err(err("only")), Ok(())]);
    let e = r.unwrap_err();
    assert_eq!(e.origin.0, "delete_user");
    assert_eq!(no_user_name(&e), "only");
}

#[test]
fn no_failed_revert_is_success() {
    assert!(collect_reverts(ActionTag("provision_nix"), vec![Ok(()), Ok(())]).is_ok());
    assert!(collect_reverts(ActionTag("provision_nix"), vec![]).is_ok());
    assert!(aggregate_errors(ActionTag("provision_nix"), vec![]).is_ok());
}

#[test]
fn two_errors_aggregate() {
    let e = aggregate_errors(ActionTag("p"), vec![err("a"), err("b")]).unwrap_err();
    assert_eq!(e.origin.0, "p");
    assert!(matches!(e.kind, ActionErrorKind::MultipleChildren(ref v) if v.len() == 2));
}

#[test]
fn completed_action_describes_nothing_to_execute() {
    let s = StatefulAction::completed(DeleteUser { name: "a".to_string() });
    assert!(s.describe_execute().is_empty());
    assert!(s.describe_revert().is_empty());
    let u = StatefulAction::uncompleted(DeleteUser { name: "a".to_string() });
    assert_eq!(u.describe_execute().len(), 1);
    assert_eq!(DeleteUser::action_tag().0, "delete_user");
}
