//! Deleting an operating system user: planning against the host, choosing
//! the command, and reading what the command reported.

use vstd::prelude::*;
use vstd::string::StringExecFns;

use crate::action::{
    descriptions_view, Action, ActionDescription, ActionError, ActionErrorKind, ActionState, ActionTag,
    StatefulAction,
};

verus! {

/// The families of host that deleting a user tells apart.
#[derive(Clone, Copy, Debug, PartialEq, Eq, Structural)]
pub enum HostOs {
    /// Darwin and macOS, where users live in the directory service.
    Darwin,
    /// Every other host, where `userdel` or `deluser` removes users.
    Other,
}

/// Relies on target_lexicon's `OperatingSystem::host`: the operating system
/// this library was built for, with Darwin and macOS set apart from the rest.
#[verifier::external_body]
fn host_os() -> (r: HostOs) {
    match target_lexicon::OperatingSystem::host() {
        target_lexicon::OperatingSystem::Darwin => HostOs::Darwin,
        target_lexicon::OperatingSystem::MacOSX { .. } => HostOs::Darwin,
        _ => HostOs::Other,
    }
}

/// The command that removes a user.
#[derive(Clone, Copy, Debug, PartialEq, Eq, Structural)]
pub enum DeletionCommand {
    /// `/usr/bin/dscl . -delete /Users/<name>`
    Dscl,
    /// `userdel <name>`
    Userdel,
    /// `deluser <name>`
    Deluser,
}

/// How a run of `dscl` that deletes a user ended.
#[derive(Clone, Copy, Debug, PartialEq, Eq, Structural)]
pub enum DsclOutcome {
    Deleted,
    /// The host has no secure token or no graphical session and cannot
    /// delete local users; this is a warning, not a failure.
    NoSecureToken,
    Failed,
}

/// Delete an operating system level user.
#[derive(Clone, Debug)]
pub struct DeleteUser {
    pub name: String,
}

/// The bytes of `-14120`, the code `dscl` prints when a secure token is
/// missing.
pub open spec fn secure_token_code() -> Seq<u8> {
    seq![45u8, 49u8, 52u8, 49u8, 50u8, 48u8]
}

/// `needle` occurs in `hay` at position `i`.
pub open spec fn occurs_at(hay: Seq<u8>, needle: Seq<u8>, i: int) -> bool {
    0 <= i && i + needle.len() <= hay.len() && hay.subrange(i, i + needle.len()) == needle
}

pub open spec fn occurs_in(hay: Seq<u8>, needle: Seq<u8>) -> bool {
    exists|i: int| occurs_at(hay, needle, i)
}

fn matches_at(hay: &Vec<u8>, needle: &[u8], i: usize) -> (r: bool)
    requires
        i + needle@.len() <= hay@.len(),
    ensures
        r == occurs_at(hay@, needle@, i as int),
{
    let hay_len = hay.len();
    let mut j: usize = 0;
    while j < needle.len()
        invariant
            hay_len == hay@.len(),
            i + needle@.len() <= hay@.len(),
            j <= needle@.len(),
            forall|k: int| 0 <= k < j ==> hay@[i + k] == needle@[k],
        decreases needle@.len() - j,
    {
        if hay[i + j] != needle[j] {
            assert(hay@.subrange(i as int, i + needle@.len())[j as int] != needle@[j as int]);
            return false;
        }
        j = j + 1;
    }
    assert(hay@.subrange(i as int, i + needle@.len()) =~= needle@);
    true
}

/// Whether `needle` occurs anywhere in `hay`.
pub fn contains_bytes(hay: &Vec<u8>, needle: &[u8]) -> (r: bool)
    ensures
        r == occurs_in(hay@, needle@),
{
    if needle.len() > hay.len() {
        return false;
    }
    if needle.len() == 0 {
        assert(hay@.subrange(0, 0) =~= needle@);
        assert(occurs_at(hay@, needle@, 0));
        return true;
    }
    let hay_len = hay.len();
    let last = hay_len - needle.len();
    let mut i: usize = 0;
    while i <= last
        invariant
            hay_len == hay@.len(),
            last + needle@.len() == hay@.len(),
            needle@.len() > 0,
            i <= last + 1,
            forall|k: int| 0 <= k < i ==> !occurs_at(hay@, needle@, k),
        decreases last + 1 - i,
    {
        if matches_at(hay, needle, i) {
            return true;
        }
        i = i + 1;
    }
    assert forall|k: int| !occurs_at(hay@, needle@, k) by {
        if 0 <= k <= last as int {
        }
    }
    false
}

/// What an exit code and the error output of `dscl` amount to.
pub open spec fn dscl_outcome_spec(code: Option<i32>, stderr: Seq<u8>) -> DsclOutcome {
    match code {
        Some(0) => DsclOutcome::Deleted,
        Some(40) => if occurs_in(stderr, secure_token_code()) {
            DsclOutcome::NoSecureToken
        } else {
            DsclOutcome::Failed
        },
        _ => DsclOutcome::Failed,
    }
}

/// The error of `delete_user` of a given kind.
pub open spec fn delete_user_error(kind: ActionErrorKind) -> ActionError {
    ActionError { kind, origin: ActionTag("delete_user") }
}

/// What planning returns: hosts other than Darwin need a deletion command,
/// and the user must exist; a user that is already gone is an error, never
/// a step to skip.
pub open spec fn delete_user_plan_spec(
    host: HostOs,
    name: String,
    deletion_command_found: bool,
    user_lookup: Result<bool, String>,
) -> Result<StatefulAction<DeleteUser>, ActionError> {
    if host == HostOs::Other && !deletion_command_found {
        Err(delete_user_error(ActionErrorKind::MissingUserDeletionCommand))
    } else {
        match user_lookup {
            Err(message) => Err(delete_user_error(ActionErrorKind::GettingUserId(name, message))),
            Ok(false) => Err(delete_user_error(ActionErrorKind::NoUser(name))),
            Ok(true) => Ok(StatefulAction { action: DeleteUser { name }, state: ActionState::Uncompleted }),
        }
    }
}

/// The command that deletes a user on `host`, given which of `userdel` and
/// `deluser` can be found.
pub open spec fn deletion_command_spec(host: HostOs, userdel_found: bool, deluser_found: bool) -> Result<
    DeletionCommand,
    ActionError,
> {
    match host {
        HostOs::Darwin => Ok(DeletionCommand::Dscl),
        HostOs::Other => if userdel_found {
            Ok(DeletionCommand::Userdel)
        } else if deluser_found {
            Ok(DeletionCommand::Deluser)
        } else {
            Err(delete_user_error(ActionErrorKind::MissingUserDeletionCommand))
        },
    }
}

/// The failure reported for a run of `dscl` that ended with `code`.
pub open spec fn dscl_failure(e: ActionError, code: Option<i32>, stderr: Vec<u8>) -> bool {
    &&& e.origin == ActionTag("delete_user")
    &&& e.kind matches ActionErrorKind::CommandOutput { program, code: c, stderr: s }
    &&& program@ == "/usr/bin/dscl"@
    &&& c == code
    &&& s == stderr
}

impl DeleteUser {
    /// Plans deleting user `name` on `host`. `deletion_command_found` says
    /// whether `userdel` or `deluser` is on the search path; `user_lookup`
    /// is whether the user database holds the user, or why it could not be
    /// read.
    pub fn plan_on(
        host: HostOs,
        name: String,
        deletion_command_found: bool,
        user_lookup: Result<bool, String>,
    ) -> (r: Result<StatefulAction<DeleteUser>, ActionError>)
        ensures
            r == delete_user_plan_spec(host, name, deletion_command_found, user_lookup),
    {
        if host == HostOs::Other && !deletion_command_found {
            return Err(Self::error(ActionErrorKind::MissingUserDeletionCommand));
        }
        match user_lookup {
            Err(message) => Err(Self::error(ActionErrorKind::GettingUserId(name, message))),
            Ok(false) => Err(Self::error(ActionErrorKind::NoUser(name))),
            Ok(true) => Ok(StatefulAction::uncompleted(DeleteUser { name })),
        }
    }

    /// Plans deleting user `name` on the host this library runs on.
    pub fn plan(name: String, deletion_command_found: bool, user_lookup: Result<bool, String>) -> (r: Result<
        StatefulAction<DeleteUser>,
        ActionError,
    >)
        ensures
            r == delete_user_plan_spec(HostOs::Darwin, name, deletion_command_found, user_lookup) || r
                == delete_user_plan_spec(HostOs::Other, name, deletion_command_found, user_lookup),
    {
        let host = host_os();
        Self::plan_on(host, name, deletion_command_found, user_lookup)
    }

    /// Chooses the command that deletes the user on `host`.
    pub fn deletion_command_on(host: HostOs, userdel_found: bool, deluser_found: bool) -> (r: Result<
        DeletionCommand,
        ActionError,
    >)
        ensures
            r == deletion_command_spec(host, userdel_found, deluser_found),
    {
        match host {
            HostOs::Darwin => Ok(DeletionCommand::Dscl),
            HostOs::Other => {
                if userdel_found {
                    Ok(DeletionCommand::Userdel)
                } else if deluser_found {
                    Ok(DeletionCommand::Deluser)
                } else {
                    Err(Self::error(ActionErrorKind::MissingUserDeletionCommand))
                }
            },
        }
    }

    /// Chooses the command that deletes the user on the host this library
    /// runs on, probed as planning probed it.
    pub fn deletion_command(&self, userdel_found: bool, deluser_found: bool) -> (r: Result<
        DeletionCommand,
        ActionError,
    >)
        ensures
            r == deletion_command_spec(HostOs::Darwin, userdel_found, deluser_found) || r
                == deletion_command_spec(HostOs::Other, userdel_found, deluser_found),
    {
        let host = host_os();
        Self::deletion_command_on(host, userdel_found, deluser_found)
    }

    /// Reads how `dscl` ended.
    pub fn dscl_outcome(code: Option<i32>, stderr: &Vec<u8>) -> (r: DsclOutcome)
        ensures
            r == dscl_outcome_spec(code, stderr@),
    {
        match code {
            Some(0) => DsclOutcome::Deleted,
            Some(40) => {
                let needle: [u8; 6] = [45u8, 49u8, 52u8, 49u8, 50u8, 48u8];
                assert(needle@ =~= secure_token_code());
                if contains_bytes(stderr, needle.as_slice()) {
                    DsclOutcome::NoSecureToken
                } else {
                    DsclOutcome::Failed
                }
            },
            _ => DsclOutcome::Failed,
        }
    }

    /// The result of running `dscl`: success, also where the host cannot
    /// delete users for want of a secure token, and otherwise the failure.
    pub fn dscl_result(code: Option<i32>, stderr: Vec<u8>) -> (r: Result<(), ActionError>)
        ensures
            dscl_outcome_spec(code, stderr@) != DsclOutcome::Failed ==> r is Ok,
            dscl_outcome_spec(code, stderr@) == DsclOutcome::Failed ==> (r matches Err(e)
                && dscl_failure(e, code, stderr)),
    {
        match Self::dscl_outcome(code, &stderr) {
            DsclOutcome::Failed => Err(
                Self::error(
                    ActionErrorKind::CommandOutput { program: String::from_str("/usr/bin/dscl"), code, stderr },
                ),
            ),
            _ => Ok(()),
        }
    }

    /// Reverting is a permanent no-op: a deleted user is not recreated.
    pub fn revert(&mut self) -> (r: Result<(), ActionError>)
        ensures
            r is Ok,
            final(self).name == old(self).name,
    {
        Ok(())
    }

    pub open spec fn synopsis_spec(self) -> Seq<char> {
        "Delete user `"@ + self.name@ + "`, which exists due to a previous install, but is no longer required"@
    }

    /// One line that says what executing does.
    pub fn tracing_synopsis(&self) -> (r: String)
        ensures
            r@ == self.synopsis_spec(),
    {
        String::from_str("Delete user `").concat(self.name.as_str()).concat(
            "`, which exists due to a previous install, but is no longer required",
        )
    }

    fn error(kind: ActionErrorKind) -> (r: ActionError)
        ensures
            r == delete_user_error(kind),
    {
        ActionError { kind, origin: ActionTag("delete_user") }
    }
}

impl Action for DeleteUser {
    open spec fn tag_spec() -> &'static str {
        "delete_user"
    }

    open spec fn execute_description_spec(&self) -> Seq<(Seq<char>, Seq<Seq<char>>)> {
        seq![
            (
                self.synopsis_spec(),
                seq![
                    "Nix with `auto-allocate-uids = true` no longer requires explicitly created users, so this user can be removed"@,
                ],
            ),
        ]
    }

    open spec fn revert_description_spec(&self) -> Seq<(Seq<char>, Seq<Seq<char>>)> {
        Seq::empty()
    }

    fn action_tag() -> (r: ActionTag) {
        ActionTag("delete_user")
    }

    fn execute_description(&self) -> (r: Vec<ActionDescription>) {
        let detail = String::from_str(
            "Nix with `auto-allocate-uids = true` no longer requires explicitly created users, so this user can be removed",
        );
        let details = vec![detail];
        let d = ActionDescription::new(self.tracing_synopsis(), details);
        assert(details@.map_values(|x: String| x@) =~= seq![detail@]);
        let r = vec![d];
        assert(descriptions_view(r@) =~= self.execute_description_spec());
        r
    }

    fn revert_description(&self) -> (r: Vec<ActionDescription>) {
        let r: Vec<ActionDescription> = Vec::new();
        assert(descriptions_view(r@) =~= Seq::empty());
        r
    }
}

/// Planning to delete a user that the user database does not hold fails
/// with `NoUser`, whatever the host, and plans nothing to run.
pub proof fn delete_absent_user_fails(host: HostOs, name: String, deletion_command_found: bool)
    requires
        host == HostOs::Darwin || deletion_command_found,
    ensures
        delete_user_plan_spec(host, name, deletion_command_found, Ok(false)) == Err::<
            StatefulAction<DeleteUser>,
            ActionError,
        >(delete_user_error(ActionErrorKind::NoUser(name))),
{
}

} // verus!
