//! Placing Nix on the host: a composite of five children, planned against
//! the group database, executed with the download in the background, and
//! reverted in reverse with every failure kept.

use vstd::prelude::*;
use vstd::string::StringExecFns;

use crate::action::{
    aggregated, append_descriptions, collect_reverts, descriptions_view, failures, titled, Action, ActionDescription, ActionError,
    ActionErrorKind, ActionState, ActionTag, StatefulAction, Step,
};

verus! {

/// Download the Nix package at `url` and unpack it into `dest`.
#[derive(Clone, Debug)]
pub struct FetchAndUnpackNix {
    pub url: String,
    pub dest: String,
}

/// Delete the users that are members of the build group.
#[derive(Clone, Debug)]
pub struct DeleteUsersInGroup {
    pub name: String,
    pub gid: u32,
    pub users: Vec<String>,
}

/// Create the build group.
#[derive(Clone, Debug)]
pub struct CreateGroup {
    pub name: String,
    pub gid: u32,
}

/// Create the directory tree under `/nix`.
#[derive(Clone, Debug)]
pub struct CreateNixTree {}

/// Move the unpacked Nix from `src` into `/nix`.
#[derive(Clone, Debug)]
pub struct MoveUnpackedNix {
    pub src: String,
}

/// The settings that planning reads.
#[derive(Clone, Debug)]
pub struct CommonSettings {
    pub nix_package_url: String,
    pub nix_build_group_name: String,
    pub nix_build_group_id: u32,
}

/// A group as the group database holds it.
#[derive(Clone, Debug)]
pub struct GroupEntry {
    pub gid: u32,
    pub members: Vec<String>,
}

/// Place Nix and its requirements onto the host.
#[derive(Clone, Debug)]
pub struct ProvisionNix {
    pub fetch_nix: StatefulAction<FetchAndUnpackNix>,
    pub delete_users_in_group: Option<StatefulAction<DeleteUsersInGroup>>,
    pub create_group: StatefulAction<CreateGroup>,
    pub create_nix_tree: StatefulAction<CreateNixTree>,
    pub move_unpacked_nix: StatefulAction<MoveUnpackedNix>,
}

/// The children of `ProvisionNix`.
#[derive(Clone, Copy, Debug, PartialEq, Eq, Structural)]
pub enum ProvisionChild {
    FetchNix,
    DeleteUsersInGroup,
    CreateGroup,
    CreateNixTree,
    MoveUnpackedNix,
}

/// One step of executing `ProvisionNix`.
#[derive(Clone, Copy, Debug, PartialEq, Eq, Structural)]
pub enum ExecuteStep {
    /// Execute the child on a background task.
    Spawn(ProvisionChild),
    /// Execute the child here, and stop on its failure.
    Run(ProvisionChild),
    /// Wait for the background child and take it back.
    Join(ProvisionChild),
}

/// The error of `provision_nix` of a given kind.
pub open spec fn provision_error(kind: ActionErrorKind) -> ActionError {
    ActionError { kind, origin: ActionTag("provision_nix") }
}

/// What the group database means for the build group: no group, or one
/// without members, leaves no users to delete; a group with another id is
/// an error.
pub open spec fn delete_users_plan_spec(
    settings: CommonSettings,
    group_lookup: Result<Option<GroupEntry>, String>,
) -> Result<Option<StatefulAction<DeleteUsersInGroup>>, ActionError> {
    let name = settings.nix_build_group_name;
    let gid = settings.nix_build_group_id;
    match group_lookup {
        Err(message) => Err(provision_error(ActionErrorKind::GettingGroupId(name, message))),
        Ok(None) => Ok(None),
        Ok(Some(group)) => if group.gid != gid {
            Err(provision_error(ActionErrorKind::GroupGidMismatch(name, group.gid, gid)))
        } else if group.members@.len() == 0 {
            Ok(None)
        } else {
            Ok(
                Some(
                    StatefulAction {
                        action: DeleteUsersInGroup { name, gid, users: group.members },
                        state: ActionState::Uncompleted,
                    },
                ),
            )
        },
    }
}

impl ProvisionNix {
    /// Plans provisioning from the planned children and what the group
    /// database holds for the build group.
    pub fn plan(
        settings: &CommonSettings,
        fetch_nix: StatefulAction<FetchAndUnpackNix>,
        group_lookup: Result<Option<GroupEntry>, String>,
        create_group: StatefulAction<CreateGroup>,
        create_nix_tree: StatefulAction<CreateNixTree>,
        move_unpacked_nix: StatefulAction<MoveUnpackedNix>,
    ) -> (r: Result<StatefulAction<ProvisionNix>, ActionError>)
        ensures
            match delete_users_plan_spec(*settings, group_lookup) {
                Err(e) => r == Err::<StatefulAction<ProvisionNix>, ActionError>(e),
                Ok(delete_users_in_group) => r == Ok::<StatefulAction<ProvisionNix>, ActionError>(
                    StatefulAction {
                        action: ProvisionNix {
                            fetch_nix,
                            delete_users_in_group,
                            create_group,
                            create_nix_tree,
                            move_unpacked_nix,
                        },
                        state: ActionState::Uncompleted,
                    },
                ),
            },
    {
        let delete_users_in_group = match group_lookup {
            Err(message) => {
                return Err(
                    Self::error(ActionErrorKind::GettingGroupId(settings.nix_build_group_name.clone(), message)),
                );
            },
            Ok(None) => None,
            Ok(Some(group)) => {
                if group.gid != settings.nix_build_group_id {
                    return Err(
                        Self::error(
                            ActionErrorKind::GroupGidMismatch(
                                settings.nix_build_group_name.clone(),
                                group.gid,
                                settings.nix_build_group_id,
                            ),
                        ),
                    );
                }
                if group.members.len() == 0 {
                    None
                } else {
                    Some(
                        StatefulAction::uncompleted(
                            DeleteUsersInGroup {
                                name: settings.nix_build_group_name.clone(),
                                gid: settings.nix_build_group_id,
                                users: group.members,
                            },
                        ),
                    )
                }
            },
        };
        Ok(
            StatefulAction::uncompleted(
                ProvisionNix { fetch_nix, delete_users_in_group, create_group, create_nix_tree, move_unpacked_nix },
            ),
        )
    }

    /// The children in the order execution starts them.
    pub open spec fn execute_order_spec(self) -> Seq<ProvisionChild> {
        seq![ProvisionChild::FetchNix] + (if self.delete_users_in_group is Some {
            seq![ProvisionChild::DeleteUsersInGroup]
        } else {
            Seq::empty()
        }) + seq![ProvisionChild::CreateGroup, ProvisionChild::CreateNixTree, ProvisionChild::MoveUnpackedNix]
    }

    /// The steps of execution: the download goes to the background while the
    /// children that do not need it run, and is taken back before moving it
    /// into place.
    pub open spec fn execute_steps_spec(self) -> Seq<ExecuteStep> {
        seq![ExecuteStep::Spawn(ProvisionChild::FetchNix)] + (if self.delete_users_in_group is Some {
            seq![ExecuteStep::Run(ProvisionChild::DeleteUsersInGroup)]
        } else {
            Seq::empty()
        }) + seq![
            ExecuteStep::Run(ProvisionChild::CreateGroup),
            ExecuteStep::Run(ProvisionChild::CreateNixTree),
            ExecuteStep::Join(ProvisionChild::FetchNix),
            ExecuteStep::Run(ProvisionChild::MoveUnpackedNix),
        ]
    }

    /// The children in the order reverting visits them.
    pub open spec fn revert_order_spec(self) -> Seq<ProvisionChild> {
        seq![ProvisionChild::MoveUnpackedNix, ProvisionChild::CreateNixTree, ProvisionChild::CreateGroup] + (
        if self.delete_users_in_group is Some {
            seq![ProvisionChild::DeleteUsersInGroup]
        } else {
            Seq::empty()
        }) + seq![ProvisionChild::FetchNix]
    }

    pub fn execute_steps(&self) -> (r: Vec<ExecuteStep>)
        ensures
            r@ == self.execute_steps_spec(),
    {
        let mut r = vec![ExecuteStep::Spawn(ProvisionChild::FetchNix)];
        if self.delete_users_in_group.is_some() {
            r.push(ExecuteStep::Run(ProvisionChild::DeleteUsersInGroup));
        }
        r.push(ExecuteStep::Run(ProvisionChild::CreateGroup));
        r.push(ExecuteStep::Run(ProvisionChild::CreateNixTree));
        r.push(ExecuteStep::Join(ProvisionChild::FetchNix));
        r.push(ExecuteStep::Run(ProvisionChild::MoveUnpackedNix));
        assert(r@ =~= self.execute_steps_spec());
        r
    }

    pub fn revert_order(&self) -> (r: Vec<ProvisionChild>)
        ensures
            r@ == self.revert_order_spec(),
    {
        let mut r = vec![ProvisionChild::MoveUnpackedNix, ProvisionChild::CreateNixTree, ProvisionChild::CreateGroup];
        if self.delete_users_in_group.is_some() {
            r.push(ProvisionChild::DeleteUsersInGroup);
        }
        r.push(ProvisionChild::FetchNix);
        assert(r@ =~= self.revert_order_spec());
        r
    }

    /// Whether executing `child` calls out to the host: an absent child and
    /// a completed one do not.
    pub open spec fn child_execute_step_spec(self, child: ProvisionChild) -> Step {
        match child {
            ProvisionChild::FetchNix => self.fetch_nix.execute_step_spec(),
            ProvisionChild::DeleteUsersInGroup => match self.delete_users_in_group {
                Some(d) => d.execute_step_spec(),
                None => Step::Skip,
            },
            ProvisionChild::CreateGroup => self.create_group.execute_step_spec(),
            ProvisionChild::CreateNixTree => self.create_nix_tree.execute_step_spec(),
            ProvisionChild::MoveUnpackedNix => self.move_unpacked_nix.execute_step_spec(),
        }
    }

    /// Whether reverting `child` calls out to the host: an absent child and
    /// an uncompleted one do not.
    pub open spec fn child_revert_step_spec(self, child: ProvisionChild) -> Step {
        match child {
            ProvisionChild::FetchNix => self.fetch_nix.revert_step_spec(),
            ProvisionChild::DeleteUsersInGroup => match self.delete_users_in_group {
                Some(d) => d.revert_step_spec(),
                None => Step::Skip,
            },
            ProvisionChild::CreateGroup => self.create_group.revert_step_spec(),
            ProvisionChild::CreateNixTree => self.create_nix_tree.revert_step_spec(),
            ProvisionChild::MoveUnpackedNix => self.move_unpacked_nix.revert_step_spec(),
        }
    }

    /// The composite with the state of `child` set to `state`.
    pub open spec fn with_child_state(self, child: ProvisionChild, state: ActionState) -> ProvisionNix {
        match child {
            ProvisionChild::FetchNix => ProvisionNix {
                fetch_nix: StatefulAction { action: self.fetch_nix.action, state },
                ..self
            },
            ProvisionChild::DeleteUsersInGroup => ProvisionNix {
                delete_users_in_group: match self.delete_users_in_group {
                    Some(d) => Some(StatefulAction { action: d.action, state }),
                    None => None,
                },
                ..self
            },
            ProvisionChild::CreateGroup => ProvisionNix {
                create_group: StatefulAction { action: self.create_group.action, state },
                ..self
            },
            ProvisionChild::CreateNixTree => ProvisionNix {
                create_nix_tree: StatefulAction { action: self.create_nix_tree.action, state },
                ..self
            },
            ProvisionChild::MoveUnpackedNix => ProvisionNix {
                move_unpacked_nix: StatefulAction { action: self.move_unpacked_nix.action, state },
                ..self
            },
        }
    }

    pub fn child_execute_step(&self, child: ProvisionChild) -> (r: Step)
        ensures
            r == self.child_execute_step_spec(child),
    {
        match child {
            ProvisionChild::FetchNix => self.fetch_nix.execute_step(),
            ProvisionChild::DeleteUsersInGroup => match &self.delete_users_in_group {
                Some(d) => d.execute_step(),
                None => Step::Skip,
            },
            ProvisionChild::CreateGroup => self.create_group.execute_step(),
            ProvisionChild::CreateNixTree => self.create_nix_tree.execute_step(),
            ProvisionChild::MoveUnpackedNix => self.move_unpacked_nix.execute_step(),
        }
    }

    pub fn child_revert_step(&self, child: ProvisionChild) -> (r: Step)
        ensures
            r == self.child_revert_step_spec(child),
    {
        match child {
            ProvisionChild::FetchNix => self.fetch_nix.revert_step(),
            ProvisionChild::DeleteUsersInGroup => match &self.delete_users_in_group {
                Some(d) => d.revert_step(),
                None => Step::Skip,
            },
            ProvisionChild::CreateGroup => self.create_group.revert_step(),
            ProvisionChild::CreateNixTree => self.create_nix_tree.revert_step(),
            ProvisionChild::MoveUnpackedNix => self.move_unpacked_nix.revert_step(),
        }
    }

    fn set_child_state(&mut self, child: ProvisionChild, state: ActionState)
        ensures
            *final(self) == old(self).with_child_state(child, state),
    {
        match child {
            ProvisionChild::FetchNix => self.fetch_nix.state = state,
            ProvisionChild::DeleteUsersInGroup => match &mut self.delete_users_in_group {
                Some(d) => d.state = state,
                None => {},
            },
            ProvisionChild::CreateGroup => self.create_group.state = state,
            ProvisionChild::CreateNixTree => self.create_nix_tree.state = state,
            ProvisionChild::MoveUnpackedNix => self.move_unpacked_nix.state = state,
        }
    }

    /// Records how running `child` went: it is completed on success, and on
    /// failure execution stops with the failure of the composite.
    pub fn finish_child_execute(&mut self, child: ProvisionChild, outcome: Result<(), ActionError>) -> (r: Result<
        (),
        ActionError,
    >)
        ensures
            outcome is Ok ==> r is Ok && *final(self) == old(self).with_child_state(child, ActionState::Completed),
            outcome matches Err(e) ==> r == Err::<(), ActionError>(
                provision_error(ActionErrorKind::Child(Box::new(e))),
            ) && *final(self) == *old(self),
    {
        match outcome {
            Ok(()) => {
                self.set_child_state(child, ActionState::Completed);
                Ok(())
            },
            Err(e) => Err(Self::child_error(e)),
        }
    }

    /// Records how undoing `child` went: it is uncompleted on success; the
    /// outcome is handed back for `finish_revert` to gather.
    pub fn finish_child_revert(&mut self, child: ProvisionChild, outcome: Result<(), ActionError>) -> (r: Result<
        (),
        ActionError,
    >)
        ensures
            r == outcome,
            outcome is Ok ==> *final(self) == old(self).with_child_state(child, ActionState::Uncompleted),
            outcome is Err ==> *final(self) == *old(self),
    {
        if outcome.is_ok() {
            self.set_child_state(child, ActionState::Uncompleted);
        }
        outcome
    }

    /// The failure of the composite when a child failed while executing.
    pub fn child_error(e: ActionError) -> (r: ActionError)
        ensures
            r == provision_error(ActionErrorKind::Child(Box::new(e))),
    {
        Self::error(ActionErrorKind::Child(Box::new(e)))
    }

    /// Takes back the download from the background task: its child on
    /// success; otherwise the failure, and a distinct one where the task was
    /// aborted or panicked.
    pub fn finish_join(
        &mut self,
        joined: Result<Result<StatefulAction<FetchAndUnpackNix>, ActionError>, String>,
    ) -> (r: Result<(), ActionError>)
        ensures
            match joined {
                Ok(Ok(fetched)) => r is Ok && *final(self) == (ProvisionNix { fetch_nix: fetched, ..*old(self) }),
                Ok(Err(e)) => r == Err::<(), ActionError>(e) && *final(self) == *old(self),
                Err(message) => r == Err::<(), ActionError>(provision_error(ActionErrorKind::Join(message)))
                    && *final(self) == *old(self),
            },
    {
        match joined {
            Ok(Ok(fetched)) => {
                self.fetch_nix = fetched;
                Ok(())
            },
            Ok(Err(e)) => Err(e),
            Err(message) => Err(Self::error(ActionErrorKind::Join(message))),
        }
    }

    /// The result of reverting, from how reverting each child went in
    /// `revert_order`: every failure is kept.
    pub fn finish_revert(outcomes: Vec<Result<(), ActionError>>) -> (r: Result<(), ActionError>)
        ensures
            aggregated(ActionTag("provision_nix"), failures(outcomes@), r),
    {
        collect_reverts(ActionTag("provision_nix"), outcomes)
    }

    fn error(kind: ActionErrorKind) -> (r: ActionError)
        ensures
            r == provision_error(kind),
    {
        ActionError { kind, origin: ActionTag("provision_nix") }
    }
}

impl Action for FetchAndUnpackNix {
    open spec fn tag_spec() -> &'static str {
        "fetch_and_unpack_nix"
    }

    open spec fn execute_description_spec(&self) -> Seq<(Seq<char>, Seq<Seq<char>>)> {
        seq![("Fetch `"@ + self.url@ + "` to `"@ + self.dest@ + "`"@, Seq::<Seq<char>>::empty())]
    }

    open spec fn revert_description_spec(&self) -> Seq<(Seq<char>, Seq<Seq<char>>)> {
        seq![("Remove the unpacked Nix in `"@ + self.dest@ + "`"@, Seq::<Seq<char>>::empty())]
    }

    fn action_tag() -> (r: ActionTag) {
        ActionTag("fetch_and_unpack_nix")
    }

    fn execute_description(&self) -> (r: Vec<ActionDescription>) {
        titled(String::from_str("Fetch `").concat(self.url.as_str()).concat("` to `").concat(self.dest.as_str()).concat("`"))
    }

    fn revert_description(&self) -> (r: Vec<ActionDescription>) {
        titled(String::from_str("Remove the unpacked Nix in `").concat(self.dest.as_str()).concat("`"))
    }
}

impl Action for DeleteUsersInGroup {
    open spec fn tag_spec() -> &'static str {
        "delete_users_in_group"
    }

    open spec fn execute_description_spec(&self) -> Seq<(Seq<char>, Seq<Seq<char>>)> {
        seq![("Delete the users of group `"@ + self.name@ + "`"@, Seq::<Seq<char>>::empty())]
    }

    open spec fn revert_description_spec(&self) -> Seq<(Seq<char>, Seq<Seq<char>>)> {
        Seq::empty()
    }

    fn action_tag() -> (r: ActionTag) {
        ActionTag("delete_users_in_group")
    }

    fn execute_description(&self) -> (r: Vec<ActionDescription>) {
        titled(String::from_str("Delete the users of group `").concat(self.name.as_str()).concat("`"))
    }

    fn revert_description(&self) -> (r: Vec<ActionDescription>) {
        let r: Vec<ActionDescription> = Vec::new();
        assert(descriptions_view(r@) =~= Seq::empty());
        r
    }
}

impl Action for CreateGroup {
    open spec fn tag_spec() -> &'static str {
        "create_group"
    }

    open spec fn execute_description_spec(&self) -> Seq<(Seq<char>, Seq<Seq<char>>)> {
        seq![("Create group `"@ + self.name@ + "`"@, Seq::<Seq<char>>::empty())]
    }

    open spec fn revert_description_spec(&self) -> Seq<(Seq<char>, Seq<Seq<char>>)> {
        seq![("Delete group `"@ + self.name@ + "`"@, Seq::<Seq<char>>::empty())]
    }

    fn action_tag() -> (r: ActionTag) {
        ActionTag("create_group")
    }

    fn execute_description(&self) -> (r: Vec<ActionDescription>) {
        titled(String::from_str("Create group `").concat(self.name.as_str()).concat("`"))
    }

    fn revert_description(&self) -> (r: Vec<ActionDescription>) {
        titled(String::from_str("Delete group `").concat(self.name.as_str()).concat("`"))
    }
}

impl Action for CreateNixTree {
    open spec fn tag_spec() -> &'static str {
        "create_nix_tree"
    }

    open spec fn execute_description_spec(&self) -> Seq<(Seq<char>, Seq<Seq<char>>)> {
        seq![("Create a directory tree in `/nix`"@, Seq::<Seq<char>>::empty())]
    }

    open spec fn revert_description_spec(&self) -> Seq<(Seq<char>, Seq<Seq<char>>)> {
        seq![("Remove the directory tree in `/nix`"@, Seq::<Seq<char>>::empty())]
    }

    fn action_tag() -> (r: ActionTag) {
        ActionTag("create_nix_tree")
    }

    fn execute_description(&self) -> (r: Vec<ActionDescription>) {
        titled(String::from_str("Create a directory tree in `/nix`"))
    }

    fn revert_description(&self) -> (r: Vec<ActionDescription>) {
        titled(String::from_str("Remove the directory tree in `/nix`"))
    }
}

impl Action for MoveUnpackedNix {
    open spec fn tag_spec() -> &'static str {
        "move_unpacked_nix"
    }

    open spec fn execute_description_spec(&self) -> Seq<(Seq<char>, Seq<Seq<char>>)> {
        seq![("Move the unpacked Nix from `"@ + self.src@ + "` into `/nix`"@, Seq::<Seq<char>>::empty())]
    }

    open spec fn revert_description_spec(&self) -> Seq<(Seq<char>, Seq<Seq<char>>)> {
        Seq::empty()
    }

    fn action_tag() -> (r: ActionTag) {
        ActionTag("move_unpacked_nix")
    }

    fn execute_description(&self) -> (r: Vec<ActionDescription>) {
        titled(String::from_str("Move the unpacked Nix from `").concat(self.src.as_str()).concat("` into `/nix`"))
    }

    fn revert_description(&self) -> (r: Vec<ActionDescription>) {
        let r: Vec<ActionDescription> = Vec::new();
        assert(descriptions_view(r@) =~= Seq::empty());
        r
    }
}

impl Action for ProvisionNix {
    open spec fn tag_spec() -> &'static str {
        "provision_nix"
    }

    /// The children's descriptions, in the order execution starts them.
    open spec fn execute_description_spec(&self) -> Seq<(Seq<char>, Seq<Seq<char>>)> {
        self.fetch_nix.describe_execute_spec() + match self.delete_users_in_group {
            Some(d) => d.describe_execute_spec(),
            None => Seq::empty(),
        } + self.create_group.describe_execute_spec() + self.create_nix_tree.describe_execute_spec()
            + self.move_unpacked_nix.describe_execute_spec()
    }

    /// The children's descriptions, in the order reverting visits them.
    open spec fn revert_description_spec(&self) -> Seq<(Seq<char>, Seq<Seq<char>>)> {
        self.move_unpacked_nix.describe_revert_spec() + self.create_nix_tree.describe_revert_spec()
            + self.create_group.describe_revert_spec() + match self.delete_users_in_group {
            Some(d) => d.describe_revert_spec(),
            None => Seq::empty(),
        } + self.fetch_nix.describe_revert_spec()
    }

    fn action_tag() -> (r: ActionTag) {
        ActionTag("provision_nix")
    }

    fn execute_description(&self) -> (r: Vec<ActionDescription>) {
        let mut buf: Vec<ActionDescription> = Vec::new();
        assert(descriptions_view(buf@) =~= Seq::empty());
        append_descriptions(&mut buf, self.fetch_nix.describe_execute());
        match &self.delete_users_in_group {
            Some(d) => append_descriptions(&mut buf, d.describe_execute()),
            None => {},
        }
        append_descriptions(&mut buf, self.create_group.describe_execute());
        append_descriptions(&mut buf, self.create_nix_tree.describe_execute());
        append_descriptions(&mut buf, self.move_unpacked_nix.describe_execute());
        buf
    }

    fn revert_description(&self) -> (r: Vec<ActionDescription>) {
        let mut buf: Vec<ActionDescription> = Vec::new();
        assert(descriptions_view(buf@) =~= Seq::empty());
        append_descriptions(&mut buf, self.move_unpacked_nix.describe_revert());
        append_descriptions(&mut buf, self.create_nix_tree.describe_revert());
        append_descriptions(&mut buf, self.create_group.describe_revert());
        match &self.delete_users_in_group {
            Some(d) => append_descriptions(&mut buf, d.describe_revert()),
            None => {},
        }
        append_descriptions(&mut buf, self.fetch_nix.describe_revert());
        buf
    }
}

impl ProvisionNix {
    /// One line that says what executing does.
    pub fn tracing_synopsis(&self) -> (r: String)
        ensures
            r@ == "Provision Nix"@,
    {
        String::from_str("Provision Nix")
    }
}

/// Every child is completed.
pub open spec fn all_children_in(p: ProvisionNix, state: ActionState) -> bool {
    &&& p.fetch_nix.state == state
    &&& p.create_group.state == state
    &&& p.create_nix_tree.state == state
    &&& p.move_unpacked_nix.state == state
    &&& (p.delete_users_in_group matches Some(d) ==> d.state == state)
}

/// When every child is completed, executing the composite calls out for
/// none of them.
pub proof fn provision_completed_execute_is_skipped(p: ProvisionNix, child: ProvisionChild)
    requires
        all_children_in(p, ActionState::Completed),
    ensures
        p.child_execute_step_spec(child) == Step::Skip,
{
}

/// When every child is uncompleted, reverting the composite calls out for
/// none of them, and with no failure to gather it succeeds.
pub proof fn provision_uncompleted_revert_is_skipped(
    p: ProvisionNix,
    child: ProvisionChild,
    outcomes: Seq<Result<(), ActionError>>,
    r: Result<(), ActionError>,
)
    requires
        all_children_in(p, ActionState::Uncompleted),
        forall|i: int| 0 <= i < outcomes.len() ==> #[trigger] outcomes[i] is Ok,
        aggregated(ActionTag("provision_nix"), failures(outcomes), r),
    ensures
        p.child_revert_step_spec(child) == Step::Skip,
        r is Ok,
{
    lemma_no_failures(outcomes);
}

proof fn lemma_no_failures(outcomes: Seq<Result<(), ActionError>>)
    requires
        forall|i: int| 0 <= i < outcomes.len() ==> #[trigger] outcomes[i] is Ok,
    ensures
        failures(outcomes).len() == 0,
    decreases outcomes.len(),
{
    if outcomes.len() > 0 {
        let rest = outcomes.drop_last();
        assert forall|i: int| 0 <= i < rest.len() implies #[trigger] rest[i] is Ok by {
            assert(rest[i] == outcomes[i]);
        }
        lemma_no_failures(rest);
        assert(outcomes.last() is Ok);
    }
}

/// Once a child has run with success, executing it again calls nothing, and
/// once undone with success, reverting it again calls nothing.
pub proof fn provision_child_round_trip(p: ProvisionNix, child: ProvisionChild)
    ensures
        p.with_child_state(child, ActionState::Completed).child_execute_step_spec(child) == Step::Skip,
        p.with_child_state(child, ActionState::Uncompleted).child_revert_step_spec(child) == Step::Skip,
        p.with_child_state(child, ActionState::Completed).with_child_state(child, ActionState::Uncompleted)
            == p.with_child_state(child, ActionState::Uncompleted),
{
}

/// Reverting visits the children in exactly the reverse of the order in
/// which executing starts them.
pub proof fn provision_revert_reverses_execute(p: ProvisionNix)
    ensures
        p.revert_order_spec() == p.execute_order_spec().reverse(),
{
    assert(p.revert_order_spec() =~= p.execute_order_spec().reverse());
}

/// The download is sent to the background first and taken back exactly
/// once, after every other child but the one that needs it, and that child
/// runs last, after the join and nowhere else.
pub proof fn provision_joins_before_dependent(p: ProvisionNix)
    ensures
        ({
            let steps = p.execute_steps_spec();
            let n = steps.len();
            &&& n >= 4
            &&& steps[0] == ExecuteStep::Spawn(ProvisionChild::FetchNix)
            &&& steps[n - 2] == ExecuteStep::Join(ProvisionChild::FetchNix)
            &&& steps[n - 1] == ExecuteStep::Run(ProvisionChild::MoveUnpackedNix)
            &&& forall|i: int|
                0 <= i < n - 2 ==> #[trigger] steps[i] != ExecuteStep::Join(ProvisionChild::FetchNix)
                    && steps[i] != ExecuteStep::Run(ProvisionChild::MoveUnpackedNix)
        }),
{
    let steps = p.execute_steps_spec();
    if p.delete_users_in_group is Some {
        assert(steps =~= seq![
            ExecuteStep::Spawn(ProvisionChild::FetchNix),
            ExecuteStep::Run(ProvisionChild::DeleteUsersInGroup),
            ExecuteStep::Run(ProvisionChild::CreateGroup),
            ExecuteStep::Run(ProvisionChild::CreateNixTree),
            ExecuteStep::Join(ProvisionChild::FetchNix),
            ExecuteStep::Run(ProvisionChild::MoveUnpackedNix),
        ]);
    } else {
        assert(steps =~= seq![
            ExecuteStep::Spawn(ProvisionChild::FetchNix),
            ExecuteStep::Run(ProvisionChild::CreateGroup),
            ExecuteStep::Run(ProvisionChild::CreateNixTree),
            ExecuteStep::Join(ProvisionChild::FetchNix),
            ExecuteStep::Run(ProvisionChild::MoveUnpackedNix),
        ]);
    }
}

} // verus!
