//! The framework every step obeys: its state marker, its errors, its
//! descriptions, and the way a composite gathers the failures of its children.

use vstd::prelude::*;

use crate::encrypt_apfs_volume::EncryptApfsVolumeError;

verus! {

/// Whether the host already satisfies the goal of an action.
#[derive(Clone, Copy, Debug, PartialEq, Eq, Structural)]
pub enum ActionState {
    Uncompleted,
    Completed,
}

/// What a caller does next with one action: leave it alone, or run it.
#[derive(Clone, Copy, Debug, PartialEq, Eq, Structural)]
pub enum Step {
    Skip,
    Run,
}

/// The stable name of a kind of action.
#[derive(Clone, Copy, Debug)]
pub struct ActionTag(pub &'static str);

/// A title and its lines of detail, shown before a plan runs or is undone.
#[derive(Clone, Debug)]
pub struct ActionDescription {
    pub title: String,
    pub details: Vec<String>,
}

impl ActionDescription {
    pub fn new(title: String, details: Vec<String>) -> (r: ActionDescription)
        ensures
            r.title == title,
            r.details == details,
    {
        ActionDescription { title, details }
    }
}

impl View for ActionDescription {
    type V = (Seq<char>, Seq<Seq<char>>);

    open spec fn view(&self) -> (Seq<char>, Seq<Seq<char>>) {
        (self.title@, self.details@.map_values(|d: String| d@))
    }
}

/// What a list of descriptions reads as.
pub open spec fn descriptions_view(ds: Seq<ActionDescription>) -> Seq<(Seq<char>, Seq<Seq<char>>)> {
    ds.map_values(|d: ActionDescription| d@)
}

/// One description with a title and no details.
pub fn titled(title: String) -> (r: Vec<ActionDescription>)
    ensures
        descriptions_view(r@) == seq![(title@, Seq::<Seq<char>>::empty())],
{
    let d = ActionDescription { title, details: Vec::new() };
    let r = vec![d];
    assert(d.details@.map_values(|x: String| x@) =~= Seq::<Seq<char>>::empty());
    assert(descriptions_view(r@) =~= seq![(d.title@, Seq::<Seq<char>>::empty())]);
    r
}

/// Adds `more` at the end of `buf`.
pub fn append_descriptions(buf: &mut Vec<ActionDescription>, more: Vec<ActionDescription>)
    ensures
        descriptions_view(final(buf)@) == descriptions_view(old(buf)@) + descriptions_view(more@),
{
    let mut more = more;
    let ghost before = buf@;
    let ghost added = more@;
    buf.append(&mut more);
    assert(descriptions_view(buf@) =~= descriptions_view(before) + descriptions_view(added));
}

/// What every kind of action tells about itself without touching the host.
pub trait Action: Sized {
    spec fn tag_spec() -> &'static str;

    spec fn execute_description_spec(&self) -> Seq<(Seq<char>, Seq<Seq<char>>)>;

    spec fn revert_description_spec(&self) -> Seq<(Seq<char>, Seq<Seq<char>>)>;

    fn action_tag() -> (r: ActionTag)
        ensures
            r.0 == Self::tag_spec(),
    ;

    fn execute_description(&self) -> (r: Vec<ActionDescription>)
        ensures
            descriptions_view(r@) == self.execute_description_spec(),
    ;

    fn revert_description(&self) -> (r: Vec<ActionDescription>)
        ensures
            descriptions_view(r@) == self.revert_description_spec(),
    ;
}

/// The kinds of failure that an action reports.
#[derive(Debug)]
pub enum ActionErrorKind {
    /// Neither `userdel` nor `deluser` can be found.
    MissingUserDeletionCommand,
    /// The user database could not be read for the named user.
    GettingUserId(String, String),
    /// The named user does not exist.
    NoUser(String),
    /// The group database could not be read for the named group.
    GettingGroupId(String, String),
    /// The named group exists with another id than the one asked for:
    /// the name, the id found, the id asked for.
    GroupGidMismatch(String, u32, u32),
    /// A program could not be started.
    Command { program: String, message: String },
    /// A program ran and failed.
    CommandOutput { program: String, code: Option<i32>, stderr: Vec<u8> },
    /// The output of a program could not be read.
    Plist(String),
    /// A task moved to the background was aborted or panicked.
    Join(String),
    /// A child action failed.
    Child(Box<ActionError>),
    /// Several child actions failed, in the order they were attempted.
    MultipleChildren(Vec<ActionError>),
    /// A volume could not be planned for encryption.
    EncryptApfsVolume(EncryptApfsVolumeError),
}

/// A failure, with the action it came from.
#[derive(Debug)]
pub struct ActionError {
    pub kind: ActionErrorKind,
    pub origin: ActionTag,
}

impl ActionError {
    pub fn new(kind: ActionErrorKind, origin: ActionTag) -> (r: ActionError)
        ensures
            r.kind == kind,
            r.origin == origin,
    {
        ActionError { kind, origin }
    }
}

/// What the failures of the children of a composite amount to: success when
/// there are none, the one failure itself, or one failure of `origin` that
/// holds all of them in order.
pub open spec fn aggregated(origin: ActionTag, errors: Seq<ActionError>, r: Result<(), ActionError>) -> bool {
    if errors.len() == 0 {
        r is Ok
    } else if errors.len() == 1 {
        r == Err::<(), ActionError>(errors[0])
    } else {
        &&& r matches Err(e)
        &&& e.origin == origin
        &&& e.kind matches ActionErrorKind::MultipleChildren(all)
        &&& all@ == errors
    }
}

/// The failures among `outcomes`, in order.
pub open spec fn failures(outcomes: Seq<Result<(), ActionError>>) -> Seq<ActionError>
    decreases outcomes.len(),
{
    if outcomes.len() == 0 {
        Seq::empty()
    } else {
        let earlier = failures(outcomes.drop_last());
        match outcomes.last() {
            Ok(_) => earlier,
            Err(e) => earlier.push(e),
        }
    }
}

/// Gathers the failures of the children of a composite, in the order they
/// were attempted, so that none is lost.
pub fn aggregate_errors(origin: ActionTag, errors: Vec<ActionError>) -> (r: Result<(), ActionError>)
    ensures
        aggregated(origin, errors@, r),
{
    if errors.len() == 0 {
        Ok(())
    } else if errors.len() == 1 {
        let mut errors = errors;
        match errors.pop() {
            Some(e) => Err(e),
            None => Ok(()),
        }
    } else {
        Err(ActionError { kind: ActionErrorKind::MultipleChildren(errors), origin })
    }
}

/// Gathers how reverting each child went, every child having been
/// attempted, into the result of the composite `origin`.
pub fn collect_reverts(origin: ActionTag, outcomes: Vec<Result<(), ActionError>>) -> (r: Result<(), ActionError>)
    ensures
        aggregated(origin, failures(outcomes@), r),
{
    let ghost all = outcomes@;
    let mut outcomes = outcomes;
    let mut errors: Vec<ActionError> = Vec::new();
    let ghost seen: Seq<Result<(), ActionError>> = Seq::empty();
    while outcomes.len() > 0
        invariant
            all == seen + outcomes@,
            errors@ == failures(seen),
        decreases outcomes@.len(),
    {
        let next = outcomes.remove(0);
        proof {
            assert((seen.push(next)).drop_last() =~= seen);
            seen = seen.push(next);
            assert(all =~= seen + outcomes@);
        }
        match next {
            Ok(()) => {},
            Err(e) => errors.push(e),
        }
    }
    proof {
        assert(all =~= seen);
    }
    aggregate_errors(origin, errors)
}

/// Reverting three children that each fail gives one failure of the
/// composite that holds exactly the three, in the order of the children.
pub proof fn three_failed_reverts_aggregate(
    origin: ActionTag,
    e1: ActionError,
    e2: ActionError,
    e3: ActionError,
    r: Result<(), ActionError>,
)
    requires
        aggregated(
            origin,
            failures(seq![Err::<(), ActionError>(e1), Err::<(), ActionError>(e2), Err::<(), ActionError>(e3)]),
            r,
        ),
    ensures
        r matches Err(e) && (e.origin == origin && (e.kind matches ActionErrorKind::MultipleChildren(all)
            && all@ == seq![e1, e2, e3])),
{
    let o1 = seq![Err::<(), ActionError>(e1)];
    let o2 = o1.push(Err::<(), ActionError>(e2));
    let o3 = o2.push(Err::<(), ActionError>(e3));
    assert(o1.drop_last() =~= Seq::<Result<(), ActionError>>::empty());
    assert(failures(Seq::<Result<(), ActionError>>::empty()) == Seq::<ActionError>::empty());
    assert(o1.last() == Err::<(), ActionError>(e1));
    assert(failures(o1) =~= seq![e1]);
    assert(o2.drop_last() =~= o1);
    assert(failures(o2) =~= seq![e1, e2]);
    assert(o3.drop_last() =~= o2);
    assert(failures(o3) =~= seq![e1, e2, e3]);
    assert(o3 =~= seq![Err::<(), ActionError>(e1), Err::<(), ActionError>(e2), Err::<(), ActionError>(e3)]);
}

/// An action together with whether the host already satisfies it.
#[derive(Clone, Debug)]
pub struct StatefulAction<A> {
    pub action: A,
    pub state: ActionState,
}

impl<A> StatefulAction<A> {
    /// An action whose goal the host already meets.
    pub fn completed(action: A) -> (r: Self)
        ensures
            r.action == action,
            r.state == ActionState::Completed,
    {
        StatefulAction { action, state: ActionState::Completed }
    }

    /// An action that still has work to do.
    pub fn uncompleted(action: A) -> (r: Self)
        ensures
            r.action == action,
            r.state == ActionState::Uncompleted,
    {
        StatefulAction { action, state: ActionState::Uncompleted }
    }

    pub open spec fn execute_step_spec(self) -> Step {
        match self.state {
            ActionState::Completed => Step::Skip,
            ActionState::Uncompleted => Step::Run,
        }
    }

    pub open spec fn revert_step_spec(self) -> Step {
        match self.state {
            ActionState::Completed => Step::Run,
            ActionState::Uncompleted => Step::Skip,
        }
    }

    /// The action once executing it has succeeded or failed.
    pub open spec fn after_execute(self, succeeded: bool) -> Self {
        if succeeded {
            StatefulAction { action: self.action, state: ActionState::Completed }
        } else {
            self
        }
    }

    /// The action once reverting it has succeeded or failed.
    pub open spec fn after_revert(self, succeeded: bool) -> Self {
        if succeeded {
            StatefulAction { action: self.action, state: ActionState::Uncompleted }
        } else {
            self
        }
    }

    /// Whether executing this action calls out to the host at all.
    pub fn execute_step(&self) -> (r: Step)
        ensures
            r == self.execute_step_spec(),
    {
        match self.state {
            ActionState::Completed => Step::Skip,
            ActionState::Uncompleted => Step::Run,
        }
    }

    /// Whether reverting this action calls out to the host at all.
    pub fn revert_step(&self) -> (r: Step)
        ensures
            r == self.revert_step_spec(),
    {
        match self.state {
            ActionState::Completed => Step::Run,
            ActionState::Uncompleted => Step::Skip,
        }
    }

    /// Records how running the action went: it is completed only on success.
    pub fn finish_execute(&mut self, outcome: Result<(), ActionError>) -> (r: Result<(), ActionError>)
        ensures
            *final(self) == old(self).after_execute(outcome is Ok),
            r == outcome,
    {
        if outcome.is_ok() {
            self.state = ActionState::Completed;
        }
        outcome
    }

    /// Records how undoing the action went: it is uncompleted only on success.
    pub fn finish_revert(&mut self, outcome: Result<(), ActionError>) -> (r: Result<(), ActionError>)
        ensures
            *final(self) == old(self).after_revert(outcome is Ok),
            r == outcome,
    {
        if outcome.is_ok() {
            self.state = ActionState::Uncompleted;
        }
        outcome
    }
}

impl<A: Action> StatefulAction<A> {
    /// What executing would do: nothing for a completed action.
    pub open spec fn describe_execute_spec(self) -> Seq<(Seq<char>, Seq<Seq<char>>)> {
        match self.state {
            ActionState::Completed => Seq::empty(),
            ActionState::Uncompleted => self.action.execute_description_spec(),
        }
    }

    /// What reverting would do: nothing for an uncompleted action.
    pub open spec fn describe_revert_spec(self) -> Seq<(Seq<char>, Seq<Seq<char>>)> {
        match self.state {
            ActionState::Completed => self.action.revert_description_spec(),
            ActionState::Uncompleted => Seq::empty(),
        }
    }

    pub fn describe_execute(&self) -> (r: Vec<ActionDescription>)
        ensures
            descriptions_view(r@) == self.describe_execute_spec(),
    {
        match self.state {
            ActionState::Completed => {
                let r: Vec<ActionDescription> = Vec::new();
                assert(descriptions_view(r@) =~= Seq::empty());
                r
            },
            ActionState::Uncompleted => self.action.execute_description(),
        }
    }

    pub fn describe_revert(&self) -> (r: Vec<ActionDescription>)
        ensures
            descriptions_view(r@) == self.describe_revert_spec(),
    {
        match self.state {
            ActionState::Completed => self.action.revert_description(),
            ActionState::Uncompleted => {
                let r: Vec<ActionDescription> = Vec::new();
                assert(descriptions_view(r@) =~= Seq::empty());
                r
            },
        }
    }
}

/// Executing an action that is already completed calls nothing and succeeds.
pub proof fn completed_execute_is_skipped<A>(s: StatefulAction<A>)
    requires
        s.state == ActionState::Completed,
    ensures
        s.execute_step_spec() == Step::Skip,
{
}

/// Once executing has succeeded, executing again calls nothing.
pub proof fn execute_twice_runs_once<A>(s: StatefulAction<A>)
    ensures
        s.after_execute(true).execute_step_spec() == Step::Skip,
{
}

/// Executing an uncompleted action and then reverting it, both with
/// success, gives back the action as it was planned.
pub proof fn execute_then_revert_restores<A>(s: StatefulAction<A>)
    requires
        s.state == ActionState::Uncompleted,
    ensures
        s.after_execute(true).after_revert(true) == s,
{
}

/// Reverting an action that is still uncompleted calls nothing and succeeds.
pub proof fn uncompleted_revert_is_skipped<A>(s: StatefulAction<A>)
    requires
        s.state == ActionState::Uncompleted,
    ensures
        s.revert_step_spec() == Step::Skip,
{
}

} // verus!
