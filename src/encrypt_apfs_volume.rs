//! Encrypting an APFS volume: planning against the keychain and the volumes
//! already on disk, the passphrase, and the commands that do the work.

use vstd::prelude::*;
use vstd::string::{StrSliceExecFns, StringExecFns};

use crate::action::{
    titled, Action, ActionDescription, ActionError, ActionErrorKind, ActionState,
    ActionTag, StatefulAction,
};

verus! {

/// Why a volume cannot be planned for encryption; each holds the volume's
/// name and its disk.
#[derive(Clone, Debug)]
pub enum EncryptApfsVolumeError {
    /// The keychain holds a password for a volume that does not exist yet.
    ExistingPasswordFound(String, String),
    /// The volume exists but the keychain holds no password for it.
    MissingPasswordForExistingVolume(String, String),
    /// A volume of that name exists and is not encrypted.
    ExistingVolumeNotEncrypted(String, String),
}

/// One volume as `diskutil apfs list` reports it.
#[derive(Clone, Debug)]
pub struct ApfsVolume {
    pub name: String,
    pub encryption: bool,
}

/// One container as `diskutil apfs list` reports it.
#[derive(Clone, Debug)]
pub struct ApfsContainer {
    pub volumes: Vec<ApfsVolume>,
}

/// Encrypt the volume `name` on `disk`.
#[derive(Clone, Debug)]
pub struct EncryptApfsVolume {
    pub disk: String,
    pub name: String,
}

/// A command that executing or reverting the encryption runs, in order.
#[derive(Clone, Debug)]
pub enum VolumeCommand {
    /// Store the passphrase in the system keychain under the volume's label.
    StorePassword { name: String, disk: String, password: String },
    Mount { name: String },
    /// Encrypt the mounted volume in place with the passphrase.
    Encrypt { name: String, password: String },
    ForceUnmount { name: String },
    /// Remove the passphrase from the system keychain.
    DeletePassword { name: String, disk: String },
}

pub const PASSWORD_ALPHABET: &'static str = "ABCDEFGHIJKLMNOPQRSTUVWXYZabcdefghijklmnopqrstuvwxyz0123456789)(*&^%$#@!~";

pub const PASSWORD_LEN: usize = 32;

/// A passphrase as this step makes them.
pub open spec fn is_password(p: Seq<char>) -> bool {
    &&& p.len() == PASSWORD_LEN
    &&& forall|i: int| 0 <= i < p.len() ==> PASSWORD_ALPHABET@.contains(#[trigger] p[i])
}

/// Relies on rand's `thread_rng` and `Rng::gen_range`: a draw from
/// `0..bound`, which panics when the range is empty.
#[verifier::external_body]
fn random_below(bound: usize) -> (r: usize)
    requires
        bound > 0,
    ensures
        r < bound,
{
    rand::Rng::gen_range(&mut rand::thread_rng(), 0..bound)
}

/// The passphrase that a sequence of draws picks: each draw is an index
/// into `PASSWORD_ALPHABET`.
pub open spec fn password_of(draws: Seq<usize>) -> Seq<char> {
    draws.map_values(|k: usize| PASSWORD_ALPHABET@[k as int])
}

/// Every draw is an index into `PASSWORD_ALPHABET`.
pub open spec fn valid_draws(draws: Seq<usize>) -> bool {
    forall|i: int| 0 <= i < draws.len() ==> #[trigger] draws[i] < PASSWORD_ALPHABET@.len()
}

/// Turns draws into the passphrase they pick, one character per draw.
pub fn password_from_draws(draws: &Vec<usize>) -> (r: String)
    requires
        valid_draws(draws@),
    ensures
        r@ == password_of(draws@),
{
    proof {
        reveal_strlit("ABCDEFGHIJKLMNOPQRSTUVWXYZabcdefghijklmnopqrstuvwxyz0123456789)(*&^%$#@!~");
    }
    let mut password = String::new();
    let mut i: usize = 0;
    while i < draws.len()
        invariant
            i <= draws@.len(),
            valid_draws(draws@),
            PASSWORD_ALPHABET@.len() == 73,
            password@ == password_of(draws@.subrange(0, i as int)),
        decreases draws@.len() - i,
    {
        let k = draws[i];
        assert(k < PASSWORD_ALPHABET@.len());
        let c = PASSWORD_ALPHABET.substring_char(k, k + 1);
        let ghost before = password@;
        password.append(c);
        i = i + 1;
        proof {
            assert(c@ =~= seq![PASSWORD_ALPHABET@[k as int]]);
            assert(password@ =~= password_of(draws@.subrange(0, i as int)));
        }
    }
    assert(draws@.subrange(0, draws@.len() as int) =~= draws@);
    password
}

/// The passphrase of `PASSWORD_LEN` valid draws is a passphrase as this step
/// makes them.
proof fn lemma_password_of_valid_draws(draws: Seq<usize>)
    requires
        draws.len() == PASSWORD_LEN,
        valid_draws(draws),
    ensures
        is_password(password_of(draws)),
{
    let p = password_of(draws);
    assert forall|i: int| 0 <= i < p.len() implies PASSWORD_ALPHABET@.contains(#[trigger] p[i]) by {
        assert(p[i] == PASSWORD_ALPHABET@[draws[i] as int]);
    }
}

/// A fresh passphrase: `PASSWORD_LEN` random draws, each turned into its
/// character of `PASSWORD_ALPHABET`.
pub fn generate_password() -> (r: String)
    ensures
        exists|draws: Seq<usize>|
            draws.len() == PASSWORD_LEN && valid_draws(draws) && r@ == #[trigger] password_of(draws),
        is_password(r@),
{
    proof {
        reveal_strlit("ABCDEFGHIJKLMNOPQRSTUVWXYZabcdefghijklmnopqrstuvwxyz0123456789)(*&^%$#@!~");
    }
    let n = PASSWORD_ALPHABET.unicode_len();
    let mut draws: Vec<usize> = Vec::new();
    while draws.len() < PASSWORD_LEN
        invariant
            draws@.len() <= PASSWORD_LEN,
            n == PASSWORD_ALPHABET@.len(),
            n > 0,
            valid_draws(draws@),
        decreases PASSWORD_LEN - draws@.len(),
    {
        let k = random_below(n);
        draws.push(k);
    }
    let password = password_from_draws(&draws);
    proof {
        lemma_password_of_valid_draws(draws@);
    }
    password
}

/// The volume at position `v` of container `c` is named `name`.
pub open spec fn names_volume(containers: Seq<ApfsContainer>, c: int, v: int, name: Seq<char>) -> bool {
    &&& 0 <= c < containers.len()
    &&& 0 <= v < containers[c].volumes@.len()
    &&& containers[c].volumes@[v].name@ == name
}

/// No volume of any container is named `name`.
pub open spec fn no_volume_named(containers: Seq<ApfsContainer>, name: Seq<char>) -> bool {
    forall|c: int, v: int| !#[trigger] names_volume(containers, c, v, name)
}

/// Position `(c, v)` holds the first volume named `name`, containers in
/// order and the volumes of each in order.
pub open spec fn first_volume_named(containers: Seq<ApfsContainer>, c: int, v: int, name: Seq<char>) -> bool {
    &&& names_volume(containers, c, v, name)
    &&& forall|c2: int, v2: int|
        (c2 < c || (c2 == c && v2 < v)) ==> !#[trigger] names_volume(containers, c2, v2, name)
}

/// The encryption flag of the first volume named `name`, if there is one.
pub open spec fn found_encryption(containers: Seq<ApfsContainer>, name: Seq<char>, r: Option<bool>) -> bool {
    match r {
        None => no_volume_named(containers, name),
        Some(flag) => exists|c: int, v: int|
            first_volume_named(containers, c, v, name) && #[trigger] containers[c].volumes@[v].encryption
                == flag,
    }
}

/// Looks up the first volume named `name` and reports whether it is
/// encrypted.
pub fn find_volume_encryption(containers: &Vec<ApfsContainer>, name: &String) -> (r: Option<bool>)
    ensures
        found_encryption(containers@, name@, r),
{
    let mut c: usize = 0;
    while c < containers.len()
        invariant
            c <= containers@.len(),
            forall|c2: int, v2: int| c2 < c ==> !#[trigger] names_volume(containers@, c2, v2, name@),
        decreases containers@.len() - c,
    {
        let volumes = &containers[c].volumes;
        let mut v: usize = 0;
        while v < volumes.len()
            invariant
                c < containers@.len(),
                volumes@ == containers@[c as int].volumes@,
                v <= volumes@.len(),
                forall|c2: int, v2: int|
                    (c2 < c || (c2 == c && v2 < v)) ==> !#[trigger] names_volume(containers@, c2, v2, name@),
            decreases volumes@.len() - v,
        {
            if volumes[v].name == *name {
                let flag = volumes[v].encryption;
                assert(first_volume_named(containers@, c as int, v as int, name@));
                assert(containers@[c as int].volumes@[v as int].encryption == flag);
                return Some(flag);
            }
            v = v + 1;
        }
        c = c + 1;
    }
    None
}

/// How planning turns out, before any field is filled in.
#[derive(Clone, Copy, Debug, PartialEq, Eq, Structural)]
pub enum EncryptPlan {
    Completed,
    Uncompleted,
    ExistingPasswordFound,
    MissingPasswordForExistingVolume,
    ExistingVolumeNotEncrypted,
}

/// Reconciles a password in the keychain, whether the volume was already
/// created, and the encryption flag of a volume of that name already on disk.
pub open spec fn plan_outcome(secret_exists: bool, created: ActionState, existing: Option<bool>) -> EncryptPlan {
    if secret_exists {
        if created == ActionState::Completed {
            EncryptPlan::Completed
        } else {
            EncryptPlan::ExistingPasswordFound
        }
    } else if created == ActionState::Completed {
        EncryptPlan::MissingPasswordForExistingVolume
    } else {
        match existing {
            None => EncryptPlan::Uncompleted,
            Some(true) => EncryptPlan::Completed,
            Some(false) => EncryptPlan::ExistingVolumeNotEncrypted,
        }
    }
}

/// What planning returns for a given outcome.
pub open spec fn plan_result(outcome: EncryptPlan, disk: String, name: String) -> Result<
    StatefulAction<EncryptApfsVolume>,
    ActionError,
> {
    let this = EncryptApfsVolume { disk, name };
    let origin = ActionTag("encrypt_apfs_volume");
    match outcome {
        EncryptPlan::Completed => Ok(StatefulAction { action: this, state: ActionState::Completed }),
        EncryptPlan::Uncompleted => Ok(StatefulAction { action: this, state: ActionState::Uncompleted }),
        EncryptPlan::ExistingPasswordFound => Err(ActionError {
            kind: ActionErrorKind::EncryptApfsVolume(EncryptApfsVolumeError::ExistingPasswordFound(name, disk)),
            origin,
        }),
        EncryptPlan::MissingPasswordForExistingVolume => Err(ActionError {
            kind: ActionErrorKind::EncryptApfsVolume(
                EncryptApfsVolumeError::MissingPasswordForExistingVolume(name, disk),
            ),
            origin,
        }),
        EncryptPlan::ExistingVolumeNotEncrypted => Err(ActionError {
            kind: ActionErrorKind::EncryptApfsVolume(EncryptApfsVolumeError::ExistingVolumeNotEncrypted(name, disk)),
            origin,
        }),
    }
}

impl EncryptApfsVolume {
    /// Whether planning must look at the volumes on disk: only when neither a
    /// password nor a created volume settles it.
    pub fn needs_volume_listing(secret_exists: bool, created: ActionState) -> (r: bool)
        ensures
            r == (!secret_exists && created == ActionState::Uncompleted),
    {
        !secret_exists && created == ActionState::Uncompleted
    }

    /// Plans encrypting volume `name` on `disk`. `secret_exists` says whether
    /// the keychain holds its password, `planned_create_apfs_volume` is the
    /// planned creation of the volume, and `containers` lists the volumes on
    /// disk (read only where `needs_volume_listing` asks for it).
    pub fn plan<C>(
        disk: String,
        name: String,
        planned_create_apfs_volume: &StatefulAction<C>,
        secret_exists: bool,
        containers: &Vec<ApfsContainer>,
    ) -> (r: Result<StatefulAction<EncryptApfsVolume>, ActionError>)
        ensures
            secret_exists || planned_create_apfs_volume.state == ActionState::Completed ==> r
                == plan_result(plan_outcome(secret_exists, planned_create_apfs_volume.state, None), disk, name),
            !secret_exists && planned_create_apfs_volume.state == ActionState::Uncompleted ==> exists|
                existing: Option<bool>,
            |
                found_encryption(containers@, name@, existing) && r == plan_result(
                    #[trigger] plan_outcome(false, ActionState::Uncompleted, existing),
                    disk,
                    name,
                ),
    {
        let created = planned_create_apfs_volume.state;
        if secret_exists {
            if created == ActionState::Completed {
                return Ok(StatefulAction::completed(EncryptApfsVolume { disk, name }));
            }
            return Err(Self::error(EncryptApfsVolumeError::ExistingPasswordFound(name, disk)));
        } else if created == ActionState::Completed {
            return Err(Self::error(EncryptApfsVolumeError::MissingPasswordForExistingVolume(name, disk)));
        }
        let existing = find_volume_encryption(containers, &name);
        assert(plan_outcome(false, ActionState::Uncompleted, existing) == plan_outcome(false, created, existing));
        match existing {
            None => Ok(StatefulAction::uncompleted(EncryptApfsVolume { disk, name })),
            Some(true) => Ok(StatefulAction::completed(EncryptApfsVolume { disk, name })),
            Some(false) => Err(Self::error(EncryptApfsVolumeError::ExistingVolumeNotEncrypted(name, disk))),
        }
    }

    fn error(e: EncryptApfsVolumeError) -> (r: ActionError)
        ensures
            r == (ActionError { kind: ActionErrorKind::EncryptApfsVolume(e), origin: ActionTag("encrypt_apfs_volume") }),
    {
        ActionError { kind: ActionErrorKind::EncryptApfsVolume(e), origin: ActionTag("encrypt_apfs_volume") }
    }
}

impl EncryptApfsVolume {
    /// The commands of an execution with passphrase `password`: the
    /// passphrase is stored before the volume is touched, so that a crash
    /// while encrypting leaves it recoverable.
    pub open spec fn execute_commands_spec(self, password: String) -> Seq<VolumeCommand> {
        seq![
            VolumeCommand::StorePassword { name: self.name, disk: self.disk, password },
            VolumeCommand::Mount { name: self.name },
            VolumeCommand::Encrypt { name: self.name, password },
            VolumeCommand::ForceUnmount { name: self.name },
        ]
    }

    /// Makes a fresh passphrase and lists, in order, the commands that
    /// encrypt the volume with it.
    pub fn execute_commands(&self) -> (r: Vec<VolumeCommand>)
        ensures
            exists|password: String| is_password(password@) && r@ == self.execute_commands_spec(password),
    {
        let password = generate_password();
        let r = vec![
            VolumeCommand::StorePassword { name: self.name.clone(), disk: self.disk.clone(), password: password.clone() },
            VolumeCommand::Mount { name: self.name.clone() },
            VolumeCommand::Encrypt { name: self.name.clone(), password: password.clone() },
            VolumeCommand::ForceUnmount { name: self.name.clone() },
        ];
        assert(r@ =~= self.execute_commands_spec(password));
        r
    }

    /// Reverting removes the stored passphrase and nothing else: the
    /// encryption itself stays.
    pub fn revert_commands(&self) -> (r: Vec<VolumeCommand>)
        ensures
            r@ == seq![VolumeCommand::DeletePassword { name: self.name, disk: self.disk }],
    {
        let r = vec![VolumeCommand::DeletePassword { name: self.name.clone(), disk: self.disk.clone() }];
        assert(r@ =~= seq![VolumeCommand::DeletePassword { name: self.name, disk: self.disk }]);
        r
    }

    /// Reads how removing the stored passphrase went: success, or exit code
    /// 44, with which `security` reports that no such item is in the
    /// keychain, so that there is nothing to undo; any other end is the
    /// command's failure.
    pub fn delete_password_result(code: Option<i32>, stderr: Vec<u8>) -> (r: Result<(), ActionError>)
        ensures
            (code == Some(0i32) || code == Some(44i32)) ==> r is Ok,
            !(code == Some(0i32) || code == Some(44i32)) ==> (r matches Err(e) && e.origin == ActionTag(
                "encrypt_apfs_volume",
            ) && (e.kind matches ActionErrorKind::CommandOutput { program, code: c, stderr: s } && program@
                == "/usr/bin/security"@ && c == code && s == stderr)),
    {
        match code {
            Some(0) | Some(44) => Ok(()),
            _ => Err(
                ActionError {
                    kind: ActionErrorKind::CommandOutput { program: String::from_str("/usr/bin/security"), code, stderr },
                    origin: ActionTag("encrypt_apfs_volume"),
                },
            ),
        }
    }

    pub open spec fn synopsis_spec(self) -> Seq<char> {
        "Encrypt volume `"@ + self.name@ + "` on disk `"@ + self.disk@ + "`"@
    }

    /// One line that says what executing does.
    pub fn tracing_synopsis(&self) -> (r: String)
        ensures
            r@ == self.synopsis_spec(),
    {
        let r = String::from_str("Encrypt volume `").concat(self.name.as_str()).concat("` on disk `").concat(
            self.disk.as_str(),
        ).concat("`");
        r
    }
}

impl Action for EncryptApfsVolume {
    open spec fn tag_spec() -> &'static str {
        "encrypt_apfs_volume"
    }

    open spec fn execute_description_spec(&self) -> Seq<(Seq<char>, Seq<Seq<char>>)> {
        seq![(self.synopsis_spec(), Seq::<Seq<char>>::empty())]
    }

    open spec fn revert_description_spec(&self) -> Seq<(Seq<char>, Seq<Seq<char>>)> {
        seq![("Remove encryption keys for volume `"@ + self.disk@ + "`"@, Seq::<Seq<char>>::empty())]
    }

    fn action_tag() -> (r: ActionTag) {
        ActionTag("encrypt_apfs_volume")
    }

    fn execute_description(&self) -> (r: Vec<ActionDescription>) {
        titled(self.tracing_synopsis())
    }

    fn revert_description(&self) -> (r: Vec<ActionDescription>) {
        titled(String::from_str("Remove encryption keys for volume `").concat(self.disk.as_str()).concat("`"))
    }
}

/// Planning reconciles the keychain with the planned volume creation: a
/// password and a created volume give a completed action, which execution
/// then skips; a password alone, or a created volume alone, fail; neither
/// gives an uncompleted action when no volume of that name is on disk yet.
pub proof fn encrypt_plan_reconciles(disk: String, name: String, existing: Option<bool>)
    ensures
        plan_result(plan_outcome(true, ActionState::Completed, existing), disk, name) matches Ok(s)
            && s.state == ActionState::Completed && s.execute_step_spec() == crate::action::Step::Skip,
        plan_result(plan_outcome(true, ActionState::Uncompleted, existing), disk, name) is Err,
        plan_result(plan_outcome(false, ActionState::Completed, existing), disk, name) is Err,
        plan_result(plan_outcome(false, ActionState::Uncompleted, None), disk, name) matches Ok(s)
            && s.state == ActionState::Uncompleted,
{
}

} // verus!
