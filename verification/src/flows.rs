//! The requests that read and write several tables, as state machines: registering a
//! user, sending an invite, accepting one, and authenticating a request. The caller
//! performs the action that a step returns, hands the next step what it learned, and
//! stops at `Finish`. Each step states exactly which action comes next, so a refused
//! request finishes before it writes anything, and a request that succeeds performs
//! every write, in order. The writes of a registration run between `Begin` and `Commit`;
//! a request that finishes without `Commit` leaves its transaction to be rolled back.
use crate::account_stores::{
    actor_insert_sql, invite_by_email_sql, invite_by_token_sql, invite_delete_sql,
    invite_insert_sql, session_by_token_sql, session_delete_by_token_sql, user_by_email_sql,
    user_by_id_sql, user_insert_sql, ActorStore, InviteStore, SessionStore, UserStore,
};
use crate::credentials::{
    argon2id_prefix, hash_error_text, hashes_to, max_password_bytes, Email, RawPassword,
};
use crate::error::{AppError, AppErrorView};
use crate::ledger_stores::{wallet_insert_sql, WalletStore};
use crate::models::{ActorId, InviteId, RoleId, UserCreation, UserId, UserRoleCreation};
use crate::onboarding::{
    invite_creation, invite_lifetime_spec, inviter_name, inviter_name_text, is_uuid_v4_text,
    missing_invite_role, personal_wallet, InviteCreation,
};
use crate::permission::GlobalPermission;
use crate::stores::{
    assign_sql, assignment_lookup_sql, bound, role_by_name_sql, RoleStore, SqlParamView,
    Statement, UserRoleStore,
};
use vstd::prelude::*;

verus! {

/// What the caller does next.
pub enum Action {
    /// Run the statement and answer with what it returned.
    Run(Statement),
    /// Open a database transaction for the statements that follow.
    Begin,
    /// Commit the open transaction.
    Commit,
    /// Check that the user holds the global permission, and answer with the outcome.
    CheckPermission(GlobalPermission),
    /// Send the invitation mail.
    SendInvite { to: Email, token: String, inviter_name: String },
    /// The request is over, with this outcome.
    Finish(Result<(), AppError>),
}

/// The mathematical value of an `Action`: a statement as its text and the values it binds.
pub enum ActionView {
    Run(Seq<char>, Seq<SqlParamView>),
    Begin,
    Commit,
    CheckPermission(GlobalPermission),
    SendInvite(Seq<char>, Seq<char>, Seq<char>),
    Finish(Result<(), AppErrorView>),
}

impl View for Action {
    type V = ActionView;

    open spec fn view(&self) -> ActionView {
        match self {
            Action::Run(st) => ActionView::Run(st.sql@, bound(*st)),
            Action::Begin => ActionView::Begin,
            Action::Commit => ActionView::Commit,
            Action::CheckPermission(p) => ActionView::CheckPermission(*p),
            Action::SendInvite { to, token, inviter_name } => ActionView::SendInvite(
                to@,
                token@,
                inviter_name@,
            ),
            Action::Finish(r) => ActionView::Finish(
                match r {
                    Ok(_) => Ok(()),
                    Err(e) => Err(e@),
                },
            ),
        }
    }
}

/// An invite found by its token: its id, address, role and expiry.
pub struct FoundInvite {
    pub id: InviteId,
    pub email: Email,
    pub role: String,
    pub expires_at: i64,
}

/// What the caller learned from the last action.
pub enum Answer {
    /// The action returns nothing that the flow reads (a write, the transaction, a mail).
    Done,
    /// The outcome of a permission check.
    Permission(Result<(), AppError>),
    /// Whether a lookup found a row.
    Found(bool),
    /// The id of the row that an insert returned.
    Created(u128),
    /// The id of the role found by name, if one was.
    Role(Option<RoleId>),
    /// The invite found by its token, if one was.
    Invite(Option<FoundInvite>),
    /// The id and the expiry of the invite found by its address, if one was.
    Existing(Option<(InviteId, i64)>),
    /// The first and last name of the user found, if one was.
    Names(Option<(String, String)>),
    /// The user and the expiry of the session found, if one was.
    Session(Option<(UserId, i64)>),
    /// Whether an insert returned its row (it does not where the row was already there).
    Inserted(bool),
}

/// The mathematical value of an `Answer`.
pub enum AnswerView {
    Done,
    Permission(Result<(), AppErrorView>),
    Found(bool),
    Created(u128),
    Role(Option<u128>),
    Invite(Option<(u128, Seq<char>, Seq<char>, i64)>),
    Existing(Option<(u128, i64)>),
    Names(Option<(Seq<char>, Seq<char>)>),
    Session(Option<(u128, i64)>),
    Inserted(bool),
}

impl View for Answer {
    type V = AnswerView;

    open spec fn view(&self) -> AnswerView {
        match self {
            Answer::Done => AnswerView::Done,
            Answer::Permission(r) => AnswerView::Permission(
                match r {
                    Ok(_) => Ok(()),
                    Err(e) => Err(e@),
                },
            ),
            Answer::Found(b) => AnswerView::Found(*b),
            Answer::Created(id) => AnswerView::Created(*id),
            Answer::Role(r) => AnswerView::Role(
                match r {
                    Some(id) => Some(id@),
                    None => None,
                },
            ),
            Answer::Invite(i) => AnswerView::Invite(
                match i {
                    Some(i) => Some((i.id@, i.email@, i.role@, i.expires_at)),
                    None => None,
                },
            ),
            Answer::Existing(e) => AnswerView::Existing(
                match e {
                    Some((id, t)) => Some((id@, *t)),
                    None => None,
                },
            ),
            Answer::Names(n) => AnswerView::Names(
                match n {
                    Some((f, l)) => Some((f@, l@)),
                    None => None,
                },
            ),
            Answer::Session(s) => AnswerView::Session(
                match s {
                    Some((u, t)) => Some((u@, *t)),
                    None => None,
                },
            ),
            Answer::Inserted(b) => AnswerView::Inserted(*b),
        }
    }
}

// ----- Registering a user -----

/// Where a registration stands: which action it issued last.
pub enum RegisterStage {
    /// Looked up a user with the address.
    LookingUp,
    /// Opened the transaction.
    Opening,
    /// Inserted the actor.
    CreatingActor,
    /// Inserted the user for this actor.
    CreatingUser(ActorId),
    /// Inserted the wallet of this user.
    CreatingWallet(UserId),
    /// Committed the registration of this user.
    Committing(UserId),
    /// Finished: with the new user, or refused.
    Finished(Option<UserId>),
}

/// The mathematical value of a `RegisterStage`.
pub enum RegisterStageView {
    LookingUp,
    Opening,
    CreatingActor,
    CreatingUser(u128),
    CreatingWallet(u128),
    Committing(u128),
    Finished(Option<u128>),
}

impl View for RegisterStage {
    type V = RegisterStageView;

    open spec fn view(&self) -> RegisterStageView {
        match self {
            RegisterStage::LookingUp => RegisterStageView::LookingUp,
            RegisterStage::Opening => RegisterStageView::Opening,
            RegisterStage::CreatingActor => RegisterStageView::CreatingActor,
            RegisterStage::CreatingUser(a) => RegisterStageView::CreatingUser(a@),
            RegisterStage::CreatingWallet(u) => RegisterStageView::CreatingWallet(u@),
            RegisterStage::Committing(u) => RegisterStageView::Committing(u@),
            RegisterStage::Finished(u) => RegisterStageView::Finished(
                match u {
                    Some(u) => Some(u@),
                    None => None,
                },
            ),
        }
    }
}

/// The kind of answer that each stage of a registration waits for.
pub open spec fn register_fits(stage: RegisterStageView, answer: AnswerView) -> bool {
    match stage {
        RegisterStageView::LookingUp => answer is Found,
        RegisterStageView::Opening => answer is Done,
        RegisterStageView::CreatingActor => answer is Created,
        RegisterStageView::CreatingUser(_) => answer is Created,
        RegisterStageView::CreatingWallet(_) => answer is Done,
        RegisterStageView::Committing(_) => answer is Done,
        RegisterStageView::Finished(_) => false,
    }
}

/// The step of registering the user with `email`, `password` and names from `stage`,
/// given `answer`: the action issued and the stage reached.
/// - a user already has the address: refused with `UserAlreadyExists`, nothing written;
/// - otherwise the transaction opens and the actor is inserted;
/// - then the user, with a fresh Argon2 hash of the password (refused where the
///   password is too long to hash, before any commit);
/// - then the user's wallet (owned by the actor, no label, no overdraft);
/// - then the commit, and the registration finishes with the new user.
pub open spec fn register_step_ok(
    email: Seq<char>,
    password: Seq<char>,
    first_name: Seq<char>,
    last_name: Seq<char>,
    stage: RegisterStageView,
    answer: AnswerView,
    action: ActionView,
    next: RegisterStageView,
) -> bool {
    match stage {
        RegisterStageView::LookingUp => match answer {
            AnswerView::Found(true) => action == ActionView::Finish(
                Err(AppErrorView::UserAlreadyExists),
            ) && next == RegisterStageView::Finished(None),
            AnswerView::Found(false) => action == ActionView::Begin && next
                == RegisterStageView::Opening,
            _ => false,
        },
        RegisterStageView::Opening => action == ActionView::Run(
            actor_insert_sql(),
            Seq::<SqlParamView>::empty(),
        ) && next == RegisterStageView::CreatingActor,
        RegisterStageView::CreatingActor => match answer {
            AnswerView::Created(a) => if vstd::utf8::encode_utf8(password).len()
                <= max_password_bytes() {
                &&& next == RegisterStageView::CreatingUser(a)
                &&& action matches ActionView::Run(sql, b)
                &&& sql == user_insert_sql()
                &&& b.len() == 5
                &&& b[0] == SqlParamView::Uuid(a)
                &&& b[1] == SqlParamView::Text(email)
                &&& b[2] matches SqlParamView::Text(h) && hashes_to(password, h)
                    && argon2id_prefix().is_prefix_of(h)
                &&& b[3] == SqlParamView::Text(first_name)
                &&& b[4] == SqlParamView::Text(last_name)
            } else {
                next == RegisterStageView::Finished(None) && action matches ActionView::Finish(
                    Err(AppErrorView::PasswordHash(_)),
                )
            },
            _ => false,
        },
        RegisterStageView::CreatingUser(a) => match answer {
            AnswerView::Created(u) => action == ActionView::Run(
                wallet_insert_sql(),
                seq![
                    SqlParamView::NullableUuid(Some(a)),
                    SqlParamView::NullableText(None),
                    SqlParamView::Bool(false),
                ],
            ) && next == RegisterStageView::CreatingWallet(u),
            _ => false,
        },
        RegisterStageView::CreatingWallet(u) => action == ActionView::Commit && next
            == RegisterStageView::Committing(u),
        RegisterStageView::Committing(u) => action == ActionView::Finish(Ok(())) && next
            == RegisterStageView::Finished(Some(u)),
        RegisterStageView::Finished(_) => false,
    }
}

fn register_begin(email: &Email) -> (r: (Action, RegisterStage))
    ensures
        r.0@ == ActionView::Run(user_by_email_sql(), seq![SqlParamView::Text(email@)]),
        r.1@ == RegisterStageView::LookingUp,
{
    (Action::Run(UserStore::find_by_email(email)), RegisterStage::LookingUp)
}

fn register_step(
    email: &Email,
    password: &RawPassword,
    first_name: &String,
    last_name: &String,
    stage: RegisterStage,
    answer: Answer,
) -> (r: (Action, RegisterStage))
    requires
        register_fits(stage@, answer@),
    ensures
        register_step_ok(
            email@,
            password@,
            first_name@,
            last_name@,
            stage@,
            answer@,
            r.0@,
            r.1@,
        ),
{
    match stage {
        RegisterStage::LookingUp => {
            if let Answer::Found(taken) = answer {
                if taken {
                    (Action::Finish(Err(AppError::UserAlreadyExists)), RegisterStage::Finished(None))
                } else {
                    (Action::Begin, RegisterStage::Opening)
                }
            } else {
                (Action::Finish(Err(AppError::InternalServerError)), RegisterStage::Finished(None))
            }
        },
        RegisterStage::Opening => (Action::Run(ActorStore::create()), RegisterStage::CreatingActor),
        RegisterStage::CreatingActor => {
            let a: u128 = match answer {
                Answer::Created(a) => a,
                _ => 0,
            };
            let actor: ActorId = ActorId::from_uuid(a);
            match password.hash() {
                Ok(h) => {
                    let creation = UserCreation {
                        actor_id: actor,
                        email: email.clone(),
                        password: h,
                        first_name: first_name.clone(),
                        last_name: last_name.clone(),
                    };
                    (Action::Run(UserStore::create(&creation)), RegisterStage::CreatingUser(actor))
                },
                Err(e) => (
                    Action::Finish(Err(AppError::PasswordHash(hash_error_text(&e)))),
                    RegisterStage::Finished(None),
                ),
            }
        },
        RegisterStage::CreatingUser(actor) => {
            let u: u128 = match answer {
                Answer::Created(u) => u,
                _ => 0,
            };
            let wallet = personal_wallet(actor);
            (Action::Run(WalletStore::create(&wallet)), RegisterStage::CreatingWallet(UserId::from_uuid(u)))
        },
        RegisterStage::CreatingWallet(user) => (Action::Commit, RegisterStage::Committing(user)),
        RegisterStage::Committing(user) => (Action::Finish(Ok(())), RegisterStage::Finished(Some(user))),
        RegisterStage::Finished(user) => (Action::Finish(Ok(())), RegisterStage::Finished(user)),
    }
}

/// Registering a user: the address, the password as typed, and the names.
pub struct Registration {
    pub email: Email,
    pub password: RawPassword,
    pub first_name: String,
    pub last_name: String,
}

impl Registration {
    /// The first action: look up a user with the address.
    pub fn start(&self) -> (r: (Action, RegisterStage))
        ensures
            r.0@ == ActionView::Run(user_by_email_sql(), seq![SqlParamView::Text(self.email@)]),
            r.1@ == RegisterStageView::LookingUp,
    {
        register_begin(&self.email)
    }

    /// The action after `stage`, given what the last action returned.
    pub fn step(&self, stage: RegisterStage, answer: Answer) -> (r: (Action, RegisterStage))
        requires
            register_fits(stage@, answer@),
        ensures
            register_step_ok(
                self.email@,
                self.password@,
                self.first_name@,
                self.last_name@,
                stage@,
                answer@,
                r.0@,
                r.1@,
            ),
    {
        register_step(&self.email, &self.password, &self.first_name, &self.last_name, stage, answer)
    }
}

// ----- Sending an invite -----

/// Where a request to send an invite stands: which action it issued last.
pub enum InviteStage {
    /// Checked that the inviting user may send invites.
    Authorizing,
    /// Looked up the role by name.
    FindingRole,
    /// Looked up a user with the invited address.
    CheckingAddress,
    /// Looked up an invite already sent to the address.
    FindingInvite,
    /// Deleted the expired invite sent to the address.
    DeletingExpired,
    /// Looked up the inviting user's names.
    FindingInviter,
    /// Stored the invite; the mail is to be signed with this name.
    Storing(String),
    /// Sent the mail.
    Sending,
    /// Finished.
    Finished,
}

/// The mathematical value of an `InviteStage`.
pub enum InviteStageView {
    Authorizing,
    FindingRole,
    CheckingAddress,
    FindingInvite,
    DeletingExpired,
    FindingInviter,
    Storing(Seq<char>),
    Sending,
    Finished,
}

impl View for InviteStage {
    type V = InviteStageView;

    open spec fn view(&self) -> InviteStageView {
        match self {
            InviteStage::Authorizing => InviteStageView::Authorizing,
            InviteStage::FindingRole => InviteStageView::FindingRole,
            InviteStage::CheckingAddress => InviteStageView::CheckingAddress,
            InviteStage::FindingInvite => InviteStageView::FindingInvite,
            InviteStage::DeletingExpired => InviteStageView::DeletingExpired,
            InviteStage::FindingInviter => InviteStageView::FindingInviter,
            InviteStage::Storing(name) => InviteStageView::Storing(name@),
            InviteStage::Sending => InviteStageView::Sending,
            InviteStage::Finished => InviteStageView::Finished,
        }
    }
}

/// The kind of answer that each stage of an invite request waits for.
pub open spec fn invite_fits(stage: InviteStageView, answer: AnswerView) -> bool {
    match stage {
        InviteStageView::Authorizing => answer is Permission,
        InviteStageView::FindingRole => answer is Found,
        InviteStageView::CheckingAddress => answer is Found,
        InviteStageView::FindingInvite => answer is Existing,
        InviteStageView::DeletingExpired => answer is Done,
        InviteStageView::FindingInviter => answer is Names,
        InviteStageView::Storing(_) => answer is Done,
        InviteStageView::Sending => answer is Done,
        InviteStageView::Finished => false,
    }
}

/// The step of the request by `inviter` to invite `email` for `role` at `now`, with the
/// invite's fresh `token`, from `stage` given `answer`:
/// - without the permission to send invites: refused with the check's denial;
/// - for a role that does not exist: refused with `BadRequest`;
/// - for an address that a user already has: refused with `UserAlreadyExists`;
/// - while an unexpired invite to the address exists: refused with `InviteAlreadySent`
///   (an expired one is deleted and the request goes on);
/// - otherwise the inviter's names are read, the invite is stored (valid for seven
///   days from `now`), the mail is sent once with the invite's token and signed with
///   the inviter's name (`Someone` where the inviter is not found), and the request
///   succeeds.
/// Every refusal finishes before anything is stored, deleted or sent.
pub open spec fn invite_step_ok(
    inviter: u128,
    email: Seq<char>,
    role: Seq<char>,
    token: Seq<char>,
    now: i64,
    stage: InviteStageView,
    answer: AnswerView,
    action: ActionView,
    next: InviteStageView,
) -> bool {
    let find_inviter = ActionView::Run(user_by_id_sql(), seq![SqlParamView::Uuid(inviter)]);
    match stage {
        InviteStageView::Authorizing => match answer {
            AnswerView::Permission(Err(e)) => action == ActionView::Finish(Err(e)) && next
                == InviteStageView::Finished,
            AnswerView::Permission(Ok(_)) => action == ActionView::Run(
                role_by_name_sql(),
                seq![SqlParamView::Text(role)],
            ) && next == InviteStageView::FindingRole,
            _ => false,
        },
        InviteStageView::FindingRole => match answer {
            AnswerView::Found(false) => action == ActionView::Finish(
                Err(AppErrorView::BadRequest("Role '"@ + role + "' does not exist"@)),
            ) && next == InviteStageView::Finished,
            AnswerView::Found(true) => action == ActionView::Run(
                user_by_email_sql(),
                seq![SqlParamView::Text(email)],
            ) && next == InviteStageView::CheckingAddress,
            _ => false,
        },
        InviteStageView::CheckingAddress => match answer {
            AnswerView::Found(true) => action == ActionView::Finish(
                Err(AppErrorView::UserAlreadyExists),
            ) && next == InviteStageView::Finished,
            AnswerView::Found(false) => action == ActionView::Run(
                invite_by_email_sql(),
                seq![SqlParamView::Text(email)],
            ) && next == InviteStageView::FindingInvite,
            _ => false,
        },
        InviteStageView::FindingInvite => match answer {
            AnswerView::Existing(None) => action == find_inviter && next
                == InviteStageView::FindingInviter,
            AnswerView::Existing(Some((id, expires_at))) => if expires_at < now {
                action == ActionView::Run(invite_delete_sql(), seq![SqlParamView::Uuid(id)])
                    && next == InviteStageView::DeletingExpired
            } else {
                action == ActionView::Finish(Err(AppErrorView::InviteAlreadySent)) && next
                    == InviteStageView::Finished
            },
            _ => false,
        },
        InviteStageView::DeletingExpired => action == find_inviter && next
            == InviteStageView::FindingInviter,
        InviteStageView::FindingInviter => match answer {
            AnswerView::Names(names) => action == ActionView::Run(
                invite_insert_sql(),
                seq![
                    SqlParamView::Uuid(inviter),
                    SqlParamView::Text(email),
                    SqlParamView::Text(token),
                    SqlParamView::Text(role),
                    SqlParamView::Timestamp((now + invite_lifetime_spec()) as i64),
                ],
            ) && next == InviteStageView::Storing(inviter_name_text(names)),
            _ => false,
        },
        InviteStageView::Storing(name) => action == ActionView::SendInvite(email, token, name)
            && next == InviteStageView::Sending,
        InviteStageView::Sending => action == ActionView::Finish(Ok(())) && next
            == InviteStageView::Finished,
        InviteStageView::Finished => false,
    }
}

/// A request to send an invite: the invite to store (with its fresh token) and the
/// instant of the request.
pub struct InviteRequest {
    pub creation: InviteCreation,
    pub now: i64,
}

impl InviteRequest {
    /// The request by `inviter` to invite `email` for `role` at `now`: a fresh random
    /// token, valid for seven days.
    pub fn new(inviter: UserId, email: Email, role: String, now: i64) -> (r: Self)
        requires
            now + invite_lifetime_spec() <= i64::MAX,
        ensures
            r.creation.invitor@ == inviter@,
            r.creation.email@ == email@,
            r.creation.role@ == role@,
            r.creation.expires_in == invite_lifetime_spec(),
            is_uuid_v4_text(r.creation.token@),
            r.now == now,
    {
        InviteRequest { creation: invite_creation(inviter, email, role), now }
    }

    /// The first action: check that the inviter may send invites.
    pub fn start(&self) -> (r: (Action, InviteStage))
        ensures
            r.0@ == ActionView::CheckPermission(GlobalPermission::SendInvite),
            r.1@ == InviteStageView::Authorizing,
    {
        (Action::CheckPermission(GlobalPermission::SendInvite), InviteStage::Authorizing)
    }

    /// The action after `stage`, given what the last action returned.
    pub fn step(&self, stage: InviteStage, answer: Answer) -> (r: (Action, InviteStage))
        requires
            invite_fits(stage@, answer@),
            self.creation.expires_in == invite_lifetime_spec(),
            self.now + invite_lifetime_spec() <= i64::MAX,
        ensures
            invite_step_ok(
                self.creation.invitor@,
                self.creation.email@,
                self.creation.role@,
                self.creation.token@,
                self.now,
                stage@,
                answer@,
                r.0@,
                r.1@,
            ),
    {
        let c = &self.creation;
        match stage {
            InviteStage::Authorizing => match answer {
                Answer::Permission(Err(e)) => (Action::Finish(Err(e)), InviteStage::Finished),
                _ => (Action::Run(RoleStore::find_by_name(c.role.as_str())), InviteStage::FindingRole),
            },
            InviteStage::FindingRole => match answer {
                Answer::Found(false) => (
                    Action::Finish(Err(crate::onboarding::unknown_role(c.role.as_str()))),
                    InviteStage::Finished,
                ),
                _ => (Action::Run(UserStore::find_by_email(&c.email)), InviteStage::CheckingAddress),
            },
            InviteStage::CheckingAddress => match answer {
                Answer::Found(true) => (
                    Action::Finish(Err(AppError::UserAlreadyExists)),
                    InviteStage::Finished,
                ),
                _ => (Action::Run(InviteStore::find_by_email(&c.email)), InviteStage::FindingInvite),
            },
            InviteStage::FindingInvite => match answer {
                Answer::Existing(Some((id, expires_at))) => {
                    if expires_at < self.now {
                        (Action::Run(InviteStore::delete_by_id(&id)), InviteStage::DeletingExpired)
                    } else {
                        (Action::Finish(Err(AppError::InviteAlreadySent)), InviteStage::Finished)
                    }
                },
                _ => (Action::Run(UserStore::find_by_id(&c.invitor)), InviteStage::FindingInviter),
            },
            InviteStage::DeletingExpired => (
                Action::Run(UserStore::find_by_id(&c.invitor)),
                InviteStage::FindingInviter,
            ),
            InviteStage::FindingInviter => {
                let name = match &answer {
                    Answer::Names(Some((first, last))) => inviter_name(
                        Some(first.as_str()),
                        Some(last.as_str()),
                    ),
                    _ => inviter_name(None, None),
                };
                (Action::Run(InviteStore::create(c, self.now)), InviteStage::Storing(name))
            },
            InviteStage::Storing(name) => (
                Action::SendInvite {
                    to: c.email.clone(),
                    token: c.token.clone(),
                    inviter_name: name,
                },
                InviteStage::Sending,
            ),
            InviteStage::Sending => (Action::Finish(Ok(())), InviteStage::Finished),
            InviteStage::Finished => (Action::Finish(Ok(())), InviteStage::Finished),
        }
    }
}

// ----- Accepting an invite -----

/// Where the acceptance of an invite stands: which action it issued last.
pub enum AcceptStage {
    /// Looked up the invite by its token.
    FindingInvite,
    /// Registering the invited user (`invite`, its address and role) at `stage`.
    Registering { invite: InviteId, email: Email, role: String, stage: RegisterStage },
    /// Looked up the invite's role for the new user.
    FindingRole { invite: InviteId, user: UserId, role: String },
    /// Inserted the assignment of the role to the user.
    Assigning { invite: InviteId, user: UserId, role: RoleId },
    /// Fetched the assignment that was already there.
    FetchingAssignment { invite: InviteId },
    /// Deleted the invite.
    Deleting,
    /// Finished.
    Finished,
}

/// The mathematical value of an `AcceptStage`.
pub enum AcceptStageView {
    FindingInvite,
    Registering(u128, Seq<char>, Seq<char>, RegisterStageView),
    FindingRole(u128, u128, Seq<char>),
    Assigning(u128, u128, u128),
    FetchingAssignment(u128),
    Deleting,
    Finished,
}

impl View for AcceptStage {
    type V = AcceptStageView;

    open spec fn view(&self) -> AcceptStageView {
        match self {
            AcceptStage::FindingInvite => AcceptStageView::FindingInvite,
            AcceptStage::Registering { invite, email, role, stage } => AcceptStageView::Registering(
                invite@,
                email@,
                role@,
                stage@,
            ),
            AcceptStage::FindingRole { invite, user, role } => AcceptStageView::FindingRole(
                invite@,
                user@,
                role@,
            ),
            AcceptStage::Assigning { invite, user, role } => AcceptStageView::Assigning(
                invite@,
                user@,
                role@,
            ),
            AcceptStage::FetchingAssignment { invite } => AcceptStageView::FetchingAssignment(
                invite@,
            ),
            AcceptStage::Deleting => AcceptStageView::Deleting,
            AcceptStage::Finished => AcceptStageView::Finished,
        }
    }
}

/// The kind of answer that each stage of an acceptance waits for.
pub open spec fn accept_fits(stage: AcceptStageView, answer: AnswerView) -> bool {
    match stage {
        AcceptStageView::FindingInvite => answer is Invite,
        AcceptStageView::Registering(_, _, _, s) => register_fits(s, answer),
        AcceptStageView::FindingRole(_, _, _) => answer is Role,
        AcceptStageView::Assigning(_, _, _) => answer is Inserted,
        AcceptStageView::FetchingAssignment(_) => answer is Done,
        AcceptStageView::Deleting => answer is Done,
        AcceptStageView::Finished => false,
    }
}

/// The step of accepting the invite with `token` at `now`, registering the user with
/// `password` and names, from `stage` given `answer`:
/// - no invite has the token: refused with `NotFound`; an expired invite: refused with
///   `InviteExpired`; in both cases nothing is written;
/// - otherwise the user is registered with the invite's address, as `register_step_ok`
///   states (its refusals end the acceptance, the invite stays);
/// - then the invite's role is looked up (where it no longer exists the acceptance is
///   refused, the invite stays) and assigned to the new user (an assignment already
///   there is fetched instead);
/// - then the invite is deleted, and the acceptance succeeds.
pub open spec fn accept_step_ok(
    token: Seq<char>,
    now: i64,
    password: Seq<char>,
    first_name: Seq<char>,
    last_name: Seq<char>,
    stage: AcceptStageView,
    answer: AnswerView,
    action: ActionView,
    next: AcceptStageView,
) -> bool {
    match stage {
        AcceptStageView::FindingInvite => match answer {
            AnswerView::Invite(None) => action == ActionView::Finish(Err(AppErrorView::NotFound))
                && next == AcceptStageView::Finished,
            AnswerView::Invite(Some((id, email, role, expires_at))) => if expires_at < now {
                action == ActionView::Finish(Err(AppErrorView::InviteExpired)) && next
                    == AcceptStageView::Finished
            } else {
                action == ActionView::Run(user_by_email_sql(), seq![SqlParamView::Text(email)])
                    && next == AcceptStageView::Registering(
                    id,
                    email,
                    role,
                    RegisterStageView::LookingUp,
                )
            },
            _ => false,
        },
        AcceptStageView::Registering(id, email, role, s) => match s {
            RegisterStageView::Committing(u) => action == ActionView::Run(
                role_by_name_sql(),
                seq![SqlParamView::Text(role)],
            ) && next == AcceptStageView::FindingRole(id, u, role),
            _ => match next {
                AcceptStageView::Registering(id2, email2, role2, s2) => id2 == id && email2
                    == email && role2 == role && !(s2 is Finished) && register_step_ok(
                    email,
                    password,
                    first_name,
                    last_name,
                    s,
                    answer,
                    action,
                    s2,
                ),
                AcceptStageView::Finished => register_step_ok(
                    email,
                    password,
                    first_name,
                    last_name,
                    s,
                    answer,
                    action,
                    RegisterStageView::Finished(None),
                ),
                _ => false,
            },
        },
        AcceptStageView::FindingRole(id, u, role) => match answer {
            AnswerView::Role(None) => action == ActionView::Finish(
                Err(
                    AppErrorView::BadRequest(
                        "Invite role '"@ + role
                            + "' does not exist; ask an admin to fix this invite"@,
                    ),
                ),
            ) && next == AcceptStageView::Finished,
            AnswerView::Role(Some(r)) => action == ActionView::Run(
                assign_sql(),
                seq![SqlParamView::Uuid(u), SqlParamView::Uuid(r)],
            ) && next == AcceptStageView::Assigning(id, u, r),
            _ => false,
        },
        AcceptStageView::Assigning(id, u, r) => match answer {
            AnswerView::Inserted(true) => action == ActionView::Run(
                invite_delete_sql(),
                seq![SqlParamView::Uuid(id)],
            ) && next == AcceptStageView::Deleting,
            AnswerView::Inserted(false) => action == ActionView::Run(
                assignment_lookup_sql(),
                seq![SqlParamView::Uuid(u), SqlParamView::Uuid(r)],
            ) && next == AcceptStageView::FetchingAssignment(id),
            _ => false,
        },
        AcceptStageView::FetchingAssignment(id) => action == ActionView::Run(
            invite_delete_sql(),
            seq![SqlParamView::Uuid(id)],
        ) && next == AcceptStageView::Deleting,
        AcceptStageView::Deleting => action == ActionView::Finish(Ok(())) && next
            == AcceptStageView::Finished,
        AcceptStageView::Finished => false,
    }
}

/// Accepting an invite: its token, the instant of the request, and the password and
/// names the invited user chose.
pub struct Acceptance {
    pub token: String,
    pub now: i64,
    pub password: RawPassword,
    pub first_name: String,
    pub last_name: String,
}

impl Acceptance {
    /// The first action: look up the invite by its token.
    pub fn start(&self) -> (r: (Action, AcceptStage))
        ensures
            r.0@ == ActionView::Run(invite_by_token_sql(), seq![SqlParamView::Text(self.token@)]),
            r.1@ == AcceptStageView::FindingInvite,
    {
        (Action::Run(InviteStore::find_by_token(self.token.as_str())), AcceptStage::FindingInvite)
    }

    /// The action after `stage`, given what the last action returned.
    pub fn step(&self, stage: AcceptStage, answer: Answer) -> (r: (Action, AcceptStage))
        requires
            accept_fits(stage@, answer@),
        ensures
            accept_step_ok(
                self.token@,
                self.now,
                self.password@,
                self.first_name@,
                self.last_name@,
                stage@,
                answer@,
                r.0@,
                r.1@,
            ),
    {
        match stage {
            AcceptStage::FindingInvite => match answer {
                Answer::Invite(Some(found)) => {
                    if found.expires_at < self.now {
                        (Action::Finish(Err(AppError::InviteExpired)), AcceptStage::Finished)
                    } else {
                        let (action, s) = register_begin(&found.email);
                        (
                            action,
                            AcceptStage::Registering {
                                invite: found.id,
                                email: found.email,
                                role: found.role,
                                stage: s,
                            },
                        )
                    }
                },
                _ => (Action::Finish(Err(AppError::NotFound)), AcceptStage::Finished),
            },
            AcceptStage::Registering { invite, email, role, stage: s } => match s {
                RegisterStage::Committing(user) => (
                    Action::Run(RoleStore::find_by_name(role.as_str())),
                    AcceptStage::FindingRole { invite, user, role },
                ),
                _ => {
                    let (action, s2) = register_step(
                        &email,
                        &self.password,
                        &self.first_name,
                        &self.last_name,
                        s,
                        answer,
                    );
                    match s2 {
                        RegisterStage::Finished(_) => (action, AcceptStage::Finished),
                        _ => (action, AcceptStage::Registering { invite, email, role, stage: s2 }),
                    }
                },
            },
            AcceptStage::FindingRole { invite, user, role } => match answer {
                Answer::Role(Some(r)) => (
                    Action::Run(UserRoleStore::assign(&UserRoleCreation { user_id: user, role_id: r })),
                    AcceptStage::Assigning { invite, user, role: r },
                ),
                _ => (
                    Action::Finish(Err(missing_invite_role(role.as_str()))),
                    AcceptStage::Finished,
                ),
            },
            AcceptStage::Assigning { invite, user, role } => match answer {
                Answer::Inserted(false) => (
                    Action::Run(
                        UserRoleStore::assign_existing(
                            &UserRoleCreation { user_id: user, role_id: role },
                        ),
                    ),
                    AcceptStage::FetchingAssignment { invite },
                ),
                _ => (Action::Run(InviteStore::delete_by_id(&invite)), AcceptStage::Deleting),
            },
            AcceptStage::FetchingAssignment { invite } => (
                Action::Run(InviteStore::delete_by_id(&invite)),
                AcceptStage::Deleting,
            ),
            AcceptStage::Deleting => (Action::Finish(Ok(())), AcceptStage::Finished),
            AcceptStage::Finished => (Action::Finish(Ok(())), AcceptStage::Finished),
        }
    }
}

// ----- Authenticating a request -----

/// Where the authentication of a request stands: which action it issued last.
pub enum AuthStage {
    /// Looked up the session by its token.
    FindingSession,
    /// Deleted the expired session.
    DeletingExpired,
    /// Looked up the session's user.
    FindingUser,
    /// Finished.
    Finished,
}

/// The kind of answer that each stage of an authentication waits for.
pub open spec fn auth_fits(stage: AuthStage, answer: AnswerView) -> bool {
    match stage {
        AuthStage::FindingSession => answer is Session,
        AuthStage::DeletingExpired => answer is Done,
        AuthStage::FindingUser => answer is Found,
        AuthStage::Finished => false,
    }
}

/// The first action of authenticating a request that carries the session `token` (or no
/// session cookie): without a cookie it is refused with `Authentication` at once.
pub open spec fn auth_start_ok(token: Option<Seq<char>>, action: ActionView, next: AuthStage) -> bool {
    match token {
        None => action == ActionView::Finish(Err(AppErrorView::Authentication)) && next
            == AuthStage::Finished,
        Some(t) => action == ActionView::Run(session_by_token_sql(), seq![SqlParamView::Text(t)])
            && next == AuthStage::FindingSession,
    }
}

/// The step of authenticating with the session `token` at `now`, from `stage` given
/// `answer`: a missing session is refused; an expired one (valid up to and including
/// its expiry) is deleted and refused; otherwise the session's user is looked up, and
/// the request is authenticated exactly when the user exists. Every refusal is
/// `Authentication`; the deletion of an expired session is the only write.
pub open spec fn auth_step_ok(
    token: Seq<char>,
    now: i64,
    stage: AuthStage,
    answer: AnswerView,
    action: ActionView,
    next: AuthStage,
) -> bool {
    let refused = ActionView::Finish(Err(AppErrorView::Authentication));
    match stage {
        AuthStage::FindingSession => match answer {
            AnswerView::Session(None) => action == refused && next == AuthStage::Finished,
            AnswerView::Session(Some((user, expires_at))) => if expires_at < now {
                action == ActionView::Run(
                    session_delete_by_token_sql(),
                    seq![SqlParamView::Text(token)],
                ) && next == AuthStage::DeletingExpired
            } else {
                action == ActionView::Run(user_by_id_sql(), seq![SqlParamView::Uuid(user)])
                    && next == AuthStage::FindingUser
            },
            _ => false,
        },
        AuthStage::DeletingExpired => action == refused && next == AuthStage::Finished,
        AuthStage::FindingUser => match answer {
            AnswerView::Found(true) => action == ActionView::Finish(Ok(())) && next
                == AuthStage::Finished,
            AnswerView::Found(false) => action == refused && next == AuthStage::Finished,
            _ => false,
        },
        AuthStage::Finished => false,
    }
}

/// Authenticating a request: the value of its session cookie, if it has one, and the
/// instant of the request.
pub struct Authentication {
    pub token: Option<String>,
    pub now: i64,
}

impl Authentication {
    /// The first action.
    pub fn start(&self) -> (r: (Action, AuthStage))
        ensures
            auth_start_ok(
                match self.token {
                    Some(t) => Some(t@),
                    None => None,
                },
                r.0@,
                r.1,
            ),
    {
        match &self.token {
            None => (Action::Finish(Err(AppError::Authentication)), AuthStage::Finished),
            Some(t) => (Action::Run(SessionStore::find_by_token(t.as_str())), AuthStage::FindingSession),
        }
    }

    /// The action after `stage`, given what the last action returned.
    pub fn step(&self, stage: AuthStage, answer: Answer) -> (r: (Action, AuthStage))
        requires
            auth_fits(stage, answer@),
            self.token is Some,
        ensures
            auth_step_ok(self.token.unwrap()@, self.now, stage, answer@, r.0@, r.1),
    {
        match stage {
            AuthStage::FindingSession => match answer {
                Answer::Session(Some((user, expires_at))) => {
                    if expires_at < self.now {
                        let t = match &self.token {
                            Some(t) => t.as_str(),
                            None => "",
                        };
                        (Action::Run(SessionStore::delete_by_token(t)), AuthStage::DeletingExpired)
                    } else {
                        (Action::Run(UserStore::find_by_id(&user)), AuthStage::FindingUser)
                    }
                },
                _ => (Action::Finish(Err(AppError::Authentication)), AuthStage::Finished),
            },
            AuthStage::DeletingExpired => (
                Action::Finish(Err(AppError::Authentication)),
                AuthStage::Finished,
            ),
            AuthStage::FindingUser => match answer {
                Answer::Found(true) => (Action::Finish(Ok(())), AuthStage::Finished),
                _ => (Action::Finish(Err(AppError::Authentication)), AuthStage::Finished),
            },
            AuthStage::Finished => (Action::Finish(Err(AppError::Authentication)), AuthStage::Finished),
        }
    }
}

// ----- What the flows never do -----

/// A refused registration commits nothing: it is refused either before the transaction
/// opens (the address is taken) or before its commit (the password cannot be hashed).
pub proof fn lemma_refused_registration_commits_nothing(
    email: Seq<char>,
    password: Seq<char>,
    first_name: Seq<char>,
    last_name: Seq<char>,
    stage: RegisterStageView,
    answer: AnswerView,
    action: ActionView,
    next: RegisterStageView,
)
    requires
        register_step_ok(email, password, first_name, last_name, stage, answer, action, next),
        action matches ActionView::Finish(Err(_)),
    ensures
        stage is LookingUp || stage is CreatingActor,
        next == RegisterStageView::Finished(None),
{
}

/// The stages of an invite request that come after a write: the deletion of an expired
/// invite, the storing of the new one, the mail.
pub open spec fn invite_stage_after_write(stage: InviteStageView) -> bool {
    stage is DeletingExpired || stage is Storing || stage is Sending
}

/// A refused invite request stores, deletes and sends nothing: every refusal is taken at
/// a stage before any write.
pub proof fn lemma_refused_invite_writes_nothing(
    inviter: u128,
    email: Seq<char>,
    role: Seq<char>,
    token: Seq<char>,
    now: i64,
    stage: InviteStageView,
    answer: AnswerView,
    action: ActionView,
    next: InviteStageView,
)
    requires
        invite_step_ok(inviter, email, role, token, now, stage, answer, action, next),
        action matches ActionView::Finish(Err(_)),
    ensures
        !invite_stage_after_write(stage),
        next == InviteStageView::Finished,
{
}

/// A refused acceptance keeps the invite: the invite is deleted only after the role has
/// been assigned, and every refusal comes before that.
pub proof fn lemma_refused_acceptance_keeps_the_invite(
    token: Seq<char>,
    now: i64,
    password: Seq<char>,
    first_name: Seq<char>,
    last_name: Seq<char>,
    stage: AcceptStageView,
    answer: AnswerView,
    action: ActionView,
    next: AcceptStageView,
)
    requires
        accept_step_ok(token, now, password, first_name, last_name, stage, answer, action, next),
        action matches ActionView::Finish(Err(_)),
    ensures
        stage is FindingInvite || stage is Registering || stage is FindingRole,
        next == AcceptStageView::Finished,
{
}

} // verus!
