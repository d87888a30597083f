//! The decisions of inviting a user and of accepting an invite. Instants are microseconds
//! since the Unix epoch (UTC); the caller reads the clock and the database.
use crate::credentials::Email;
use crate::error::{AppError, AppErrorView};
use crate::id::{uuid_text, uuid_variant, uuid_version};
use crate::models::{ActorId, UserId, WalletCreation};
use vstd::prelude::*;

verus! {

/// How long an invite stays valid: seven days, in microseconds.
pub open spec fn invite_lifetime_spec() -> i64 {
    604_800_000_000
}

/// How long an invite stays valid: seven days, in microseconds.
pub fn invite_lifetime() -> (micros: i64)
    ensures
        micros == invite_lifetime_spec(),
        micros == 7 * 24 * 60 * 60 * 1_000_000,
{
    604_800_000_000
}

/// Whether something that expires at `expires_at` has expired at `now`.
pub fn is_expired(expires_at: i64, now: i64) -> (expired: bool)
    ensures
        expired == (expires_at < now),
{
    expires_at < now
}

/// `text` is the hyphenated text of a random (version 4, RFC 4122 variant) UUID.
pub open spec fn is_uuid_v4_text(text: Seq<char>) -> bool {
    exists|bits: u128| text == uuid_text(bits) && uuid_version(bits) == 4 && uuid_variant(bits) == 2
}

/// A fresh invite token: `uuid::Uuid::new_v4().to_string()`.
/// The token is random; claimed only that it is the hyphenated text of some
/// version 4 UUID, as the uuid source shows.
#[verifier::external_body]
fn uuid_v4_text() -> (token: String)
    ensures
        is_uuid_v4_text(token@),
{
    uuid::Uuid::new_v4().to_string()
}

/// A fresh invite token, the text of a random (version 4) UUID.
pub fn new_invite_token() -> (token: String)
    ensures
        is_uuid_v4_text(token@),
{
    uuid_v4_text()
}

/// An invite to be stored.
pub struct InviteCreation {
    pub invitor: UserId,
    pub email: Email,
    pub token: String,
    pub role: String,
    /// How long the invite stays valid, in microseconds.
    pub expires_in: i64,
}

/// The invite that `invitor` sends to `email` for `role`, with a fresh token, valid for
/// seven days.
pub fn invite_creation(invitor: UserId, email: Email, role: String) -> (c: InviteCreation)
    ensures
        c.invitor@ == invitor@,
        c.email@ == email@,
        c.role@ == role@,
        c.expires_in == invite_lifetime_spec(),
        is_uuid_v4_text(c.token@),
{
    InviteCreation {
        invitor,
        email,
        token: new_invite_token(),
        role,
        expires_in: invite_lifetime(),
    }
}

/// The refusal of an invite for a role that does not exist.
pub fn unknown_role(role: &str) -> (e: AppError)
    ensures
        e@ == AppErrorView::BadRequest("Role '"@ + role@ + "' does not exist"@),
{
    AppError::BadRequest(String::from_str("Role '").concat(role).concat("' does not exist"))
}

/// Whether an invite can be sent for `role`, given whether a role of that name exists:
/// where none does, the invite is refused before anything is stored or sent.
pub fn invite_role(role: &str, role_exists: bool) -> (r: Result<(), AppError>)
    ensures
        r is Ok <==> role_exists,
        r matches Err(e) ==> e@ == AppErrorView::BadRequest(
            "Role '"@ + role@ + "' does not exist"@,
        ),
{
    if role_exists {
        Ok(())
    } else {
        Err(unknown_role(role))
    }
}

/// What to do about an invite already sent to the address, given when it expires (if
/// there is one): `Ok(false)` to go on, `Ok(true)` to delete the expired invite first and
/// go on, `InviteAlreadySent` while it is still valid.
pub fn existing_invite(expires_at: Option<i64>, now: i64) -> (r: Result<bool, AppError>)
    ensures
        match expires_at {
            None => r == Ok::<bool, AppError>(false),
            Some(t) => if t < now {
                r == Ok::<bool, AppError>(true)
            } else {
                r matches Err(e) && e@ == AppErrorView::InviteAlreadySent
            },
        },
{
    match expires_at {
        None => Ok(false),
        Some(t) => {
            if is_expired(t, now) {
                Ok(true)
            } else {
                Err(AppError::InviteAlreadySent)
            }
        },
    }
}

/// The name an invitation is signed with: `first last` of the inviting user, or
/// `Someone` where that user is not found.
pub open spec fn inviter_name_text(names: Option<(Seq<char>, Seq<char>)>) -> Seq<char> {
    match names {
        Some((first, last)) => first + " "@ + last,
        None => "Someone"@,
    }
}

/// The name an invitation is signed with.
pub fn inviter_name(first_name: Option<&str>, last_name: Option<&str>) -> (name: String)
    requires
        first_name is Some <==> last_name is Some,
    ensures
        name@ == inviter_name_text(
            match first_name {
                Some(f) => Some((f@, last_name.unwrap()@)),
                None => None,
            },
        ),
{
    match (first_name, last_name) {
        (Some(first), Some(last)) => String::from_str(first).concat(" ").concat(last),
        _ => String::from_str("Someone"),
    }
}

/// Whether an invite found by its token (with its expiry, or `None` where no invite
/// has the token) can be accepted at `now`.
pub fn invite_acceptance(expires_at: Option<i64>, now: i64) -> (r: Result<(), AppError>)
    ensures
        match expires_at {
            None => r matches Err(e) && e@ == AppErrorView::NotFound,
            Some(t) => if t < now {
                r matches Err(e) && e@ == AppErrorView::InviteExpired
            } else {
                r is Ok
            },
        },
{
    match expires_at {
        None => Err(AppError::NotFound),
        Some(t) => {
            if is_expired(t, now) {
                Err(AppError::InviteExpired)
            } else {
                Ok(())
            }
        },
    }
}

/// The refusal of an accepted invite whose role no longer exists.
pub fn missing_invite_role(role: &str) -> (e: AppError)
    ensures
        e@ == AppErrorView::BadRequest(
            "Invite role '"@ + role@ + "' does not exist; ask an admin to fix this invite"@,
        ),
{
    AppError::BadRequest(
        String::from_str("Invite role '").concat(role).concat(
            "' does not exist; ask an admin to fix this invite",
        ),
    )
}

/// Why registering with an address is refused, if it is: a user already has it.
pub open spec fn registration_refusal(address_taken: bool) -> Option<AppErrorView> {
    if address_taken {
        Some(AppErrorView::UserAlreadyExists)
    } else {
        None
    }
}

/// The error of a failed step, or `None` where it succeeded.
pub open spec fn refusal_of(r: Result<(), AppError>) -> Option<AppErrorView> {
    match r {
        Ok(_) => None,
        Err(e) => Some(e@),
    }
}

/// The outcome of seeding the owner account from why registering it was refused (or
/// `None` where it was registered): created (`true`), already there (`false`), or failed.
pub open spec fn owner_seed_result(refusal: Option<AppErrorView>) -> Result<bool, AppErrorView> {
    match refusal {
        None => Ok(true),
        Some(AppErrorView::UserAlreadyExists) => Ok(false),
        Some(e) => Err(e),
    }
}

/// Whether a user can be registered with an address: not when a user already has it.
pub fn registration(address_taken: bool) -> (r: Result<(), AppError>)
    ensures
        match r {
            Ok(_) => !address_taken,
            Err(e) => address_taken && e@ == AppErrorView::UserAlreadyExists,
        },
        refusal_of(r) == registration_refusal(address_taken),
{
    if address_taken {
        Err(AppError::UserAlreadyExists)
    } else {
        Ok(())
    }
}

/// The outcome of seeding the owner account from the outcome of registering it:
/// `Ok(true)` when it was created, `Ok(false)` when it already existed, and any other
/// failure unchanged.
pub fn owner_seed(registered: Result<(), AppError>) -> (r: Result<bool, AppError>)
    ensures
        match registered {
            Ok(_) => r == Ok::<bool, AppError>(true),
            Err(e) => if e@ == AppErrorView::UserAlreadyExists {
                r == Ok::<bool, AppError>(false)
            } else {
                r matches Err(e2) && e2@ == e@
            },
        },
        match r {
            Ok(b) => owner_seed_result(refusal_of(registered)) == Ok::<bool, AppErrorView>(b),
            Err(e) => owner_seed_result(refusal_of(registered)) == Err::<bool, AppErrorView>(e@),
        },
{
    match registered {
        Ok(_) => Ok(true),
        Err(AppError::UserAlreadyExists) => Ok(false),
        Err(e) => Err(e),
    }
}

/// Seeding the owner account creates it exactly when no user has the owner's address.
/// Once it exists, seeding again registers nothing and succeeds, reporting that the
/// account was already there: the owner is seeded once.
pub proof fn lemma_owner_seeded_once(address_taken: bool)
    ensures
        owner_seed_result(registration_refusal(address_taken)) == Ok::<bool, AppErrorView>(
            !address_taken,
        ),
        owner_seed_result(registration_refusal(true)) == Ok::<bool, AppErrorView>(false),
{
}

/// The wallet that every newly registered user gets: owned by the user's actor, without
/// a label, and not allowed to overdraw.
pub fn personal_wallet(owner: ActorId) -> (c: WalletCreation)
    ensures
        c.owner matches Some(o) && o@ == owner@,
        c.label is None,
        !c.allow_overdraft,
{
    WalletCreation { owner: Some(owner), label: None, allow_overdraft: false }
}

/// The wallet seeded for a system label: owned by no actor, carrying the label, and
/// allowed to overdraw.
pub fn system_wallet(label: String) -> (c: WalletCreation)
    ensures
        c.owner is None,
        c.label matches Some(l) && l@ == label@,
        c.allow_overdraft,
{
    WalletCreation { owner: None, label: Some(label), allow_overdraft: true }
}

} // verus!
