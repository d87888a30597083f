//! The entities that identifiers name. An `Id<User>` names a user, an `Id<Shop>` a shop;
//! the records themselves are kept by the store layer.
use crate::credentials::{Email, HashedPassword};
use crate::id::Id;
use vstd::prelude::*;

verus! {

/// The kind of actors: the parties behind users and guests, and the owners of wallets.
pub struct Actor;

/// The kind of registered users.
pub struct User;

/// The kind of guests.
pub struct Guest;

/// The kind of roles.
pub struct Role;

/// The kind of shops.
pub struct Shop;

/// The kind of invites.
pub struct Invite;

/// The kind of sessions.
pub struct Session;

/// The kind of wallets.
pub struct Wallet;

pub type ActorId = Id<Actor>;

pub type UserId = Id<User>;

pub type GuestId = Id<Guest>;

pub type RoleId = Id<Role>;

pub type ShopId = Id<Shop>;

pub type InviteId = Id<Invite>;

pub type SessionId = Id<Session>;

pub type WalletId = Id<Wallet>;

/// The fields of a role to be created.
pub struct RoleCreation {
    pub name: String,
    pub description: Option<String>,
}

/// The user and the role of an assignment to be created.
pub struct UserRoleCreation {
    pub user_id: UserId,
    pub role_id: RoleId,
}

/// A permission to attach to a role, with its optional scope (`scope_kind` such as
/// `"shop"`, and the one resource in `scope_id`, or `None` for all of that kind).
pub struct RolePermissionCreation {
    pub role_id: RoleId,
    pub permission: String,
    pub scope_kind: Option<String>,
    pub scope_id: Option<u128>,
}

pub type RolePermissionId = Id<RolePermission>;

pub type UserRoleId = Id<UserRole>;

/// The kind of permissions attached to roles.
pub struct RolePermission;

/// The kind of role assignments.
pub struct UserRole;

/// The kind of shop memberships.
pub struct ShopMember;

/// The kind of money transfers between wallets.
pub struct Transaction;

pub type ShopMemberId = Id<ShopMember>;

pub type TransactionId = Id<Transaction>;

/// The fields of a user to be created.
pub struct UserCreation {
    pub actor_id: ActorId,
    pub email: Email,
    pub password: HashedPassword,
    pub first_name: String,
    pub last_name: String,
}

/// The fields of a user to be changed; `None` keeps the stored value.
pub struct UserUpdate {
    pub email: Option<Email>,
    pub password: Option<HashedPassword>,
    pub first_name: Option<String>,
    pub last_name: Option<String>,
}

/// A session to be created, valid for `expires_in` microseconds.
pub struct SessionCreation {
    pub user_id: UserId,
    pub token: String,
    pub user_agent: Option<String>,
    pub ip_address: Option<String>,
    pub expires_in: i64,
}

/// The fields of a guest to be created.
pub struct GuestCreation {
    pub actor_id: ActorId,
    pub email: Email,
    pub verified: bool,
}

/// The fields of a guest to be changed; `None` keeps the stored value.
pub struct GuestUpdate {
    pub email: Option<Email>,
    pub verified: Option<bool>,
}

/// A wallet to be created: its owner, or its label for a system wallet.
pub struct WalletCreation {
    pub owner: Option<ActorId>,
    pub label: Option<String>,
    pub allow_overdraft: bool,
}

/// The fields of a wallet to be changed: `label` is `None` to keep the label, `Some(None)`
/// to clear it; `allow_overdraft` is `None` to keep the setting.
pub struct WalletUpdate {
    pub label: Option<Option<String>>,
    pub allow_overdraft: Option<bool>,
}

/// The fields of a shop to be created.
pub struct ShopCreation {
    pub owner: Option<UserId>,
    pub name: String,
}

/// The fields of a shop to be changed: `owner` is `None` to keep the owner, `Some(None)`
/// to clear it; `name` is `None` to keep the name.
pub struct ShopUpdate {
    pub owner: Option<Option<UserId>>,
    pub name: Option<String>,
}

/// The fields of an invite to be changed: its status text, or `None` to keep it.
pub struct InviteUpdate {
    pub status: Option<String>,
}

/// A money transfer from one wallet to another, in minor units; instants are
/// microseconds since the Unix epoch (UTC).
pub struct TransactionEntry {
    pub id: TransactionId,
    pub sender_wallet_id: WalletId,
    pub receiver_wallet_id: WalletId,
    pub executor_actor_id: ActorId,
    pub amount: i64,
    pub description: Option<String>,
    pub created_at: i64,
    pub updated_at: i64,
}

/// The kind of the things a shop offers.
pub struct ShopOffering;

pub type ShopOfferingId = Id<ShopOffering>;

/// An offering to be added to a shop; its price in minor currency units.
pub struct ShopOfferingCreation {
    pub name: String,
    pub description: Option<String>,
    pub price_minor: i64,
}

/// The fields of an offering to be changed: `description` is `None` to keep it,
/// `Some(None)` to clear it; `name` and `price_minor` are `None` to keep them.
pub struct ShopOfferingUpdate {
    pub name: Option<String>,
    pub description: Option<Option<String>>,
    pub price_minor: Option<i64>,
}

} // verus!
