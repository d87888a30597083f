//! The permission catalogue and the resource context of permission checks.
use crate::models::ShopId;
use vstd::prelude::*;

verus! {

/// All system-wide (global) permissions recognised by the authorization engine.
#[derive(Debug, Clone, Copy, PartialEq, Eq, Structural)]
pub enum GlobalPermission {
    /// Configure system-wide settings.
    ConfigureSettings,
    /// Send an invite to a new user.
    SendInvite,
    /// View all existing invites.
    ViewInvite,
    /// Remove a user from the system.
    RemoveUser,
    /// Read user details.
    ReadUser,
    /// Remove a guest from the system.
    RemoveGuest,
    /// Read guest details.
    ReadGuest,
}

/// The permission string stored in the database for a global permission.
pub open spec fn global_permission_name(p: GlobalPermission) -> Seq<char> {
    match p {
        GlobalPermission::ConfigureSettings => "settings.configure"@,
        GlobalPermission::SendInvite => "invite.send"@,
        GlobalPermission::ViewInvite => "invite.view"@,
        GlobalPermission::RemoveUser => "user.remove"@,
        GlobalPermission::ReadUser => "user.read"@,
        GlobalPermission::RemoveGuest => "guest.remove"@,
        GlobalPermission::ReadGuest => "guest.read"@,
    }
}

impl GlobalPermission {
    /// The permission string stored in the database.
    pub fn as_str(self) -> (s: &'static str)
        ensures
            s@ == global_permission_name(self),
    {
        match self {
            GlobalPermission::ConfigureSettings => "settings.configure",
            GlobalPermission::SendInvite => "invite.send",
            GlobalPermission::ViewInvite => "invite.view",
            GlobalPermission::RemoveUser => "user.remove",
            GlobalPermission::ReadUser => "user.read",
            GlobalPermission::RemoveGuest => "guest.remove",
            GlobalPermission::ReadGuest => "guest.read",
        }
    }
}

/// Takes apart a value of `core::convert::Infallible`; the `match` has no arm,
/// since the type has no values, so no call can ever happen.
#[verifier::external_body]
fn no_shop_permission(never: core::convert::Infallible) -> &'static str {
    match never {}
}

/// All shop-scoped permissions. None is defined yet: the only variant holds a value of
/// a type that has none, so the type has no values.
#[derive(Debug, Clone, Copy, PartialEq, Eq)]
pub enum ShopPermission {
    Undefined(core::convert::Infallible),
}

impl ShopPermission {
    /// The permission string stored in the database. The type has no values,
    /// so this is never called.
    pub fn as_str(self) -> &'static str {
        match self {
            ShopPermission::Undefined(never) => no_shop_permission(never),
        }
    }
}

/// The global permissions in catalogue order.
pub open spec fn catalogue_order() -> Seq<GlobalPermission> {
    seq![
        GlobalPermission::ConfigureSettings,
        GlobalPermission::SendInvite,
        GlobalPermission::ViewInvite,
        GlobalPermission::RemoveUser,
        GlobalPermission::ReadUser,
        GlobalPermission::RemoveGuest,
        GlobalPermission::ReadGuest,
    ]
}

/// The human-readable description of a global permission in the catalogue.
pub open spec fn global_permission_description(p: GlobalPermission) -> Seq<char> {
    match p {
        GlobalPermission::ConfigureSettings => "Configure system-wide settings."@,
        GlobalPermission::SendInvite => "Send an invite to a new user."@,
        GlobalPermission::ViewInvite => "View all existing invites."@,
        GlobalPermission::RemoveUser => "Remove a user from the system."@,
        GlobalPermission::ReadUser => "Read user details."@,
        GlobalPermission::RemoveGuest => "Remove a guest from the system."@,
        GlobalPermission::ReadGuest => "Read guest details."@,
    }
}

/// Static metadata about a single permission, as listed by `GET /api/permissions`.
#[derive(Debug, Clone)]
pub struct PermissionDef {
    /// The permission string stored in the database (e.g. `"settings.configure"`).
    pub name: &'static str,
    /// Human-readable description.
    pub description: &'static str,
    /// Which resource type this permission targets: `"global"` or `"shop"`.
    pub resource_type: &'static str,
}

/// The catalogue entry of a global permission.
pub open spec fn describes(def: PermissionDef, p: GlobalPermission) -> bool {
    &&& def.name@ == global_permission_name(p)
    &&& def.description@ == global_permission_description(p)
    &&& def.resource_type@ == "global"@
}

fn global_def(p: GlobalPermission, description: &'static str) -> (def: PermissionDef)
    requires
        description@ == global_permission_description(p),
    ensures
        describes(def, p),
{
    PermissionDef { name: p.as_str(), description, resource_type: "global" }
}

/// All permissions recognised by the system, one entry per permission, in catalogue order.
pub fn permissions() -> (defs: Vec<PermissionDef>)
    ensures
        defs@.len() == catalogue_order().len(),
        forall|i: int| 0 <= i < defs@.len() ==> describes(#[trigger] defs@[i], catalogue_order()[i]),
{
    let mut defs: Vec<PermissionDef> = Vec::new();
    defs.push(global_def(GlobalPermission::ConfigureSettings, "Configure system-wide settings."));
    defs.push(global_def(GlobalPermission::SendInvite, "Send an invite to a new user."));
    defs.push(global_def(GlobalPermission::ViewInvite, "View all existing invites."));
    defs.push(global_def(GlobalPermission::RemoveUser, "Remove a user from the system."));
    defs.push(global_def(GlobalPermission::ReadUser, "Read user details."));
    defs.push(global_def(GlobalPermission::RemoveGuest, "Remove a guest from the system."));
    defs.push(global_def(GlobalPermission::ReadGuest, "Read guest details."));
    defs
}

/// The resource context for a permission check.
///
/// - `Global`: system-wide, no specific resource.
/// - `Shop(Some(id))`: the permission applies only to this specific shop.
/// - `Shop(None)`: the permission applies to any shop (wildcard).
#[derive(Clone)]
pub enum Resource {
    Global,
    Shop(Option<ShopId>),
}

/// The `resource_type` column value of a resource context.
pub open spec fn resource_type_name(r: Resource) -> Seq<char> {
    match r {
        Resource::Global => "global"@,
        Resource::Shop(_) => "shop"@,
    }
}

/// The `resource_id` column value of a resource context; `None` stands for any resource.
pub open spec fn resource_id_value(r: Resource) -> Option<u128> {
    match r {
        Resource::Global => None,
        Resource::Shop(None) => None,
        Resource::Shop(Some(id)) => Some(id@),
    }
}

impl Resource {
    /// The `resource_type` column value stored in `granted_permissions`.
    pub fn resource_type(&self) -> (s: &'static str)
        ensures
            s@ == resource_type_name(*self),
    {
        match self {
            Resource::Global => "global",
            Resource::Shop(_) => "shop",
        }
    }

    /// The `resource_id` column value; `None` means "any resource of this type".
    pub fn resource_id(&self) -> (id: Option<u128>)
        ensures
            id == resource_id_value(*self),
    {
        match self {
            Resource::Global => None,
            Resource::Shop(None) => None,
            Resource::Shop(Some(id)) => Some(id.into_inner()),
        }
    }
}

/// Distinct global permissions are stored under distinct permission strings, so a stored
/// string names at most one permission.
pub proof fn lemma_permission_names_distinct(p: GlobalPermission, q: GlobalPermission)
    requires
        p != q,
    ensures
        global_permission_name(p) != global_permission_name(q),
{
    reveal_strlit("settings.configure");
    reveal_strlit("invite.send");
    reveal_strlit("invite.view");
    reveal_strlit("user.remove");
    reveal_strlit("user.read");
    reveal_strlit("guest.remove");
    reveal_strlit("guest.read");
    let a = global_permission_name(p);
    let b = global_permission_name(q);
    if a == b {
        assert(a.len() == b.len());
        assert(a[0] == b[0]);
        assert(a[a.len() - 2] == b[b.len() - 2]);
        assert(a[6] == b[6]);
    }
}

/// The catalogue lists every global permission exactly once, and every entry's permission
/// string is non-empty and targets the `global` resource type.
pub proof fn lemma_catalogue_complete(p: GlobalPermission)
    ensures
        exists|i: int| 0 <= i < catalogue_order().len() && catalogue_order()[i] == p,
        forall|i: int, j: int|
            0 <= i < j < catalogue_order().len() ==> catalogue_order()[i] != catalogue_order()[j],
        global_permission_name(p).len() > 0,
        global_permission_description(p).len() > 0,
{
    reveal_strlit("settings.configure");
    reveal_strlit("invite.send");
    reveal_strlit("invite.view");
    reveal_strlit("user.remove");
    reveal_strlit("user.read");
    reveal_strlit("guest.remove");
    reveal_strlit("guest.read");
    reveal_strlit("Configure system-wide settings.");
    reveal_strlit("Send an invite to a new user.");
    reveal_strlit("View all existing invites.");
    reveal_strlit("Remove a user from the system.");
    reveal_strlit("Read user details.");
    reveal_strlit("Remove a guest from the system.");
    reveal_strlit("Read guest details.");
    let order = catalogue_order();
    match p {
        GlobalPermission::ConfigureSettings => assert(order[0] == p),
        GlobalPermission::SendInvite => assert(order[1] == p),
        GlobalPermission::ViewInvite => assert(order[2] == p),
        GlobalPermission::RemoveUser => assert(order[3] == p),
        GlobalPermission::ReadUser => assert(order[4] == p),
        GlobalPermission::RemoveGuest => assert(order[5] == p),
        GlobalPermission::ReadGuest => assert(order[6] == p),
    }
}

} // verus!
