use cayopay_server::models::ShopId;
use cayopay_server::permission::{permissions, GlobalPermission, Resource};

#[test]
fn all_permissions_have_nonempty_names() {
    for p in permissions() {
        assert!(!p.name.is_empty());
        assert!(!p.description.is_empty());
        assert!(p.resource_type == "global" || p.resource_type == "shop");
    }
}

#[test]
fn global_permission_as_str() {
    assert_eq!(GlobalPermission::ConfigureSettings.as_str(), "settings.configure");
    assert_eq!(GlobalPermission::SendInvite.as_str(), "invite.send");
    assert_eq!(GlobalPermission::ViewInvite.as_str(), "invite.view");
    assert_eq!(GlobalPermission::RemoveUser.as_str(), "user.remove");
    assert_eq!(GlobalPermission::ReadUser.as_str(), "user.read");
    assert_eq!(GlobalPermission::RemoveGuest.as_str(), "guest.remove");
    assert_eq!(GlobalPermission::ReadGuest.as_str(), "guest.read");
}

#[test]
fn resource_type_strings() {
    assert_eq!(Resource::Global.resource_type(), "global");
    assert_eq!(Resource::Shop(None).resource_type(), "shop");
}

#[test]
fn catalogue_lists_every_permission_once_in_order() {
    let all = [
        GlobalPermission::ConfigureSettings,
        GlobalPermission::SendInvite,
        GlobalPermission::ViewInvite,
        GlobalPermission::RemoveUser,
        GlobalPermission::ReadUser,
        GlobalPermission::RemoveGuest,
        GlobalPermission::ReadGuest,
    ];
    let defs = permissions();
    assert_eq!(defs.len(), all.len());
    for (def, p) in defs.iter().zip(all.iter()) {
        assert_eq!(def.name, p.as_str());
        assert_eq!(def.resource_type, "global");
    }
    assert_eq!(defs[0].description, "Configure system-wide settings.");
    assert_eq!(defs[6].description, "Read guest details.");
}

#[test]
fn permission_names_are_distinct() {
    let defs = permissions();
    for i in 0..defs.len() {
        for j in 0..defs.len() {
            if i != j {
                assert_ne!(defs[i].name, defs[j].name);
            }
        }
    }
}

#[test]
fn resource_ids() {
    let shop = ShopId::from_uuid(0x0123_4567_89ab_cdef_0123_4567_89ab_cdef);
    assert_eq!(Resource::Global.resource_id(), None);
    assert_eq!(Resource::Shop(None).resource_id(), None);
    assert_eq!(
        Resource::Shop(Some(shop)).resource_id(),
        Some(0x0123_4567_89ab_cdef_0123_4567_89ab_cdef)
    );
    assert_eq!(Resource::Shop(Some(shop)).resource_type(), "shop");
}
