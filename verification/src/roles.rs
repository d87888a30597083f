//! The answers to requests that need permissions of the user's role. Whether the role
//! holds a permission is decided by the role table; these functions are given that
//! answer for each permission asked about, in order.
use crate::error::{AppError, AppErrorView, AuthError, AuthErrorView};
use vstd::prelude::*;

verus! {

/// Whether any of the answers is yes.
pub fn any_held(held: &[bool]) -> (any: bool)
    ensures
        any <==> exists|i: int| 0 <= i < held@.len() && held@[i],
{
    let mut i: usize = 0;
    while i < held.len()
        invariant
            i <= held@.len(),
            forall|j: int| 0 <= j < i ==> !held@[j],
        decreases held@.len() - i,
    {
        if held[i] {
            return true;
        }
        i = i + 1;
    }
    false
}

/// Whether all of the answers are yes.
pub fn all_held(held: &[bool]) -> (all: bool)
    ensures
        all <==> forall|i: int| 0 <= i < held@.len() ==> held@[i],
{
    let mut i: usize = 0;
    while i < held.len()
        invariant
            i <= held@.len(),
            forall|j: int| 0 <= j < i ==> held@[j],
        decreases held@.len() - i,
    {
        if !held[i] {
            return false;
        }
        i = i + 1;
    }
    true
}

/// A request that needs one permission of the user's role: refused with `Authorization`
/// unless the role holds it.
pub fn require(held: bool) -> (r: Result<(), AppError>)
    ensures
        r is Ok <==> held,
        r matches Err(e) ==> e@ == AppErrorView::Authorization,
{
    if held {
        Ok(())
    } else {
        Err(AppError::Authorization)
    }
}

/// A request to give another user a role: refused with `Authorization` unless the user's
/// role may assign that role.
pub fn can_assign(allowed: bool) -> (r: Result<(), AppError>)
    ensures
        r is Ok <==> allowed,
        r matches Err(e) ==> e@ == AppErrorView::Authorization,
{
    require(allowed)
}

/// A request that needs any of several permissions: refused with `Authorization` unless
/// the user's role holds one of them.
pub fn require_any(held: &[bool]) -> (r: Result<(), AppError>)
    ensures
        r is Ok <==> exists|i: int| 0 <= i < held@.len() && held@[i],
        r matches Err(e) ==> e@ == AppErrorView::Authorization,
{
    require(any_held(held))
}

/// A request that needs several permissions: refused with `Authorization` unless the
/// user's role holds all of them.
pub fn require_all(held: &[bool]) -> (r: Result<(), AppError>)
    ensures
        r is Ok <==> forall|i: int| 0 <= i < held@.len() ==> held@[i],
        r matches Err(e) ==> e@ == AppErrorView::Authorization,
{
    require(all_held(held))
}

/// A request that needs one permission of the user's role, answered as an
/// authentication failure: `Forbidden` unless the role holds it.
pub fn context_require(held: bool) -> (r: Result<(), AuthError>)
    ensures
        r is Ok <==> held,
        r matches Err(e) ==> e@ == AuthErrorView::Forbidden,
{
    if held {
        Ok(())
    } else {
        Err(AuthError::Forbidden)
    }
}

/// A request to give another user a role, answered as an authentication failure:
/// `Forbidden` unless the user's role may assign that role.
pub fn context_can_assign(allowed: bool) -> (r: Result<(), AuthError>)
    ensures
        r is Ok <==> allowed,
        r matches Err(e) ==> e@ == AuthErrorView::Forbidden,
{
    context_require(allowed)
}

/// A request that needs any of several permissions, answered as an authentication
/// failure: `Forbidden` unless the user's role holds one of them.
pub fn context_require_any(held: &[bool]) -> (r: Result<(), AuthError>)
    ensures
        r is Ok <==> exists|i: int| 0 <= i < held@.len() && held@[i],
        r matches Err(e) ==> e@ == AuthErrorView::Forbidden,
{
    context_require(any_held(held))
}

/// A request that needs several permissions, answered as an authentication failure:
/// `Forbidden` unless the user's role holds all of them.
pub fn context_require_all(held: &[bool]) -> (r: Result<(), AuthError>)
    ensures
        r is Ok <==> forall|i: int| 0 <= i < held@.len() ==> held@[i],
        r matches Err(e) ==> e@ == AuthErrorView::Forbidden,
{
    context_require(all_held(held))
}

} // verus!
