//! Authority checks. Every mutating operation evaluates its check before it
//! touches a record, so a refused caller changes nothing.

use vstd::prelude::*;
use crate::errors::PushCommError;
use crate::identity::Identity;
use crate::state::{DelegatedNotificationSenders, PushCommStorageV3, PushCommStorageV3View};

verus! {

/// The signer is the channel admin of the deployment.
pub open spec fn is_channel_admin(storage: PushCommStorageV3View, signer: Identity) -> bool {
    signer == storage.push_channel_admin
}

/// The signer is the governance authority of the deployment.
pub open spec fn is_governance(storage: PushCommStorageV3View, signer: Identity) -> bool {
    signer == storage.governance
}

/// The signer may send for `channel`: it is the channel itself, or the
/// resolved (channel, signer) permission names it and is switched on.
pub open spec fn may_send(
    delegate_storage: DelegatedNotificationSenders,
    signer: Identity,
    channel: Identity,
) -> bool {
    signer == channel || (delegate_storage.delegate == signer && delegate_storage.is_delegate)
}

/// Passes for the channel admin, fails with `Unauthorized` for anyone else.
pub fn require_channel_admin(storage: &PushCommStorageV3, signer: &Identity) -> (r: Result<
    (),
    PushCommError,
>)
    ensures
        is_channel_admin(storage@, *signer) ==> r is Ok,
        !is_channel_admin(storage@, *signer) ==> r == Err::<(), PushCommError>(
            PushCommError::Unauthorized,
        ),
{
    if *signer == storage.push_channel_admin {
        Ok(())
    } else {
        Err(PushCommError::Unauthorized)
    }
}

/// Passes for the governance authority, fails with `Unauthorized` for anyone
/// else.
pub fn require_governance(storage: &PushCommStorageV3, signer: &Identity) -> (r: Result<
    (),
    PushCommError,
>)
    ensures
        is_governance(storage@, *signer) ==> r is Ok,
        !is_governance(storage@, *signer) ==> r == Err::<(), PushCommError>(
            PushCommError::Unauthorized,
        ),
{
    if *signer == storage.governance {
        Ok(())
    } else {
        Err(PushCommError::Unauthorized)
    }
}

/// Decides whether the signer may send for `channel`.
pub fn check_may_send(
    delegate_storage: &DelegatedNotificationSenders,
    signer: &Identity,
    channel: &Identity,
) -> (r: bool)
    ensures
        r == may_send(*delegate_storage, *signer, *channel),
{
    (delegate_storage.delegate == *signer && delegate_storage.is_delegate) || *signer == *channel
}

} // verus!
