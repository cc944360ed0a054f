//! What an operation is handed: the records it may touch, already resolved
//! and held exclusively for the duration of the call, and the identity of
//! the authenticated signer.

use vstd::prelude::*;
use crate::identity::Identity;
use crate::state::{
    DelegatedNotificationSenders, PushCommStorageV3, Subscription, UserNotificationSettings,
    UserStorage,
};

verus! {

/// Records for `initialize`.
#[derive(Debug, PartialEq, Eq)]
pub struct InitializeCTX {
    pub storage: PushCommStorageV3,
    pub signer: Identity,
}

/// Records for the administrative setters and the pause switch.
#[derive(Debug, PartialEq, Eq)]
pub struct AdminStorageUpdateCTX {
    pub storage: PushCommStorageV3,
    pub signer: Identity,
}

/// Records for `verify_channel_alias`.
#[derive(Debug, PartialEq, Eq)]
pub struct AliasVerificationCTX {
    pub storage: PushCommStorageV3,
    pub signer: Identity,
}

/// Records for `subscribe`: the signer's account, the (signer, channel)
/// membership, and the configuration whose user counter may grow.
#[derive(Debug, PartialEq, Eq)]
pub struct SubscribeCTX {
    pub storage: UserStorage,
    pub subscription: Subscription,
    pub comm_storage: PushCommStorageV3,
    pub signer: Identity,
}

/// Records for `unsubscribe`.
#[derive(Debug, PartialEq, Eq)]
pub struct UnsubscribeCTX {
    pub storage: UserStorage,
    pub subscription: Subscription,
    pub comm_storage: PushCommStorageV3,
    pub signer: Identity,
}

/// Records for `set_user_notification_settings`: the (signer, channel)
/// preference slot and the (signer, channel) membership.
#[derive(Debug, PartialEq, Eq)]
pub struct UserChannelSettingsCTX {
    pub storage: UserNotificationSettings,
    pub subscription: Subscription,
    pub signer: Identity,
}

/// Records for `add_delegate`: the (signer, delegate) permission.
#[derive(Clone, Copy, Debug, PartialEq, Eq)]
pub struct AddDelegateNotifSenders {
    pub storage: DelegatedNotificationSenders,
    pub signer: Identity,
}

/// Records for `remove_delegate`: the (signer, delegate) permission.
#[derive(Clone, Copy, Debug, PartialEq, Eq)]
pub struct RemoveDelegateNotifSenders {
    pub storage: DelegatedNotificationSenders,
    pub signer: Identity,
}

/// Records for `send_notification`: the (channel, signer) permission.
#[derive(Clone, Copy, Debug, PartialEq, Eq)]
pub struct SendNotificationCTX {
    pub delegate_storage: DelegatedNotificationSenders,
    pub signer: Identity,
}

} // verus!
