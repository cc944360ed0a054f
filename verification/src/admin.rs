//! The deployment's configuration: how it is first filled in, who may change
//! which field, and the pause switch.
//!
//! The governance authority guards only its own field. The channel admin
//! guards everything else. Each operation checks its authority first and
//! changes nothing when it refuses.

use vstd::prelude::*;
use crate::context::{AdminStorageUpdateCTX, InitializeCTX};
use crate::errors::PushCommError;
use crate::guard::{is_channel_admin, is_governance, require_channel_admin, require_governance};
use crate::identity::Identity;
use crate::state::PushCommStorageV3View;

verus! {

/// The configuration that `initialize` writes.
pub open spec fn spec_initialize(
    storage: PushCommStorageV3View,
    push_admin: Identity,
    chain_cluster: Seq<char>,
) -> PushCommStorageV3View {
    PushCommStorageV3View {
        governance: push_admin,
        push_channel_admin: push_admin,
        chain_cluster,
        user_count: 0,
        paused: false,
        ..storage
    }
}

/// Outcome of replacing the governance authority.
pub open spec fn spec_set_governance_address(
    storage: PushCommStorageV3View,
    signer: Identity,
    governance: Identity,
) -> Result<PushCommStorageV3View, PushCommError> {
    if !is_governance(storage, signer) {
        Err(PushCommError::Unauthorized)
    } else {
        Ok(PushCommStorageV3View { governance, ..storage })
    }
}

/// Outcome of replacing the address of the linked core module.
pub open spec fn spec_set_core_address(
    storage: PushCommStorageV3View,
    signer: Identity,
    core_address: Identity,
) -> Result<PushCommStorageV3View, PushCommError> {
    if !is_channel_admin(storage, signer) {
        Err(PushCommError::Unauthorized)
    } else {
        Ok(PushCommStorageV3View { push_core_address: core_address, ..storage })
    }
}

/// Outcome of replacing the address of the linked token module.
pub open spec fn spec_set_push_token_address(
    storage: PushCommStorageV3View,
    signer: Identity,
    token_address: Identity,
) -> Result<PushCommStorageV3View, PushCommError> {
    if !is_channel_admin(storage, signer) {
        Err(PushCommError::Unauthorized)
    } else {
        Ok(PushCommStorageV3View { push_token_ntt: token_address, ..storage })
    }
}

/// Outcome of replacing the chain-cluster tag.
pub open spec fn spec_set_chain_cluster(
    storage: PushCommStorageV3View,
    signer: Identity,
    chain_cluster: Seq<char>,
) -> Result<PushCommStorageV3View, PushCommError> {
    if !is_channel_admin(storage, signer) {
        Err(PushCommError::Unauthorized)
    } else {
        Ok(PushCommStorageV3View { chain_cluster, ..storage })
    }
}

/// Outcome of pausing.
pub open spec fn spec_pause_contract(storage: PushCommStorageV3View, signer: Identity) -> Result<
    PushCommStorageV3View,
    PushCommError,
> {
    if !is_channel_admin(storage, signer) {
        Err(PushCommError::Unauthorized)
    } else if storage.paused {
        Err(PushCommError::AlreadyPaused)
    } else {
        Ok(PushCommStorageV3View { paused: true, ..storage })
    }
}

/// Outcome of unpausing.
pub open spec fn spec_unpause_contract(storage: PushCommStorageV3View, signer: Identity) -> Result<
    PushCommStorageV3View,
    PushCommError,
> {
    if !is_channel_admin(storage, signer) {
        Err(PushCommError::Unauthorized)
    } else if !storage.paused {
        Err(PushCommError::NotPaused)
    } else {
        Ok(PushCommStorageV3View { paused: false, ..storage })
    }
}

/// Outcome of handing the channel-admin role to `new_owner`. The checks run
/// in this order: authority, pause, argument.
pub open spec fn spec_transfer_admin_ownership(
    storage: PushCommStorageV3View,
    signer: Identity,
    new_owner: Identity,
) -> Result<PushCommStorageV3View, PushCommError> {
    if !is_channel_admin(storage, signer) {
        Err(PushCommError::Unauthorized)
    } else if storage.paused {
        Err(PushCommError::ContractPaused)
    } else if new_owner.is_null() {
        Err(PushCommError::InvalidArgument)
    } else {
        Ok(PushCommStorageV3View { push_channel_admin: new_owner, ..storage })
    }
}

/// Whether `r` and the configuration after the call are what `expected`
/// says: on success the new configuration, on failure the error and the
/// configuration as it was.
pub open spec fn admin_outcome(
    expected: Result<PushCommStorageV3View, PushCommError>,
    before: PushCommStorageV3View,
    r: Result<(), PushCommError>,
    after: PushCommStorageV3View,
) -> bool {
    match expected {
        Ok(storage) => r is Ok && after == storage,
        Err(e) => r == Err::<(), PushCommError>(e) && after == before,
    }
}

/// Fills in a freshly created configuration: `push_admin` becomes both the
/// governance authority and the channel admin, the deployment starts
/// running, and no user is counted yet. Always succeeds.
pub fn initialize(ctx: &mut InitializeCTX, push_admin: Identity, chain_cluster: String) -> (r:
    Result<(), PushCommError>)
    ensures
        r is Ok,
        final(ctx).storage@ == spec_initialize(old(ctx).storage@, push_admin, chain_cluster@),
        final(ctx).signer == old(ctx).signer,
{
    ctx.storage.governance = push_admin;
    ctx.storage.push_channel_admin = push_admin;
    ctx.storage.chain_cluster = chain_cluster;
    ctx.storage.user_count = 0;
    ctx.storage.paused = false;
    Ok(())
}

/// Replaces the governance authority. Only the current governance authority
/// may do so; anyone else fails with `Unauthorized`.
pub fn set_governance_address(ctx: &mut AdminStorageUpdateCTX, governance: Identity) -> (r: Result<
    (),
    PushCommError,
>)
    ensures
        admin_outcome(
            spec_set_governance_address(old(ctx).storage@, old(ctx).signer, governance),
            old(ctx).storage@,
            r,
            final(ctx).storage@,
        ),
        old(ctx).signer != old(ctx).storage.governance ==> r == Err::<(), PushCommError>(
            PushCommError::Unauthorized,
        ),
        old(ctx).signer == old(ctx).storage.governance ==> r is Ok && final(ctx).storage.governance
            == governance,
        final(ctx).signer == old(ctx).signer,
{
    require_governance(&ctx.storage, &ctx.signer)?;
    ctx.storage.governance = governance;
    Ok(())
}

/// Replaces the address of the linked core module. Only the channel admin
/// may do so; anyone else fails with `Unauthorized`.
pub fn set_core_address(ctx: &mut AdminStorageUpdateCTX, core_address: Identity) -> (r: Result<
    (),
    PushCommError,
>)
    ensures
        admin_outcome(
            spec_set_core_address(old(ctx).storage@, old(ctx).signer, core_address),
            old(ctx).storage@,
            r,
            final(ctx).storage@,
        ),
        final(ctx).signer == old(ctx).signer,
{
    require_channel_admin(&ctx.storage, &ctx.signer)?;
    ctx.storage.push_core_address = core_address;
    Ok(())
}

/// Replaces the address of the linked token module. Only the channel admin
/// may do so; anyone else fails with `Unauthorized`.
pub fn set_push_token_address(ctx: &mut AdminStorageUpdateCTX, token_address: Identity) -> (r:
    Result<(), PushCommError>)
    ensures
        admin_outcome(
            spec_set_push_token_address(old(ctx).storage@, old(ctx).signer, token_address),
            old(ctx).storage@,
            r,
            final(ctx).storage@,
        ),
        final(ctx).signer == old(ctx).signer,
{
    require_channel_admin(&ctx.storage, &ctx.signer)?;
    ctx.storage.push_token_ntt = token_address;
    Ok(())
}

/// Replaces the chain-cluster tag. Only the channel admin may do so; anyone
/// else fails with `Unauthorized`.
pub fn set_chain_cluster(ctx: &mut AdminStorageUpdateCTX, chain_cluster: String) -> (r: Result<
    (),
    PushCommError,
>)
    ensures
        admin_outcome(
            spec_set_chain_cluster(old(ctx).storage@, old(ctx).signer, chain_cluster@),
            old(ctx).storage@,
            r,
            final(ctx).storage@,
        ),
        final(ctx).signer == old(ctx).signer,
{
    require_channel_admin(&ctx.storage, &ctx.signer)?;
    ctx.storage.chain_cluster = chain_cluster;
    Ok(())
}

/// Pauses the deployment. Only the channel admin may do so; pausing a paused
/// deployment fails with `AlreadyPaused`.
pub fn pause_contract(ctx: &mut AdminStorageUpdateCTX) -> (r: Result<(), PushCommError>)
    ensures
        admin_outcome(
            spec_pause_contract(old(ctx).storage@, old(ctx).signer),
            old(ctx).storage@,
            r,
            final(ctx).storage@,
        ),
        final(ctx).signer == old(ctx).signer,
{
    require_channel_admin(&ctx.storage, &ctx.signer)?;
    if ctx.storage.paused {
        return Err(PushCommError::AlreadyPaused);
    }
    ctx.storage.paused = true;
    Ok(())
}

/// Resumes the deployment. Only the channel admin may do so; resuming a
/// running deployment fails with `NotPaused`.
pub fn unpause_contract(ctx: &mut AdminStorageUpdateCTX) -> (r: Result<(), PushCommError>)
    ensures
        admin_outcome(
            spec_unpause_contract(old(ctx).storage@, old(ctx).signer),
            old(ctx).storage@,
            r,
            final(ctx).storage@,
        ),
        final(ctx).signer == old(ctx).signer,
{
    require_channel_admin(&ctx.storage, &ctx.signer)?;
    if !ctx.storage.paused {
        return Err(PushCommError::NotPaused);
    }
    ctx.storage.paused = false;
    Ok(())
}

/// Hands the channel-admin role to `new_owner`. Only the channel admin may
/// do so, only while the deployment is running (`ContractPaused` otherwise),
/// and never to the null identity (`InvalidArgument`).
pub fn transfer_admin_ownership(ctx: &mut AdminStorageUpdateCTX, new_owner: Identity) -> (r: Result<
    (),
    PushCommError,
>)
    ensures
        admin_outcome(
            spec_transfer_admin_ownership(old(ctx).storage@, old(ctx).signer, new_owner),
            old(ctx).storage@,
            r,
            final(ctx).storage@,
        ),
        final(ctx).signer == old(ctx).signer,
{
    require_channel_admin(&ctx.storage, &ctx.signer)?;
    if ctx.storage.paused {
        return Err(PushCommError::ContractPaused);
    }
    if new_owner.is_null() {
        return Err(PushCommError::InvalidArgument);
    }
    ctx.storage.push_channel_admin = new_owner;
    Ok(())
}

} // verus!
