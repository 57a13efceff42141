//! The four instructions: initialize, delegate, act and undelegate.
use vstd::prelude::*;

use crate::address::{find_address, program_address};
use crate::authority::{may_write, transition, AuthorityState, ExecutionContext};
use crate::lifecycle::{
    action_step, authority_of, base_copy, delegate_step, delegated_copy, initialize_step,
    undelegate_step,
};
use crate::player::{ErrorCode, Player, PlayerAction};
use crate::registry::{Delegation, DelegationConfig, Entry, Registry};

verus! {

/// Accounts of `initialize_player`: the signer whose record is created.
#[derive(Clone, Copy, Debug)]
pub struct InitializePlayer {
    pub user: [u8; 32],
}

/// Accounts of `make_action`: the signer whose record is acted on, and the
/// context the instruction arrives through.
#[derive(Clone, Copy, Debug)]
pub struct MakeAction {
    pub payer: [u8; 32],
    pub context: ExecutionContext,
}

/// Accounts of `delegate`: the record's owner, the signer and the settings.
#[derive(Clone, Copy, Debug)]
pub struct DelegatePlayer {
    pub owner: [u8; 32],
    pub payer: [u8; 32],
    pub config: DelegationConfig,
}

/// Accounts of `undelegate`: the record's owner, the signer, and the
/// delegated context's latest record as fetched, `None` when the fetch failed.
#[derive(Clone, Copy, Debug)]
pub struct UndelegatePlayer {
    pub owner: [u8; 32],
    pub payer: [u8; 32],
    pub snapshot: Option<Player>,
}

/// Relies on ephemeral_rollups_sdk's `DelegateConfig::default`: a commit
/// frequency of `u32::MAX` milliseconds and no pinned validator.
#[verifier::external_body]
fn sdk_default_config() -> (r: DelegationConfig)
    ensures
        r.commit_frequency_ms == u32::MAX,
        r.validator is None,
{
    let c = ephemeral_rollups_sdk::cpi::DelegateConfig::default();
    DelegationConfig {
        commit_frequency_ms: c.commit_frequency_ms,
        validator: c.validator.map(|v| v.to_bytes()),
    }
}

impl Default for DelegationConfig {
    /// The delegated context's default settings.
    fn default() -> (r: DelegationConfig)
        ensures
            r.commit_frequency_ms == u32::MAX,
            r.validator is None,
    {
        sdk_default_config()
    }
}

/// Creates the record of `ctx.user` at its derived address, both counters at zero.
pub fn initialize_player(registry: &mut Registry, ctx: &InitializePlayer) -> (r: Result<
    Player,
    ErrorCode,
>)
    requires
        old(registry).wf(),
    ensures
        final(registry).wf(),
        final(registry).program_key() == old(registry).program_key(),
        (final(registry)@, r) == initialize_step(
            old(registry)@,
            ctx.user@,
            program_address(ctx.user@, old(registry).program_key()),
        ),
{
    let program = registry.program_id();
    let addr = match find_address(&ctx.user, &program) {
        Some(a) => a,
        None => return Err(ErrorCode::ConstraintSeeds),
    };
    if registry.locate(&addr).is_some() {
        return Err(ErrorCode::AlreadyExists);
    }
    let player = Player::new();
    let e = Entry {
        address: addr,
        owner: ctx.user,
        player,
        authority: AuthorityState::BaseOwned,
        delegation: None,
    };
    registry.add(e);
    proof {
        assert(e@ == crate::lifecycle::fresh_account(ctx.user@));
    }
    Ok(player)
}

/// Moves authority over the record of `ctx.owner` to the delegated context,
/// which starts from a copy of the base record.
pub fn delegate(registry: &mut Registry, ctx: &DelegatePlayer) -> (r: Result<Delegation, ErrorCode>)
    requires
        old(registry).wf(),
    ensures
        final(registry).wf(),
        final(registry).program_key() == old(registry).program_key(),
        (final(registry)@, r) == delegate_step(
            old(registry)@,
            ctx.payer@,
            ctx.config,
            program_address(ctx.owner@, old(registry).program_key()),
        ),
{
    let program = registry.program_id();
    let addr = match find_address(&ctx.owner, &program) {
        Some(a) => a,
        None => return Err(ErrorCode::ConstraintSeeds),
    };
    let i = match registry.locate(&addr) {
        Some(i) => i,
        None => return Err(ErrorCode::NotInitialized),
    };
    let e = registry.read(i);
    if !crate::address::same_key(&e.owner, &ctx.payer) {
        return Err(ErrorCode::NotOwner);
    }
    if e.authority != AuthorityState::BaseOwned {
        return Err(ErrorCode::AlreadyDelegated);
    }
    let delegating = match transition(e.authority, AuthorityState::BaseOwned, AuthorityState::Delegating) {
        Ok(s) => s,
        Err(err) => return Err(err),
    };
    let delegated = match transition(delegating, AuthorityState::Delegating, AuthorityState::DelegatedOwned) {
        Ok(s) => s,
        Err(err) => return Err(err),
    };
    let d = Delegation { config: ctx.config, snapshot: e.player };
    let next = Entry { authority: delegated, delegation: Some(d), ..e };
    registry.write(i, next);
    Ok(d)
}

/// Applies one action to the record of `ctx.payer`, through `ctx.context`;
/// returns the copy of the record that the action changed.
pub fn make_action(registry: &mut Registry, ctx: &MakeAction, action_type: PlayerAction) -> (r: Result<
    Player,
    ErrorCode,
>)
    requires
        old(registry).wf(),
    ensures
        final(registry).wf(),
        final(registry).program_key() == old(registry).program_key(),
        (final(registry)@, r) == action_step(
            old(registry)@,
            ctx.context,
            action_type,
            program_address(ctx.payer@, old(registry).program_key()),
        ),
{
    let program = registry.program_id();
    let addr = match find_address(&ctx.payer, &program) {
        Some(a) => a,
        None => return Err(ErrorCode::ConstraintSeeds),
    };
    let i = match registry.locate(&addr) {
        Some(i) => i,
        None => return Err(ErrorCode::NotInitialized),
    };
    let e = registry.read(i);
    proof {
        registry.lemma_accounts_wf(addr@);
    }
    if !may_write(e.authority, ctx.context) {
        return Err(ErrorCode::WrongAuthority);
    }
    match ctx.context {
        ExecutionContext::Base => {
            let p = match e.player.apply(action_type) {
                Ok(p) => p,
                Err(err) => return Err(err),
            };
            registry.write(i, Entry { player: p, ..e });
            Ok(p)
        },
        ExecutionContext::Delegated => {
            let d = match e.delegation {
                Some(d) => d,
                None => return Err(ErrorCode::WrongAuthority),
            };
            let p = match d.snapshot.apply(action_type) {
                Ok(p) => p,
                Err(err) => return Err(err),
            };
            registry.write(
                i,
                Entry { delegation: Some(Delegation { config: d.config, snapshot: p }), ..e },
            );
            Ok(p)
        },
    }
}

/// Commits the fetched record of the delegated context into the base record
/// of `ctx.owner` and returns authority to the base ledger. A failed fetch
/// leaves the record at the reconciling checkpoint, from which a later call
/// resumes.
pub fn undelegate(registry: &mut Registry, ctx: &UndelegatePlayer) -> (r: Result<Player, ErrorCode>)
    requires
        old(registry).wf(),
    ensures
        final(registry).wf(),
        final(registry).program_key() == old(registry).program_key(),
        (final(registry)@, r) == undelegate_step(
            old(registry)@,
            ctx.payer@,
            ctx.snapshot,
            program_address(ctx.owner@, old(registry).program_key()),
        ),
{
    let program = registry.program_id();
    let addr = match find_address(&ctx.owner, &program) {
        Some(a) => a,
        None => return Err(ErrorCode::ConstraintSeeds),
    };
    let i = match registry.locate(&addr) {
        Some(i) => i,
        None => return Err(ErrorCode::NotInitialized),
    };
    let e = registry.read(i);
    proof {
        registry.lemma_accounts_wf(addr@);
    }
    if !crate::address::same_key(&e.owner, &ctx.payer) {
        return Err(ErrorCode::NotOwner);
    }
    let reconciling = if e.authority == AuthorityState::DelegatedOwned {
        match transition(e.authority, AuthorityState::DelegatedOwned, AuthorityState::Reconciling) {
            Ok(s) => s,
            Err(err) => return Err(err),
        }
    } else if e.authority == AuthorityState::Reconciling {
        e.authority
    } else {
        return Err(ErrorCode::NotDelegated);
    };
    match ctx.snapshot {
        None => {
            registry.write(i, Entry { authority: reconciling, ..e });
            Err(ErrorCode::CommitFailed)
        },
        Some(p) => {
            let base = match transition(reconciling, AuthorityState::Reconciling, AuthorityState::BaseOwned) {
                Ok(s) => s,
                Err(err) => return Err(err),
            };
            registry.write(i, Entry { player: p, authority: base, delegation: None, ..e });
            Ok(p)
        },
    }
}

/// The address derived from `owner` under the registry's program.
pub fn address_of(registry: &Registry, owner: &[u8; 32]) -> (r: Option<[u8; 32]>)
    ensures
        match r {
            Some(a) => program_address(owner@, registry.program_key()) == Some(a@),
            None => program_address(owner@, registry.program_key()) is None,
        },
{
    let program = registry.program_id();
    find_address(owner, &program)
}

/// The authority marker of the record of `owner`, if it exists.
pub fn current_authority(registry: &Registry, owner: &[u8; 32]) -> (r: Option<AuthorityState>)
    requires
        registry.wf(),
    ensures
        r == authority_of(registry@, program_address(owner@, registry.program_key())),
{
    let addr = match address_of(registry, owner) {
        Some(a) => a,
        None => return None,
    };
    match registry.locate(&addr) {
        Some(i) => Some(registry.read(i).authority),
        None => None,
    }
}

/// The base ledger's copy of the record of `owner`, if it exists.
pub fn player_record(registry: &Registry, owner: &[u8; 32]) -> (r: Option<Player>)
    requires
        registry.wf(),
    ensures
        r == base_copy(registry@, program_address(owner@, registry.program_key())),
{
    let addr = match address_of(registry, owner) {
        Some(a) => a,
        None => return None,
    };
    match registry.locate(&addr) {
        Some(i) => Some(registry.read(i).player),
        None => None,
    }
}

/// The delegated context's current copy of the record of `owner`, while the
/// record is delegated or reconciling.
pub fn fetch_latest(registry: &Registry, owner: &[u8; 32]) -> (r: Option<Player>)
    requires
        registry.wf(),
    ensures
        r == delegated_copy(registry@, program_address(owner@, registry.program_key())),
{
    let program = registry.program_id();
    let addr = match find_address(owner, &program) {
        Some(a) => a,
        None => return None,
    };
    match registry.locate(&addr) {
        Some(i) => match registry.read(i).delegation {
            Some(d) => Some(d.snapshot),
            None => None,
        },
        None => None,
    }
}

} // verus!
