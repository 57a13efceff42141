//! The delegation lifecycle as transitions of the whole account map.
use vstd::prelude::*;

use crate::authority::{sanctioned, writer_of, AuthorityState, ExecutionContext};
use crate::player::{acted, ErrorCode, Player, PlayerAction};
use crate::registry::{Account, Delegation, DelegationConfig};

verus! {

/// A new account: counters at zero, owned by the base ledger.
pub open spec fn fresh_account(owner: Seq<u8>) -> Account {
    Account {
        owner,
        player: Player { move_counter: 0, attack_counter: 0 },
        authority: AuthorityState::BaseOwned,
        delegation: None,
    }
}

/// Creating the account of `owner`, whose derived address is `addr`.
pub open spec fn initialize_step(
    accounts: Map<Seq<u8>, Account>,
    owner: Seq<u8>,
    addr: Option<Seq<u8>>,
) -> (Map<Seq<u8>, Account>, Result<Player, ErrorCode>) {
    match addr {
        None => (accounts, Err(ErrorCode::ConstraintSeeds)),
        Some(a) => if accounts.contains_key(a) {
            (accounts, Err(ErrorCode::AlreadyExists))
        } else {
            (accounts.insert(a, fresh_account(owner)), Ok(fresh_account(owner).player))
        },
    }
}

/// Handing the account at `addr` to the delegated context; `payer` signs.
pub open spec fn delegate_step(
    accounts: Map<Seq<u8>, Account>,
    payer: Seq<u8>,
    config: DelegationConfig,
    addr: Option<Seq<u8>>,
) -> (Map<Seq<u8>, Account>, Result<Delegation, ErrorCode>) {
    match addr {
        None => (accounts, Err(ErrorCode::ConstraintSeeds)),
        Some(a) => if !accounts.contains_key(a) {
            (accounts, Err(ErrorCode::NotInitialized))
        } else if accounts[a].owner != payer {
            (accounts, Err(ErrorCode::NotOwner))
        } else if accounts[a].authority != AuthorityState::BaseOwned {
            (accounts, Err(ErrorCode::AlreadyDelegated))
        } else {
            let d = Delegation { config, snapshot: accounts[a].player };
            (
                accounts.insert(
                    a,
                    Account {
                        authority: AuthorityState::DelegatedOwned,
                        delegation: Some(d),
                        ..accounts[a]
                    },
                ),
                Ok(d),
            )
        },
    }
}

/// The copy of the record that `context` writes, when it holds authority.
pub open spec fn copy_in(a: Account, context: ExecutionContext) -> Player {
    match context {
        ExecutionContext::Base => a.player,
        ExecutionContext::Delegated => match a.delegation {
            Some(d) => d.snapshot,
            None => a.player,
        },
    }
}

/// The account with the copy that `context` writes replaced by `p`.
pub open spec fn with_copy(a: Account, context: ExecutionContext, p: Player) -> Account {
    match context {
        ExecutionContext::Base => Account { player: p, ..a },
        ExecutionContext::Delegated => match a.delegation {
            Some(d) => Account { delegation: Some(Delegation { snapshot: p, ..d }), ..a },
            None => a,
        },
    }
}

/// Applying `action` to the account at `addr` through `context`.
pub open spec fn action_step(
    accounts: Map<Seq<u8>, Account>,
    context: ExecutionContext,
    action: PlayerAction,
    addr: Option<Seq<u8>>,
) -> (Map<Seq<u8>, Account>, Result<Player, ErrorCode>) {
    match addr {
        None => (accounts, Err(ErrorCode::ConstraintSeeds)),
        Some(a) => if !accounts.contains_key(a) {
            (accounts, Err(ErrorCode::NotInitialized))
        } else if writer_of(accounts[a].authority) != Some(context) {
            (accounts, Err(ErrorCode::WrongAuthority))
        } else {
            match acted(copy_in(accounts[a], context), action) {
                None => (accounts, Err(ErrorCode::CounterOverflow)),
                Some(p) => (accounts.insert(a, with_copy(accounts[a], context, p)), Ok(p)),
            }
        },
    }
}

/// Committing `fetched`, the delegated context's latest record or `None` when
/// it could not be had, and returning authority to the base ledger.
pub open spec fn undelegate_step(
    accounts: Map<Seq<u8>, Account>,
    payer: Seq<u8>,
    fetched: Option<Player>,
    addr: Option<Seq<u8>>,
) -> (Map<Seq<u8>, Account>, Result<Player, ErrorCode>) {
    match addr {
        None => (accounts, Err(ErrorCode::ConstraintSeeds)),
        Some(a) => if !accounts.contains_key(a) {
            (accounts, Err(ErrorCode::NotInitialized))
        } else if accounts[a].owner != payer {
            (accounts, Err(ErrorCode::NotOwner))
        } else if accounts[a].authority != AuthorityState::DelegatedOwned
            && accounts[a].authority != AuthorityState::Reconciling {
            (accounts, Err(ErrorCode::NotDelegated))
        } else {
            match fetched {
                None => (
                    accounts.insert(
                        a,
                        Account { authority: AuthorityState::Reconciling, ..accounts[a] },
                    ),
                    Err(ErrorCode::CommitFailed),
                ),
                Some(p) => (
                    accounts.insert(
                        a,
                        Account {
                            player: p,
                            authority: AuthorityState::BaseOwned,
                            delegation: None,
                            ..accounts[a]
                        },
                    ),
                    Ok(p),
                ),
            }
        },
    }
}

/// The authority marker of the account at `addr`, if there is one.
pub open spec fn authority_of(accounts: Map<Seq<u8>, Account>, addr: Option<Seq<u8>>) -> Option<
    AuthorityState,
> {
    match addr {
        Some(a) => if accounts.contains_key(a) {
            Some(accounts[a].authority)
        } else {
            None
        },
        None => None,
    }
}

/// The base ledger's record of the account at `addr`, if there is one.
pub open spec fn base_copy(accounts: Map<Seq<u8>, Account>, addr: Option<Seq<u8>>) -> Option<
    Player,
> {
    match addr {
        Some(a) => if accounts.contains_key(a) {
            Some(accounts[a].player)
        } else {
            None
        },
        None => None,
    }
}

/// The delegated context's copy of the account at `addr`, while one exists.
pub open spec fn delegated_copy(accounts: Map<Seq<u8>, Account>, addr: Option<Seq<u8>>) -> Option<
    Player,
> {
    match addr {
        Some(a) => if accounts.contains_key(a) {
            match accounts[a].delegation {
                Some(d) => Some(d.snapshot),
                None => None,
            }
        } else {
            None
        },
        None => None,
    }
}

} // verus!
