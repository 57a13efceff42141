//! Properties of the lifecycle that hold across calls.
use vstd::prelude::*;

use crate::authority::{writer_of, AuthorityState, ExecutionContext};
use crate::lifecycle::{
    action_step, copy_in, delegate_step, delegated_copy, initialize_step, undelegate_step,
};
use crate::player::{acted, ErrorCode, Player, PlayerAction};
use crate::registry::{account_wf, Account, DelegationConfig};

verus! {

/// Initializing the same owner twice: the second call fails with
/// `AlreadyExists` and leaves every account as the first call left it.
pub proof fn lemma_initialize_twice(
    accounts: Map<Seq<u8>, Account>,
    owner: Seq<u8>,
    addr: Option<Seq<u8>>,
)
    ensures
        initialize_step(accounts, owner, addr).1 is Ok ==> initialize_step(
            initialize_step(accounts, owner, addr).0,
            owner,
            addr,
        ) == (initialize_step(accounts, owner, addr).0, Err::<Player, ErrorCode>(
            ErrorCode::AlreadyExists,
        )),
{
}

/// An action on an existing account fails with `WrongAuthority` exactly when
/// the context it arrives through does not hold authority, and then changes
/// nothing; through the authoritative context it succeeds unless the counter
/// is full.
pub proof fn lemma_action_needs_authority(
    accounts: Map<Seq<u8>, Account>,
    context: ExecutionContext,
    action: PlayerAction,
    a: Seq<u8>,
)
    requires
        accounts.contains_key(a),
        account_wf(accounts[a]),
    ensures
        (action_step(accounts, context, action, Some(a)).1 == Err::<Player, ErrorCode>(
            ErrorCode::WrongAuthority,
        )) == (writer_of(accounts[a].authority) != Some(context)),
        writer_of(accounts[a].authority) != Some(context) ==> action_step(
            accounts,
            context,
            action,
            Some(a),
        ).0 == accounts,
        writer_of(accounts[a].authority) == Some(context) && acted(
            copy_in(accounts[a], context),
            action,
        ) is Some ==> action_step(accounts, context, action, Some(a)).1 is Ok,
{
}

/// An action whose counter is already at `u64::MAX` fails with
/// `CounterOverflow` and changes nothing.
pub proof fn lemma_full_counter(
    accounts: Map<Seq<u8>, Account>,
    context: ExecutionContext,
    action: PlayerAction,
    a: Seq<u8>,
)
    requires
        accounts.contains_key(a),
        writer_of(accounts[a].authority) == Some(context),
        match action {
            PlayerAction::Move => copy_in(accounts[a], context).move_counter == u64::MAX,
            PlayerAction::Attack => copy_in(accounts[a], context).attack_counter == u64::MAX,
        },
    ensures
        action_step(accounts, context, action, Some(a)) == (accounts, Err::<Player, ErrorCode>(
            ErrorCode::CounterOverflow,
        )),
{
}

/// Initialize, delegate, one `Move` in the delegated context, then undelegate
/// with the delegated copy: the base record holds a move counter of 1, the
/// value the delegated context had when it was committed, and authority is
/// back with the base ledger.
pub proof fn lemma_delegation_round_trip(
    accounts: Map<Seq<u8>, Account>,
    owner: Seq<u8>,
    config: DelegationConfig,
    a: Seq<u8>,
)
    requires
        !accounts.contains_key(a),
    ensures
        ({
            let s1 = initialize_step(accounts, owner, Some(a)).0;
            let s2 = delegate_step(s1, owner, config, Some(a)).0;
            let s3 = action_step(s2, ExecutionContext::Delegated, PlayerAction::Move, Some(a)).0;
            let fetched = delegated_copy(s3, Some(a));
            let (s4, r) = undelegate_step(s3, owner, fetched, Some(a));
            &&& fetched is Some
            &&& r == Ok::<Player, ErrorCode>(fetched.unwrap())
            &&& s4[a].player == fetched.unwrap()
            &&& s4[a].player.move_counter == 1
            &&& s4[a].player.attack_counter == 0
            &&& s4[a].authority == AuthorityState::BaseOwned
            &&& s4[a].delegation is None
        }),
{
}

/// Undelegating twice in a row: the second call fails with `NotDelegated`
/// and the account stays with the base ledger, unchanged.
pub proof fn lemma_undelegate_twice(
    accounts: Map<Seq<u8>, Account>,
    payer: Seq<u8>,
    first: Option<Player>,
    second: Option<Player>,
    addr: Option<Seq<u8>>,
)
    requires
        undelegate_step(accounts, payer, first, addr).1 is Ok,
    ensures
        ({
            let s1 = undelegate_step(accounts, payer, first, addr).0;
            &&& undelegate_step(s1, payer, second, addr) == (s1, Err::<Player, ErrorCode>(
                ErrorCode::NotDelegated,
            ))
            &&& s1[addr.unwrap()].authority == AuthorityState::BaseOwned
        }),
{
}

/// A refused operation leaves every account as it was; the one exception is
/// a failed commit, which parks the account at the reconciling checkpoint.
pub proof fn lemma_failures_change_nothing(
    accounts: Map<Seq<u8>, Account>,
    owner: Seq<u8>,
    payer: Seq<u8>,
    config: DelegationConfig,
    context: ExecutionContext,
    action: PlayerAction,
    fetched: Option<Player>,
    addr: Option<Seq<u8>>,
)
    ensures
        initialize_step(accounts, owner, addr).1 is Err ==> initialize_step(accounts, owner, addr).0
            == accounts,
        delegate_step(accounts, payer, config, addr).1 is Err ==> delegate_step(
            accounts,
            payer,
            config,
            addr,
        ).0 == accounts,
        action_step(accounts, context, action, addr).1 is Err ==> action_step(
            accounts,
            context,
            action,
            addr,
        ).0 == accounts,
        undelegate_step(accounts, payer, fetched, addr).1 is Err && undelegate_step(
            accounts,
            payer,
            fetched,
            addr,
        ).1 != Err::<Player, ErrorCode>(ErrorCode::CommitFailed) ==> undelegate_step(
            accounts,
            payer,
            fetched,
            addr,
        ).0 == accounts,
        undelegate_step(accounts, payer, fetched, addr).1 == Err::<Player, ErrorCode>(
            ErrorCode::CommitFailed,
        ) ==> undelegate_step(accounts, payer, fetched, addr).0 == accounts.insert(
            addr.unwrap(),
            Account { authority: AuthorityState::Reconciling, ..accounts[addr.unwrap()] },
        ),
{
}

} // verus!
