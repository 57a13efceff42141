//! Which execution context may write an entity, and how that changes.
use vstd::prelude::*;

use crate::player::ErrorCode;

verus! {

/// The persisted marker of who owns write access to an entity.
#[derive(Clone, Copy, Debug, PartialEq, Eq, Structural)]
pub enum AuthorityState {
    BaseOwned,
    Delegating,
    DelegatedOwned,
    Reconciling,
}

/// The execution environment an operation arrives through.
#[derive(Clone, Copy, Debug, PartialEq, Eq, Structural)]
pub enum ExecutionContext {
    Base,
    Delegated,
}

/// The edges along which the authority marker may move.
pub open spec fn sanctioned(from: AuthorityState, to: AuthorityState) -> bool {
    ||| from == AuthorityState::BaseOwned && to == AuthorityState::Delegating
    ||| from == AuthorityState::Delegating && to == AuthorityState::DelegatedOwned
    ||| from == AuthorityState::DelegatedOwned && to == AuthorityState::Reconciling
    ||| from == AuthorityState::Reconciling && to == AuthorityState::BaseOwned
}

/// The context that may apply actions in a given state; none while a
/// transition is half done.
pub open spec fn writer_of(state: AuthorityState) -> Option<ExecutionContext> {
    match state {
        AuthorityState::BaseOwned => Some(ExecutionContext::Base),
        AuthorityState::DelegatedOwned => Some(ExecutionContext::Delegated),
        _ => None,
    }
}

/// Whether `from -> to` is one of the sanctioned edges.
pub fn is_sanctioned(from: AuthorityState, to: AuthorityState) -> (r: bool)
    ensures
        r == sanctioned(from, to),
{
    match (from, to) {
        (AuthorityState::BaseOwned, AuthorityState::Delegating) => true,
        (AuthorityState::Delegating, AuthorityState::DelegatedOwned) => true,
        (AuthorityState::DelegatedOwned, AuthorityState::Reconciling) => true,
        (AuthorityState::Reconciling, AuthorityState::BaseOwned) => true,
        _ => false,
    }
}

/// Whether an operation arriving through `context` may write an entity in `state`.
pub fn may_write(state: AuthorityState, context: ExecutionContext) -> (r: bool)
    ensures
        r == (writer_of(state) == Some(context)),
{
    match state {
        AuthorityState::BaseOwned => context == ExecutionContext::Base,
        AuthorityState::DelegatedOwned => context == ExecutionContext::Delegated,
        _ => false,
    }
}

/// Check-and-set on the authority marker: moves `current` to `to` when
/// `from` is the current state and `from -> to` is a sanctioned edge.
pub fn transition(current: AuthorityState, from: AuthorityState, to: AuthorityState) -> (r: Result<
    AuthorityState,
    ErrorCode,
>)
    ensures
        from == current && sanctioned(from, to) ==> r == Ok::<AuthorityState, ErrorCode>(to),
        !(from == current && sanctioned(from, to)) ==> r == Err::<AuthorityState, ErrorCode>(
            ErrorCode::InvalidTransition,
        ),
{
    if from == current && is_sanctioned(from, to) {
        Ok(to)
    } else {
        Err(ErrorCode::InvalidTransition)
    }
}

} // verus!
