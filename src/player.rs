//! The player record, the actions applied to it, and the library's errors.
use vstd::prelude::*;

verus! {

/// The two audit counters of one player.
#[derive(Clone, Copy, Debug, PartialEq, Eq, Structural)]
pub struct Player {
    pub move_counter: u64,
    pub attack_counter: u64,
}

/// An action that bumps one of the counters.
#[derive(Clone, Copy, Debug, PartialEq, Eq, Structural)]
pub enum PlayerAction {
    Move,
    Attack,
}

/// Every way an operation can be refused; each names one violated precondition.
#[derive(Clone, Copy, Debug, PartialEq, Eq, Structural)]
pub enum ErrorCode {
    AlreadyExists,
    NotOwner,
    AlreadyDelegated,
    InvalidTransition,
    WrongAuthority,
    NotDelegated,
    CommitFailed,
    CounterOverflow,
    /// No record has been initialized at the derived address.
    NotInitialized,
    /// No program address can be derived from the owner.
    ConstraintSeeds,
}

/// Bytes a player account takes: the account discriminator and two counters.
pub const PLAYER_SPACE: usize = 8 + 8 + 8;

/// The record an action leaves, or `None` when the counter it bumps is full.
pub open spec fn acted(p: Player, action: PlayerAction) -> Option<Player> {
    match action {
        PlayerAction::Move => if p.move_counter < u64::MAX {
            Some(Player { move_counter: (p.move_counter + 1) as u64, ..p })
        } else {
            None
        },
        PlayerAction::Attack => if p.attack_counter < u64::MAX {
            Some(Player { attack_counter: (p.attack_counter + 1) as u64, ..p })
        } else {
            None
        },
    }
}

impl Player {
    /// A fresh record with both counters at zero.
    pub fn new() -> (r: Player)
        ensures
            r.move_counter == 0,
            r.attack_counter == 0,
    {
        Player { move_counter: 0, attack_counter: 0 }
    }

    /// Applies one action with a checked increment.
    pub fn apply(&self, action: PlayerAction) -> (r: Result<Player, ErrorCode>)
        ensures
            acted(*self, action) matches Some(p) ==> r == Ok::<Player, ErrorCode>(p),
            acted(*self, action) is None ==> r == Err::<Player, ErrorCode>(ErrorCode::CounterOverflow),
    {
        match action {
            PlayerAction::Move => match self.move_counter.checked_add(1) {
                Some(m) => Ok(Player { move_counter: m, attack_counter: self.attack_counter }),
                None => Err(ErrorCode::CounterOverflow),
            },
            PlayerAction::Attack => match self.attack_counter.checked_add(1) {
                Some(a) => Ok(Player { move_counter: self.move_counter, attack_counter: a }),
                None => Err(ErrorCode::CounterOverflow),
            },
        }
    }
}

} // verus!
