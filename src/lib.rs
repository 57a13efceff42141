//! A player record whose write authority moves between the base ledger and a
//! delegated execution context, with the state machine that governs the move.
pub mod address;
pub mod authority;
pub mod laws;
pub mod lifecycle;
pub mod player;
pub mod program;
pub mod registry;

pub use authority::{transition, AuthorityState, ExecutionContext};
pub use player::{ErrorCode, Player, PlayerAction};
pub use program::{
    address_of, current_authority, delegate, fetch_latest, initialize_player, make_action,
    player_record, undelegate, DelegatePlayer, InitializePlayer, MakeAction, UndelegatePlayer,
};
pub use registry::{Delegation, DelegationConfig, Registry};
