use game_prototype::authority::{is_sanctioned, may_write};
use game_prototype::player::PLAYER_SPACE;
use game_prototype::{
    address_of, current_authority, delegate, fetch_latest, initialize_player, make_action,
    player_record, transition, undelegate, AuthorityState, DelegatePlayer, DelegationConfig,
    ErrorCode, ExecutionContext, InitializePlayer, MakeAction, Player, PlayerAction, Registry,
    UndelegatePlayer,
};

const PROGRAM: [u8; 32] = [7u8; 32];
const OWNER_A: [u8; 32] = [1u8; 32];
const OWNER_B: [u8; 32] = [2u8; 32];

fn registry() -> Registry {
    Registry::new(PROGRAM)
}

fn init(reg: &mut Registry, owner: [u8; 32]) -> Result<Player, ErrorCode> {
    initialize_player(reg, &InitializePlayer { user: owner })
}

fn deleg(reg: &mut Registry, owner: [u8; 32]) -> Result<(), ErrorCode> {
    delegate(reg, &DelegatePlayer { owner, payer: owner, config: DelegationConfig::default() }).map(|_| ())
}

fn act(
    reg: &mut Registry,
    owner: [u8; 32],
    context: ExecutionContext,
    action: PlayerAction,
) -> Result<Player, ErrorCode> {
    make_action(reg, &MakeAction { payer: owner, context }, action)
}

fn undeleg(reg: &mut Registry, owner: [u8; 32], snapshot: Option<Player>) -> Result<Player, ErrorCode> {
    undelegate(reg, &UndelegatePlayer { owner, payer: owner, snapshot })
}

fn zero() -> Player {
    Player { move_counter: 0, attack_counter: 0 }
}

#[test]
fn initialize_creates_zeroed_base_owned_record() {
    let mut reg = registry();
    assert_eq!(init(&mut reg, OWNER_A), Ok(zero()));
    assert_eq!(player_record(&reg, &OWNER_A), Some(zero()));
    assert_eq!(current_authority(&reg, &OWNER_A), Some(AuthorityState::BaseOwned));
    assert_eq!(player_record(&reg, &OWNER_B), None);
    assert_eq!(current_authority(&reg, &OWNER_B), None);
}

#[test]
fn initialize_twice_fails_with_already_exists() {
    let mut reg = registry();
    assert!(init(&mut reg, OWNER_A).is_ok());
    assert_eq!(act(&mut reg, OWNER_A, ExecutionContext::Base, PlayerAction::Attack).map(|p| p.attack_counter), Ok(1));
    assert_eq!(init(&mut reg, OWNER_A), Err(ErrorCode::AlreadyExists));
    assert_eq!(player_record(&reg, &OWNER_A), Some(Player { move_counter: 0, attack_counter: 1 }));
    assert_eq!(init(&mut reg, OWNER_B), Ok(zero()));
}

#[test]
fn derived_address_matches_anchor_and_differs_from_owner() {
    let reg = registry();
    let a = address_of(&reg, &OWNER_A).unwrap();
    let b = address_of(&reg, &OWNER_B).unwrap();
    assert_ne!(a, OWNER_A);
    assert_ne!(a, b);
    let program = anchor_lang::prelude::Pubkey::new_from_array(PROGRAM);
    let (expected, _bump) =
        anchor_lang::prelude::Pubkey::find_program_address(&[&OWNER_A[..]], &program);
    assert_eq!(a, expected.to_bytes());
}

#[test]
fn base_actions_count_moves_and_attacks() {
    let mut reg = registry();
    init(&mut reg, OWNER_A).unwrap();
    assert_eq!(act(&mut reg, OWNER_A, ExecutionContext::Base, PlayerAction::Move), Ok(Player { move_counter: 1, attack_counter: 0 }));
    assert_eq!(act(&mut reg, OWNER_A, ExecutionContext::Base, PlayerAction::Attack), Ok(Player { move_counter: 1, attack_counter: 1 }));
    assert_eq!(player_record(&reg, &OWNER_A), Some(Player { move_counter: 1, attack_counter: 1 }));
}

#[test]
fn action_without_record_is_not_initialized() {
    let mut reg = registry();
    assert_eq!(act(&mut reg, OWNER_A, ExecutionContext::Base, PlayerAction::Move), Err(ErrorCode::NotInitialized));
    assert_eq!(deleg(&mut reg, OWNER_A), Err(ErrorCode::NotInitialized));
    assert_eq!(undeleg(&mut reg, OWNER_A, Some(zero())), Err(ErrorCode::NotInitialized));
}

#[test]
fn delegated_context_is_refused_while_base_owned() {
    let mut reg = registry();
    init(&mut reg, OWNER_A).unwrap();
    assert_eq!(act(&mut reg, OWNER_A, ExecutionContext::Delegated, PlayerAction::Move), Err(ErrorCode::WrongAuthority));
    assert_eq!(player_record(&reg, &OWNER_A), Some(zero()));
}

#[test]
fn base_context_is_refused_while_delegated() {
    let mut reg = registry();
    init(&mut reg, OWNER_A).unwrap();
    deleg(&mut reg, OWNER_A).unwrap();
    assert_eq!(current_authority(&reg, &OWNER_A), Some(AuthorityState::DelegatedOwned));
    assert_eq!(act(&mut reg, OWNER_A, ExecutionContext::Base, PlayerAction::Attack), Err(ErrorCode::WrongAuthority));
    assert_eq!(player_record(&reg, &OWNER_A), Some(zero()));
    assert_eq!(fetch_latest(&reg, &OWNER_A), Some(zero()));
}

#[test]
fn delegation_round_trip_commits_last_writer() {
    let mut reg = registry();
    init(&mut reg, OWNER_A).unwrap();
    deleg(&mut reg, OWNER_A).unwrap();
    assert_eq!(act(&mut reg, OWNER_A, ExecutionContext::Delegated, PlayerAction::Move).map(|p| p.move_counter), Ok(1));
    let snapshot = fetch_latest(&reg, &OWNER_A);
    assert_eq!(snapshot, Some(Player { move_counter: 1, attack_counter: 0 }));
    assert_eq!(undeleg(&mut reg, OWNER_A, snapshot), Ok(Player { move_counter: 1, attack_counter: 0 }));
    assert_eq!(player_record(&reg, &OWNER_A).map(|p| p.move_counter), Some(1));
    assert_eq!(current_authority(&reg, &OWNER_A), Some(AuthorityState::BaseOwned));
    assert_eq!(fetch_latest(&reg, &OWNER_A), None);
    assert_eq!(act(&mut reg, OWNER_A, ExecutionContext::Delegated, PlayerAction::Move), Err(ErrorCode::WrongAuthority));
    assert_eq!(act(&mut reg, OWNER_A, ExecutionContext::Base, PlayerAction::Move).map(|p| p.move_counter), Ok(2));
}

#[test]
fn commit_replaces_the_whole_record() {
    let mut reg = registry();
    init(&mut reg, OWNER_A).unwrap();
    act(&mut reg, OWNER_A, ExecutionContext::Base, PlayerAction::Move).unwrap();
    act(&mut reg, OWNER_A, ExecutionContext::Base, PlayerAction::Move).unwrap();
    deleg(&mut reg, OWNER_A).unwrap();
    let fetched = Player { move_counter: 1, attack_counter: 5 };
    assert_eq!(undeleg(&mut reg, OWNER_A, Some(fetched)), Ok(fetched));
    assert_eq!(player_record(&reg, &OWNER_A), Some(fetched));
}

#[test]
fn sanctioned_edges_only() {
    let (b, g, d, r) = (
        AuthorityState::BaseOwned,
        AuthorityState::Delegating,
        AuthorityState::DelegatedOwned,
        AuthorityState::Reconciling,
    );
    let all = [b, g, d, r];
    let edges = [
        (b, g),
        (g, d),
        (d, r),
        (r, b),
    ];
    for from in all {
        for to in all {
            let ok = edges.contains(&(from, to));
            assert_eq!(is_sanctioned(from, to), ok);
            for current in all {
                let expected = if ok && current == from { Ok(to) } else { Err(ErrorCode::InvalidTransition) };
                assert_eq!(transition(current, from, to), expected);
            }
        }
    }
}

#[test]
fn writer_per_state() {
    assert!(may_write(AuthorityState::BaseOwned, ExecutionContext::Base));
    assert!(!may_write(AuthorityState::BaseOwned, ExecutionContext::Delegated));
    assert!(may_write(AuthorityState::DelegatedOwned, ExecutionContext::Delegated));
    assert!(!may_write(AuthorityState::DelegatedOwned, ExecutionContext::Base));
    assert!(!may_write(AuthorityState::Delegating, ExecutionContext::Base));
    assert!(!may_write(AuthorityState::Reconciling, ExecutionContext::Delegated));
}

#[test]
fn undelegate_twice_fails_with_not_delegated() {
    let mut reg = registry();
    init(&mut reg, OWNER_A).unwrap();
    deleg(&mut reg, OWNER_A).unwrap();
    let snapshot = fetch_latest(&reg, &OWNER_A);
    assert!(undeleg(&mut reg, OWNER_A, snapshot).is_ok());
    assert_eq!(undeleg(&mut reg, OWNER_A, Some(zero())), Err(ErrorCode::NotDelegated));
    assert_eq!(current_authority(&reg, &OWNER_A), Some(AuthorityState::BaseOwned));
    assert_eq!(player_record(&reg, &OWNER_A), Some(zero()));
}

#[test]
fn delegate_twice_fails_with_already_delegated() {
    let mut reg = registry();
    init(&mut reg, OWNER_A).unwrap();
    deleg(&mut reg, OWNER_A).unwrap();
    assert_eq!(deleg(&mut reg, OWNER_A), Err(ErrorCode::AlreadyDelegated));
    assert_eq!(current_authority(&reg, &OWNER_A), Some(AuthorityState::DelegatedOwned));
}

#[test]
fn other_signer_is_not_owner() {
    let mut reg = registry();
    init(&mut reg, OWNER_A).unwrap();
    let config = DelegationConfig { commit_frequency_ms: 1000, validator: None };
    assert_eq!(
        delegate(&mut reg, &DelegatePlayer { owner: OWNER_A, payer: OWNER_B, config }).map(|_| ()),
        Err(ErrorCode::NotOwner)
    );
    assert_eq!(current_authority(&reg, &OWNER_A), Some(AuthorityState::BaseOwned));
    let d = delegate(&mut reg, &DelegatePlayer { owner: OWNER_A, payer: OWNER_A, config }).unwrap();
    assert_eq!(d.config, config);
    assert_eq!(d.snapshot, zero());
    assert_eq!(
        undelegate(&mut reg, &UndelegatePlayer { owner: OWNER_A, payer: OWNER_B, snapshot: Some(zero()) }),
        Err(ErrorCode::NotOwner)
    );
    assert_eq!(current_authority(&reg, &OWNER_A), Some(AuthorityState::DelegatedOwned));
}

#[test]
fn failed_commit_stays_reconciling_and_resumes() {
    let mut reg = registry();
    init(&mut reg, OWNER_A).unwrap();
    deleg(&mut reg, OWNER_A).unwrap();
    act(&mut reg, OWNER_A, ExecutionContext::Delegated, PlayerAction::Attack).unwrap();
    assert_eq!(undeleg(&mut reg, OWNER_A, None), Err(ErrorCode::CommitFailed));
    assert_eq!(current_authority(&reg, &OWNER_A), Some(AuthorityState::Reconciling));
    assert_eq!(player_record(&reg, &OWNER_A), Some(zero()));
    assert_eq!(act(&mut reg, OWNER_A, ExecutionContext::Delegated, PlayerAction::Move), Err(ErrorCode::WrongAuthority));
    assert_eq!(act(&mut reg, OWNER_A, ExecutionContext::Base, PlayerAction::Move), Err(ErrorCode::WrongAuthority));
    assert_eq!(undeleg(&mut reg, OWNER_A, None), Err(ErrorCode::CommitFailed));
    let snapshot = fetch_latest(&reg, &OWNER_A);
    assert_eq!(snapshot, Some(Player { move_counter: 0, attack_counter: 1 }));
    assert_eq!(undeleg(&mut reg, OWNER_A, snapshot), snapshot.ok_or(ErrorCode::CommitFailed));
    assert_eq!(current_authority(&reg, &OWNER_A), Some(AuthorityState::BaseOwned));
    assert_eq!(player_record(&reg, &OWNER_A), Some(Player { move_counter: 0, attack_counter: 1 }));
}

#[test]
fn full_counter_overflows() {
    let full_moves = Player { move_counter: u64::MAX, attack_counter: 3 };
    assert_eq!(full_moves.apply(PlayerAction::Move), Err(ErrorCode::CounterOverflow));
    assert_eq!(full_moves.apply(PlayerAction::Attack), Ok(Player { move_counter: u64::MAX, attack_counter: 4 }));
    let full_attacks = Player { move_counter: 0, attack_counter: u64::MAX };
    assert_eq!(full_attacks.apply(PlayerAction::Attack), Err(ErrorCode::CounterOverflow));
}

#[test]
fn full_counter_in_registry_is_unchanged() {
    let mut reg = registry();
    init(&mut reg, OWNER_A).unwrap();
    deleg(&mut reg, OWNER_A).unwrap();
    let full = Player { move_counter: u64::MAX, attack_counter: 0 };
    undeleg(&mut reg, OWNER_A, Some(full)).unwrap();
    assert_eq!(act(&mut reg, OWNER_A, ExecutionContext::Base, PlayerAction::Move), Err(ErrorCode::CounterOverflow));
    assert_eq!(player_record(&reg, &OWNER_A), Some(full));
}

#[test]
fn scenario_three_moves_two_attacks() {
    let mut reg = registry();
    assert_eq!(init(&mut reg, OWNER_A), Ok(zero()));
    deleg(&mut reg, OWNER_A).unwrap();
    for _ in 0..3 {
        act(&mut reg, OWNER_A, ExecutionContext::Delegated, PlayerAction::Move).unwrap();
    }
    for _ in 0..2 {
        act(&mut reg, OWNER_A, ExecutionContext::Delegated, PlayerAction::Attack).unwrap();
    }
    let snapshot = fetch_latest(&reg, &OWNER_A);
    assert_eq!(snapshot, Some(Player { move_counter: 3, attack_counter: 2 }));
    undeleg(&mut reg, OWNER_A, snapshot).unwrap();
    assert_eq!(player_record(&reg, &OWNER_A), Some(Player { move_counter: 3, attack_counter: 2 }));
    assert_eq!(current_authority(&reg, &OWNER_A), Some(AuthorityState::BaseOwned));
}

#[test]
fn default_config_comes_from_the_sdk() {
    let c = DelegationConfig::default();
    assert_eq!(c.commit_frequency_ms, u32::MAX);
    assert_eq!(c.validator, None);
}

#[test]
fn player_space_is_discriminator_and_two_counters() {
    assert_eq!(PLAYER_SPACE, 24);
}
