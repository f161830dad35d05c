//! The laws of the escrow, stated over the specification model and proved.
//!
//! Each proof function here records a rule that holds of every input the
//! operations accept, not of chosen values; the scenario-shaped rules live
//! as tests instead.

use vstd::prelude::*;
use crate::game::InitializeGame;
use crate::game::JoinGame;
use crate::game::created_game;
use crate::game::initialize_accounts_match;
use crate::game::initialize_err;
use crate::game::join_accounts_match;
use crate::game::join_err;
use crate::game::settled_game;
use crate::game::spec_select_winner;
use crate::keys::Pubkey;
use crate::state::ErrorCode;
use crate::state::GameState;

verus! {

/// A record written by a successful creation is well formed: active, with a
/// positive stake, the creator as its first player, and no joiner yet.
pub proof fn lemma_created_record(player: Pubkey, bet_amount: u64)
    requires
        bet_amount > 0,
    ensures
        created_game(player, bet_amount).wf(),
        created_game(player, bet_amount).is_active,
        created_game(player, bet_amount).player2 is None,
        created_game(player, bet_amount).player1 == player,
        created_game(player, bet_amount).bet_amount == bet_amount,
{
}

/// A zero stake is refused as InvalidStake, whatever accounts the caller
/// supplies and whether or not a record already exists; the entry point's
/// contract adds that an error changes nothing, so no record is left.
pub proof fn lemma_zero_stake_refused(
    program_id: u64,
    existing: Option<GameState>,
    a: InitializeGame,
)
    ensures
        initialize_err(program_id, 0, existing, a) == Some(ErrorCode::InvalidStake),
{
}

/// Creation with accounts that do not match the derivation is refused as
/// AuthorityMismatch, before the record's existence or the balances are
/// even considered.
pub proof fn lemma_create_foreign_accounts_refused(
    program_id: u64,
    bet_amount: u64,
    existing: Option<GameState>,
    a: InitializeGame,
)
    requires
        bet_amount > 0,
        !initialize_accounts_match(program_id, a),
    ensures
        initialize_err(program_id, bet_amount, existing, a) == Some(ErrorCode::AuthorityMismatch),
{
}

/// A join against a record that is no longer active is refused as
/// GameNotActive; the entry point's contract adds that an error leaves
/// every balance unchanged.
pub proof fn lemma_inactive_game_refuses_join(program_id: u64, a: JoinGame, timestamp: i64)
    requires
        join_accounts_match(program_id, a),
        !a.game.is_active,
    ensures
        join_err(program_id, a, timestamp) == Some(ErrorCode::GameNotActive),
{
}

/// A join against a record that already carries a joiner is refused as
/// GameFull.
pub proof fn lemma_full_game_refuses_join(program_id: u64, a: JoinGame, timestamp: i64)
    requires
        join_accounts_match(program_id, a),
        a.game.is_active,
        a.game.player2 is Some,
    ensures
        join_err(program_id, a, timestamp) == Some(ErrorCode::GameFull),
{
}

/// The overflow guard: a stake whose doubled pot does not fit is refused as
/// ArithmeticOverflow before either transfer is attempted, so no balance
/// moves.
pub proof fn lemma_overflow_guard(program_id: u64, a: JoinGame, timestamp: i64)
    requires
        join_accounts_match(program_id, a),
        a.game.is_active,
        a.game.player2 is None,
        2 * a.game.bet_amount > u64::MAX,
    ensures
        join_err(program_id, a, timestamp) == Some(ErrorCode::ArithmeticOverflow),
{
}

/// The authorization boundary of a join: a custody/authority pair that does
/// not match the record's derivation is refused as AuthorityMismatch before
/// anything else is looked at, whatever the record's state.
pub proof fn lemma_join_foreign_accounts_refused(program_id: u64, a: JoinGame, timestamp: i64)
    requires
        !join_accounts_match(program_id, a),
    ensures
        join_err(program_id, a, timestamp) == Some(ErrorCode::AuthorityMismatch),
{
}

/// Settlement is the one legal transition: it keeps the record well formed,
/// writes the joiner exactly once, turns the activity flag from true to
/// false, and touches nothing else.
pub proof fn lemma_settlement_transition(g: GameState, joiner: Pubkey)
    requires
        g.wf(),
        g.is_active,
        g.player2 is None,
    ensures
        settled_game(g, joiner).wf(),
        !settled_game(g, joiner).is_active,
        settled_game(g, joiner).player2 == Some(joiner),
        settled_game(g, joiner).player1 == g.player1,
        settled_game(g, joiner).bet_amount == g.bet_amount,
        settled_game(g, joiner).bump == g.bump,
{
}

/// Exactly one of the two participants wins any settlement: the selector is
/// total and its two outcomes exclude each other.
pub proof fn lemma_exactly_one_winner(timestamp: i64)
    ensures
        (spec_select_winner(timestamp) is FirstParticipant) != (spec_select_winner(
            timestamp,
        ) is SecondParticipant),
{
}

/// No replay: once a join has settled a record, a second join against the
/// settled record through the same accounts always fails as GameNotActive,
/// whatever timestamp the second attempt sees; with the entry point's
/// contract, the second attempt moves no value, so the pot is paid at most
/// once.
pub proof fn lemma_no_replay(program_id: u64, a: JoinGame, a2: JoinGame, ts1: i64, ts2: i64)
    requires
        join_err(program_id, a, ts1) is None,
        a2.game == settled_game(a.game, a.player),
        a2.player == a.player,
        a2.player_token_account.authority == a.player_token_account.authority,
        a2.player1_token_account.authority == a.player1_token_account.authority,
        a2.game_token_account.authority == a.game_token_account.authority,
    ensures
        join_err(program_id, a2, ts2) == Some(ErrorCode::GameNotActive),
{
}

} // verus!
