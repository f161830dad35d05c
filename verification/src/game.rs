//! The escrow state machine and its entry points.
//!
//! Two operations exist: `initialize_game` opens an escrow and pulls the
//! creator's stake into custody; `join_game` pulls the second stake in,
//! selects the winner from the parity of the host's timestamp, pays the
//! whole pot out under the vault authority, and settles the record. Each
//! entry point validates the caller-supplied accounts against the record
//! before it mutates anything, and an error leaves every account and the
//! record exactly as they were: the host commits an operation all or
//! nothing, and this model performs every check before the first write.
//!
//! The model carries a single asset kind, so matching accounts are matched
//! by their controlling authority.

use vstd::prelude::*;
use crate::keys::Authority;
use crate::keys::Pubkey;
use crate::keys::VaultAuthority;
use crate::keys::derive_authority;
use crate::keys::spec_derive_authority;
use crate::state::ErrorCode;
use crate::state::GameState;
use crate::token::TokenAccount;
use crate::token::transfer;
use crate::token::transfer_ok;

verus! {

/// The outcome of a settled game: which of the two participants receives
/// the pot.
#[derive(Clone, Copy, PartialEq, Eq, Structural, Debug)]
pub enum Winner {
    FirstParticipant,
    SecondParticipant,
}

/// The outcome rule: an even timestamp lets the creator win, an odd one the
/// joiner. Deliberately the documented parity-of-timestamp policy: the value
/// is observable by the participants, a known weakness preserved here.
pub open spec fn spec_select_winner(timestamp: i64) -> Winner {
    if timestamp % 2 == 0 {
        Winner::FirstParticipant
    } else {
        Winner::SecondParticipant
    }
}

/// Selects the winner from the host's coarse wall-clock timestamp: a pure,
/// total function of its input with exactly two outcomes.
pub fn select_winner(timestamp: i64) -> (r: Winner)
    ensures
        r == spec_select_winner(timestamp),
{
    if timestamp % 2 == 0 {
        Winner::FirstParticipant
    } else {
        Winner::SecondParticipant
    }
}

/// The accounts a creator supplies to open an escrow: their own key, the
/// account their stake leaves, and the custody account that is to hold it.
#[derive(Clone, Copy, PartialEq, Eq, Debug)]
pub struct InitializeGame {
    pub player: Pubkey,
    pub player_token_account: TokenAccount,
    pub game_token_account: TokenAccount,
}

/// The accounts a joiner supplies: the record, their own key, the account
/// their stake leaves (also their payout destination), the creator's payout
/// destination, and the custody account.
#[derive(Clone, Copy, PartialEq, Eq, Debug)]
pub struct JoinGame {
    pub game: GameState,
    pub player: Pubkey,
    pub player_token_account: TokenAccount,
    pub player1_token_account: TokenAccount,
    pub game_token_account: TokenAccount,
}

/// The vault authority the record re-derives for its custody account, from
/// the stored creator and bump byte.
pub open spec fn vault_authority_of(program_id: u64, game: GameState) -> Authority {
    Authority::Vault(VaultAuthority { program_id, owner: game.player1, bump: game.bump })
}

/// The authorization checks of escrow creation: the creator's stake leaves
/// an account the creator controls, and custody is controlled by exactly
/// the vault authority derivable for this creator.
pub open spec fn initialize_accounts_match(program_id: u64, a: InitializeGame) -> bool {
    &&& a.player_token_account.authority == Authority::Key(a.player)
    &&& a.game_token_account.authority == Authority::Vault(
        spec_derive_authority(program_id, a.player),
    )
}

/// The authorization checks of a join: custody is controlled by the vault
/// authority re-derivable from the record, the joiner's stake leaves an
/// account the joiner controls, and the creator's destination is an account
/// the recorded creator controls.
pub open spec fn join_accounts_match(program_id: u64, a: JoinGame) -> bool {
    &&& a.game_token_account.authority == vault_authority_of(program_id, a.game)
    &&& a.player_token_account.authority == Authority::Key(a.player)
    &&& a.player1_token_account.authority == Authority::Key(a.game.player1)
}

/// The record a successful creation writes.
pub open spec fn created_game(player: Pubkey, bet_amount: u64) -> GameState {
    GameState {
        player1: player,
        player2: None,
        bet_amount,
        is_active: true,
        bump: crate::keys::CANONICAL_BUMP,
    }
}

/// The record a successful join leaves: the joiner written once, the game
/// settled, everything else untouched.
pub open spec fn settled_game(g: GameState, joiner: Pubkey) -> GameState {
    GameState { player2: Some(joiner), is_active: false, ..g }
}

/// The first failing check of escrow creation, in the order the entry point
/// performs them; `None` when creation succeeds.
pub open spec fn initialize_err(
    program_id: u64,
    bet_amount: u64,
    existing: Option<GameState>,
    a: InitializeGame,
) -> Option<ErrorCode> {
    if bet_amount == 0 {
        Some(ErrorCode::InvalidStake)
    } else if !initialize_accounts_match(program_id, a) {
        Some(ErrorCode::AuthorityMismatch)
    } else if existing is Some {
        Some(ErrorCode::AlreadyExists)
    } else if !transfer_ok(
        a.player_token_account,
        a.game_token_account,
        bet_amount,
        Authority::Key(a.player),
    ) {
        Some(ErrorCode::TransferFailed)
    } else {
        None
    }
}

/// Whether both transfers of a join can complete: the joiner covers the
/// stake, custody can hold both stakes, custody can then cover the pot, and
/// the winner's destination balance still fits after the payout.
pub open spec fn join_transfers_ok(a: JoinGame, timestamp: i64) -> bool {
    &&& a.player_token_account.amount >= a.game.bet_amount
    &&& a.game_token_account.amount + a.game.bet_amount <= u64::MAX
    &&& a.game_token_account.amount >= a.game.bet_amount
    &&& (spec_select_winner(timestamp) is FirstParticipant ==> a.player1_token_account.amount
        + 2 * a.game.bet_amount <= u64::MAX)
    &&& (spec_select_winner(timestamp) is SecondParticipant ==> a.player_token_account.amount
        + a.game.bet_amount <= u64::MAX)
}

/// The first failing check of a join, in the order the entry point performs
/// them; `None` when the join succeeds and the pot is paid out.
pub open spec fn join_err(program_id: u64, a: JoinGame, timestamp: i64) -> Option<ErrorCode> {
    if !join_accounts_match(program_id, a) {
        Some(ErrorCode::AuthorityMismatch)
    } else if !a.game.is_active {
        Some(ErrorCode::GameNotActive)
    } else if a.game.player2 is Some {
        Some(ErrorCode::GameFull)
    } else if 2 * a.game.bet_amount > u64::MAX {
        Some(ErrorCode::ArithmeticOverflow)
    } else if !join_transfers_ok(a, timestamp) {
        Some(ErrorCode::TransferFailed)
    } else {
        None
    }
}

/// Opens an escrow: validates the stake and the supplied accounts, refuses a
/// creator whose record already exists, pulls the stake into custody under
/// the creator's own signature, and returns the freshly initialized record.
/// On any error nothing is changed and no record comes into being.
pub fn initialize_game(
    program_id: u64,
    bet_amount: u64,
    existing: &Option<GameState>,
    accounts: &mut InitializeGame,
) -> (r: Result<GameState, ErrorCode>)
    ensures
        (match r {
            Ok(g) => initialize_err(program_id, bet_amount, *existing, *old(accounts)) is None
                && g == created_game(old(accounts).player, bet_amount),
            Err(e) => initialize_err(program_id, bet_amount, *existing, *old(accounts))
                == Some(e),
        }),
        r is Ok ==> final(accounts).player_token_account.amount
            == old(accounts).player_token_account.amount - bet_amount,
        r is Ok ==> final(accounts).game_token_account.amount
            == old(accounts).game_token_account.amount + bet_amount,
        r matches Ok(g) ==> g.wf(),
        r is Err ==> *final(accounts) == *old(accounts),
        final(accounts).player == old(accounts).player,
        final(accounts).player_token_account.authority
            == old(accounts).player_token_account.authority,
        final(accounts).game_token_account.authority
            == old(accounts).game_token_account.authority,
        final(accounts).player_token_account.amount + final(accounts).game_token_account.amount
            == old(accounts).player_token_account.amount
            + old(accounts).game_token_account.amount,
{
    if bet_amount == 0 {
        return Err(ErrorCode::InvalidStake);
    }
    let creator_signature = Authority::Key(accounts.player);
    if !(accounts.player_token_account.authority == creator_signature) {
        return Err(ErrorCode::AuthorityMismatch);
    }
    let vault = derive_authority(program_id, accounts.player);
    if !(accounts.game_token_account.authority == Authority::Vault(vault)) {
        return Err(ErrorCode::AuthorityMismatch);
    }
    if existing.is_some() {
        return Err(ErrorCode::AlreadyExists);
    }
    match transfer(
        &mut accounts.player_token_account,
        &mut accounts.game_token_account,
        bet_amount,
        creator_signature,
    ) {
        Ok(()) => {},
        Err(e) => {
            return Err(e);
        },
    }
    Ok(
        GameState {
            player1: accounts.player,
            player2: None,
            bet_amount,
            is_active: true,
            bump: vault.bump,
        },
    )
}

/// Joins and settles an escrow: validates the supplied accounts against the
/// record, refuses a settled or full game, checks the pot computation and
/// both transfers before touching anything, then pulls the joiner's stake
/// into custody, writes the joiner, selects the winner from the timestamp's
/// parity, pays the whole pot out under the vault authority, and marks the
/// record settled. On any error nothing is changed.
pub fn join_game(program_id: u64, accounts: &mut JoinGame, timestamp: i64) -> (r: Result<
    (),
    ErrorCode,
>)
    ensures
        (match r {
            Ok(()) => join_err(program_id, *old(accounts), timestamp) is None,
            Err(e) => join_err(program_id, *old(accounts), timestamp) == Some(e),
        }),
        r is Ok ==> final(accounts).game == settled_game(old(accounts).game, old(accounts).player),
        r is Ok ==> final(accounts).game_token_account.amount
            == old(accounts).game_token_account.amount - old(accounts).game.bet_amount,
        r is Ok && spec_select_winner(timestamp) is FirstParticipant ==>
            final(accounts).player1_token_account.amount
                == old(accounts).player1_token_account.amount + 2 * old(accounts).game.bet_amount
            && final(accounts).player_token_account.amount
                == old(accounts).player_token_account.amount - old(accounts).game.bet_amount,
        r is Ok && spec_select_winner(timestamp) is SecondParticipant ==>
            final(accounts).player_token_account.amount
                == old(accounts).player_token_account.amount + old(accounts).game.bet_amount
            && final(accounts).player1_token_account.amount
                == old(accounts).player1_token_account.amount,
        r is Err ==> *final(accounts) == *old(accounts),
        final(accounts).player == old(accounts).player,
        final(accounts).game.player1 == old(accounts).game.player1,
        final(accounts).game.bet_amount == old(accounts).game.bet_amount,
        final(accounts).game.bump == old(accounts).game.bump,
        final(accounts).player_token_account.authority
            == old(accounts).player_token_account.authority,
        final(accounts).player1_token_account.authority
            == old(accounts).player1_token_account.authority,
        final(accounts).game_token_account.authority
            == old(accounts).game_token_account.authority,
        final(accounts).player_token_account.amount
            + final(accounts).player1_token_account.amount
            + final(accounts).game_token_account.amount
            == old(accounts).player_token_account.amount
            + old(accounts).player1_token_account.amount
            + old(accounts).game_token_account.amount,
{
    let vault_signature = Authority::Vault(
        VaultAuthority {
            program_id,
            owner: accounts.game.player1,
            bump: accounts.game.bump,
        },
    );
    if !(accounts.game_token_account.authority == vault_signature) {
        return Err(ErrorCode::AuthorityMismatch);
    }
    let joiner_signature = Authority::Key(accounts.player);
    if !(accounts.player_token_account.authority == joiner_signature) {
        return Err(ErrorCode::AuthorityMismatch);
    }
    if !(accounts.player1_token_account.authority == Authority::Key(accounts.game.player1)) {
        return Err(ErrorCode::AuthorityMismatch);
    }
    if !accounts.game.is_active {
        return Err(ErrorCode::GameNotActive);
    }
    if accounts.game.player2.is_some() {
        return Err(ErrorCode::GameFull);
    }
    let bet_amount = accounts.game.bet_amount;
    let total_pot = match bet_amount.checked_mul(2) {
        Some(p) => p,
        None => {
            return Err(ErrorCode::ArithmeticOverflow);
        },
    };
    let winner = select_winner(timestamp);
    // Every remaining step is checked before the first write: the host
    // commits a join all or nothing, so a join that could not pay out must
    // not capture the joiner's stake.
    if accounts.player_token_account.amount < bet_amount {
        return Err(ErrorCode::TransferFailed);
    }
    if accounts.game_token_account.amount > u64::MAX - bet_amount {
        return Err(ErrorCode::TransferFailed);
    }
    if accounts.game_token_account.amount < bet_amount {
        return Err(ErrorCode::TransferFailed);
    }
    match winner {
        Winner::FirstParticipant => {
            if accounts.player1_token_account.amount > u64::MAX - total_pot {
                return Err(ErrorCode::TransferFailed);
            }
        },
        Winner::SecondParticipant => {
            if accounts.player_token_account.amount > u64::MAX - bet_amount {
                return Err(ErrorCode::TransferFailed);
            }
        },
    }
    match transfer(
        &mut accounts.player_token_account,
        &mut accounts.game_token_account,
        bet_amount,
        joiner_signature,
    ) {
        Ok(()) => {},
        Err(e) => {
            return Err(e);
        },
    }
    accounts.game.player2 = Some(accounts.player);
    let payout = match winner {
        Winner::FirstParticipant => transfer(
            &mut accounts.game_token_account,
            &mut accounts.player1_token_account,
            total_pot,
            vault_signature,
        ),
        Winner::SecondParticipant => transfer(
            &mut accounts.game_token_account,
            &mut accounts.player_token_account,
            total_pot,
            vault_signature,
        ),
    };
    match payout {
        Ok(()) => {},
        Err(e) => {
            return Err(e);
        },
    }
    accounts.game.is_active = false;
    Ok(())
}

} // verus!
