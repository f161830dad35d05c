use grin_games::game::select_winner;
use grin_games::game::Winner;
use grin_games::keys::derive_authority;
use grin_games::token::transfer;
use grin_games::Authority;
use grin_games::ErrorCode;
use grin_games::Pubkey;
use grin_games::TokenAccount;

#[test]
fn selector_follows_timestamp_parity() {
    assert_eq!(select_winner(0), Winner::FirstParticipant);
    assert_eq!(select_winner(2), Winner::FirstParticipant);
    assert_eq!(select_winner(1), Winner::SecondParticipant);
    assert_eq!(select_winner(1_699_999_999), Winner::SecondParticipant);
    assert_eq!(select_winner(-4), Winner::FirstParticipant);
    assert_eq!(select_winner(-3), Winner::SecondParticipant);
}

#[test]
fn selector_is_deterministic() {
    for timestamp in [0, 1, 17, -17, 1_700_000_000, i64::MAX, i64::MIN] {
        assert_eq!(select_winner(timestamp), select_winner(timestamp));
    }
}

#[test]
fn derivation_is_deterministic_and_distinguishes_owners() {
    let a = derive_authority(7, Pubkey { id: 1 });
    let b = derive_authority(7, Pubkey { id: 1 });
    assert_eq!(a, b);
    assert_ne!(a, derive_authority(7, Pubkey { id: 2 }));
    assert_ne!(a, derive_authority(8, Pubkey { id: 1 }));
}

#[test]
fn transfer_moves_value_and_conserves_the_sum() {
    let owner = Pubkey { id: 5 };
    let mut from = TokenAccount { authority: Authority::Key(owner), amount: 70 };
    let mut to = TokenAccount { authority: Authority::Key(Pubkey { id: 6 }), amount: 30 };
    let r = transfer(&mut from, &mut to, 50, Authority::Key(owner));
    assert_eq!(r, Ok(()));
    assert_eq!(from.amount, 20);
    assert_eq!(to.amount, 80);
    assert_eq!(from.amount + to.amount, 100);
}

#[test]
fn transfer_insufficient_balance_fails_cleanly() {
    let owner = Pubkey { id: 5 };
    let mut from = TokenAccount { authority: Authority::Key(owner), amount: 49 };
    let mut to = TokenAccount { authority: Authority::Key(Pubkey { id: 6 }), amount: 30 };
    let r = transfer(&mut from, &mut to, 50, Authority::Key(owner));
    assert_eq!(r, Err(ErrorCode::TransferFailed));
    assert_eq!(from.amount, 49);
    assert_eq!(to.amount, 30);
}

#[test]
fn transfer_wrong_authorizer_fails() {
    let owner = Pubkey { id: 5 };
    let mut from = TokenAccount { authority: Authority::Key(owner), amount: 70 };
    let mut to = TokenAccount { authority: Authority::Key(Pubkey { id: 6 }), amount: 30 };
    let r = transfer(&mut from, &mut to, 50, Authority::Key(Pubkey { id: 6 }));
    assert_eq!(r, Err(ErrorCode::AuthorityMismatch));
    assert_eq!(from.amount, 70);
    assert_eq!(to.amount, 30);
}

#[test]
fn transfer_destination_overflow_fails() {
    let owner = Pubkey { id: 5 };
    let mut from = TokenAccount { authority: Authority::Key(owner), amount: 70 };
    let mut to = TokenAccount { authority: Authority::Key(Pubkey { id: 6 }), amount: u64::MAX - 10 };
    let r = transfer(&mut from, &mut to, 50, Authority::Key(owner));
    assert_eq!(r, Err(ErrorCode::TransferFailed));
    assert_eq!(from.amount, 70);
    assert_eq!(to.amount, u64::MAX - 10);
}
