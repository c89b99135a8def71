use sha3::{Digest, Keccak256};
use swap_escrow::errors::ContractError;
use swap_escrow::escrow::{
    only_after, only_before, Coin, Escrow, InstantiateMsgData, PullFundsMsg, Role, Timelocks,
    WithdrawMsg,
};

fn keccak_hex(data: &[u8]) -> String {
    let mut hasher = Keccak256::new();
    hasher.update(data);
    hex::encode(hasher.finalize())
}

fn timelocks(
    dest_withdrawal: u64,
    dest_public_withdrawal: u64,
    dest_cancellation: u64,
    src_cancellation: u64,
    src_withdrawal: u64,
    src_public_withdrawal: u64,
    src_public_cancellation: u64,
) -> Timelocks {
    Timelocks {
        dest_withdrawal,
        dest_public_withdrawal,
        dest_cancellation,
        src_cancellation,
        src_withdrawal,
        src_public_withdrawal,
        src_public_cancellation,
    }
}

fn insta_data(rescue_delay: u64, tl: Timelocks) -> InstantiateMsgData {
    InstantiateMsgData {
        rescue_delay,
        hashlock: keccak_hex(b"secret"),
        order_hash: keccak_hex(b"orderhash"),
        maker: String::from("maker"),
        taker: String::from("taker"),
        token: Coin {
            denom: String::from("stake"),
            amount: 1000,
        },
        timelocks: tl,
    }
}

fn funds_1000_stake() -> Vec<Coin> {
    vec![Coin {
        denom: String::from("stake"),
        amount: 1000,
    }]
}

#[test]
fn init() {
    let data = insta_data(1, timelocks(7, 1, 2, 4, 3, 5, 6));
    let contract = Escrow::instantiate(Role::Destination, data, &funds_1000_stake(), 0).unwrap();
    assert_eq!(1, contract.state.rescue_delay);
}

#[test]
fn withdraw_only_by_taker() {
    let data = insta_data(1, timelocks(1000, 2000, 3000, 4000, 5000, 123, 231));
    let contract = Escrow::instantiate(Role::Destination, data, &funds_1000_stake(), 0).unwrap();

    let taker = String::from("taker");
    let transfer = contract
        .withdraw(
            1500,
            &taker,
            WithdrawMsg {
                secret: String::from("secret"),
            },
        )
        .unwrap();
    assert_eq!(transfer.to_address, "maker");
    assert_eq!(transfer.amount.denom, "stake");
    assert_eq!(transfer.amount.amount, 1000);
}

#[test]
fn secret_does_not_match() {
    let data = insta_data(1, timelocks(1000, 2000, 3000, 4000, 5000, 123, 231));
    let contract = Escrow::instantiate(Role::Destination, data, &funds_1000_stake(), 0).unwrap();

    let taker = String::from("taker");
    let err = contract
        .withdraw(
            1500,
            &taker,
            WithdrawMsg {
                secret: String::from("wrong"),
            },
        )
        .unwrap_err();
    assert_eq!(err, ContractError::InvalidSecret);
}

#[test]
fn should_public_withdraw() {
    let data = insta_data(1, timelocks(1000, 2000, 3000, 3000, 5000, 123, 231));
    let contract = Escrow::instantiate(Role::Destination, data, &funds_1000_stake(), 0).unwrap();

    let transfer = contract
        .public_withdraw(
            2500,
            WithdrawMsg {
                secret: String::from("secret"),
            },
        )
        .unwrap();
    assert_eq!(transfer.to_address, "maker");
}

#[test]
fn should_cancel() {
    let data = insta_data(1, timelocks(1000, 2000, 3000, 3000, 5000, 123, 231));
    let contract = Escrow::instantiate(Role::Destination, data, &funds_1000_stake(), 0).unwrap();

    let taker = String::from("taker");
    let transfer = contract.cancel(3500, &taker).unwrap();
    assert_eq!(transfer.to_address, "taker");
    assert_eq!(transfer.amount.amount, 1000);
}

#[test]
fn should_rescue_funds() {
    let data = insta_data(1, timelocks(1000, 2000, 3000, 3000, 5000, 123, 231));
    let contract = Escrow::instantiate(Role::Destination, data, &funds_1000_stake(), 0).unwrap();

    let taker = String::from("taker");
    let transfer = contract.rescue_funds(5010, &taker).unwrap();
    assert_eq!(transfer.to_address, "taker");
}

#[test]
fn init_rejects_wrong_amount() {
    let data = insta_data(1, timelocks(7, 1, 2, 4, 3, 5, 6));
    let funds = vec![Coin {
        denom: String::from("stake"),
        amount: 999,
    }];
    let err = Escrow::instantiate(Role::Destination, data, &funds, 0).unwrap_err();
    assert_eq!(err, ContractError::UnmatchedDenomOrAmount);
}

#[test]
fn init_rejects_malformed_hex() {
    let mut data = insta_data(1, timelocks(7, 1, 2, 4, 3, 5, 6));
    data.hashlock = String::from("zz");
    let err = Escrow::instantiate(Role::Destination, data, &funds_1000_stake(), 0).unwrap_err();
    assert!(matches!(err, ContractError::Std(_)));

    let mut data = insta_data(1, timelocks(7, 1, 2, 4, 3, 5, 6));
    data.order_hash = String::from("abc");
    let err = Escrow::instantiate(Role::Destination, data, &funds_1000_stake(), 0).unwrap_err();
    assert!(matches!(err, ContractError::Std(_)));
}

#[test]
fn init_decodes_hex_to_bytes() {
    let mut data = insta_data(1, timelocks(7, 1, 2, 4, 3, 5, 6));
    data.hashlock = String::from("00ff10");
    let contract = Escrow::instantiate(Role::Destination, data, &funds_1000_stake(), 0).unwrap();
    assert_eq!(contract.immutables.hashlock, vec![0x00u8, 0xff, 0x10]);
}

#[test]
fn withdraw_at_time_t_plus_10_pays_maker() {
    let deployed_at: u64 = 1_753_000_000;
    let data = insta_data(10_000, timelocks(7, 100, 1447, 2000, 3000, 123, 231));
    let contract =
        Escrow::instantiate(Role::Destination, data, &funds_1000_stake(), deployed_at).unwrap();

    let taker = String::from("taker");
    let transfer = contract
        .withdraw(
            deployed_at + 10,
            &taker,
            WithdrawMsg {
                secret: String::from("secret"),
            },
        )
        .unwrap();
    assert_eq!(transfer.to_address, "maker");
    assert_eq!(transfer.amount.denom, "stake");
    assert_eq!(transfer.amount.amount, 1000);
}

#[test]
fn withdraw_with_wrong_secret_fails() {
    let deployed_at: u64 = 1_753_000_000;
    let data = insta_data(10_000, timelocks(7, 100, 1447, 2000, 3000, 123, 231));
    let contract =
        Escrow::instantiate(Role::Destination, data, &funds_1000_stake(), deployed_at).unwrap();

    let taker = String::from("taker");
    let err = contract
        .withdraw(
            deployed_at + 10,
            &taker,
            WithdrawMsg {
                secret: String::from("wrong"),
            },
        )
        .unwrap_err();
    assert_eq!(err, ContractError::InvalidSecret);
}

#[test]
fn withdraw_after_cancellation_window_fails_then_cancel_succeeds() {
    let deployed_at: u64 = 1_753_000_000;
    let data = insta_data(10_000, timelocks(7, 100, 1447, 2000, 3000, 123, 231));
    let contract =
        Escrow::instantiate(Role::Destination, data, &funds_1000_stake(), deployed_at).unwrap();

    let taker = String::from("taker");
    let err = contract
        .withdraw(
            deployed_at + 2000,
            &taker,
            WithdrawMsg {
                secret: String::from("secret"),
            },
        )
        .unwrap_err();
    assert_eq!(err, ContractError::DestCancelTimeLimit);

    let transfer = contract.cancel(deployed_at + 2000, &taker).unwrap();
    assert_eq!(transfer.to_address, "taker");
}

#[test]
fn withdraw_rejects_non_taker() {
    let data = insta_data(1, timelocks(1000, 2000, 3000, 4000, 5000, 123, 231));
    let contract = Escrow::instantiate(Role::Destination, data, &funds_1000_stake(), 0).unwrap();
    let bob = String::from("bob");
    let err = contract
        .withdraw(
            1500,
            &bob,
            WithdrawMsg {
                secret: String::from("secret"),
            },
        )
        .unwrap_err();
    assert_eq!(err, ContractError::OnlyTaker);
}

#[test]
fn withdraw_before_window_fails() {
    let data = insta_data(1, timelocks(1000, 2000, 3000, 4000, 5000, 123, 231));
    let contract = Escrow::instantiate(Role::Destination, data, &funds_1000_stake(), 0).unwrap();
    let taker = String::from("taker");
    let err = contract
        .withdraw(
            999,
            &taker,
            WithdrawMsg {
                secret: String::from("secret"),
            },
        )
        .unwrap_err();
    assert_eq!(err, ContractError::DestWithrawTimeLimit);
}

#[test]
fn withdraw_at_exact_boundaries() {
    let data = insta_data(1, timelocks(1000, 2000, 3000, 4000, 5000, 123, 231));
    let contract = Escrow::instantiate(Role::Destination, data, &funds_1000_stake(), 0).unwrap();
    let taker = String::from("taker");
    // at the opening boundary the window is already open
    assert!(contract
        .withdraw(
            1000,
            &taker,
            WithdrawMsg {
                secret: String::from("secret"),
            },
        )
        .is_ok());
    // at the cancellation boundary it is already closed
    let err = contract
        .withdraw(
            3000,
            &taker,
            WithdrawMsg {
                secret: String::from("secret"),
            },
        )
        .unwrap_err();
    assert_eq!(err, ContractError::DestCancelTimeLimit);
    // and cancellation opens at that same second
    assert!(contract.cancel(3000, &taker).is_ok());
}

#[test]
fn source_role_uses_source_offsets_and_pays_taker() {
    let data = insta_data(1, timelocks(1000, 2000, 3000, 4500, 4000, 3500, 5000));
    let contract = Escrow::instantiate(Role::Source, data, &funds_1000_stake(), 0).unwrap();
    let taker = String::from("taker");

    let err = contract
        .withdraw(
            3999,
            &taker,
            WithdrawMsg {
                secret: String::from("secret"),
            },
        )
        .unwrap_err();
    assert_eq!(err, ContractError::SrcWithrawTimeLimit);

    let transfer = contract
        .withdraw(
            4100,
            &taker,
            WithdrawMsg {
                secret: String::from("secret"),
            },
        )
        .unwrap();
    assert_eq!(transfer.to_address, "taker");

    let err = contract.cancel(4400, &taker).unwrap_err();
    assert_eq!(err, ContractError::SrcCancelTimeLimit);
    assert!(contract.cancel(4500, &taker).is_ok());
}

#[test]
fn public_withdraw_respects_its_own_window() {
    let data = insta_data(1, timelocks(1000, 2000, 3000, 3000, 5000, 123, 231));
    let contract = Escrow::instantiate(Role::Destination, data, &funds_1000_stake(), 0).unwrap();
    let err = contract
        .public_withdraw(
            1999,
            WithdrawMsg {
                secret: String::from("secret"),
            },
        )
        .unwrap_err();
    assert_eq!(err, ContractError::DestWithrawTimeLimit);
    let err = contract
        .public_withdraw(
            3000,
            WithdrawMsg {
                secret: String::from("secret"),
            },
        )
        .unwrap_err();
    assert_eq!(err, ContractError::DestCancelTimeLimit);
    let err = contract
        .public_withdraw(
            2500,
            WithdrawMsg {
                secret: String::from("wrong"),
            },
        )
        .unwrap_err();
    assert_eq!(err, ContractError::InvalidSecret);
}

#[test]
fn source_public_withdraw_uses_source_offsets() {
    let data = insta_data(1, timelocks(1000, 2000, 3000, 4500, 4000, 123, 5000));
    let contract = Escrow::instantiate(Role::Source, data, &funds_1000_stake(), 0).unwrap();
    // the source public window opens at 123 and closes at 4500
    let transfer = contract
        .public_withdraw(
            200,
            WithdrawMsg {
                secret: String::from("secret"),
            },
        )
        .unwrap();
    assert_eq!(transfer.to_address, "taker");
    let err = contract
        .public_withdraw(
            4500,
            WithdrawMsg {
                secret: String::from("secret"),
            },
        )
        .unwrap_err();
    assert_eq!(err, ContractError::SrcCancelTimeLimit);
}

#[test]
fn rescue_before_delay_fails() {
    let data = insta_data(500, timelocks(1000, 2000, 3000, 4000, 5000, 123, 231));
    let contract = Escrow::instantiate(Role::Destination, data, &funds_1000_stake(), 0).unwrap();
    let taker = String::from("taker");
    let err = contract.rescue_funds(499, &taker).unwrap_err();
    assert_eq!(err, ContractError::RescueTimeLimit);
    assert!(contract.rescue_funds(500, &taker).is_ok());
    let bob = String::from("bob");
    assert_eq!(
        contract.rescue_funds(5000, &bob).unwrap_err(),
        ContractError::OnlyTaker
    );
}

#[test]
fn pull_funds_restamps_deployment_and_orders_pull() {
    let data = insta_data(1, timelocks(1000, 2000, 3000, 4000, 5000, 123, 231));
    let mut contract = Escrow::instantiate(Role::Source, data, &funds_1000_stake(), 7).unwrap();
    let own_address = String::from("escrow_account");
    let order = contract.pull_funds(
        99,
        &own_address,
        PullFundsMsg {
            from: String::from("maker"),
            amount: Coin {
                denom: String::from("stake"),
                amount: 42,
            },
        },
    );
    assert_eq!(contract.state.deployed_at, 99);
    assert_eq!(order.grantee, "escrow_account");
    assert_eq!(order.from_address, "maker");
    assert_eq!(order.to_address, "escrow_account");
    assert_eq!(order.denom, "stake");
    assert_eq!(order.amount, 42);
}

#[test]
fn queries_return_stored_values() {
    let data = insta_data(77, timelocks(1000, 2000, 1447, 3000, 5000, 123, 231));
    let expected_order_hash = data.order_hash.clone();
    let expected_hashlock = data.hashlock.clone();
    let contract = Escrow::instantiate(Role::Destination, data, &funds_1000_stake(), 11).unwrap();

    assert_eq!(contract.get_order_hash().order_hash, expected_order_hash);
    assert_eq!(contract.get_timelocks().timelocks.dest_cancellation, 1447);
    assert_eq!(contract.get_current_time(123456).time, 123456);

    let details = contract.get_order_details();
    assert_eq!(details.deployed_at, 11);
    assert_eq!(details.rescue_delay, 77);
    assert_eq!(details.order_hash, expected_order_hash);
    assert_eq!(details.hashlock, expected_hashlock);
    assert_eq!(details.maker, "maker");
    assert_eq!(details.taker, "taker");
    assert_eq!(details.token.denom, "stake");
    assert_eq!(details.token.amount, 1000);
    assert_eq!(details.timelocks.src_withdrawal, 5000);
}

#[test]
fn time_guard_helpers() {
    assert!(only_after(10, 11));
    assert!(!only_after(10, 10));
    assert!(!only_after(10, 9));
    assert!(only_before(10, 9));
    assert!(!only_before(10, 10));
    assert!(!only_before(10, 11));
}
