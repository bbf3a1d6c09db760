use presale::errors::ErrorCode;
use presale::launch::{Launch, Wallet};
use presale::memecoin_config::{
    FundingRaiseTier, LaunchStatus, MemecoinConfig, MEMECOIN_TOTAL_SOLD,
};

const T0: u64 = 1_700_000_000;

fn fresh_launch() -> Launch {
    let mut cfg = MemecoinConfig {
        creator: 1,
        creator_memecoin_index: 0,
        created_time: 0,
        funding_raise_tier: FundingRaiseTier::TwentySol,
        status: LaunchStatus::Failed,
        mint: 9,
    };
    cfg.create_memecoin_config(1, 0, T0, FundingRaiseTier::TwentySol)
        .unwrap();
    cfg.mint = 9;
    Launch::new(cfg)
}

fn buyer_with(lamports: u64) -> Wallet {
    Wallet { owner: 7, lamports, tokens: 0 }
}

#[test]
fn purchase_moves_both_balances_and_emits_a_receipt() {
    let mut launch = fresh_launch();
    let mut buyer = buyer_with(20_000_000_000);
    let rec = launch
        .buy(T0 + 10, &mut buyer, 10_000_000_000, String::from("tx-1"))
        .unwrap();
    assert_eq!(rec.buyer, 7);
    assert_eq!(rec.buy_amount, 350_000_000_000_000);
    assert_eq!(rec.mint, 9);
    assert_eq!(rec.token_price, 28);
    assert_eq!(rec.remain_amount, 350_000_000_000_000);
    assert_eq!(rec.hash, "tx-1");
    assert_eq!(launch.token_pool, 350_000_000_000_000);
    assert_eq!(launch.lamport_pool, 10_000_000_000);
    assert_eq!(launch.sold_amount(), 350_000_000_000_000);
    assert_eq!(buyer.lamports, 10_000_000_000);
    assert_eq!(buyer.tokens, 350_000_000_000_000);
    assert_eq!(launch.config.status, LaunchStatus::Ongoing);
}

#[test]
fn exact_sell_out_flips_the_launch_to_succeed() {
    let mut launch = fresh_launch();
    let mut buyer = buyer_with(20_000_000_000);
    let rec = launch
        .buy(T0 + 10, &mut buyer, 20_000_000_000, String::from("tx-2"))
        .unwrap();
    assert_eq!(rec.buy_amount, MEMECOIN_TOTAL_SOLD);
    assert_eq!(rec.remain_amount, 0);
    assert_eq!(launch.token_pool, 0);
    assert_eq!(launch.sold_amount(), MEMECOIN_TOTAL_SOLD);
    assert_eq!(launch.config.status, LaunchStatus::Succeed);
}

#[test]
fn closed_launch_refuses_purchases() {
    let mut launch = fresh_launch();
    let mut buyer = buyer_with(20_000_000_000);
    launch
        .buy(T0 + 10, &mut buyer, 20_000_000_000, String::from("tx-3"))
        .unwrap();
    let r = launch.buy(T0 + 11, &mut buyer, 1, String::from("tx-4"));
    assert_eq!(r.unwrap_err(), ErrorCode::StatusNotOngoing);
}

#[test]
fn overselling_deposit_is_refused_and_changes_nothing() {
    let mut launch = fresh_launch();
    let mut buyer = buyer_with(30_000_000_000);
    launch
        .buy(T0 + 10, &mut buyer, 10_000_000_000, String::from("tx-5"))
        .unwrap();
    // 10_000_000_001 lamports would buy 350_000_000_035_000 units, 35_000
    // more than remain unsold.
    let r = launch.buy(T0 + 11, &mut buyer, 10_000_000_001, String::from("tx-6"));
    assert_eq!(r.unwrap_err(), ErrorCode::AllocationExhausted);
    assert_eq!(launch.token_pool, 350_000_000_000_000);
    assert_eq!(launch.lamport_pool, 10_000_000_000);
    assert_eq!(buyer.lamports, 20_000_000_000);
    assert_eq!(buyer.tokens, 350_000_000_000_000);
    assert_eq!(launch.config.status, LaunchStatus::Ongoing);
}

#[test]
fn deadline_purchase_persists_failure_and_aborts() {
    let mut launch = fresh_launch();
    let mut buyer = buyer_with(20_000_000_000);
    let r = launch.buy(T0 + 43_200, &mut buyer, 1_000_000_000, String::from("tx-7"));
    assert_eq!(r.unwrap_err(), ErrorCode::SaleClosed);
    assert_eq!(launch.config.status, LaunchStatus::Failed);
    assert_eq!(launch.token_pool, MEMECOIN_TOTAL_SOLD);
    assert_eq!(launch.lamport_pool, 0);
    assert_eq!(buyer.lamports, 20_000_000_000);
    assert_eq!(buyer.tokens, 0);
}

#[test]
fn deadline_purchase_on_sold_out_pool_persists_success() {
    let mut launch = fresh_launch();
    launch.token_pool = 0;
    let mut buyer = buyer_with(20_000_000_000);
    let r = launch.buy(T0 + 43_200, &mut buyer, 0, String::from("tx-8"));
    assert_eq!(r.unwrap_err(), ErrorCode::SaleClosed);
    assert_eq!(launch.config.status, LaunchStatus::Succeed);
}

#[test]
fn unpayable_deposit_is_refused() {
    let mut launch = fresh_launch();
    let mut buyer = buyer_with(999_999_999);
    let r = launch.buy(T0 + 10, &mut buyer, 1_000_000_000, String::from("tx-9"));
    assert_eq!(r.unwrap_err(), ErrorCode::InsufficientFunds);
    assert_eq!(buyer.lamports, 999_999_999);
    assert_eq!(launch.lamport_pool, 0);
}

#[test]
fn unrepresentable_allocation_is_refused() {
    let mut launch = fresh_launch();
    let mut buyer = buyer_with(u64::MAX);
    let r = launch.buy(T0 + 10, &mut buyer, u64::MAX, String::from("tx-10"));
    assert_eq!(r.unwrap_err(), ErrorCode::Overflow);
}

#[test]
fn token_credit_overflow_is_refused() {
    let mut launch = fresh_launch();
    let mut buyer = Wallet { owner: 7, lamports: 1_000_000_000, tokens: u64::MAX };
    let r = launch.buy(T0 + 10, &mut buyer, 1_000_000_000, String::from("tx-11"));
    assert_eq!(r.unwrap_err(), ErrorCode::CalculationError);
    assert_eq!(buyer.tokens, u64::MAX);
    assert_eq!(launch.token_pool, MEMECOIN_TOTAL_SOLD);
}
