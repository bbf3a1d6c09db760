use presale::errors::ErrorCode;
use presale::global_config::GlobalConfig;
use presale::launch::{Launch, Wallet};
use presale::memecoin_config::{FundingRaiseTier, LaunchStatus, MemecoinConfig};

const T0: u64 = 1_700_000_000;

/// A launch that sold out its whole supply for the 20 SOL target.
fn successful_launch() -> Launch {
    let cfg = MemecoinConfig {
        creator: 1,
        creator_memecoin_index: 0,
        created_time: T0,
        funding_raise_tier: FundingRaiseTier::TwentySol,
        status: LaunchStatus::Ongoing,
        mint: 9,
    };
    let mut launch = Launch::new(cfg);
    let mut buyer = Wallet { owner: 7, lamports: 20_000_000_000, tokens: 0 };
    launch
        .buy(T0 + 10, &mut buyer, 20_000_000_000, String::from("tx-w"))
        .unwrap();
    launch
}

#[test]
fn wrap_takes_the_target_net_of_fees() {
    let mut launch = successful_launch();
    let global = GlobalConfig::new(11, 500, 22);
    // 20e9 * 9500 / 10000 = 19e9, minus the two charges.
    let wrapped = launch
        .wrap_sol(&global, 1_000_000_000, 500_000_000)
        .unwrap();
    assert_eq!(wrapped, 17_500_000_000);
    assert_eq!(launch.lamport_pool, 2_500_000_000);
    assert_eq!(launch.config.status, LaunchStatus::Succeed);
}

#[test]
fn only_a_successful_launch_wraps() {
    let cfg = MemecoinConfig {
        creator: 1,
        creator_memecoin_index: 0,
        created_time: T0,
        funding_raise_tier: FundingRaiseTier::TwentySol,
        status: LaunchStatus::Ongoing,
        mint: 9,
    };
    let mut launch = Launch::new(cfg);
    let global = GlobalConfig::new(11, 500, 22);
    let r = launch.wrap_sol(&global, 1_000_000_000, 500_000_000);
    assert_eq!(r.unwrap_err(), ErrorCode::OnlyWrapSolWhenLaunchSuccess);
}

#[test]
fn charges_beyond_the_net_target_are_refused() {
    let mut launch = successful_launch();
    let global = GlobalConfig::new(11, 500, 22);
    let r = launch.wrap_sol(&global, 19_000_000_001, 0);
    assert_eq!(r.unwrap_err(), ErrorCode::CalculationError);
    assert_eq!(launch.lamport_pool, 20_000_000_000);
}

#[test]
fn wrap_never_over_debits_the_pool() {
    let mut launch = successful_launch();
    launch.lamport_pool = 1_000_000_000;
    let global = GlobalConfig::new(11, 500, 22);
    let r = launch.wrap_sol(&global, 1_000_000_000, 500_000_000);
    assert_eq!(r.unwrap_err(), ErrorCode::InsufficientPoolBalance);
    assert_eq!(launch.lamport_pool, 1_000_000_000);
}
