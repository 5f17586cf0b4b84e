use distributor::controller::{
    find_key, ControllerConfig, ControllerState, RouteAction, RoutingWeights, MAX_DEX_PROGRAMS,
    MAX_KEEPERS, SECONDS_PER_DAY,
};
use distributor::error::ControllerError;
use distributor::state::Pubkey;

fn key(n: u8) -> Pubkey {
    Pubkey::new([n; 32])
}

fn weights(a: u8, b: u8, c: u8, d: u8) -> RoutingWeights {
    RoutingWeights { rewards_pct: a, buyback_pct: b, burn_pct: c, auto_lp_pct: d }
}

fn config() -> ControllerConfig {
    ControllerConfig {
        weights: weights(40, 30, 20, 10),
        max_slippage_bps: 100,
        max_trade_lamports: 1_000,
        max_trades_per_day: 2,
    }
}

fn controller() -> ControllerState {
    ControllerState::initialize(key(1), config()).unwrap()
}

#[test]
fn weights_must_sum_to_one_hundred() {
    assert!(weights(40, 30, 20, 10).validate());
    assert!(weights(100, 0, 0, 0).validate());
    assert!(!weights(40, 30, 20, 11).validate());
    assert!(!weights(0, 0, 0, 0).validate());
    // would wrap to 100 in eight bits
    assert!(!weights(255, 101, 0, 0).validate());
}

#[test]
fn initialize_checks_weights_and_sets_admin_as_keeper() {
    let mut bad = config();
    bad.weights = weights(50, 50, 50, 0);
    assert_eq!(
        ControllerState::initialize(key(1), bad).err(),
        Some(ControllerError::InvalidWeights)
    );
    let c = controller();
    assert!(c.is_keeper(&key(1)));
    assert!(!c.is_keeper(&key(2)));
    assert_eq!(c.keepers.len(), 1);
    assert_eq!(c.allowed_dex_programs.len(), 0);
    assert_eq!(c.max_trade_lamports, 1_000);
    assert!(!c.paused);
}

#[test]
fn config_updates_are_admin_only() {
    let mut c = controller();
    assert_eq!(c.update_weights(&key(2), weights(100, 0, 0, 0)), Err(ControllerError::UnauthorizedAdmin));
    assert_eq!(c.update_weights(&key(1), weights(99, 0, 0, 0)), Err(ControllerError::InvalidWeights));
    assert_eq!(c.update_weights(&key(1), weights(25, 25, 25, 25)), Ok(()));
    assert_eq!(c.weights, weights(25, 25, 25, 25));
    assert_eq!(c.update_slippage(&key(2), 5), Err(ControllerError::UnauthorizedAdmin));
    assert_eq!(c.update_slippage(&key(1), 5), Ok(()));
    assert_eq!(c.max_slippage_bps, 5);
    assert_eq!(c.update_max_trade(&key(1), 77), Ok(()));
    assert_eq!(c.max_trade_lamports, 77);
    assert_eq!(c.set_paused(&key(1), true), Ok(()));
    assert!(c.paused);
    assert_eq!(c.update_admin(&key(2), key(2)), Err(ControllerError::UnauthorizedAdmin));
    assert_eq!(c.update_admin(&key(1), key(2)), Ok(()));
    assert_eq!(c.set_paused(&key(1), false), Err(ControllerError::UnauthorizedAdmin));
}

#[test]
fn keeper_list_is_bounded() {
    let mut c = controller();
    for n in 2..=MAX_KEEPERS as u8 {
        assert_eq!(c.add_keeper(&key(1), key(n)), Ok(()));
    }
    assert_eq!(c.keepers.len(), MAX_KEEPERS);
    assert_eq!(c.add_keeper(&key(1), key(50)), Err(ControllerError::MaxKeepersReached));
    assert_eq!(c.add_keeper(&key(2), key(50)), Err(ControllerError::UnauthorizedAdmin));
}

#[test]
fn remove_keeper_keeps_order() {
    let mut c = controller();
    assert_eq!(c.add_keeper(&key(1), key(2)), Ok(()));
    assert_eq!(c.add_keeper(&key(1), key(3)), Ok(()));
    assert_eq!(c.remove_keeper(&key(1), &key(9)), Err(ControllerError::KeeperNotFound));
    assert_eq!(c.remove_keeper(&key(1), &key(2)), Ok(()));
    assert_eq!(c.keepers.len(), 2);
    assert_eq!(c.keepers[0].bytes, [1u8; 32]);
    assert_eq!(c.keepers[1].bytes, [3u8; 32]);
    assert!(!c.is_keeper(&key(2)));
    assert_eq!(find_key(&c.keepers, &key(3)), Some(1));
    assert_eq!(c.remove_keeper(&key(3), &key(1)), Err(ControllerError::UnauthorizedAdmin));
}

#[test]
fn dex_list_is_bounded() {
    let mut c = controller();
    for n in 0..MAX_DEX_PROGRAMS as u8 {
        assert_eq!(c.add_dex(&key(1), key(100 + n)), Ok(()));
    }
    assert!(c.is_allowed_dex(&key(100)));
    assert!(c.is_allowed_dex(&key(109)));
    assert!(!c.is_allowed_dex(&key(110)));
    assert_eq!(c.add_dex(&key(1), key(200)), Err(ControllerError::MaxDexProgramsReached));
}

#[test]
fn swap_checks_limits_in_order() {
    let mut c = controller();
    let day = SECONDS_PER_DAY as i64;
    assert_eq!(c.add_dex(&key(1), key(100)), Ok(()));
    assert_eq!(c.fund_treasury(500), Ok(()));
    assert_eq!(c.execute_swap(&key(2), &key(100), 10, 1, day), Err(ControllerError::UnauthorizedKeeper));
    assert_eq!(c.execute_swap(&key(1), &key(100), 1_001, 1, day), Err(ControllerError::TradeSizeExceeded));
    assert_eq!(c.execute_swap(&key(1), &key(101), 10, 1, day), Err(ControllerError::DexNotAllowed));
    assert_eq!(c.execute_swap(&key(1), &key(100), 600, 1, day), Err(ControllerError::InsufficientBalance));
    assert_eq!(c.execute_swap(&key(1), &key(100), 10, 1, day), Ok(()));
    assert_eq!(c.current_day, 1);
    assert_eq!(c.trades_today, 1);
    assert_eq!(c.execute_swap(&key(1), &key(100), 10, 1, day + 5), Ok(()));
    assert_eq!(c.trades_today, 2);
    assert_eq!(c.execute_swap(&key(1), &key(100), 10, 1, day + 6), Err(ControllerError::DailyLimitExceeded));
    // a new day restarts the count
    assert_eq!(c.execute_swap(&key(1), &key(100), 10, 1, 2 * day), Ok(()));
    assert_eq!(c.current_day, 2);
    assert_eq!(c.trades_today, 1);
    assert_eq!(c.set_paused(&key(1), true), Ok(()));
    assert_eq!(c.execute_swap(&key(1), &key(100), 10, 1, 2 * day), Err(ControllerError::Paused));
}

#[test]
fn routing_moves_treasury_funds_to_a_category() {
    let mut c = controller();
    assert_eq!(c.route_funds(&key(1), RouteAction::Burn, 5), Err(ControllerError::InsufficientBalance));
    assert_eq!(c.fund_treasury(0), Err(ControllerError::ZeroAmount));
    assert_eq!(c.fund_treasury(100), Ok(()));
    assert_eq!(c.route_funds(&key(1), RouteAction::Burn, 0), Err(ControllerError::ZeroAmount));
    assert_eq!(c.route_funds(&key(9), RouteAction::Burn, 5), Err(ControllerError::UnauthorizedKeeper));
    assert_eq!(c.route_funds(&key(1), RouteAction::Burn, 30), Ok(()));
    assert_eq!(c.route_funds(&key(1), RouteAction::Rewards, 20), Ok(()));
    assert_eq!(c.route_funds(&key(1), RouteAction::Burn, 5), Ok(()));
    assert_eq!(c.total_routed_burn, 35);
    assert_eq!(c.total_routed_rewards, 20);
    assert_eq!(c.total_routed_buyback, 0);
    assert_eq!(c.total_routed_auto_lp, 0);
    assert_eq!(c.treasury_balance, 45);
    assert_eq!(c.set_paused(&key(1), true), Ok(()));
    assert_eq!(c.route_funds(&key(1), RouteAction::AutoLp, 5), Err(ControllerError::Paused));
}

#[test]
fn routing_total_overflow_is_refused() {
    let mut c = controller();
    assert_eq!(c.fund_treasury(u64::MAX), Ok(()));
    assert_eq!(c.fund_treasury(1), Err(ControllerError::MathOverflow));
    assert_eq!(c.route_funds(&key(1), RouteAction::Buyback, u64::MAX - 1), Ok(()));
    assert_eq!(c.withdraw_treasury(&key(1), 1), Ok(()));
    assert_eq!(c.fund_treasury(2), Ok(()));
    assert_eq!(c.route_funds(&key(1), RouteAction::Buyback, 2), Err(ControllerError::MathOverflow));
    assert_eq!(c.total_routed_buyback, u64::MAX - 1);
    assert_eq!(c.treasury_balance, 2);
}

#[test]
fn treasury_withdraw_is_admin_only() {
    let mut c = controller();
    assert_eq!(c.fund_treasury(10), Ok(()));
    assert_eq!(c.withdraw_treasury(&key(2), 5), Err(ControllerError::UnauthorizedAdmin));
    assert_eq!(c.withdraw_treasury(&key(1), 0), Err(ControllerError::ZeroAmount));
    assert_eq!(c.withdraw_treasury(&key(1), 11), Err(ControllerError::InsufficientBalance));
    assert_eq!(c.withdraw_treasury(&key(1), 4), Ok(()));
    assert_eq!(c.treasury_balance, 6);
    assert_eq!(ControllerError::KeeperNotFound.message(), "Keeper not found");
}
