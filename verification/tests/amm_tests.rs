use stellar_lend::amm::{AMMRegistry, PairKey, SwapParams};
use stellar_lend::interest::Position;
use stellar_lend::state::{Protocol, StateHelper};

fn s(x: &str) -> String {
    x.to_string()
}

fn env() -> Protocol {
    Protocol::new(s("CDLZFC3SYJYDZT7K67VZ75HPJVIEUVNIXF47ZG2FB2RMQQVU2HHGCYSC"), 0)
}

fn asset(i: u32) -> String {
    format!("CASSET{:050}", i)
}

#[test]
fn test_register_amm_pair() {
    let mut p = env();
    let asset_a = asset(1);
    let asset_b = asset(2);
    let amm_address = asset(3);
    let result = AMMRegistry::register_pair(&mut p, asset_a.clone(), asset_b.clone(), amm_address, None);
    assert!(result.is_ok());
    assert!(AMMRegistry::is_pair_registered(&p, &asset_a, &asset_b));
    assert_eq!(AMMRegistry::get_total_pairs(&p), 1);
}

#[test]
fn test_register_duplicate_pair_fails() {
    let mut p = env();
    let asset_a = asset(1);
    let asset_b = asset(2);
    let amm_address = asset(3);
    let result = AMMRegistry::register_pair(&mut p, asset_a.clone(), asset_b.clone(), amm_address.clone(), None);
    assert!(result.is_ok());
    let result = AMMRegistry::register_pair(&mut p, asset_a.clone(), asset_b.clone(), amm_address.clone(), None);
    assert!(result.is_err());
}

#[test]
fn test_pair_normalization() {
    let mut p = env();
    let asset_a = asset(1);
    let asset_b = asset(2);
    let amm_address = asset(3);
    let result = AMMRegistry::register_pair(&mut p, asset_a.clone(), asset_b.clone(), amm_address, None);
    assert!(result.is_ok());
    assert!(AMMRegistry::is_pair_registered(&p, &asset_b, &asset_a));
    let pair_info = AMMRegistry::get_pair_info(&p, &asset_b, &asset_a);
    assert!(pair_info.is_ok());
}

#[test]
fn test_execute_swap() {
    let mut p = env();
    let user = asset(9);
    let asset_in = asset(1);
    let asset_out = asset(2);
    AMMRegistry::register_pair(&mut p, asset_in.clone(), asset_out.clone(), asset(3), None).unwrap();
    let params = SwapParams::new(user.clone(), asset_in.clone(), asset_out.clone(), 1_000_000, 900_000);
    let result = AMMRegistry::execute_swap(&mut p, params);
    assert!(result.is_ok());
    let swap_result = result.unwrap();
    assert_eq!(swap_result.amount_in, 1_000_000);
    assert!(swap_result.amount_out > 0);
    assert!(swap_result.fee_paid > 0);
}

#[test]
fn test_liquidation_swap_hook() {
    let mut p = env();
    let liquidator = asset(9);
    let collateral_asset = asset(1);
    let debt_asset = asset(2);
    AMMRegistry::register_pair(&mut p, collateral_asset.clone(), debt_asset.clone(), asset(3), None).unwrap();
    let position = Position::new(liquidator.clone(), 2_000_000, 1_000_000);
    StateHelper::save_position(&mut p, position);
    let result = AMMRegistry::liquidation_swap_hook(&mut p, &liquidator, &collateral_asset, &debt_asset, 500_000, 400_000);
    assert!(result.is_ok());
    let swap_result = result.unwrap();
    assert_eq!(swap_result.amount_in, 500_000);
    assert!(swap_result.amount_out >= 400_000);
    let updated_position = StateHelper::get_position(&p, &liquidator).unwrap();
    assert_eq!(updated_position.collateral, 2_000_000 - 500_000);
    assert_eq!(updated_position.debt, 1_000_000 - swap_result.amount_out);
}

#[test]
fn test_swap_history_tracking() {
    let mut p = env();
    let user = asset(9);
    let asset_in = asset(1);
    let asset_out = asset(2);
    AMMRegistry::register_pair(&mut p, asset_in.clone(), asset_out.clone(), asset(3), None).unwrap();
    for _ in 0..3 {
        let params = SwapParams::new(user.clone(), asset_in.clone(), asset_out.clone(), 1_000_000, 900_000);
        let result = AMMRegistry::execute_swap(&mut p, params);
        assert!(result.is_ok());
    }
    let history = AMMRegistry::get_swap_history(&p);
    assert_eq!(history.len(), 3);
}

#[test]
fn swap_fee_and_output_split_the_input_exactly() {
    let mut p = env();
    AMMRegistry::register_pair(&mut p, asset(1), asset(2), asset(3), None).unwrap();
    let params = SwapParams::new(asset(9), asset(2), asset(1), 1_000_000, 0);
    let result = AMMRegistry::execute_swap(&mut p, params).unwrap();
    assert_eq!(result.fee_paid, 3_000);
    assert_eq!(result.amount_out, 997_000);
    assert_eq!(result.exchange_rate, 99_700_000);
    assert_eq!(result.fee_paid + result.amount_out, 1_000_000);
}

#[test]
fn swap_below_minimum_output_is_refused() {
    let mut p = env();
    AMMRegistry::register_pair(&mut p, asset(1), asset(2), asset(3), None).unwrap();
    let params = SwapParams::new(asset(9), asset(1), asset(2), 1_000, 999);
    let result = AMMRegistry::execute_swap(&mut p, params);
    assert_eq!(result.unwrap_err(), stellar_lend::errors::ProtocolError::InvalidAmount);
    assert_eq!(AMMRegistry::get_swap_history(&p).len(), 0);
}

#[test]
fn swap_history_keeps_the_latest_hundred() {
    let mut p = env();
    AMMRegistry::register_pair(&mut p, asset(1), asset(2), asset(3), None).unwrap();
    for i in 1..=105i128 {
        let params = SwapParams::new(asset(9), asset(1), asset(2), i * 10_000, 0);
        AMMRegistry::execute_swap(&mut p, params).unwrap();
    }
    let history = AMMRegistry::get_swap_history(&p);
    assert_eq!(history.len(), 100);
    assert_eq!(history[0].amount_in, 60_000);
    assert_eq!(history[99].amount_in, 1_050_000);
}

#[test]
fn pair_key_orders_assets_by_text() {
    let k1 = PairKey::new(s("BBB"), s("AAA"));
    let k2 = PairKey::new(s("AAA"), s("BBB"));
    assert_eq!(k1.asset_a, "AAA");
    assert_eq!(k1.asset_b, "BBB");
    assert_eq!(k2.asset_a, k1.asset_a);
    assert_eq!(k2.asset_b, k1.asset_b);
}

#[test]
fn deactivated_pair_refuses_swaps() {
    let mut p = env();
    AMMRegistry::register_pair(&mut p, asset(1), asset(2), asset(3), None).unwrap();
    AMMRegistry::deactivate_pair(&mut p, &asset(2), &asset(1)).unwrap();
    assert!(!AMMRegistry::is_pair_registered(&p, &asset(1), &asset(2)));
    let params = SwapParams::new(asset(9), asset(1), asset(2), 1_000, 0);
    let result = AMMRegistry::execute_swap(&mut p, params);
    assert_eq!(result.unwrap_err(), stellar_lend::errors::ProtocolError::NotFound);
    AMMRegistry::activate_pair(&mut p, &asset(1), &asset(2)).unwrap();
    assert!(AMMRegistry::is_pair_registered(&p, &asset(1), &asset(2)));
}

#[test]
fn duplicate_registration_in_reverse_order_is_refused() {
    let mut p = env();
    AMMRegistry::register_pair(&mut p, asset(1), asset(2), asset(3), None).unwrap();
    let result = AMMRegistry::register_pair(&mut p, asset(2), asset(1), asset(4), None);
    assert_eq!(result, Err(stellar_lend::errors::ProtocolError::AlreadyExists));
    assert_eq!(AMMRegistry::get_total_pairs(&p), 1);
    assert_eq!(AMMRegistry::get_pair_info(&p, &asset(2), &asset(1)).unwrap().amm_address, asset(3));
}
