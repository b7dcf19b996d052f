use stellar_lend::borrow::BorrowModule;
use stellar_lend::contract::Contract;
use stellar_lend::deposit::DepositModule;
use stellar_lend::emergency::{EmergencyFund, EmergencyManager, EmergencyStatus};
use stellar_lend::errors::{ProtocolError, _ensure_amount_positive};
use stellar_lend::events::{EventStore, EventTracker, Notice, ProtocolEvent, PubValue};
use stellar_lend::governance::{GovState, Governance};
use stellar_lend::interest::{InterestRateConfig, InterestRateManager, InterestRateState, Position, updated_state};
use stellar_lend::liquidate::LiquidationModule;
use stellar_lend::math::div_trunc;
use stellar_lend::oracle::{aggregate_prices, sort_prices, Oracle, OracleSource};
use stellar_lend::repay::RepayModule;
use stellar_lend::state::{Protocol, StateHelper};
use stellar_lend::transfer::{BalanceReading, TransferEnforcer};
use stellar_lend::users::{OperationKind, UserLimits, UserManager, UserRole};
use stellar_lend::withdraw::WithdrawModule;

const CONTRACT: &str = "CDLZFC3SYJYDZT7K67VZ75HPJVIEUVNIXF47ZG2FB2RMQQVU2HHGCYSC";

fn s(x: &str) -> String {
    x.to_string()
}

fn admin() -> String {
    s("GCAZYE3EB54VKP3UQBX3H73VQO3SIWTZNR7NJQKJFZZ6XLADWA4C3SOC")
}

fn user() -> String {
    s("GCXOTMMXRS24MYZI5FJPUCOEOFNWSR4XX7UXIK3NDGGE6A5QMJ5FF2FS")
}

fn initialized() -> Protocol {
    let mut p = Protocol::new(s(CONTRACT), 0);
    Contract::initialize(&mut p, &admin()).unwrap();
    p
}

#[test]
fn truncating_division_matches_rust_for_every_sign() {
    assert_eq!(div_trunc(7, 2), 3);
    assert_eq!(div_trunc(-7, 2), -3);
    assert_eq!(div_trunc(7, -2), -3);
    assert_eq!(div_trunc(-7, -2), 3);
    assert_eq!(div_trunc(i128::MIN, i128::MIN), 1);
    assert_eq!(div_trunc(5, i128::MIN), 0);
}

#[test]
fn amount_must_be_positive() {
    assert_eq!(_ensure_amount_positive(1), Ok(()));
    assert_eq!(_ensure_amount_positive(0), Err(ProtocolError::InvalidAmount));
}

#[test]
fn interest_accrues_linearly_over_a_year() {
    let mut position = Position::new(user(), 2_000_000, 1_000_000);
    position.last_accrual_time = 1;
    InterestRateManager::accrue_interest_for_position(1 + 31_536_000, &mut position, 10_000_000, 5_000_000);
    assert_eq!(position.borrow_interest, 100_000);
    assert_eq!(position.supply_interest, 100_000);
    assert_eq!(position.debt, 1_000_000);
    assert_eq!(position.collateral, 2_000_000);
}

#[test]
fn first_accrual_only_stamps_the_time() {
    let mut position = Position::new(user(), 2_000_000, 1_000_000);
    InterestRateManager::accrue_interest_for_position(500, &mut position, 10_000_000, 5_000_000);
    assert_eq!(position.last_accrual_time, 500);
    assert_eq!(position.borrow_interest, 0);
}

#[test]
fn accrual_clamps_rates_into_range() {
    let mut position = Position::new(user(), 0, 1_000_000);
    position.last_accrual_time = 1;
    InterestRateManager::accrue_interest_for_position(1 + 31_536_000, &mut position, 500_000_000, -5);
    assert_eq!(position.borrow_interest, 1_000_000);
    assert_eq!(position.supply_interest, 0);
}

#[test]
fn borrow_rate_respects_floor_and_ceiling() {
    let mut config = InterestRateConfig::default();
    config.rate_floor = 3_000_000;
    config.rate_ceiling = 4_000_000;
    let mut state = InterestRateState::initial();
    state.total_supplied = 1_000;
    state.total_borrowed = 900;
    let next = updated_state(&state, &config, 10);
    assert!(next.current_borrow_rate >= 3_000_000);
    assert!(next.current_borrow_rate <= 4_000_000);
    assert_eq!(next.utilization_rate, 90_000_000);
    assert_eq!(next.last_accrual_time, 10);
}

#[test]
fn borrow_and_withdraw_helpers() {
    assert_eq!(BorrowModule::_calculate_max_borrowable(1500, 0, 150), 1000);
    assert_eq!(BorrowModule::_calculate_max_borrowable(1500, 1200, 150), 0);
    assert_eq!(BorrowModule::_calculate_max_borrowable(1500, 0, 0), 0);
    assert!(BorrowModule::_is_borrow_allowed(1500, 0, 1000, 150));
    assert!(!BorrowModule::_is_borrow_allowed(1500, 0, 1001, 150));
    assert!(BorrowModule::_is_borrow_allowed(0, 5, -5, 150));
    assert!(WithdrawModule::is_withdrawal_allowed(1000, 0, 1000, 150));
    assert!(!WithdrawModule::is_withdrawal_allowed(1000, 0, 1001, 150));
    assert!(WithdrawModule::is_withdrawal_allowed(2000, 1000, 500, 150));
    assert!(!WithdrawModule::is_withdrawal_allowed(2000, 1000, 501, 150));
    assert_eq!(WithdrawModule::calculate_collateral_ratio_after_withdrawal(2000, 1000, 500), 150);
    assert_eq!(WithdrawModule::calculate_collateral_ratio_after_withdrawal(2000, 0, 500), 0);
    assert_eq!(DepositModule::calculate_collateral_ratio_impact(1000, 500, 500), 300);
}

#[test]
fn repay_helpers() {
    assert_eq!(RepayModule::_calculate_repay_amount(300, 1000, false), 300);
    assert_eq!(RepayModule::_calculate_repay_amount(3000, 1000, false), 1000);
    assert_eq!(RepayModule::_calculate_repay_amount(300, 1000, true), 1000);
    assert!(RepayModule::_can_full_repay(1));
    assert!(!RepayModule::_can_full_repay(0));
    assert_eq!(RepayModule::calculate_remaining_debt(1000, 300), 700);
    assert_eq!(RepayModule::calculate_remaining_debt(1000, 3000), 0);
}

#[test]
fn liquidation_helpers() {
    let mut p = initialized();
    assert_eq!(LiquidationModule::calculate_collateral_to_seize(&p, 1000), Ok(1100));
    assert_eq!(LiquidationModule::calculate_liquidation_incentive(&p, 1000), 100);
    StateHelper::save_position(&mut p, Position::new(user(), 1200, 1000));
    assert_eq!(LiquidationModule::is_eligible_for_liquidation(&p, &user()), Ok(true));
    assert_eq!(LiquidationModule::calculate_max_liquidation_amount(&p, &user()), Ok(500));
    assert_eq!(LiquidationModule::get_health_factor(&p, &user()), Ok(80));
    assert_eq!(LiquidationModule::get_health_factor(&p, &admin()), Err(ProtocolError::PositionNotFound));
}

#[test]
fn liquidation_repays_at_most_the_close_factor_share() {
    let mut p = initialized();
    let liquidator = admin();
    StateHelper::save_position(&mut p, Position::new(user(), 1200, 1000));
    let result = LiquidationModule::liquidate(&mut p, &liquidator, &user(), 900, 0).unwrap();
    assert_eq!(result.debt_repaid, 500);
    assert_eq!(result.collateral_seized, 550);
    let position = StateHelper::get_position(&p, &user()).unwrap();
    assert_eq!(position.debt, 500);
    assert_eq!(position.collateral, 650);
}

#[test]
fn emergency_gates_follow_the_status() {
    let mut p = initialized();
    let admin = admin();
    assert_eq!(EmergencyManager::ensure_operation_allowed(&p.emergency, OperationKind::Borrow), Ok(()));
    EmergencyManager::pause(&mut p, &admin, None).unwrap();
    assert_eq!(p.emergency.status, EmergencyStatus::Paused);
    assert_eq!(
        EmergencyManager::ensure_operation_allowed(&p.emergency, OperationKind::Repay),
        Err(ProtocolError::ProtocolPaused)
    );
    assert_eq!(EmergencyManager::ensure_operation_allowed(&p.emergency, OperationKind::Admin), Ok(()));
    EmergencyManager::enter_recovery(&mut p, &admin, None).unwrap();
    assert_eq!(EmergencyManager::ensure_operation_allowed(&p.emergency, OperationKind::Repay), Ok(()));
    assert_eq!(
        EmergencyManager::ensure_operation_allowed(&p.emergency, OperationKind::Withdraw),
        Err(ProtocolError::RecoveryModeRestricted)
    );
    let stranger = user();
    assert_eq!(EmergencyManager::resume(&mut p, &stranger), Err(ProtocolError::Unauthorized));
}

#[test]
fn emergency_managers_are_added_once_and_removed() {
    let mut p = initialized();
    let admin = admin();
    let manager = user();
    Contract::set_emergency_manager(&mut p, &admin, &manager, true).unwrap();
    Contract::set_emergency_manager(&mut p, &admin, &manager, true).unwrap();
    assert_eq!(p.emergency.emergency_managers.len(), 1);
    Contract::trigger_emergency_pause(&mut p, &manager, Some(s("drill"))).unwrap();
    assert_eq!(p.emergency.status, EmergencyStatus::Paused);
    assert_eq!(p.emergency.paused_by, Some(manager.clone()));
    Contract::set_emergency_manager(&mut p, &admin, &manager, false).unwrap();
    assert_eq!(p.emergency.emergency_managers.len(), 0);
    assert_eq!(Contract::resume_operations(&mut p, &manager), Err(ProtocolError::Unauthorized));
}

#[test]
fn unknown_parameter_update_refuses_the_whole_batch() {
    let mut p = initialized();
    let admin = admin();
    Contract::queue_emergency_param_update(&mut p, &admin, s("multiplier"), 7).unwrap();
    Contract::queue_emergency_param_update(&mut p, &admin, s("no_such_key"), 1).unwrap();
    let events_before = p.outbox.len();
    let result = Contract::apply_emergency_param_updates(&mut p, &admin);
    assert_eq!(result, Err(ProtocolError::InvalidParameters));
    assert_eq!(p.interest_config.multiplier, 10_000_000);
    assert_eq!(p.emergency.pending_param_updates.len(), 2);
    assert_eq!(p.outbox.len(), events_before);
}

#[test]
fn invalid_ratio_update_is_refused() {
    let mut p = initialized();
    let admin = admin();
    Contract::queue_emergency_param_update(&mut p, &admin, s("min_collateral_ratio"), 0).unwrap();
    assert_eq!(Contract::apply_emergency_param_updates(&mut p, &admin), Err(ProtocolError::InvalidInput));
    let mut q = initialized();
    Contract::queue_emergency_param_update(&mut q, &admin, s("flash_fee_bps"), 20_000).unwrap();
    assert_eq!(Contract::apply_emergency_param_updates(&mut q, &admin), Err(ProtocolError::InvalidInput));
}

#[test]
fn fund_adjustments_keep_reserve_within_balance() {
    let fund = EmergencyFund::initial(0);
    let f = EmergencyManager::adjusted_fund(fund, None, 100, 40, 5).unwrap();
    assert_eq!((f.balance, f.reserved, f.last_update), (100, 40, 5));
    let again = EmergencyManager::adjusted_fund(f, None, 0, 70, 6);
    assert_eq!(again.unwrap_err(), ProtocolError::EmergencyFundInsufficient);
    let fund = EmergencyFund::initial(0);
    assert_eq!(
        EmergencyManager::adjusted_fund(fund, None, 10, -1, 6).unwrap_err(),
        ProtocolError::EmergencyFundInsufficient
    );
}

#[test]
fn event_logs_keep_the_latest_records() {
    let mut store = EventStore::new();
    for i in 0..40i128 {
        let record = EventTracker::capture(i as u64, &ProtocolEvent::CrossDeposit(user(), admin(), i));
        store.append_event(record);
    }
    let log = stellar_lend::events::EventStorage::get_logs(&store, &s("cross_deposit"));
    assert_eq!(log.len(), 32);
    assert_eq!(log[0].amount, 8);
    assert_eq!(log[31].amount, 39);
    let aggregates = stellar_lend::events::EventStorage::get_aggregates(&store);
    assert_eq!(aggregates.len(), 1);
    assert_eq!(aggregates[0].count, 40);
    assert_eq!(aggregates[0].total_amount, 780);
    for i in 0..20u32 {
        EventTracker::record(&mut store, 1, format!("kind_{}", i), Vec::new(), None, None, 1);
    }
    assert_eq!(store.recent_types.len(), 16);
}

#[test]
fn captured_records_carry_type_topics_user_and_amount() {
    let record = EventTracker::capture(77, &ProtocolEvent::PositionUpdated(user(), 1200, 300, 400));
    assert_eq!(record.event_type, "position_updated");
    assert_eq!(record.topics, vec![s("position_updated"), s("user")]);
    assert_eq!(record.user, Some(user()));
    assert_eq!(record.amount, 1200);
    assert_eq!(record.timestamp, 77);
}

#[test]
fn user_limits_and_names() {
    let limits = UserLimits::default(0);
    assert_eq!(limits.check_operation(OperationKind::Deposit, 10), Ok(()));
    assert_eq!(UserRole::Manager.as_symbol(), "manager");
    assert_eq!(UserManager::operation_symbol(OperationKind::FlashLoan), "flash_loan");
    assert!(UserRole::Admin.level() > UserRole::Manager.level());
}

#[test]
fn transfer_settlement_rejects_a_short_transfer() {
    let mut p = initialized();
    let admin = admin();
    Contract::set_primary_asset(&mut p, &admin, s("CTOKEN")).unwrap();
    let order = TransferEnforcer::transfer_in(&mut p, &user(), 100, &s("repay")).unwrap();
    assert_eq!(order.to, CONTRACT);
    assert_eq!(order.asset, "CTOKEN");
    let before = BalanceReading { contract: 1_000, user: 500 };
    let after = BalanceReading { contract: 1_099, user: 401 };
    assert_eq!(TransferEnforcer::settle(&mut p, &order, before, after), Err(ProtocolError::BalanceInvariantViolation));
    let good = BalanceReading { contract: 1_100, user: 400 };
    assert_eq!(TransferEnforcer::settle(&mut p, &order, before, good), Ok(()));
}

#[test]
fn outgoing_transfer_needs_liquidity() {
    let mut p = initialized();
    let admin = admin();
    assert_eq!(
        TransferEnforcer::transfer_out(&mut p, &user(), 100, &s("withdraw"), 1_000).unwrap_err(),
        ProtocolError::AssetNotSupported
    );
    Contract::set_primary_asset(&mut p, &admin, s("CTOKEN")).unwrap();
    assert_eq!(
        TransferEnforcer::transfer_out(&mut p, &user(), 100, &s("withdraw"), 99).unwrap_err(),
        ProtocolError::InsufficientLiquidity
    );
    assert_eq!(TransferEnforcer::transfer_out(&mut p, &user(), 0, &s("withdraw"), 99).unwrap_err(), ProtocolError::InvalidAmount);
    let order = TransferEnforcer::transfer_out(&mut p, &user(), 100, &s("withdraw"), 100).unwrap();
    assert_eq!(order.from, CONTRACT);
    assert!(!order.incoming);
}

#[test]
fn median_trims_and_filters_outliers() {
    let prices = vec![100, 101, 99, 102, 98, 500, 1];
    assert_eq!(aggregate_prices(&prices, 0, 5, 1, 500), Some(100));
    let prices = vec![100, 104];
    assert_eq!(aggregate_prices(&prices, 0, 5, 1, 500), Some(104));
    assert_eq!(aggregate_prices(&prices, 0, 5, 0, 500), Some(102));
    let prices = vec![100, 200, 300];
    assert_eq!(aggregate_prices(&prices, 0, 5, 5, 500), Some(200));
    assert_eq!(aggregate_prices(&Vec::new(), 0, 5, 1, 500), None);
}

#[test]
fn windowed_average_uses_the_first_samples() {
    let prices = vec![10, 20, 30, 40];
    assert_eq!(aggregate_prices(&prices, 1, 2, 1, 500), Some(15));
    assert_eq!(aggregate_prices(&prices, 1, 0, 1, 500), Some(10));
    assert_eq!(aggregate_prices(&prices, 1, 10, 1, 500), Some(25));
}

#[test]
fn sorting_orders_prices() {
    let mut v = vec![5, -3, 9, 0, 5];
    sort_prices(&mut v);
    assert_eq!(v, vec![-3, 0, 5, 5, 9]);
}

#[test]
fn oracle_sources_cache_and_aggregation() {
    let mut p = initialized();
    let asset = s("CASSET");
    Oracle::set_source(&mut p.oracle, &admin(), &asset, OracleSource::new(s("S1"), 1, 0));
    Oracle::set_source(&mut p.oracle, &admin(), &asset, OracleSource::new(s("S2"), 1, 0));
    Oracle::set_source(&mut p.oracle, &admin(), &asset, OracleSource::new(s("S1"), 3, 0));
    let sources = stellar_lend::oracle::OracleStorage::get_sources(&p.oracle, &asset);
    assert_eq!(sources.len(), 2);
    assert_eq!(sources[0].weight, 3);
    p.set_ledger_timestamp(250);
    assert_eq!(Oracle::live_sources(&p.oracle, 250, &asset), vec![s("S1"), s("S2")]);
    assert_eq!(Oracle::live_sources(&p.oracle, 301, &asset).len(), 0);
    Oracle::remove_source(&mut p.oracle, &admin(), &asset, &s("S1"));
    assert_eq!(Oracle::live_sources(&p.oracle, 250, &asset), vec![s("S2")]);
    assert_eq!(Oracle::fetch_prices(&vec![3, -1, 0, 7]), vec![3, 7]);
    assert_eq!(Oracle::cached_price(&mut p, &asset), None);
    assert_eq!(Oracle::aggregate_price(&mut p, &asset, &vec![0, -4]), None);
    assert_eq!(Oracle::aggregate_price(&mut p, &asset, &vec![100, 102, 98]), Some(100));
    assert_eq!(p.oracle.perf_count, 2);
    assert_eq!(Oracle::cached_price(&mut p, &asset), Some(100));
    p.set_ledger_timestamp(281);
    assert_eq!(Oracle::cached_price(&mut p, &asset), None);
    assert_eq!(p.oracle.price_cache.len(), 0);
}

#[test]
fn governance_lifecycle() {
    let mut g = GovState::new();
    let proposal = Governance::propose(&mut g, 100, &admin(), s("raise cap"), 50);
    assert_eq!(proposal.id, 1);
    assert_eq!(proposal.voting_ends, 150);
    let p = Governance::vote(&mut g, 120, 1, &user(), true, 70);
    assert_eq!(p.for_votes, 70);
    let p = Governance::vote(&mut g, 130, 1, &admin(), false, 30);
    assert_eq!(p.against_votes, 30);
    let late = Governance::vote(&mut g, 151, 1, &admin(), true, 1_000);
    assert_eq!(late.for_votes, 70);
    let early = Governance::queue(&mut g, 140, 1);
    assert_eq!(early.queued_until, 0);
    let queued = Governance::queue(&mut g, 160, 1);
    assert_eq!(queued.queued_until, 220);
    assert!(!Governance::execute(&mut g, 200, 1).executed);
    assert!(Governance::execute(&mut g, 220, 1).executed);
    Governance::delegate(&mut g, &user(), &admin());
    assert_eq!(Governance::get_delegate(&g, &user()), Some(admin()));
    assert_eq!(Governance::get_delegate(&g, &admin()), None);
}

#[test]
fn governance_without_quorum_is_not_queued() {
    let mut g = GovState::new();
    Governance::propose(&mut g, 0, &admin(), s("t"), 10);
    Governance::vote(&mut g, 1, 1, &user(), true, 5);
    Governance::vote(&mut g, 1, 1, &admin(), false, 95);
    let p = Governance::queue(&mut g, 20, 1);
    assert_eq!(p.queued_until, 0);
}

#[test]
fn swaps_through_the_contract_execute() {
    let mut p = initialized();
    Contract::register_amm_pair(&mut p, &admin(), s("A"), s("B"), s("AMM"), None).unwrap();
    let params = stellar_lend::amm::SwapParams::new(user(), s("A"), s("B"), 1_000_000, 900_000);
    let result = Contract::execute_amm_swap(&mut p, params).unwrap();
    assert_eq!(result.amount_in, 1_000_000);
    assert_eq!(result.amount_out, 1_000_000 - 1_000_000 * 30 / 10_000);
    assert!(!p.reentrancy);
    assert_eq!(Contract::get_amm_swap_history(&p).len(), 1);
    StateHelper::save_position(&mut p, Position::new(user(), 2_000_000, 1_000_000));
    let hook = Contract::liquidation_swap_hook(&mut p, &user(), &s("B"), &s("A"), 500_000, 400_000).unwrap();
    let position = StateHelper::get_position(&p, &user()).unwrap();
    assert_eq!(position.collateral, 1_500_000);
    assert_eq!(position.debt, 1_000_000 - hook.amount_out);
    let deleverage = Contract::deleverage_swap_hook(&mut p, &user(), &s("A"), &s("B"), 10_000, 0).unwrap();
    assert_eq!(StateHelper::get_position(&p, &user()).unwrap().debt, 1_000_000 - hook.amount_out - deleverage.amount_out);
    assert!(!p.reentrancy);
}

#[test]
fn debt_free_position_is_not_liquidated() {
    let mut p = initialized();
    StateHelper::save_position(&mut p, Position::new(user(), 1000, 0));
    assert_eq!(LiquidationModule::is_eligible_for_liquidation(&p, &user()), Ok(false));
    let result = LiquidationModule::liquidate(&mut p, &admin(), &user(), 500, 0);
    assert_eq!(result, Err(ProtocolError::NotEligibleForLiquidation));
    let position = StateHelper::get_position(&p, &user()).unwrap();
    assert_eq!((position.collateral, position.debt), (1000, 0));
    assert!(!p.reentrancy);
}

#[test]
fn full_repay_clears_the_debt() {
    let mut p = initialized();
    StateHelper::save_position(&mut p, Position::new(user(), 2_000, 700));
    assert_eq!(RepayModule::full_repay(&mut p, &user()), Ok(700));
    assert_eq!(StateHelper::get_position(&p, &user()).unwrap().debt, 0);
    assert_eq!(RepayModule::full_repay(&mut p, &user()), Err(ProtocolError::InvalidOperation));
}

fn sym(x: &str) -> PubValue {
    PubValue::Sym(s(x))
}

fn describe(values: &[PubValue]) -> Vec<String> {
    values
        .iter()
        .map(|v| match v {
            PubValue::Sym(t) => format!("sym:{}", t),
            PubValue::Addr(t) => format!("addr:{}", t),
            PubValue::Text(t) => format!("text:{}", t),
            PubValue::Int(x) => format!("int:{}", x),
            PubValue::Uint(x) => format!("uint:{}", x),
            PubValue::Flag(b) => format!("flag:{}", b),
            PubValue::OptText(o) => format!("opt:{:?}", o),
        })
        .collect()
}

#[test]
fn position_update_is_published_with_named_fields() {
    let publication = ProtocolEvent::PositionUpdated(user(), 1200, 300, 400).publication();
    assert!(!publication.bare);
    assert_eq!(describe(&publication.topics), describe(&[sym("position_updated"), sym("user")]));
    assert_eq!(
        describe(&publication.data),
        vec![
            s("sym:user"),
            format!("addr:{}", user()),
            s("sym:collateral"),
            s("int:1200"),
            s("sym:debt"),
            s("int:300"),
            s("sym:collateral_ratio"),
            s("int:400"),
        ]
    );
}

#[test]
fn unlisted_events_are_published_as_captured() {
    let publication = ProtocolEvent::CircuitBreaker(true).publication();
    assert!(publication.bare);
    assert_eq!(describe(&publication.topics), vec![s("sym:protocol_event"), s("sym:misc")]);
    assert_eq!(describe(&publication.data), vec![s("sym:captured")]);
}

#[test]
fn transfer_failure_notice_names_the_reason() {
    let n = Notice::TransferFailure(s("repay"), user(), s(CONTRACT), s("CTOKEN"), 5, s("invariant_violation"));
    let publication = n.publication();
    assert_eq!(describe(&publication.topics), vec![s("sym:transfer_failure"), s("sym:repay")]);
    assert_eq!(publication.data.len(), 10);
    assert_eq!(describe(&publication.data[8..]), vec![s("sym:reason"), s("sym:invariant_violation")]);
}

#[test]
fn supply_rate_keeps_the_reserve_share() {
    assert_eq!(stellar_lend::interest::supply_rate_for(1_000_000, 10_000_000), 900_000);
    assert_eq!(stellar_lend::interest::supply_rate_for(1_000_000, 0), 1_000_000);
    assert_eq!(stellar_lend::interest::supply_rate_for(1_000_000, 100_000_000), 0);
}

#[test]
fn accruing_twice_at_once_accrues_once() {
    let mut position = Position::new(user(), 2_000_000, 1_000_000);
    position.last_accrual_time = 1;
    InterestRateManager::accrue_interest_for_position(1_000, &mut position, 10_000_000, 5_000_000);
    let once = (position.borrow_interest, position.supply_interest, position.last_accrual_time);
    InterestRateManager::accrue_interest_for_position(1_000, &mut position, 90_000_000, 90_000_000);
    assert_eq!((position.borrow_interest, position.supply_interest, position.last_accrual_time), once);
}
