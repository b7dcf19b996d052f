use stellar_lend::address::AddressHelper;
use stellar_lend::analytics::{ActivityLogEntry, AnalyticsStorage};
use stellar_lend::contract::Contract;
use stellar_lend::emergency::EmergencyStatus;
use stellar_lend::errors::ProtocolError;
use stellar_lend::state::{InterestRateStorage, Protocol, ReentrancyGuard};
use stellar_lend::transfer::BalanceReading;
use stellar_lend::users::{UserManager, UserRole, VerificationStatus};

const CONTRACT: &str = "CDLZFC3SYJYDZT7K67VZ75HPJVIEUVNIXF47ZG2FB2RMQQVU2HHGCYSC";
const TOKEN: &str = "CBIELTK6YBZJU5UP2WWQEUCYKLPU6AUNZ2BQ4WWFEIE3USCIHMXQDAMA";

/// A token ledger standing in for the token contract.
struct MockToken {
    balances: Vec<(String, i128)>,
}

impl MockToken {
    fn new() -> Self {
        MockToken { balances: Vec::new() }
    }

    fn balance(&self, who: &str) -> i128 {
        self.balances.iter().find(|(a, _)| a == who).map(|(_, b)| *b).unwrap_or(0)
    }

    fn set(&mut self, who: &str, amount: i128) {
        match self.balances.iter_mut().find(|(a, _)| a == who) {
            Some(entry) => entry.1 = amount,
            None => self.balances.push((who.to_string(), amount)),
        }
    }

    fn mint(&mut self, to: &str, amount: i128) {
        let b = self.balance(to);
        self.set(to, b.saturating_add(amount));
    }

    fn transfer(&mut self, from: &str, to: &str, amount: i128) {
        let b = self.balance(from);
        if b < amount {
            panic!("insufficient balance");
        }
        self.set(from, b - amount);
        let c = self.balance(to);
        self.set(to, c.saturating_add(amount));
    }

    fn reading(&self, user: &str) -> BalanceReading {
        BalanceReading { contract: self.balance(CONTRACT), user: self.balance(user) }
    }
}

fn s(x: &str) -> String {
    x.to_string()
}

fn admin_address() -> String {
    s("GCAZYE3EB54VKP3UQBX3H73VQO3SIWTZNR7NJQKJFZZ6XLADWA4C3SOC")
}

fn user_address(id: u32) -> String {
    match id {
        0 => s("GCXOTMMXRS24MYZI5FJPUCOEOFNWSR4XX7UXIK3NDGGE6A5QMJ5FF2FS"),
        1 => s("GAUA7XL5K54CC2DDGP77FJ2YBHRJLT36CPZDXWPM6MP7MANOGG77PNJU"),
        _ => s("GCUA7XL5K54CC2DDGP77FJ2YBHRJLT36CPZDXWPM6MP7MANOGG77PNJU"),
    }
}

fn fresh() -> Protocol {
    Protocol::new(s(CONTRACT), 0)
}

fn initialized() -> (Protocol, String) {
    let mut p = fresh();
    let admin = admin_address();
    Contract::initialize(&mut p, &admin).unwrap();
    (p, admin)
}

fn setup_with_token(users: &[String]) -> (Protocol, String, MockToken) {
    let (mut p, admin) = initialized();
    Contract::set_primary_asset(&mut p, &admin, s(TOKEN)).unwrap();
    let mut token = MockToken::new();
    token.mint(CONTRACT, 1_000_000);
    for u in users {
        token.mint(u, 1_000_000);
    }
    (p, admin, token)
}

fn verify_user(p: &mut Protocol, admin: &String, user: &String) {
    Contract::set_user_verification(p, admin, user, VerificationStatus::Verified).unwrap();
}

/// Runs a repayment the way the host does: start, move the tokens, settle.
fn repay(p: &mut Protocol, token: &mut MockToken, user: &String, amount: i128) -> Result<(), ProtocolError> {
    let before = token.reading(user);
    let order = Contract::repay(p, user, amount, before)?;
    token.transfer(&order.from, &order.to, order.amount);
    let after = token.reading(user);
    Contract::complete_transfer(p, after)
}

/// Runs a withdrawal the way the host does: start, move the tokens, settle.
fn withdraw(p: &mut Protocol, token: &mut MockToken, user: &String, amount: i128) -> Result<(), ProtocolError> {
    let before = token.reading(user);
    let order = Contract::withdraw(p, user, amount, before)?;
    token.transfer(&order.from, &order.to, order.amount);
    let after = token.reading(user);
    Contract::complete_transfer(p, after)
}

#[test]
fn test_contract_initialization() {
    let mut p = fresh();
    let result = Contract::initialize(&mut p, &admin_address());
    assert!(result.is_ok());
}

#[test]
fn test_contract_already_initialized() {
    let mut p = fresh();
    let admin = admin_address();
    let result = Contract::initialize(&mut p, &admin);
    assert!(result.is_ok());
    let result = Contract::initialize(&mut p, &admin);
    assert!(result.is_err());
    assert_eq!(result.unwrap_err(), ProtocolError::AlreadyInitialized);
}

#[test]
fn test_deposit_collateral() {
    let user = user_address(0);
    let (mut p, admin, _token) = setup_with_token(&[user.clone()]);
    verify_user(&mut p, &admin, &user);
    let result = Contract::deposit_collateral(&mut p, &user, 1000);
    assert!(result.is_ok());
    let position = Contract::get_position(&p, &user).unwrap();
    assert_eq!(position.0, 1000);
    assert_eq!(position.1, 0);
}

#[test]
fn test_deposit_collateral_invalid_amount() {
    let user = user_address(0);
    let (mut p, admin, _token) = setup_with_token(&[user.clone()]);
    verify_user(&mut p, &admin, &user);
    let result = Contract::deposit_collateral(&mut p, &user, 0);
    assert!(result.is_err());
    assert_eq!(result.unwrap_err(), ProtocolError::InvalidAmount);
    let result = Contract::deposit_collateral(&mut p, &user, -100);
    assert!(result.is_err());
    assert_eq!(result.unwrap_err(), ProtocolError::InvalidAmount);
}

#[test]
fn test_deposit_collateral_invalid_address() {
    let (mut p, _admin) = initialized();
    let result = Contract::deposit_collateral(&mut p, &s(""), 1000);
    assert!(result.is_err());
    assert_eq!(result.unwrap_err(), ProtocolError::InvalidAddress);
}

#[test]
fn test_borrow_success() {
    let user = user_address(0);
    let (mut p, admin, _token) = setup_with_token(&[user.clone()]);
    verify_user(&mut p, &admin, &user);
    Contract::deposit_collateral(&mut p, &user, 2000).unwrap();
    let result = Contract::borrow(&mut p, &user, 1000);
    assert!(result.is_ok());
    let position = Contract::get_position(&p, &user).unwrap();
    assert_eq!(position.0, 2000);
    assert_eq!(position.1, 1000);
}

#[test]
fn test_borrow_insufficient_collateral_ratio() {
    let user = user_address(0);
    let (mut p, admin, _token) = setup_with_token(&[user.clone()]);
    verify_user(&mut p, &admin, &user);
    Contract::deposit_collateral(&mut p, &user, 100).unwrap();
    let result = Contract::borrow(&mut p, &user, 1000);
    assert!(result.is_err());
    assert_eq!(result.unwrap_err(), ProtocolError::InsufficientCollateralRatio);
}

#[test]
fn test_emergency_pause_blocks_deposit() {
    let user = user_address(0);
    let (mut p, admin, _token) = setup_with_token(&[user.clone()]);
    verify_user(&mut p, &admin, &user);
    Contract::trigger_emergency_pause(&mut p, &admin, Some(s("halt"))).unwrap();
    let result = Contract::deposit_collateral(&mut p, &user, 1000);
    assert!(result.is_err());
    assert_eq!(result.unwrap_err(), ProtocolError::ProtocolPaused);
    Contract::resume_operations(&mut p, &admin).unwrap();
    let result = Contract::deposit_collateral(&mut p, &user, 1000);
    assert!(result.is_ok());
}

#[test]
fn test_recovery_mode_allows_repay_blocks_borrow() {
    let user = user_address(0);
    let (mut p, admin, mut token) = setup_with_token(&[user.clone()]);
    verify_user(&mut p, &admin, &user);
    Contract::deposit_collateral(&mut p, &user, 2000).unwrap();
    Contract::borrow(&mut p, &user, 500).unwrap();
    Contract::enter_recovery_mode(&mut p, &admin, Some(s("staged restart"))).unwrap();
    Contract::record_recovery_step(&mut p, &admin, s("notified stakeholders")).unwrap();
    let repay_result = repay(&mut p, &mut token, &user, 200);
    assert!(repay_result.is_ok());
    let borrow_result = Contract::borrow(&mut p, &user, 100);
    assert!(borrow_result.is_err());
    assert_eq!(borrow_result.unwrap_err(), ProtocolError::RecoveryModeRestricted);
    let state = Contract::get_emergency_state(&p).unwrap();
    assert_eq!(state.status, EmergencyStatus::Recovery);
    assert_eq!(state.recovery_steps.len(), 1);
}

#[test]
fn test_emergency_param_updates_apply() {
    let (mut p, admin) = initialized();
    Contract::queue_emergency_param_update(&mut p, &admin, s("base_rate"), 5000000).unwrap();
    Contract::apply_emergency_param_updates(&mut p, &admin).unwrap();
    let config = InterestRateStorage::get_config(&p);
    assert_eq!(config.base_rate, 5000000);
    let state = Contract::get_emergency_state(&p).unwrap();
    assert_eq!(state.pending_param_updates.len(), 0);
}

#[test]
fn test_emergency_fund_management() {
    let (mut p, admin) = initialized();
    let recipient = user_address(1);
    let token = Some(recipient.clone());
    Contract::adjust_emergency_fund(&mut p, &admin, token.clone(), 1_000_000, 500_000).unwrap();
    let state = Contract::get_emergency_state(&p).unwrap();
    assert_eq!(state.fund.balance, 1_000_000);
    assert_eq!(state.fund.reserved, 500_000);
    assert_eq!(state.fund.token, token);
    let err = Contract::adjust_emergency_fund(&mut p, &admin, None, -2_000_000, 0).unwrap_err();
    assert_eq!(err, ProtocolError::EmergencyFundInsufficient);
}

#[test]
fn test_repay_success() {
    let user = user_address(0);
    let (mut p, admin, mut token) = setup_with_token(&[user.clone()]);
    verify_user(&mut p, &admin, &user);
    Contract::deposit_collateral(&mut p, &user, 2000).unwrap();
    Contract::borrow(&mut p, &user, 1000).unwrap();
    let result = repay(&mut p, &mut token, &user, 500);
    assert!(result.is_ok());
    let position = Contract::get_position(&p, &user).unwrap();
    assert_eq!(position.0, 2000);
    assert_eq!(position.1, 500);
}

#[test]
fn test_repay_full_amount() {
    let user = user_address(0);
    let (mut p, admin, mut token) = setup_with_token(&[user.clone()]);
    verify_user(&mut p, &admin, &user);
    Contract::deposit_collateral(&mut p, &user, 2000).unwrap();
    Contract::borrow(&mut p, &user, 1000).unwrap();
    let result = repay(&mut p, &mut token, &user, 1000);
    assert!(result.is_ok());
    let position = Contract::get_position(&p, &user).unwrap();
    assert_eq!(position.0, 2000);
    assert_eq!(position.1, 0);
}

#[test]
fn test_withdraw_success() {
    let user = user_address(0);
    let (mut p, admin, mut token) = setup_with_token(&[user.clone()]);
    verify_user(&mut p, &admin, &user);
    Contract::deposit_collateral(&mut p, &user, 2000).unwrap();
    let result = withdraw(&mut p, &mut token, &user, 1000);
    assert!(result.is_ok());
    let position = Contract::get_position(&p, &user).unwrap();
    assert_eq!(position.0, 1000);
    assert_eq!(position.1, 0);
}

#[test]
fn test_event_summary_updates() {
    let user = user_address(0);
    let (mut p, admin, mut token) = setup_with_token(&[user.clone()]);
    verify_user(&mut p, &admin, &user);
    Contract::deposit_collateral(&mut p, &user, 1200).unwrap();
    withdraw(&mut p, &mut token, &user, 200).unwrap();
    let summary = Contract::get_event_summary(&p).unwrap();
    let totals = summary.totals;
    let aggregate = totals.iter().find(|a| a.event_type == "position_updated").unwrap();
    assert!(aggregate.count > 0);
    let recent_types = Contract::get_recent_event_types(&p).unwrap();
    assert!(!recent_types.is_empty());
    let events = Contract::get_events_for_type(&p, &s("position_updated"), 5).unwrap();
    assert!(!events.is_empty());
    let aggregates = Contract::get_event_aggregates(&p).unwrap();
    assert!(aggregates.len() >= totals.len());
}

#[test]
fn test_deposit_reentrancy_blocked() {
    let user = user_address(0);
    let (mut p, _admin, _token) = setup_with_token(&[user.clone()]);
    ReentrancyGuard::enter(&mut p).unwrap();
    let result = Contract::deposit_collateral(&mut p, &user, 100);
    ReentrancyGuard::exit(&mut p);
    assert_eq!(Err(ProtocolError::ReentrancyDetected), result);
}

#[test]
fn test_withdraw_insufficient_collateral() {
    let user = user_address(0);
    let (mut p, admin, mut token) = setup_with_token(&[user.clone()]);
    verify_user(&mut p, &admin, &user);
    Contract::deposit_collateral(&mut p, &user, 100).unwrap();
    let result = withdraw(&mut p, &mut token, &user, 200);
    assert!(result.is_err());
    assert_eq!(result.unwrap_err(), ProtocolError::InsufficientCollateral);
}

#[test]
fn test_withdraw_insufficient_collateral_ratio() {
    let user = user_address(0);
    let (mut p, admin, mut token) = setup_with_token(&[user.clone()]);
    verify_user(&mut p, &admin, &user);
    Contract::deposit_collateral(&mut p, &user, 2000).unwrap();
    Contract::borrow(&mut p, &user, 1000).unwrap();
    let result = withdraw(&mut p, &mut token, &user, 1500);
    assert!(result.is_err());
    assert_eq!(result.unwrap_err(), ProtocolError::InsufficientCollateralRatio);
}

fn undercollateralized() -> (Protocol, String, String) {
    let user = user_address(0);
    let liquidator = user_address(1);
    let (mut p, admin, _token) = setup_with_token(&[user.clone(), liquidator.clone()]);
    verify_user(&mut p, &admin, &user);
    verify_user(&mut p, &admin, &liquidator);
    Contract::set_min_collateral_ratio(&mut p, &admin, 50).unwrap();
    Contract::deposit_collateral(&mut p, &user, 1000).unwrap();
    Contract::borrow(&mut p, &user, 1000).unwrap();
    Contract::set_min_collateral_ratio(&mut p, &admin, 150).unwrap();
    (p, user, liquidator)
}

#[test]
fn test_liquidate_success() {
    let (mut p, user, liquidator) = undercollateralized();
    let result = Contract::liquidate(&mut p, &liquidator, &user, 500, 0);
    assert!(result.is_ok());
}

#[test]
fn test_liquidate_not_eligible() {
    let user = user_address(0);
    let liquidator = user_address(1);
    let (mut p, admin, _token) = setup_with_token(&[user.clone(), liquidator.clone()]);
    verify_user(&mut p, &admin, &user);
    verify_user(&mut p, &admin, &liquidator);
    Contract::deposit_collateral(&mut p, &user, 2000).unwrap();
    Contract::borrow(&mut p, &user, 1000).unwrap();
    let result = Contract::liquidate(&mut p, &liquidator, &user, 500, 0);
    assert!(result.is_err());
    assert_eq!(result.unwrap_err(), ProtocolError::NotEligibleForLiquidation);
}

#[test]
fn test_liquidate_slippage_protection_triggers() {
    let (mut p, user, liquidator) = undercollateralized();
    let result = Contract::liquidate(&mut p, &liquidator, &user, 500, 1_000_000);
    assert!(result.is_err());
    assert_eq!(result.unwrap_err(), ProtocolError::SlippageProtectionTriggered);
}

#[test]
fn test_set_risk_params() {
    let (mut p, admin) = initialized();
    let result = Contract::set_risk_params(&mut p, &admin, 60000000, 15000000);
    assert!(result.is_ok());
    let risk_config = Contract::get_risk_config(&p).unwrap();
    assert_eq!(risk_config.0, 60000000);
    assert_eq!(risk_config.1, 15000000);
}

#[test]
fn test_set_risk_params_unauthorized() {
    let (mut p, _admin) = initialized();
    let user = user_address(0);
    let result = Contract::set_risk_params(&mut p, &user, 60000000, 15000000);
    assert!(result.is_err());
    assert_eq!(result.unwrap_err(), ProtocolError::Unauthorized);
}

#[test]
fn test_set_pause_switches() {
    let (mut p, admin) = initialized();
    let result = Contract::set_pause_switches(&mut p, &admin, true, false, true, false);
    assert!(result.is_ok());
    let risk_config = Contract::get_risk_config(&p).unwrap();
    assert!(risk_config.2);
    assert!(!risk_config.3);
    assert!(risk_config.4);
    assert!(!risk_config.5);
}

#[test]
fn test_get_protocol_params() {
    let (p, _admin) = initialized();
    let params = Contract::get_protocol_params(&p).unwrap();
    assert_eq!(params.0, 2000000);
    assert_eq!(params.1, 80000000);
    assert_eq!(params.2, 10000000);
    assert_eq!(params.3, 10000000);
    assert_eq!(params.4, 50000000);
    assert_eq!(params.5, 10000000);
}

#[test]
fn test_recent_activity_feed_ordering_and_limit() {
    let user = user_address(0);
    let (mut p, admin, mut token) = setup_with_token(&[user.clone()]);
    verify_user(&mut p, &admin, &user);
    p.set_ledger_timestamp(100);
    Contract::deposit_collateral(&mut p, &user, 500).unwrap();
    p.set_ledger_timestamp(200);
    Contract::borrow(&mut p, &user, 200).unwrap();
    p.set_ledger_timestamp(300);
    repay(&mut p, &mut token, &user, 50).unwrap();
    p.set_ledger_timestamp(360);
    let feed = Contract::get_recent_activity(&p, 2).unwrap();
    assert_eq!(feed.total_available, 3);
    assert_eq!(feed.entries.len(), 2);
    assert_eq!(feed.generated_at, 360);
    let first = &feed.entries[0];
    assert_eq!(first.activity_type, "repay");
    assert_eq!(first.timestamp, 300);
    let second = &feed.entries[1];
    assert_eq!(second.activity_type, "borrow");
    assert_eq!(second.timestamp, 200);
}

#[test]
fn test_recent_activity_feed_edge_limits() {
    let user = user_address(0);
    let (mut p, admin, _token) = setup_with_token(&[user.clone()]);
    verify_user(&mut p, &admin, &user);
    let mut log = Vec::new();
    for i in 0..=1_000u32 {
        log.push(ActivityLogEntry {
            timestamp: 1_000 + i as u64,
            user: user.clone(),
            activity_type: s("deposit"),
            amount: i as i128,
            asset: None,
            metadata: Vec::new(),
        });
    }
    AnalyticsStorage::put_activity_log(&mut p.analytics, log);
    p.set_ledger_timestamp(5_000);
    let zero_feed = Contract::get_recent_activity(&p, 0).unwrap();
    assert_eq!(zero_feed.entries.len(), 0);
    assert_eq!(zero_feed.total_available, 1_001);
    assert_eq!(zero_feed.generated_at, 5_000);
    p.set_ledger_timestamp(6_000);
    let wide_feed = Contract::get_recent_activity(&p, 5_000).unwrap();
    assert_eq!(wide_feed.entries.len(), 1_000);
    assert_eq!(wide_feed.total_available, 1_001);
    assert_eq!(wide_feed.generated_at, 6_000);
    let newest = &wide_feed.entries[0];
    assert_eq!(newest.timestamp, 1_000 + 1_000);
    let oldest = &wide_feed.entries[999];
    assert_eq!(oldest.timestamp, 1_000 + 1);
}

#[test]
fn test_protocol_and_user_reports_reflect_activity() {
    let primary_user = user_address(0);
    let secondary_user = user_address(1);
    let (mut p, admin, _token) = setup_with_token(&[primary_user.clone(), secondary_user.clone()]);
    verify_user(&mut p, &admin, &primary_user);
    verify_user(&mut p, &admin, &secondary_user);
    p.set_ledger_timestamp(1_000);
    Contract::deposit_collateral(&mut p, &primary_user, 1_000).unwrap();
    p.set_ledger_timestamp(1_050);
    Contract::deposit_collateral(&mut p, &secondary_user, 200).unwrap();
    p.set_ledger_timestamp(1_100);
    Contract::borrow(&mut p, &primary_user, 400).unwrap();
    p.set_ledger_timestamp(1_200);
    let protocol_report = Contract::get_protocol_report(&p).unwrap();
    assert_eq!(protocol_report.generated_at, 1_200);
    assert_eq!(protocol_report.protocol_metrics.total_deposits, 1_200);
    assert_eq!(protocol_report.protocol_metrics.total_borrows, 400);
    assert_eq!(protocol_report.total_users, 2);
    assert_eq!(protocol_report.active_users, 2);
    let primary_report = Contract::get_user_report(&p, &primary_user).unwrap();
    assert_eq!(primary_report.generated_at, 1_200);
    assert_eq!(primary_report.recent_activities.len(), 2);
    assert_eq!(primary_report.recent_activities[0].timestamp, 1_000);
    assert_eq!(primary_report.recent_activities[1].timestamp, 1_100);
    assert_eq!(primary_report.analytics.total_deposits, 1_000);
    assert_eq!(primary_report.analytics.total_borrows, 400);
    let secondary_report = Contract::get_user_report(&p, &secondary_user).unwrap();
    assert_eq!(secondary_report.recent_activities.len(), 1);
    assert_eq!(secondary_report.analytics.total_deposits, 200);
    assert_eq!(secondary_report.analytics.total_borrows, 0);
}

#[test]
fn test_get_system_stats() {
    let (p, _admin) = initialized();
    let stats = Contract::get_system_stats(&p).unwrap();
    assert_eq!(stats.0, 0);
    assert_eq!(stats.1, 0);
    assert_eq!(stats.2, 0);
    assert_eq!(stats.3, 0);
}

#[test]
fn test_get_position_not_found() {
    let (p, _admin) = initialized();
    let user = user_address(0);
    let result = Contract::get_position(&p, &user);
    assert!(result.is_err());
    assert_eq!(result.unwrap_err(), ProtocolError::PositionNotFound);
}

#[test]
fn test_admin_role_validation() {
    let (mut p, admin) = initialized();
    let user = user_address(0);
    let now = p.now;
    UserManager::bootstrap_admin(&mut p.users, &mut p.outbox, now, &admin);
    let result = Contract::set_min_collateral_ratio(&mut p, &admin, 150);
    assert!(result.is_ok());
    let result = Contract::set_min_collateral_ratio(&mut p, &user, 200);
    assert!(result.is_err());
    assert_eq!(result.unwrap_err(), ProtocolError::Unauthorized);
}

#[test]
fn test_address_helper_valid_address() {
    let valid_address = s("GCAZYE3EB54VKP3UQBX3H73VQO3SIWTZNR7NJQKJFZZ6XLADWA4C3SOC");
    let result = AddressHelper::require_valid_address(&valid_address);
    assert!(result.is_ok());
}

#[test]
fn test_address_helper_empty_address() {
    let result = AddressHelper::require_valid_address(&s(""));
    assert!(result.is_err());
    assert_eq!(result.unwrap_err(), ProtocolError::InvalidAddress);
}

#[test]
fn test_address_helper_too_long_address() {
    let long_address = "A".repeat(300);
    let result = AddressHelper::require_valid_address(&long_address);
    assert!(result.is_err());
    assert_eq!(result.unwrap_err(), ProtocolError::InvalidAddress);
}

#[test]
fn test_address_helper_validate_format() {
    let valid_address = s("GCAZYE3EB54VKP3UQBX3H73VQO3SIWTZNR7NJQKJFZZ6XLADWA4C3SOC");
    let result = AddressHelper::validate_address_format(&valid_address);
    assert!(result.is_ok());
    let result = AddressHelper::validate_address_format(&s(""));
    assert!(result.is_err());
    assert_eq!(result.unwrap_err(), ProtocolError::InvalidAddress);
}

#[test]
fn test_address_helper_is_valid_address_string() {
    let valid_address = s("GCAZYE3EB54VKP3UQBX3H73VQO3SIWTZNR7NJQKJFZZ6XLADWA4C3SOC");
    assert!(AddressHelper::is_valid_address_string(&valid_address));
    assert!(!AddressHelper::is_valid_address_string(&s("")));
}

#[test]
fn test_address_helper_from_strings_safe() {
    let addr1 = s("GCAZYE3EB54VKP3UQBX3H73VQO3SIWTZNR7NJQKJFZZ6XLADWA4C3SOC");
    let addr2 = s("GCXOTMMXRS24MYZI5FJPUCOEOFNWSR4XX7UXIK3NDGGE6A5QMJ5FF2FS");
    let addresses = vec![addr1.clone(), addr2.clone()];
    let result = AddressHelper::from_strings_safe(&addresses);
    assert!(result.is_ok());
    let parsed_addresses = result.unwrap();
    assert_eq!(parsed_addresses.len(), 2);
    let addresses_with_invalid = vec![addr1, s("")];
    let result = AddressHelper::from_strings_safe(&addresses_with_invalid);
    assert!(result.is_err());
    assert_eq!(result.unwrap_err(), ProtocolError::InvalidAddress);
}

#[test]
fn test_initialize_invalid_admin_address() {
    let mut p = fresh();
    let result = Contract::initialize(&mut p, &s(""));
    assert!(result.is_err());
    assert_eq!(result.unwrap_err(), ProtocolError::InvalidAddress);
}

fn with_role(role: UserRole) -> (Protocol, String, String) {
    let (mut p, admin) = initialized();
    let member = user_address(0);
    let now = p.now;
    UserManager::bootstrap_admin(&mut p.users, &mut p.outbox, now, &admin);
    let configured = p.admin.clone();
    UserManager::set_role(&mut p.users, &mut p.outbox, &configured, now, &admin, &member, role).unwrap();
    (p, admin, member)
}

#[test]
fn test_manager_role_validation() {
    let (mut p, _admin, manager) = with_role(UserRole::Manager);
    let result = Contract::set_user_role(&mut p, &manager, &manager, UserRole::Standard);
    assert!(result.is_ok());
    let result = Contract::set_user_role(&mut p, &manager, &manager, UserRole::Admin);
    assert!(result.is_err());
    assert_eq!(result.unwrap_err(), ProtocolError::Unauthorized);
}

#[test]
fn test_deposit_collateral_invalid_depositor() {
    let (mut p, _admin) = initialized();
    let result = Contract::deposit_collateral(&mut p, &s(""), 1000);
    assert!(result.is_err());
    assert_eq!(result.unwrap_err(), ProtocolError::InvalidAddress);
}

#[test]
fn test_borrow_invalid_borrower() {
    let (mut p, _admin) = initialized();
    let result = Contract::borrow(&mut p, &s(""), 1000);
    assert!(result.is_err());
    assert_eq!(result.unwrap_err(), ProtocolError::InvalidAddress);
}

#[test]
fn test_repay_invalid_repayer() {
    let (mut p, _admin) = initialized();
    let mut token = MockToken::new();
    let result = repay(&mut p, &mut token, &s(""), 1000);
    assert!(result.is_err());
    assert_eq!(result.unwrap_err(), ProtocolError::InvalidAddress);
}

#[test]
fn test_withdraw_invalid_withdrawer() {
    let (mut p, _admin) = initialized();
    let mut token = MockToken::new();
    let result = withdraw(&mut p, &mut token, &s(""), 1000);
    assert!(result.is_err());
    assert_eq!(result.unwrap_err(), ProtocolError::InvalidAddress);
}

#[test]
fn test_liquidate_invalid_addresses() {
    let (mut p, admin) = initialized();
    let valid_user = user_address(0);
    let result = Contract::liquidate(&mut p, &s(""), &valid_user, 1000, 0);
    assert!(result.is_err());
    assert_eq!(result.unwrap_err(), ProtocolError::InvalidAddress);
    verify_user(&mut p, &admin, &valid_user);
    let result = Contract::liquidate(&mut p, &valid_user, &s(""), 1000, 0);
    assert!(result.is_err());
    assert!(matches!(
        result.unwrap_err(),
        ProtocolError::InvalidAddress | ProtocolError::UserNotVerified | ProtocolError::PositionNotFound
    ));
}

#[test]
fn test_analyst_role_validation() {
    let (mut p, _admin, analyst) = with_role(UserRole::Analyst);
    let result = Contract::set_user_verification(&mut p, &analyst, &analyst, VerificationStatus::Verified);
    assert!(result.is_ok());
    let result = Contract::set_min_collateral_ratio(&mut p, &analyst, 200);
    assert!(result.is_err());
    assert_eq!(result.unwrap_err(), ProtocolError::Unauthorized);
}

#[test]
fn test_get_position_invalid_user() {
    let (p, _admin) = initialized();
    let result = Contract::get_position(&p, &s(""));
    assert!(result.is_err());
    assert_eq!(result.unwrap_err(), ProtocolError::InvalidAddress);
}

#[test]
fn test_role_escalation_prevention() {
    let (mut p, admin, manager) = with_role(UserRole::Manager);
    let result = Contract::set_user_role(&mut p, &manager, &manager, UserRole::Admin);
    assert!(result.is_err());
    assert_eq!(result.unwrap_err(), ProtocolError::Unauthorized);
    let result = Contract::set_user_role(&mut p, &admin, &manager, UserRole::Admin);
    assert!(result.is_ok());
}

#[test]
fn test_admin_functions_invalid_caller() {
    let (mut p, _admin) = initialized();
    let result = Contract::set_min_collateral_ratio(&mut p, &s(""), 150);
    assert!(result.is_err());
    assert_eq!(result.unwrap_err(), ProtocolError::InvalidAddress);
    let result = Contract::set_risk_params(&mut p, &s(""), 50000000, 10000000);
    assert!(result.is_err());
    assert_eq!(result.unwrap_err(), ProtocolError::InvalidAddress);
}

#[test]
fn test_emergency_functions_invalid_caller() {
    let (mut p, admin) = initialized();
    let result = Contract::trigger_emergency_pause(&mut p, &s(""), Some(s("test")));
    assert!(result.is_err());
    assert_eq!(result.unwrap_err(), ProtocolError::InvalidAddress);
    let result = Contract::set_emergency_manager(&mut p, &s(""), &admin, true);
    assert!(result.is_err());
    assert_eq!(result.unwrap_err(), ProtocolError::InvalidAddress);
    let result = Contract::set_emergency_manager(&mut p, &admin, &s(""), true);
    assert!(result.is_err());
    assert_eq!(result.unwrap_err(), ProtocolError::InvalidAddress);
}

#[test]
fn test_pause_controls() {
    let (mut p, admin) = initialized();
    let user = s("GDQNY3PBOJOKYZSRMK2S7LHHGWZIUISD4QORETLMXEWXBI7KFZZMKTL3");
    let token_address = s(TOKEN);
    Contract::set_primary_asset(&mut p, &admin, token_address).unwrap();
    let mut token = MockToken::new();
    token.mint(&user, 1000);
    Contract::set_pause_switches(&mut p, &admin, false, true, false, false).unwrap();
    let result = Contract::deposit_collateral(&mut p, &user, 100);
    assert!(result.is_err());
}

#[test]
fn withdrawing_a_deposit_restores_the_collateral() {
    let user = user_address(0);
    let (mut p, admin, mut token) = setup_with_token(&[user.clone()]);
    verify_user(&mut p, &admin, &user);
    Contract::deposit_collateral(&mut p, &user, 1000).unwrap();
    Contract::deposit_collateral(&mut p, &user, 250).unwrap();
    withdraw(&mut p, &mut token, &user, 250).unwrap();
    assert_eq!(Contract::get_position(&p, &user).unwrap().0, 1000);
    assert_eq!(token.balance(&user), 1_000_250);
}

#[test]
fn repaying_a_borrow_restores_the_debt() {
    let user = user_address(0);
    let (mut p, admin, mut token) = setup_with_token(&[user.clone()]);
    verify_user(&mut p, &admin, &user);
    Contract::deposit_collateral(&mut p, &user, 2000).unwrap();
    Contract::borrow(&mut p, &user, 300).unwrap();
    Contract::borrow(&mut p, &user, 200).unwrap();
    repay(&mut p, &mut token, &user, 200).unwrap();
    assert_eq!(Contract::get_position(&p, &user).unwrap().1, 300);
    assert_eq!(token.balance(CONTRACT), 1_000_200);
}

#[test]
fn repaying_more_than_the_debt_takes_only_the_debt() {
    let user = user_address(0);
    let (mut p, admin, mut token) = setup_with_token(&[user.clone()]);
    verify_user(&mut p, &admin, &user);
    Contract::deposit_collateral(&mut p, &user, 2000).unwrap();
    Contract::borrow(&mut p, &user, 300).unwrap();
    repay(&mut p, &mut token, &user, 5_000).unwrap();
    assert_eq!(Contract::get_position(&p, &user).unwrap().1, 0);
    assert_eq!(token.balance(&user), 1_000_000 - 300);
    let again = repay(&mut p, &mut token, &user, 10);
    assert_eq!(again, Err(ProtocolError::InvalidOperation));
}

#[test]
fn short_transfer_is_rejected_and_position_kept() {
    let user = user_address(0);
    let (mut p, admin, mut token) = setup_with_token(&[user.clone()]);
    verify_user(&mut p, &admin, &user);
    Contract::deposit_collateral(&mut p, &user, 2000).unwrap();
    Contract::borrow(&mut p, &user, 1000).unwrap();
    let before = token.reading(&user);
    let order = Contract::repay(&mut p, &user, 500, before).unwrap();
    assert!(p.reentrancy);
    token.transfer(&order.from, &order.to, order.amount - 1);
    let after = token.reading(&user);
    assert_eq!(Contract::complete_transfer(&mut p, after), Err(ProtocolError::BalanceInvariantViolation));
    assert!(!p.reentrancy);
    assert!(p.pending.is_none());
    assert_eq!(Contract::get_position(&p, &user).unwrap().1, 1000);
}

#[test]
fn withdrawal_beyond_contract_liquidity_is_refused() {
    let user = user_address(0);
    let (mut p, admin, mut token) = setup_with_token(&[user.clone()]);
    verify_user(&mut p, &admin, &user);
    Contract::deposit_collateral(&mut p, &user, 2000).unwrap();
    token.set(CONTRACT, 10);
    let result = withdraw(&mut p, &mut token, &user, 1000);
    assert_eq!(result, Err(ProtocolError::InsufficientLiquidity));
    assert_eq!(Contract::get_position(&p, &user).unwrap().0, 2000);
    assert!(!p.reentrancy);
}

#[test]
fn repay_without_primary_asset_is_refused() {
    let user = user_address(0);
    let (mut p, admin) = initialized();
    verify_user(&mut p, &admin, &user);
    Contract::deposit_collateral(&mut p, &user, 2000).unwrap();
    Contract::borrow(&mut p, &user, 100).unwrap();
    let mut token = MockToken::new();
    assert_eq!(repay(&mut p, &mut token, &user, 50), Err(ProtocolError::AssetNotSupported));
}

#[test]
fn unverified_user_cannot_withdraw() {
    let user = user_address(0);
    let (mut p, _admin, mut token) = setup_with_token(&[user.clone()]);
    Contract::deposit_collateral(&mut p, &user, 2000).unwrap();
    assert_eq!(withdraw(&mut p, &mut token, &user, 10), Err(ProtocolError::UserNotVerified));
}

#[test]
fn liquidation_counts_against_liquidator_limits() {
    let (mut p, user, liquidator) = undercollateralized();
    let admin = admin_address();
    Contract::set_user_limits(&mut p, &admin, &liquidator, 10_000, 10_000, 10_000, 100).unwrap();
    let result = Contract::liquidate(&mut p, &liquidator, &user, 500, 0);
    assert_eq!(result, Err(ProtocolError::UserLimitExceeded));
}

#[test]
fn test_oracle_set_heartbeat_ttl_admin_only() {
    let mut p = fresh();
    Contract::initialize(&mut p, &admin_address()).unwrap();
}

#[test]
fn test_oracle_set_mode_admin_only() {
    let mut p = fresh();
    Contract::initialize(&mut p, &admin_address()).unwrap();
}

#[test]
fn refused_borrow_leaves_the_rates() {
    let user = user_address(0);
    let (mut p, admin, _token) = setup_with_token(&[user.clone()]);
    verify_user(&mut p, &admin, &user);
    Contract::deposit_collateral(&mut p, &user, 100).unwrap();
    p.interest_state.total_supplied = 1_000;
    p.interest_state.total_borrowed = 500;
    let before = p.interest_state;
    assert_eq!(Contract::borrow(&mut p, &user, 1000), Err(ProtocolError::InsufficientCollateralRatio));
    assert_eq!(p.interest_state, before);
}

#[test]
fn refused_withdrawal_stores_no_profile() {
    let stranger = user_address(2);
    let (mut p, _admin, mut token) = setup_with_token(&[stranger.clone()]);
    let profiles = p.users.len();
    assert_eq!(withdraw(&mut p, &mut token, &stranger, 10), Err(ProtocolError::UserNotVerified));
    assert_eq!(p.users.len(), profiles);
}

#[test]
fn settlement_over_the_daily_limit_changes_nothing() {
    let user = user_address(0);
    let (mut p, admin, mut token) = setup_with_token(&[user.clone()]);
    verify_user(&mut p, &admin, &user);
    Contract::deposit_collateral(&mut p, &user, 2000).unwrap();
    let before = token.reading(&user);
    let order = Contract::withdraw(&mut p, &user, 500, before).unwrap();
    Contract::set_user_limits(&mut p, &admin, &user, 10_000, 10_000, 10_000, 100).unwrap_err();
    p.reentrancy = false;
    Contract::set_user_limits(&mut p, &admin, &user, 10_000, 10_000, 10_000, 100).unwrap();
    p.reentrancy = true;
    token.transfer(&order.from, &order.to, order.amount);
    let outbox = p.outbox.len();
    let after = token.reading(&user);
    assert_eq!(Contract::complete_transfer(&mut p, after), Err(ProtocolError::UserLimitExceeded));
    assert_eq!(Contract::get_position(&p, &user).unwrap().0, 2000);
    assert_eq!(p.outbox.len(), outbox);
    assert!(!p.reentrancy);
    assert!(p.pending.is_none());
}

#[test]
fn refused_liquidation_stores_no_profile() {
    let (mut p, user, _liquidator) = undercollateralized();
    let newcomer = user_address(2);
    let profiles = p.users.len();
    assert_eq!(Contract::liquidate(&mut p, &newcomer, &user, 500, 0), Err(ProtocolError::UserNotVerified));
    assert_eq!(p.users.len(), profiles);
}
