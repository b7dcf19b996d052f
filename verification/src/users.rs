//! User roles, verification, per-user limits and user management.
use vstd::prelude::*;
use crate::errors::ProtocolError;
use crate::events::Notice;
use crate::keyed::{Keyed, keys_unique, lookup, map_of, find_key, upsert, lemma_lookup_at};
use crate::math::{sat, sat_add, sat_sub_u64, SECONDS_PER_DAY};

verus! {

/// Operation categories checked against user and emergency restrictions.
#[derive(Clone, Copy, Debug, PartialEq, Eq, Structural)]
pub enum OperationKind {
    Deposit,
    Borrow,
    Repay,
    Withdraw,
    Liquidate,
    FlashLoan,
    Governance,
    Admin,
}

/// Roles available for addresses interacting with the protocol.
#[derive(Clone, Copy, Debug, PartialEq, Eq, Structural)]
pub enum UserRole {
    Suspended,
    Standard,
    Analyst,
    Manager,
    Admin,
}

impl UserRole {
    pub open spec fn spec_level(self) -> u32 {
        match self {
            UserRole::Suspended => 0,
            UserRole::Standard => 1,
            UserRole::Analyst => 2,
            UserRole::Manager => 3,
            UserRole::Admin => 4,
        }
    }

    /// The role's name.
    pub open spec fn spec_name(self) -> Seq<char> {
        match self {
            UserRole::Suspended => "suspended"@,
            UserRole::Standard => "standard"@,
            UserRole::Analyst => "analyst"@,
            UserRole::Manager => "manager"@,
            UserRole::Admin => "admin"@,
        }
    }

    /// The role's name, as published.
    pub fn as_symbol(&self) -> (s: String)
        ensures
            s@ == self.spec_name(),
    {
        let s = match self {
            UserRole::Suspended => String::from_str("suspended"),
            UserRole::Standard => String::from_str("standard"),
            UserRole::Analyst => String::from_str("analyst"),
            UserRole::Manager => String::from_str("manager"),
            UserRole::Admin => String::from_str("admin"),
        };
        proof {
            reveal_strlit("suspended");
            reveal_strlit("standard");
            reveal_strlit("analyst");
            reveal_strlit("manager");
            reveal_strlit("admin");
        }
        s
    }

    /// Privilege level: Suspended 0 < Standard < Analyst < Manager < Admin 4.
    pub fn level(&self) -> (l: u32)
        ensures
            l == self.spec_level(),
    {
        match self {
            UserRole::Suspended => 0,
            UserRole::Standard => 1,
            UserRole::Analyst => 2,
            UserRole::Manager => 3,
            UserRole::Admin => 4,
        }
    }
}

/// Verification status governing sensitive operations.
#[derive(Clone, Copy, Debug, PartialEq, Eq, Structural)]
pub enum VerificationStatus {
    Unverified,
    Pending,
    Verified,
    Rejected,
}

impl VerificationStatus {
    /// The status's name.
    pub open spec fn spec_name(self) -> Seq<char> {
        match self {
            VerificationStatus::Unverified => "unverified"@,
            VerificationStatus::Pending => "pending"@,
            VerificationStatus::Verified => "verified"@,
            VerificationStatus::Rejected => "rejected"@,
        }
    }

    pub fn is_verified(&self) -> (b: bool)
        ensures
            b == (*self == VerificationStatus::Verified),
    {
        matches!(self, VerificationStatus::Verified)
    }
}

/// User-specific limits.
#[derive(Clone, Copy, Debug, PartialEq, Eq, Structural)]
pub struct UserLimits {
    pub max_deposit: i128,
    pub max_borrow: i128,
    pub max_withdraw: i128,
    pub daily_limit: i128,
    pub daily_spent: i128,
    pub daily_window_start: u64,
}

impl UserLimits {
    pub open spec fn spec_default(now: u64) -> Self {
        UserLimits {
            max_deposit: i128::MAX,
            max_borrow: i128::MAX,
            max_withdraw: i128::MAX,
            daily_limit: i128::MAX,
            daily_spent: 0,
            daily_window_start: now,
        }
    }

    /// No limits; the daily window opens at `now`.
    pub fn default(now: u64) -> (l: Self)
        ensures
            l == UserLimits::spec_default(now),
    {
        UserLimits {
            max_deposit: i128::MAX,
            max_borrow: i128::MAX,
            max_withdraw: i128::MAX,
            daily_limit: i128::MAX,
            daily_spent: 0,
            daily_window_start: now,
        }
    }

    /// The limits after the daily window is renewed at `now`: a window at
    /// least a day old restarts with nothing spent.
    pub open spec fn spec_refreshed(self, now: u64) -> Self {
        if now >= self.daily_window_start && now - self.daily_window_start >= SECONDS_PER_DAY {
            UserLimits { daily_window_start: now, daily_spent: 0, ..self }
        } else {
            self
        }
    }

    pub fn refresh_window(&mut self, now: u64)
        ensures
            *final(self) == old(self).spec_refreshed(now),
    {
        if sat_sub_u64(now, self.daily_window_start) >= SECONDS_PER_DAY {
            self.daily_window_start = now;
            self.daily_spent = 0;
        }
    }

    /// Whether an operation of `amount` is within the limits.
    pub open spec fn spec_check(self, operation: OperationKind, amount: i128) -> Result<(), ProtocolError> {
        if amount <= 0 {
            Err(ProtocolError::InvalidAmount)
        } else if operation == OperationKind::Deposit && amount > self.max_deposit {
            Err(ProtocolError::UserLimitExceeded)
        } else if operation == OperationKind::Borrow && amount > self.max_borrow {
            Err(ProtocolError::UserLimitExceeded)
        } else if operation == OperationKind::Withdraw && amount > self.max_withdraw {
            Err(ProtocolError::UserLimitExceeded)
        } else if self.daily_limit < i128::MAX && sat(self.daily_spent + amount) > self.daily_limit {
            Err(ProtocolError::UserLimitExceeded)
        } else {
            Ok(())
        }
    }

    pub fn check_operation(&self, operation: OperationKind, amount: i128) -> (r: Result<(), ProtocolError>)
        ensures
            r == self.spec_check(operation, amount),
    {
        if amount <= 0 {
            return Err(ProtocolError::InvalidAmount);
        }
        match operation {
            OperationKind::Deposit => {
                if amount > self.max_deposit {
                    return Err(ProtocolError::UserLimitExceeded);
                }
            },
            OperationKind::Borrow => {
                if amount > self.max_borrow {
                    return Err(ProtocolError::UserLimitExceeded);
                }
            },
            OperationKind::Withdraw => {
                if amount > self.max_withdraw {
                    return Err(ProtocolError::UserLimitExceeded);
                }
            },
            _ => {},
        }
        if self.daily_limit < i128::MAX {
            let projected = sat_add(self.daily_spent, amount);
            if projected > self.daily_limit {
                return Err(ProtocolError::UserLimitExceeded);
            }
        }
        Ok(())
    }

    /// The limits after recording usage of `amount` at `now` (when allowed).
    pub open spec fn spec_used(self, now: u64, amount: i128) -> Self {
        let r = self.spec_refreshed(now);
        if r.daily_limit < i128::MAX {
            UserLimits { daily_spent: sat(r.daily_spent + amount) as i128, ..r }
        } else {
            r
        }
    }

    /// Renews the window, checks the operation and counts it against the
    /// daily limit.
    pub fn apply_usage(&mut self, now: u64, operation: OperationKind, amount: i128) -> (r: Result<
        (),
        ProtocolError,
    >)
        ensures
            r == old(self).spec_refreshed(now).spec_check(operation, amount),
            r is Ok ==> *final(self) == old(self).spec_used(now, amount),
            r is Err ==> *final(self) == old(self).spec_refreshed(now),
    {
        self.refresh_window(now);
        self.check_operation(operation, amount)?;
        if self.daily_limit < i128::MAX {
            self.daily_spent = sat_add(self.daily_spent, amount);
        }
        Ok(())
    }
}

/// On-ledger user profile.
pub struct UserProfile {
    pub user: String,
    pub role: UserRole,
    pub verification: VerificationStatus,
    pub limits: UserLimits,
    pub last_active: u64,
    pub activity_score: i128,
    pub is_frozen: bool,
}

impl Keyed for UserProfile {
    type Key = String;

    type KeyView = Seq<char>;

    open spec fn key_view(&self) -> Seq<char> {
        self.user@
    }

    open spec fn view_of_key(k: &String) -> Seq<char> {
        k@
    }

    fn has_key_of(&self, k: &String) -> (b: bool) {
        self.user.eq(k)
    }

    fn key_copy(&self) -> (k: String) {
        self.user.clone()
    }
}

impl UserProfile {
    pub open spec fn spec_new(user: String, now: u64) -> Self {
        UserProfile {
            user,
            role: UserRole::Standard,
            verification: VerificationStatus::Unverified,
            limits: UserLimits::spec_default(now),
            last_active: now,
            activity_score: 0,
            is_frozen: false,
        }
    }

    /// A standard, unverified, unfrozen profile with no limits.
    pub fn new(now: u64, user: String) -> (p: Self)
        ensures
            p == UserProfile::spec_new(user, now),
    {
        UserProfile {
            user,
            role: UserRole::Standard,
            verification: VerificationStatus::Unverified,
            limits: UserLimits::default(now),
            last_active: now,
            activity_score: 0,
            is_frozen: false,
        }
    }

    pub fn clone_profile(&self) -> (r: Self)
        ensures
            r == *self,
    {
        UserProfile {
            user: self.user.clone(),
            role: self.role,
            verification: self.verification,
            limits: self.limits,
            last_active: self.last_active,
            activity_score: self.activity_score,
            is_frozen: self.is_frozen,
        }
    }
}

/// The name of an operation kind.
pub open spec fn operation_name(operation: OperationKind) -> Seq<char> {
    match operation {
        OperationKind::Deposit => "deposit"@,
        OperationKind::Borrow => "borrow"@,
        OperationKind::Repay => "repay"@,
        OperationKind::Withdraw => "withdraw"@,
        OperationKind::Liquidate => "liquidate"@,
        OperationKind::FlashLoan => "flash_loan"@,
        OperationKind::Governance => "governance"@,
        OperationKind::Admin => "admin"@,
    }
}

/// The stored profile of `user`, or the fresh one a first access creates.
pub open spec fn profile_in(users: Map<Seq<char>, UserProfile>, user: String, now: u64) -> UserProfile {
    if users.contains_key(user@) {
        users[user@]
    } else {
        UserProfile::spec_new(user, now)
    }
}

/// The profiles after a first access to `user` has stored its profile.
pub open spec fn with_profile(users: Map<Seq<char>, UserProfile>, user: String, now: u64) -> Map<Seq<char>, UserProfile> {
    users.insert(user@, profile_in(users, user, now))
}

/// `caller` is the configured admin.
pub open spec fn is_admin(admin: Option<String>, caller: String) -> bool {
    admin matches Some(a) && a@ == caller@
}

/// The outcome of `UserManager::ensure_can_manage`.
pub open spec fn spec_can_manage(
    users: Map<Seq<char>, UserProfile>,
    admin: Option<String>,
    caller: String,
    minimum_role: UserRole,
    now: u64,
) -> Result<(), ProtocolError> {
    if is_admin(admin, caller) {
        Ok(())
    } else {
        let p = profile_in(users, caller, now);
        if p.verification != VerificationStatus::Verified {
            Err(ProtocolError::UserNotVerified)
        } else if p.role.spec_level() < minimum_role.spec_level() {
            Err(ProtocolError::UserRoleViolation)
        } else {
            Ok(())
        }
    }
}

/// The profiles after `ensure_can_manage`: a non-admin caller's profile is created.
pub open spec fn after_manage_check(
    users: Map<Seq<char>, UserProfile>,
    admin: Option<String>,
    caller: String,
    now: u64,
) -> Map<Seq<char>, UserProfile> {
    if is_admin(admin, caller) {
        users
    } else {
        with_profile(users, caller, now)
    }
}

/// The outcome of `ProtocolConfig::require_admin`.
pub open spec fn spec_require_admin(admin: Option<String>, caller: String) -> Result<(), ProtocolError> {
    if is_admin(admin, caller) {
        Ok(())
    } else {
        Err(ProtocolError::Unauthorized)
    }
}

/// The outcome of `UserManager::ensure_operation_allowed` for a profile.
pub open spec fn spec_operation_allowed(p: UserProfile, operation: OperationKind, amount: i128) -> Result<
    (),
    ProtocolError,
> {
    if p.is_frozen || p.role == UserRole::Suspended {
        Err(ProtocolError::UserSuspended)
    } else if (operation == OperationKind::Admin || operation == OperationKind::Governance)
        && p.verification != VerificationStatus::Verified {
        Err(ProtocolError::UserNotVerified)
    } else if (operation == OperationKind::Admin || operation == OperationKind::Governance)
        && p.role.spec_level() < UserRole::Manager.spec_level() {
        Err(ProtocolError::UserRoleViolation)
    } else if (operation == OperationKind::Deposit || operation == OperationKind::Borrow
        || operation == OperationKind::Withdraw || operation == OperationKind::Liquidate
        || operation == OperationKind::FlashLoan) && p.verification != VerificationStatus::Verified {
        Err(ProtocolError::UserNotVerified)
    } else if operation == OperationKind::Repay && p.verification == VerificationStatus::Rejected {
        Err(ProtocolError::UserNotVerified)
    } else {
        p.limits.spec_check(operation, amount)
    }
}

/// `ProtocolConfig::require_admin`: the caller must be the configured admin.
pub fn require_admin_of(admin: &Option<String>, caller: &String) -> (r: Result<(), ProtocolError>)
    ensures
        r == spec_require_admin(*admin, *caller),
{
    match admin {
        Some(a) => {
            if a.eq(caller) {
                Ok(())
            } else {
                Err(ProtocolError::Unauthorized)
            }
        },
        None => Err(ProtocolError::Unauthorized),
    }
}

fn admin_matches(admin: &Option<String>, caller: &String) -> (b: bool)
    ensures
        b == is_admin(*admin, *caller),
{
    match admin {
        Some(a) => a.eq(caller),
        None => false,
    }
}

/// Centralized user management.
pub struct UserManager;

impl UserManager {
    /// The operation's name, as published.
    pub fn operation_symbol(operation: OperationKind) -> (s: String)
        ensures
            s@ == operation_name(operation),
    {
        let s = match operation {
            OperationKind::Deposit => String::from_str("deposit"),
            OperationKind::Borrow => String::from_str("borrow"),
            OperationKind::Repay => String::from_str("repay"),
            OperationKind::Withdraw => String::from_str("withdraw"),
            OperationKind::Liquidate => String::from_str("liquidate"),
            OperationKind::FlashLoan => String::from_str("flash_loan"),
            OperationKind::Governance => String::from_str("governance"),
            OperationKind::Admin => String::from_str("admin"),
        };
        proof {
            reveal_strlit("deposit");
            reveal_strlit("borrow");
            reveal_strlit("repay");
            reveal_strlit("withdraw");
            reveal_strlit("liquidate");
            reveal_strlit("flash_loan");
            reveal_strlit("governance");
            reveal_strlit("admin");
        }
        s
    }

    /// The verification status's name, as published.
    pub fn verification_symbol(status: &VerificationStatus) -> (s: String)
        ensures
            s@ == status.spec_name(),
    {
        let s = match status {
            VerificationStatus::Unverified => String::from_str("unverified"),
            VerificationStatus::Pending => String::from_str("pending"),
            VerificationStatus::Verified => String::from_str("verified"),
            VerificationStatus::Rejected => String::from_str("rejected"),
        };
        proof {
            reveal_strlit("unverified");
            reveal_strlit("pending");
            reveal_strlit("verified");
            reveal_strlit("rejected");
        }
        s
    }

    /// Position of `user`'s profile, creating the profile on first access.
    pub fn ensure_profile(users: &mut Vec<UserProfile>, now: u64, user: &String) -> (i: usize)
        requires
            keys_unique(old(users)@),
        ensures
            keys_unique(final(users)@),
            map_of(final(users)@) == with_profile(map_of(old(users)@), *user, now),
            i < final(users)@.len(),
            final(users)@[i as int] == profile_in(map_of(old(users)@), *user, now),
    {
        match find_key(users, user) {
            Some(i) => {
                proof {
                    lemma_lookup_at(users@, i as int);
                    assert(map_of(users@).insert(user@, users@[i as int]) =~= map_of(users@));
                }
                i
            },
            None => {
                let p = UserProfile::new(now, user.clone());
                let ghost before = users@;
                proof {
                    crate::keyed::lemma_lookup_push(users@, p);
                }
                users.push(p);
                proof {
                    assert(map_of(users@) =~= map_of(before).insert(user@, p)) by {
                        assert forall|k: Seq<char>| #[trigger] map_of(users@).contains_key(k) == map_of(before).insert(user@, p).contains_key(k) by {
                            assert(lookup(users@, k) == (if k == user@ { Some(p) } else { lookup(before, k) }));
                        }
                        assert forall|k: Seq<char>| map_of(users@).contains_key(k) implies #[trigger] map_of(users@)[k] == map_of(before).insert(user@, p)[k] by {
                            assert(lookup(users@, k) == (if k == user@ { Some(p) } else { lookup(before, k) }));
                        }
                    }
                }
                users.len() - 1
            },
        }
    }

    /// Stores `profile` under its user.
    pub fn save_profile(users: &mut Vec<UserProfile>, profile: UserProfile)
        requires
            keys_unique(old(users)@),
        ensures
            keys_unique(final(users)@),
            map_of(final(users)@) == map_of(old(users)@).insert(profile.user@, profile),
    {
        upsert(users, profile);
    }

    /// A copy of `user`'s profile, or the fresh one a first access would create.
    pub fn profile_of(users: &Vec<UserProfile>, now: u64, user: &String) -> (r: UserProfile)
        requires
            keys_unique(users@),
        ensures
            r == profile_in(map_of(users@), *user, now),
    {
        match find_key(users, user) {
            Some(i) => {
                proof {
                    lemma_lookup_at(users@, i as int);
                }
                users[i].clone_profile()
            },
            None => UserProfile::new(now, user.clone()),
        }
    }

    /// Whether the caller is the admin, or a verified user of at least
    /// `minimum_role` (nothing is stored).
    pub fn check_can_manage(
        users: &Vec<UserProfile>,
        admin: &Option<String>,
        now: u64,
        caller: &String,
        minimum_role: UserRole,
    ) -> (r: Result<(), ProtocolError>)
        requires
            keys_unique(users@),
        ensures
            r == spec_can_manage(map_of(users@), *admin, *caller, minimum_role, now),
    {
        if admin_matches(admin, caller) {
            return Ok(());
        }
        let profile = Self::profile_of(users, now, caller);
        if !profile.verification.is_verified() {
            return Err(ProtocolError::UserNotVerified);
        }
        if profile.role.level() < minimum_role.level() {
            return Err(ProtocolError::UserRoleViolation);
        }
        Ok(())
    }

    /// The admin, or a verified user of at least `minimum_role`; a refused
    /// call stores nothing, an accepted one stores the caller's profile.
    pub fn ensure_can_manage(
        users: &mut Vec<UserProfile>,
        admin: &Option<String>,
        now: u64,
        caller: &String,
        minimum_role: UserRole,
    ) -> (r: Result<(), ProtocolError>)
        requires
            keys_unique(old(users)@),
        ensures
            keys_unique(final(users)@),
            r == spec_can_manage(map_of(old(users)@), *admin, *caller, minimum_role, now),
            r is Ok ==> map_of(final(users)@) == after_manage_check(map_of(old(users)@), *admin, *caller, now),
            r is Err ==> final(users)@ == old(users)@,
    {
        Self::check_can_manage(users, admin, now, caller, minimum_role)?;
        if !admin_matches(admin, caller) {
            Self::ensure_profile(users, now, caller);
        }
        Ok(())
    }

    /// Admin-only operations: the caller must be the configured admin.
    pub fn require_admin(admin: &Option<String>, caller: &String) -> (r: Result<(), ProtocolError>)
        ensures
            r == spec_require_admin(*admin, *caller),
    {
        require_admin_of(admin, caller)
    }

    /// Manager-level operations: manager role or admin.
    pub fn require_manager(
        users: &mut Vec<UserProfile>,
        admin: &Option<String>,
        now: u64,
        caller: &String,
    ) -> (r: Result<(), ProtocolError>)
        requires
            keys_unique(old(users)@),
        ensures
            keys_unique(final(users)@),
            r == spec_can_manage(map_of(old(users)@), *admin, *caller, UserRole::Manager, now),
            r is Ok ==> map_of(final(users)@) == after_manage_check(map_of(old(users)@), *admin, *caller, now),
            r is Err ==> final(users)@ == old(users)@,
    {
        Self::ensure_can_manage(users, admin, now, caller, UserRole::Manager)
    }

    /// Analyst-level operations: analyst role or higher, or admin.
    pub fn require_analyst(
        users: &mut Vec<UserProfile>,
        admin: &Option<String>,
        now: u64,
        caller: &String,
    ) -> (r: Result<(), ProtocolError>)
        requires
            keys_unique(old(users)@),
        ensures
            keys_unique(final(users)@),
            r == spec_can_manage(map_of(old(users)@), *admin, *caller, UserRole::Analyst, now),
            r is Ok ==> map_of(final(users)@) == after_manage_check(map_of(old(users)@), *admin, *caller, now),
            r is Err ==> final(users)@ == old(users)@,
    {
        Self::ensure_can_manage(users, admin, now, caller, UserRole::Analyst)
    }

    /// Sensitive admin operations: a verified profile of admin role that is
    /// also the configured admin.
    pub fn require_admin_strict(
        users: &mut Vec<UserProfile>,
        admin: &Option<String>,
        now: u64,
        caller: &String,
    ) -> (r: Result<(), ProtocolError>)
        requires
            keys_unique(old(users)@),
        ensures
            keys_unique(final(users)@),
            r is Ok ==> map_of(final(users)@) == with_profile(map_of(old(users)@), *caller, now),
            r is Err ==> final(users)@ == old(users)@,
            r == ({
                let p = profile_in(map_of(old(users)@), *caller, now);
                if p.verification != VerificationStatus::Verified {
                    Err(ProtocolError::UserNotVerified)
                } else if p.role != UserRole::Admin {
                    Err(ProtocolError::UserRoleViolation)
                } else if is_admin(*admin, *caller) {
                    Ok(())
                } else {
                    Err(ProtocolError::Unauthorized)
                }
            }),
    {
        let profile = Self::profile_of(users, now, caller);
        if !profile.verification.is_verified() {
            return Err(ProtocolError::UserNotVerified);
        }
        if profile.role.level() < UserRole::Admin.level() {
            return Err(ProtocolError::UserRoleViolation);
        }
        if !admin_matches(admin, caller) {
            return Err(ProtocolError::Unauthorized);
        }
        Self::ensure_profile(users, now, caller);
        Ok(())
    }

    /// Makes `admin` a verified, unfrozen admin profile active at `now`.
    pub fn bootstrap_admin(users: &mut Vec<UserProfile>, outbox: &mut Vec<Notice>, now: u64, admin: &String)
        requires
            keys_unique(old(users)@),
        ensures
            keys_unique(final(users)@),
            map_of(final(users)@) == map_of(old(users)@).insert(
                admin@,
                UserProfile {
                    role: UserRole::Admin,
                    verification: VerificationStatus::Verified,
                    is_frozen: false,
                    last_active: now,
                    ..profile_in(map_of(old(users)@), *admin, now)
                },
            ),
            final(outbox)@.len() == old(outbox)@.len() + 1,
            final(outbox)@.drop_last() == old(outbox)@,
            final(outbox)@.last() matches Notice::UserRegistered(u, UserRole::Admin) && u@ == admin@,
    {
        let i = Self::ensure_profile(users, now, admin);
        let mut profile = users[i].clone_profile();
        profile.role = UserRole::Admin;
        profile.verification = VerificationStatus::Verified;
        profile.is_frozen = false;
        profile.last_active = now;
        Self::save_profile(users, profile);
        proof {
            assert(with_profile(map_of(old(users)@), *admin, now).insert(admin@, profile)
                =~= map_of(old(users)@).insert(admin@, profile));
        }
        outbox.push(Notice::UserRegistered(admin.clone(), UserRole::Admin));
    }

    /// The profile a role change leaves for a user.
    pub open spec fn spec_with_role(p: UserProfile, role: UserRole) -> UserProfile {
        UserProfile {
            role,
            is_frozen: role == UserRole::Suspended,
            verification: if (role == UserRole::Manager || role == UserRole::Admin || role
                == UserRole::Analyst) {
                VerificationStatus::Verified
            } else {
                p.verification
            },
            ..p
        }
    }

    /// Sets a user's role: admin roles only by the admin, others by a
    /// manager; suspension freezes, privileged roles are verified.
    pub fn set_role(
        users: &mut Vec<UserProfile>,
        outbox: &mut Vec<Notice>,
        admin: &Option<String>,
        now: u64,
        caller: &String,
        user: &String,
        role: UserRole,
    ) -> (r: Result<(), ProtocolError>)
        requires
            keys_unique(old(users)@),
        ensures
            keys_unique(final(users)@),
            r == (if role == UserRole::Admin {
                spec_require_admin(*admin, *caller)
            } else {
                spec_can_manage(map_of(old(users)@), *admin, *caller, UserRole::Manager, now)
            }),
            ({
                let checked = if role == UserRole::Admin {
                    map_of(old(users)@)
                } else {
                    after_manage_check(map_of(old(users)@), *admin, *caller, now)
                };
                match r {
                    Ok(_) => map_of(final(users)@) == checked.insert(
                        user@,
                        UserManager::spec_with_role(profile_in(checked, *user, now), role),
                    ) && final(outbox)@ == old(outbox)@.push(
                        Notice::UserRoleUpdated(final(outbox)@.last()->UserRoleUpdated_0, role),
                    ) && final(outbox)@.last()->UserRoleUpdated_0@ == user@,
                    Err(_) => final(users)@ == old(users)@ && final(outbox)@ == old(outbox)@,
                }
            }),
    {
        if matches!(role, UserRole::Admin) {
            Self::require_admin(admin, caller)?;
        } else {
            Self::ensure_can_manage(users, admin, now, caller, UserRole::Manager)?;
        }
        let ghost checked = map_of(users@);
        let i = Self::ensure_profile(users, now, user);
        let mut profile = users[i].clone_profile();
        profile.role = role;
        profile.is_frozen = matches!(role, UserRole::Suspended);
        if matches!(role, UserRole::Manager | UserRole::Admin | UserRole::Analyst)
            && !profile.verification.is_verified() {
            profile.verification = VerificationStatus::Verified;
        }
        Self::save_profile(users, profile);
        proof {
            assert(with_profile(checked, *user, now).insert(user@, profile) =~= checked.insert(user@, profile));
        }
        outbox.push(Notice::UserRoleUpdated(user.clone(), role));
        Ok(())
    }

    /// The profile a verification change leaves.
    pub open spec fn spec_with_status(p: UserProfile, status: VerificationStatus) -> UserProfile {
        UserProfile {
            verification: status,
            is_frozen: if status == VerificationStatus::Rejected {
                true
            } else if status == VerificationStatus::Verified {
                false
            } else {
                p.is_frozen
            },
            ..p
        }
    }

    /// Sets a user's verification status (analyst or higher); rejection
    /// freezes and verification unfreezes.
    pub fn set_verification_status(
        users: &mut Vec<UserProfile>,
        outbox: &mut Vec<Notice>,
        admin: &Option<String>,
        now: u64,
        caller: &String,
        user: &String,
        status: VerificationStatus,
    ) -> (r: Result<(), ProtocolError>)
        requires
            keys_unique(old(users)@),
        ensures
            keys_unique(final(users)@),
            r == spec_can_manage(map_of(old(users)@), *admin, *caller, UserRole::Analyst, now),
            ({
                let checked = after_manage_check(map_of(old(users)@), *admin, *caller, now);
                match r {
                    Ok(_) => map_of(final(users)@) == checked.insert(
                        user@,
                        UserManager::spec_with_status(profile_in(checked, *user, now), status),
                    ) && final(outbox)@ == old(outbox)@.push(
                        Notice::UserVerificationUpdated(final(outbox)@.last()->UserVerificationUpdated_0, status),
                    ) && final(outbox)@.last()->UserVerificationUpdated_0@ == user@,
                    Err(_) => final(users)@ == old(users)@ && final(outbox)@ == old(outbox)@,
                }
            }),
    {
        Self::ensure_can_manage(users, admin, now, caller, UserRole::Analyst)?;
        let ghost checked = map_of(users@);
        let i = Self::ensure_profile(users, now, user);
        let mut profile = users[i].clone_profile();
        profile.verification = status;
        if matches!(status, VerificationStatus::Rejected) {
            profile.is_frozen = true;
        }
        if matches!(status, VerificationStatus::Verified) {
            profile.is_frozen = false;
        }
        Self::save_profile(users, profile);
        proof {
            assert(with_profile(checked, *user, now).insert(user@, profile) =~= checked.insert(user@, profile));
        }
        outbox.push(Notice::UserVerificationUpdated(user.clone(), status));
        Ok(())
    }

    /// Sets a user's limits (manager or admin); every limit must be positive.
    pub fn set_limits(
        users: &mut Vec<UserProfile>,
        outbox: &mut Vec<Notice>,
        admin: &Option<String>,
        now: u64,
        caller: &String,
        user: &String,
        max_deposit: i128,
        max_borrow: i128,
        max_withdraw: i128,
        daily_limit: i128,
    ) -> (r: Result<(), ProtocolError>)
        requires
            keys_unique(old(users)@),
        ensures
            keys_unique(final(users)@),
            r == (match spec_can_manage(map_of(old(users)@), *admin, *caller, UserRole::Manager, now) {
                Err(e) => Err(e),
                Ok(_) => if max_deposit <= 0 || max_borrow <= 0 || max_withdraw <= 0 || daily_limit <= 0 {
                    Err(ProtocolError::InvalidParameters)
                } else {
                    Ok(())
                },
            }),
            ({
                let checked = after_manage_check(map_of(old(users)@), *admin, *caller, now);
                let p = profile_in(checked, *user, now);
                match r {
                    Ok(_) => map_of(final(users)@) == checked.insert(
                        user@,
                        UserProfile {
                            limits: UserLimits { max_deposit, max_borrow, max_withdraw, daily_limit, ..p.limits },
                            ..p
                        },
                    ) && final(outbox)@ == old(outbox)@.push(
                        Notice::UserLimitsUpdated(
                            final(outbox)@.last()->UserLimitsUpdated_0,
                            max_deposit,
                            max_borrow,
                            max_withdraw,
                            daily_limit,
                        ),
                    ) && final(outbox)@.last()->UserLimitsUpdated_0@ == user@,
                    Err(_) => final(users)@ == old(users)@ && final(outbox)@ == old(outbox)@,
                }
            }),
    {
        Self::check_can_manage(users, admin, now, caller, UserRole::Manager)?;
        if max_deposit <= 0 || max_borrow <= 0 || max_withdraw <= 0 || daily_limit <= 0 {
            return Err(ProtocolError::InvalidParameters);
        }
        Self::ensure_can_manage(users, admin, now, caller, UserRole::Manager)?;
        let ghost checked = map_of(users@);
        let i = Self::ensure_profile(users, now, user);
        let mut profile = users[i].clone_profile();
        profile.limits.max_deposit = max_deposit;
        profile.limits.max_borrow = max_borrow;
        profile.limits.max_withdraw = max_withdraw;
        profile.limits.daily_limit = daily_limit;
        Self::save_profile(users, profile);
        proof {
            assert(with_profile(checked, *user, now).insert(user@, profile) =~= checked.insert(user@, profile));
        }
        outbox.push(Notice::UserLimitsUpdated(user.clone(), max_deposit, max_borrow, max_withdraw, daily_limit));
        Ok(())
    }

    /// Whether `user` may perform `operation` of `amount`: not frozen or
    /// suspended, verified as the operation needs, and within limits
    /// (nothing is stored).
    pub fn check_operation_allowed(
        users: &Vec<UserProfile>,
        now: u64,
        user: &String,
        operation: OperationKind,
        amount: i128,
    ) -> (r: Result<(), ProtocolError>)
        requires
            keys_unique(users@),
        ensures
            r == spec_operation_allowed(profile_in(map_of(users@), *user, now), operation, amount),
    {
        let profile = Self::profile_of(users, now, user);
        if profile.is_frozen || matches!(profile.role, UserRole::Suspended) {
            return Err(ProtocolError::UserSuspended);
        }
        match operation {
            OperationKind::Admin | OperationKind::Governance => {
                if !profile.verification.is_verified() {
                    return Err(ProtocolError::UserNotVerified);
                }
                if profile.role.level() < UserRole::Manager.level() {
                    return Err(ProtocolError::UserRoleViolation);
                }
            },
            OperationKind::Deposit
            | OperationKind::Borrow
            | OperationKind::Withdraw
            | OperationKind::Liquidate
            | OperationKind::FlashLoan => {
                if !profile.verification.is_verified() {
                    return Err(ProtocolError::UserNotVerified);
                }
            },
            OperationKind::Repay => {
                if matches!(profile.verification, VerificationStatus::Rejected) {
                    return Err(ProtocolError::UserNotVerified);
                }
            },
        }
        profile.limits.check_operation(operation, amount)
    }

    /// Whether `user` may perform `operation` of `amount`; an allowed user's
    /// profile is stored, a refused call stores nothing.
    pub fn ensure_operation_allowed(
        users: &mut Vec<UserProfile>,
        now: u64,
        user: &String,
        operation: OperationKind,
        amount: i128,
    ) -> (r: Result<(), ProtocolError>)
        requires
            keys_unique(old(users)@),
        ensures
            keys_unique(final(users)@),
            r == spec_operation_allowed(profile_in(map_of(old(users)@), *user, now), operation, amount),
            r is Ok ==> map_of(final(users)@) == with_profile(map_of(old(users)@), *user, now),
            r is Err ==> final(users)@ == old(users)@,
    {
        Self::check_operation_allowed(users, now, user, operation, amount)?;
        Self::ensure_profile(users, now, user);
        Ok(())
    }

    /// The outcome of recording an operation of `amount` against the user's
    /// limits at `now` (nothing is stored).
    pub fn check_activity(users: &Vec<UserProfile>, now: u64, user: &String, operation: OperationKind, amount: i128) -> (r:
        Result<(), ProtocolError>)
        requires
            keys_unique(users@),
        ensures
            r == profile_in(map_of(users@), *user, now).limits.spec_refreshed(now).spec_check(operation, amount),
    {
        let profile = Self::profile_of(users, now, user);
        let mut limits = profile.limits;
        limits.refresh_window(now);
        limits.check_operation(operation, amount)
    }

    /// The profile after recording an allowed operation of `amount` at `now`.
    pub open spec fn spec_recorded(p: UserProfile, now: u64, amount: i128) -> UserProfile {
        UserProfile {
            limits: p.limits.spec_used(now, amount),
            last_active: now,
            activity_score: sat(p.activity_score + (if amount >= 0 { amount as int } else { -amount })) as i128,
            ..p
        }
    }

    /// Counts an operation against the user's daily limit and activity score.
    pub fn record_activity(
        users: &mut Vec<UserProfile>,
        outbox: &mut Vec<Notice>,
        now: u64,
        user: &String,
        operation: OperationKind,
        amount: i128,
    ) -> (r: Result<(), ProtocolError>)
        requires
            keys_unique(old(users)@),
        ensures
            keys_unique(final(users)@),
            ({
                let p = profile_in(map_of(old(users)@), *user, now);
                &&& r == p.limits.spec_refreshed(now).spec_check(operation, amount)
                &&& match r {
                    Ok(_) => map_of(final(users)@) == map_of(old(users)@).insert(
                        user@,
                        UserManager::spec_recorded(p, now, amount),
                    ) && final(outbox)@ == old(outbox)@.push(
                        Notice::UserActivityTracked(
                            final(outbox)@.last()->UserActivityTracked_0,
                            operation,
                            amount,
                            now,
                        ),
                    ) && final(outbox)@.last()->UserActivityTracked_0@ == user@,
                    Err(_) => final(users)@ == old(users)@ && final(outbox)@ == old(outbox)@,
                }
            }),
    {
        let mut profile = Self::profile_of(users, now, user);
        profile.limits.apply_usage(now, operation, amount)?;
        profile.last_active = now;
        let magnitude = if amount >= 0 {
            amount
        } else {
            0 - amount
        };
        profile.activity_score = sat_add(profile.activity_score, magnitude);
        Self::save_profile(users, profile);
        proof {
            assert(with_profile(map_of(old(users)@), *user, now).insert(user@, profile)
                =~= map_of(old(users)@).insert(user@, profile));
        }
        outbox.push(Notice::UserActivityTracked(user.clone(), operation, amount, now));
        Ok(())
    }

    /// The user's profile (created on first access).
    pub fn get_profile(users: &mut Vec<UserProfile>, now: u64, user: &String) -> (p: UserProfile)
        requires
            keys_unique(old(users)@),
        ensures
            keys_unique(final(users)@),
            map_of(final(users)@) == with_profile(map_of(old(users)@), *user, now),
            p == profile_in(map_of(old(users)@), *user, now),
    {
        let i = Self::ensure_profile(users, now, user);
        users[i].clone_profile()
    }

    /// Freezes a user (manager or admin).
    pub fn freeze_user(
        users: &mut Vec<UserProfile>,
        outbox: &mut Vec<Notice>,
        admin: &Option<String>,
        now: u64,
        caller: &String,
        user: &String,
    ) -> (r: Result<(), ProtocolError>)
        requires
            keys_unique(old(users)@),
        ensures
            keys_unique(final(users)@),
            r == spec_can_manage(map_of(old(users)@), *admin, *caller, UserRole::Manager, now),
            ({
                let checked = after_manage_check(map_of(old(users)@), *admin, *caller, now);
                match r {
                    Ok(_) => map_of(final(users)@) == checked.insert(
                        user@,
                        UserProfile { is_frozen: true, ..profile_in(checked, *user, now) },
                    ) && final(outbox)@ == old(outbox)@.push(
                        Notice::UserRoleUpdated(final(outbox)@.last()->UserRoleUpdated_0, UserRole::Suspended),
                    ) && final(outbox)@.last()->UserRoleUpdated_0@ == user@,
                    Err(_) => final(users)@ == old(users)@ && final(outbox)@ == old(outbox)@,
                }
            }),
    {
        Self::ensure_can_manage(users, admin, now, caller, UserRole::Manager)?;
        let ghost checked = map_of(users@);
        let i = Self::ensure_profile(users, now, user);
        let mut profile = users[i].clone_profile();
        profile.is_frozen = true;
        Self::save_profile(users, profile);
        proof {
            assert(with_profile(checked, *user, now).insert(user@, profile) =~= checked.insert(user@, profile));
        }
        outbox.push(Notice::UserRoleUpdated(user.clone(), UserRole::Suspended));
        Ok(())
    }

    /// Unfreezes a user (manager or admin); a suspended user becomes standard.
    pub fn unfreeze_user(
        users: &mut Vec<UserProfile>,
        outbox: &mut Vec<Notice>,
        admin: &Option<String>,
        now: u64,
        caller: &String,
        user: &String,
    ) -> (r: Result<(), ProtocolError>)
        requires
            keys_unique(old(users)@),
        ensures
            keys_unique(final(users)@),
            r == spec_can_manage(map_of(old(users)@), *admin, *caller, UserRole::Manager, now),
            ({
                let checked = after_manage_check(map_of(old(users)@), *admin, *caller, now);
                let p = profile_in(checked, *user, now);
                let role = if p.role == UserRole::Suspended {
                    UserRole::Standard
                } else {
                    p.role
                };
                match r {
                    Ok(_) => map_of(final(users)@) == checked.insert(
                        user@,
                        UserProfile { is_frozen: false, role, ..p },
                    ) && final(outbox)@ == old(outbox)@.push(
                        Notice::UserRoleUpdated(final(outbox)@.last()->UserRoleUpdated_0, role),
                    ) && final(outbox)@.last()->UserRoleUpdated_0@ == user@,
                    Err(_) => final(users)@ == old(users)@ && final(outbox)@ == old(outbox)@,
                }
            }),
    {
        Self::ensure_can_manage(users, admin, now, caller, UserRole::Manager)?;
        let ghost checked = map_of(users@);
        let i = Self::ensure_profile(users, now, user);
        let mut profile = users[i].clone_profile();
        profile.is_frozen = false;
        if matches!(profile.role, UserRole::Suspended) {
            profile.role = UserRole::Standard;
        }
        let role = profile.role;
        Self::save_profile(users, profile);
        proof {
            assert(with_profile(checked, *user, now).insert(user@, profile) =~= checked.insert(user@, profile));
        }
        outbox.push(Notice::UserRoleUpdated(user.clone(), role));
        Ok(())
    }
}

} // verus!
