//! The treasury controller: weighted routing of treasury funds, keeper and
//! venue allow-lists of bounded size, and per-trade and per-day trade limits.
use crate::error::ControllerError;
use crate::state::Pubkey;
use vstd::prelude::*;

verus! {

/// Most keepers the controller authorizes at once.
pub const MAX_KEEPERS: usize = 5;

/// Most swap venues the controller allows at once.
pub const MAX_DEX_PROGRAMS: usize = 10;

/// Seconds in one day of the daily trade limit.
pub const SECONDS_PER_DAY: u64 = 86400;

/// Percentages of routed funds per category; valid when they sum to 100.
#[derive(Debug, Clone, Copy, PartialEq, Eq, Structural)]
pub struct RoutingWeights {
    pub rewards_pct: u8,
    pub buyback_pct: u8,
    pub burn_pct: u8,
    pub auto_lp_pct: u8,
}

impl RoutingWeights {
    pub open spec fn total(self) -> int {
        self.rewards_pct + self.buyback_pct + self.burn_pct + self.auto_lp_pct
    }

    /// Whether the four percentages sum to exactly 100.
    pub fn validate(&self) -> (r: bool)
        ensures
            r == (self.total() == 100),
    {
        self.rewards_pct as u16 + self.buyback_pct as u16 + self.burn_pct as u16
            + self.auto_lp_pct as u16 == 100
    }
}

/// The configuration a controller starts with.
#[derive(Debug, Clone, Copy)]
pub struct ControllerConfig {
    pub weights: RoutingWeights,
    pub max_slippage_bps: u16,
    pub max_trade_lamports: u64,
    pub max_trades_per_day: u16,
}

/// The category a routing of treasury funds goes to.
#[derive(Debug, Clone, Copy, PartialEq, Eq, Structural)]
pub enum RouteAction {
    Rewards,
    Buyback,
    Burn,
    AutoLp,
}

/// Whether one of the identities holds the given bytes.
pub open spec fn contains_key(keys: Seq<Pubkey>, key: Seq<u8>) -> bool {
    exists|i: int| 0 <= i < keys.len() && #[trigger] keys[i]@ == key
}

/// The first position holding the given identity, if any.
pub fn find_key(keys: &Vec<Pubkey>, key: &Pubkey) -> (r: Option<usize>)
    ensures
        r is None <==> !contains_key(keys@, key@),
        r matches Some(i) ==> i < keys@.len() && keys@[i as int]@ == key@ && forall|j: int|
            0 <= j < i ==> #[trigger] keys@[j]@ != key@,
{
    let mut i: usize = 0;
    while i < keys.len()
        invariant
            0 <= i <= keys@.len(),
            forall|j: int| 0 <= j < i ==> #[trigger] keys@[j]@ != key@,
        decreases keys@.len() - i,
    {
        if keys[i].same_as(key) {
            return Some(i);
        }
        i += 1;
    }
    None
}

/// The controller's configuration, allow-lists, daily trade counter,
/// treasury balance and running totals per routing category.
pub struct ControllerState {
    pub admin: Pubkey,
    pub paused: bool,
    pub weights: RoutingWeights,
    pub max_slippage_bps: u16,
    pub max_trade_lamports: u64,
    pub max_trades_per_day: u16,
    pub trades_today: u16,
    pub current_day: u64,
    pub keepers: Vec<Pubkey>,
    pub allowed_dex_programs: Vec<Pubkey>,
    pub treasury_balance: u64,
    pub total_routed_rewards: u64,
    pub total_routed_buyback: u64,
    pub total_routed_burn: u64,
    pub total_routed_auto_lp: u64,
    pub total_tokens_burned: u64,
}

impl ControllerState {
    /// The allow-lists stay within their capacities and the weights are valid.
    pub open spec fn wf(&self) -> bool {
        &&& self.keepers@.len() <= MAX_KEEPERS
        &&& self.allowed_dex_programs@.len() <= MAX_DEX_PROGRAMS
        &&& self.weights.total() == 100
    }

    pub open spec fn is_keeper_spec(&self, key: Seq<u8>) -> bool {
        contains_key(self.keepers@, key)
    }

    pub open spec fn is_allowed_dex_spec(&self, program_id: Seq<u8>) -> bool {
        contains_key(self.allowed_dex_programs@, program_id)
    }

    /// A new controller for `admin`, who is also its first keeper; refused
    /// when the weights do not sum to 100.
    pub fn initialize(admin: Pubkey, config: ControllerConfig) -> (r: Result<
        ControllerState,
        ControllerError,
    >)
        ensures
            config.weights.total() != 100 <==> r == Err::<ControllerState, ControllerError>(
                ControllerError::InvalidWeights,
            ),
            r matches Ok(s) ==> {
                &&& s.wf()
                &&& s.admin == admin
                &&& !s.paused
                &&& s.weights == config.weights
                &&& s.max_slippage_bps == config.max_slippage_bps
                &&& s.max_trade_lamports == config.max_trade_lamports
                &&& s.max_trades_per_day == config.max_trades_per_day
                &&& s.trades_today == 0
                &&& s.current_day == 0
                &&& s.keepers@ == seq![admin]
                &&& s.allowed_dex_programs@.len() == 0
                &&& s.treasury_balance == 0
                &&& s.total_routed_rewards == 0
                &&& s.total_routed_buyback == 0
                &&& s.total_routed_burn == 0
                &&& s.total_routed_auto_lp == 0
                &&& s.total_tokens_burned == 0
            },
    {
        if !config.weights.validate() {
            return Err(ControllerError::InvalidWeights);
        }
        let mut keepers: Vec<Pubkey> = Vec::new();
        keepers.push(admin);
        Ok(ControllerState {
            admin,
            paused: false,
            weights: config.weights,
            max_slippage_bps: config.max_slippage_bps,
            max_trade_lamports: config.max_trade_lamports,
            max_trades_per_day: config.max_trades_per_day,
            trades_today: 0,
            current_day: 0,
            keepers,
            allowed_dex_programs: Vec::new(),
            treasury_balance: 0,
            total_routed_rewards: 0,
            total_routed_buyback: 0,
            total_routed_burn: 0,
            total_routed_auto_lp: 0,
            total_tokens_burned: 0,
        })
    }

    /// Whether `key` is an authorized keeper.
    pub fn is_keeper(&self, key: &Pubkey) -> (r: bool)
        ensures
            r == self.is_keeper_spec(key@),
    {
        find_key(&self.keepers, key).is_some()
    }

    /// Whether `program_id` is an allowed swap venue.
    pub fn is_allowed_dex(&self, program_id: &Pubkey) -> (r: bool)
        ensures
            r == self.is_allowed_dex_spec(program_id@),
    {
        find_key(&self.allowed_dex_programs, program_id).is_some()
    }

    /// Replace the routing weights; admin only, and the new weights must sum to 100.
    pub fn update_weights(&mut self, caller: &Pubkey, weights: RoutingWeights) -> (r: Result<
        (),
        ControllerError,
    >)
        requires
            old(self).wf(),
        ensures
            final(self).wf(),
            caller@ != old(self).admin@ ==> r == Err::<(), ControllerError>(
                ControllerError::UnauthorizedAdmin,
            ),
            caller@ == old(self).admin@ && weights.total() != 100 ==> r == Err::<(), ControllerError>(
                ControllerError::InvalidWeights,
            ),
            caller@ == old(self).admin@ && weights.total() == 100 ==> r is Ok,
            r is Err ==> *final(self) == *old(self),
            r is Ok ==> *final(self) == (ControllerState { weights, ..*old(self) }),
    {
        if !caller.same_as(&self.admin) {
            return Err(ControllerError::UnauthorizedAdmin);
        }
        if !weights.validate() {
            return Err(ControllerError::InvalidWeights);
        }
        self.weights = weights;
        Ok(())
    }

    /// Set the slippage ceiling in basis points; admin only.
    pub fn update_slippage(&mut self, caller: &Pubkey, max_slippage_bps: u16) -> (r: Result<
        (),
        ControllerError,
    >)
        requires
            old(self).wf(),
        ensures
            final(self).wf(),
            caller@ == old(self).admin@ <==> r is Ok,
            r is Err ==> r == Err::<(), ControllerError>(ControllerError::UnauthorizedAdmin)
                && *final(self) == *old(self),
            r is Ok ==> *final(self) == (ControllerState { max_slippage_bps, ..*old(self) }),
    {
        if !caller.same_as(&self.admin) {
            return Err(ControllerError::UnauthorizedAdmin);
        }
        self.max_slippage_bps = max_slippage_bps;
        Ok(())
    }

    /// Set the largest trade allowed in one swap; admin only.
    pub fn update_max_trade(&mut self, caller: &Pubkey, max_trade_lamports: u64) -> (r: Result<
        (),
        ControllerError,
    >)
        requires
            old(self).wf(),
        ensures
            final(self).wf(),
            caller@ == old(self).admin@ <==> r is Ok,
            r is Err ==> r == Err::<(), ControllerError>(ControllerError::UnauthorizedAdmin)
                && *final(self) == *old(self),
            r is Ok ==> *final(self) == (ControllerState { max_trade_lamports, ..*old(self) }),
    {
        if !caller.same_as(&self.admin) {
            return Err(ControllerError::UnauthorizedAdmin);
        }
        self.max_trade_lamports = max_trade_lamports;
        Ok(())
    }

    /// Set or clear the pause flag; admin only.
    pub fn set_paused(&mut self, caller: &Pubkey, paused: bool) -> (r: Result<(), ControllerError>)
        requires
            old(self).wf(),
        ensures
            final(self).wf(),
            caller@ == old(self).admin@ <==> r is Ok,
            r is Err ==> r == Err::<(), ControllerError>(ControllerError::UnauthorizedAdmin)
                && *final(self) == *old(self),
            r is Ok ==> *final(self) == (ControllerState { paused, ..*old(self) }),
    {
        if !caller.same_as(&self.admin) {
            return Err(ControllerError::UnauthorizedAdmin);
        }
        self.paused = paused;
        Ok(())
    }

    /// Hand admin authority to a new identity; admin only.
    pub fn update_admin(&mut self, caller: &Pubkey, new_admin: Pubkey) -> (r: Result<
        (),
        ControllerError,
    >)
        requires
            old(self).wf(),
        ensures
            final(self).wf(),
            caller@ == old(self).admin@ <==> r is Ok,
            r is Err ==> r == Err::<(), ControllerError>(ControllerError::UnauthorizedAdmin)
                && *final(self) == *old(self),
            r is Ok ==> *final(self) == (ControllerState { admin: new_admin, ..*old(self) }),
    {
        if !caller.same_as(&self.admin) {
            return Err(ControllerError::UnauthorizedAdmin);
        }
        self.admin = new_admin;
        Ok(())
    }

    /// Append a keeper to the allow-list; admin only, refused when it is full.
    pub fn add_keeper(&mut self, caller: &Pubkey, keeper: Pubkey) -> (r: Result<(), ControllerError>)
        requires
            old(self).wf(),
        ensures
            final(self).wf(),
            caller@ != old(self).admin@ ==> r == Err::<(), ControllerError>(
                ControllerError::UnauthorizedAdmin,
            ),
            caller@ == old(self).admin@ && old(self).keepers@.len() >= MAX_KEEPERS ==> r == Err::<
                (),
                ControllerError,
            >(ControllerError::MaxKeepersReached),
            caller@ == old(self).admin@ && old(self).keepers@.len() < MAX_KEEPERS ==> r is Ok,
            r is Err ==> *final(self) == *old(self),
            r is Ok ==> final(self).keepers@ == old(self).keepers@.push(keeper) && *final(self) == (
            ControllerState { keepers: final(self).keepers, ..*old(self) }),
    {
        if !caller.same_as(&self.admin) {
            return Err(ControllerError::UnauthorizedAdmin);
        }
        if self.keepers.len() >= MAX_KEEPERS {
            return Err(ControllerError::MaxKeepersReached);
        }
        self.keepers.push(keeper);
        Ok(())
    }

    /// Remove the first occurrence of a keeper, keeping the order of the
    /// others; admin only, refused when it is not listed.
    pub fn remove_keeper(&mut self, caller: &Pubkey, keeper: &Pubkey) -> (r: Result<
        (),
        ControllerError,
    >)
        requires
            old(self).wf(),
        ensures
            final(self).wf(),
            caller@ != old(self).admin@ ==> r == Err::<(), ControllerError>(
                ControllerError::UnauthorizedAdmin,
            ),
            caller@ == old(self).admin@ && !old(self).is_keeper_spec(keeper@) ==> r == Err::<
                (),
                ControllerError,
            >(ControllerError::KeeperNotFound),
            caller@ == old(self).admin@ && old(self).is_keeper_spec(keeper@) ==> r is Ok,
            r is Err ==> *final(self) == *old(self),
            r is Ok ==> exists|i: int|
                0 <= i < old(self).keepers@.len() && old(self).keepers@[i]@ == keeper@ && (forall|
                    j: int,
                | 0 <= j < i ==> #[trigger] old(self).keepers@[j]@ != keeper@)
                    && final(self).keepers@ == old(self).keepers@.remove(i),
            r is Ok ==> *final(self) == (ControllerState {
                keepers: final(self).keepers,
                ..*old(self)
            }),
    {
        if !caller.same_as(&self.admin) {
            return Err(ControllerError::UnauthorizedAdmin);
        }
        match find_key(&self.keepers, keeper) {
            None => Err(ControllerError::KeeperNotFound),
            Some(idx) => {
                self.keepers.remove(idx);
                Ok(())
            },
        }
    }

    /// Append a swap venue to the allow-list; admin only, refused when it is full.
    pub fn add_dex(&mut self, caller: &Pubkey, dex_program: Pubkey) -> (r: Result<(), ControllerError>)
        requires
            old(self).wf(),
        ensures
            final(self).wf(),
            caller@ != old(self).admin@ ==> r == Err::<(), ControllerError>(
                ControllerError::UnauthorizedAdmin,
            ),
            caller@ == old(self).admin@ && old(self).allowed_dex_programs@.len() >= MAX_DEX_PROGRAMS
                ==> r == Err::<(), ControllerError>(ControllerError::MaxDexProgramsReached),
            caller@ == old(self).admin@ && old(self).allowed_dex_programs@.len() < MAX_DEX_PROGRAMS
                ==> r is Ok,
            r is Err ==> *final(self) == *old(self),
            r is Ok ==> final(self).allowed_dex_programs@ == old(self).allowed_dex_programs@.push(
                dex_program,
            ) && *final(self) == (ControllerState {
                allowed_dex_programs: final(self).allowed_dex_programs,
                ..*old(self)
            }),
    {
        if !caller.same_as(&self.admin) {
            return Err(ControllerError::UnauthorizedAdmin);
        }
        if self.allowed_dex_programs.len() >= MAX_DEX_PROGRAMS {
            return Err(ControllerError::MaxDexProgramsReached);
        }
        self.allowed_dex_programs.push(dex_program);
        Ok(())
    }

    /// The day a timestamp falls in, counted in whole days since the epoch.
    pub open spec fn day_of(unix_timestamp: i64) -> u64 {
        (unix_timestamp as u64) / SECONDS_PER_DAY
    }

    /// Trades counted today at `unix_timestamp`: the counter restarts on a new day.
    pub open spec fn trades_on(&self, unix_timestamp: i64) -> u16 {
        if Self::day_of(unix_timestamp) != self.current_day {
            0
        } else {
            self.trades_today
        }
    }

    /// The first check a swap fails, if any, in the order: pause, keeper,
    /// trade size, daily limit, venue, treasury balance.
    pub open spec fn swap_error(
        &self,
        caller: Seq<u8>,
        dex_program: Seq<u8>,
        amount_in: u64,
        unix_timestamp: i64,
    ) -> Option<ControllerError> {
        if self.paused {
            Some(ControllerError::Paused)
        } else if !self.is_keeper_spec(caller) {
            Some(ControllerError::UnauthorizedKeeper)
        } else if amount_in > self.max_trade_lamports {
            Some(ControllerError::TradeSizeExceeded)
        } else if self.trades_on(unix_timestamp) >= self.max_trades_per_day {
            Some(ControllerError::DailyLimitExceeded)
        } else if !self.is_allowed_dex_spec(dex_program) {
            Some(ControllerError::DexNotAllowed)
        } else if self.treasury_balance < amount_in {
            Some(ControllerError::InsufficientBalance)
        } else {
            None
        }
    }

    /// Admit a keeper's swap of `amount_in` through an allowed venue: checks
    /// the trade size, the daily trade count (restarted on a new day), the
    /// venue and the treasury balance, and counts the trade. The swap itself
    /// runs at the venue, with `min_amount_out` as its floor.
    pub fn execute_swap(
        &mut self,
        caller: &Pubkey,
        dex_program: &Pubkey,
        amount_in: u64,
        min_amount_out: u64,
        unix_timestamp: i64,
    ) -> (r: Result<(), ControllerError>)
        requires
            old(self).wf(),
        ensures
            final(self).wf(),
            match old(self).swap_error(caller@, dex_program@, amount_in, unix_timestamp) {
                Some(e) => r == Err::<(), ControllerError>(e),
                None => r is Ok,
            },
            r is Err ==> *final(self) == *old(self),
            r is Ok ==> *final(self) == (ControllerState {
                current_day: Self::day_of(unix_timestamp),
                trades_today: (old(self).trades_on(unix_timestamp) + 1) as u16,
                ..*old(self)
            }),
    {
        if self.paused {
            return Err(ControllerError::Paused);
        }
        if !self.is_keeper(caller) {
            return Err(ControllerError::UnauthorizedKeeper);
        }
        if amount_in > self.max_trade_lamports {
            return Err(ControllerError::TradeSizeExceeded);
        }
        let day = (unix_timestamp as u64) / SECONDS_PER_DAY;
        let trades = if day != self.current_day {
            0
        } else {
            self.trades_today
        };
        if trades >= self.max_trades_per_day {
            return Err(ControllerError::DailyLimitExceeded);
        }
        if !self.is_allowed_dex(dex_program) {
            return Err(ControllerError::DexNotAllowed);
        }
        if self.treasury_balance < amount_in {
            return Err(ControllerError::InsufficientBalance);
        }
        self.current_day = day;
        self.trades_today = trades + 1;
        Ok(())
    }

    /// The running total routed to one category.
    pub open spec fn routed_to(&self, action: RouteAction) -> u64 {
        match action {
            RouteAction::Rewards => self.total_routed_rewards,
            RouteAction::Buyback => self.total_routed_buyback,
            RouteAction::Burn => self.total_routed_burn,
            RouteAction::AutoLp => self.total_routed_auto_lp,
        }
    }

    /// The state with one category's running total set to `value`.
    pub open spec fn with_routed(self, action: RouteAction, value: u64) -> ControllerState {
        match action {
            RouteAction::Rewards => ControllerState { total_routed_rewards: value, ..self },
            RouteAction::Buyback => ControllerState { total_routed_buyback: value, ..self },
            RouteAction::Burn => ControllerState { total_routed_burn: value, ..self },
            RouteAction::AutoLp => ControllerState { total_routed_auto_lp: value, ..self },
        }
    }

    /// The first check a routing fails, if any, in the order: pause, keeper,
    /// zero amount, treasury balance, overflow of the category's total.
    pub open spec fn route_error(&self, caller: Seq<u8>, action: RouteAction, amount: u64) -> Option<
        ControllerError,
    > {
        if self.paused {
            Some(ControllerError::Paused)
        } else if !self.is_keeper_spec(caller) {
            Some(ControllerError::UnauthorizedKeeper)
        } else if amount == 0 {
            Some(ControllerError::ZeroAmount)
        } else if self.treasury_balance < amount {
            Some(ControllerError::InsufficientBalance)
        } else if self.routed_to(action) + amount > u64::MAX {
            Some(ControllerError::MathOverflow)
        } else {
            None
        }
    }

    /// A keeper moves `amount` out of the treasury to one category, whose
    /// running total grows by that amount.
    pub fn route_funds(&mut self, caller: &Pubkey, action: RouteAction, amount: u64) -> (r: Result<
        (),
        ControllerError,
    >)
        requires
            old(self).wf(),
        ensures
            final(self).wf(),
            match old(self).route_error(caller@, action, amount) {
                Some(e) => r == Err::<(), ControllerError>(e),
                None => r is Ok,
            },
            r is Err ==> *final(self) == *old(self),
            r is Ok ==> *final(self) == (ControllerState {
                treasury_balance: (old(self).treasury_balance - amount) as u64,
                ..*old(self)
            }).with_routed(action, (old(self).routed_to(action) + amount) as u64),
    {
        if self.paused {
            return Err(ControllerError::Paused);
        }
        if !self.is_keeper(caller) {
            return Err(ControllerError::UnauthorizedKeeper);
        }
        if amount == 0 {
            return Err(ControllerError::ZeroAmount);
        }
        if self.treasury_balance < amount {
            return Err(ControllerError::InsufficientBalance);
        }
        let current = match action {
            RouteAction::Rewards => self.total_routed_rewards,
            RouteAction::Buyback => self.total_routed_buyback,
            RouteAction::Burn => self.total_routed_burn,
            RouteAction::AutoLp => self.total_routed_auto_lp,
        };
        let total = match current.checked_add(amount) {
            Some(v) => v,
            None => return Err(ControllerError::MathOverflow),
        };
        self.treasury_balance = self.treasury_balance - amount;
        match action {
            RouteAction::Rewards => self.total_routed_rewards = total,
            RouteAction::Buyback => self.total_routed_buyback = total,
            RouteAction::Burn => self.total_routed_burn = total,
            RouteAction::AutoLp => self.total_routed_auto_lp = total,
        }
        Ok(())
    }

    /// Add `amount` to the treasury; anyone may fund it.
    pub fn fund_treasury(&mut self, amount: u64) -> (r: Result<(), ControllerError>)
        requires
            old(self).wf(),
        ensures
            final(self).wf(),
            amount == 0 ==> r == Err::<(), ControllerError>(ControllerError::ZeroAmount),
            amount != 0 && old(self).treasury_balance + amount > u64::MAX ==> r == Err::<
                (),
                ControllerError,
            >(ControllerError::MathOverflow),
            amount != 0 && old(self).treasury_balance + amount <= u64::MAX ==> r is Ok,
            r is Err ==> *final(self) == *old(self),
            r is Ok ==> *final(self) == (ControllerState {
                treasury_balance: (old(self).treasury_balance + amount) as u64,
                ..*old(self)
            }),
    {
        if amount == 0 {
            return Err(ControllerError::ZeroAmount);
        }
        match self.treasury_balance.checked_add(amount) {
            Some(v) => {
                self.treasury_balance = v;
                Ok(())
            },
            None => Err(ControllerError::MathOverflow),
        }
    }

    /// Take `amount` out of the treasury; admin only.
    pub fn withdraw_treasury(&mut self, caller: &Pubkey, amount: u64) -> (r: Result<
        (),
        ControllerError,
    >)
        requires
            old(self).wf(),
        ensures
            final(self).wf(),
            caller@ != old(self).admin@ ==> r == Err::<(), ControllerError>(
                ControllerError::UnauthorizedAdmin,
            ),
            caller@ == old(self).admin@ && amount == 0 ==> r == Err::<(), ControllerError>(
                ControllerError::ZeroAmount,
            ),
            caller@ == old(self).admin@ && amount != 0 && old(self).treasury_balance < amount ==> r
                == Err::<(), ControllerError>(ControllerError::InsufficientBalance),
            caller@ == old(self).admin@ && amount != 0 && old(self).treasury_balance >= amount ==> r is Ok,
            r is Err ==> *final(self) == *old(self),
            r is Ok ==> *final(self) == (ControllerState {
                treasury_balance: (old(self).treasury_balance - amount) as u64,
                ..*old(self)
            }),
    {
        if !caller.same_as(&self.admin) {
            return Err(ControllerError::UnauthorizedAdmin);
        }
        if amount == 0 {
            return Err(ControllerError::ZeroAmount);
        }
        if self.treasury_balance < amount {
            return Err(ControllerError::InsufficientBalance);
        }
        self.treasury_balance = self.treasury_balance - amount;
        Ok(())
    }
}

} // verus!
