//! The desktop bot's settings and how the settings tab changes them.

use crate::double::Double;
use vstd::prelude::*;
use vstd::string::*;

verus! {

/// Bit pattern of `0.02`.
pub const DEFAULT_BUY_AMOUNT_BITS: u64 = 0x3f94_7ae1_47ae_147b;

/// Bit pattern of `0.5`.
pub const DEFAULT_SOL_CAP_BITS: u64 = 0x3fe0_0000_0000_0000;

/// Bit pattern of `50.0`.
pub const DEFAULT_TAKE_PROFIT_BITS: u64 = 0x4049_0000_0000_0000;

/// Bit pattern of `20.0`.
pub const DEFAULT_STOP_LOSS_BITS: u64 = 0x4034_0000_0000_0000;

/// Bit pattern of `10.0`.
pub const DEFAULT_DEV_HOLDER_BITS: u64 = 0x4024_0000_0000_0000;

/// All user-tunable knobs of the bot.
#[derive(Debug)]
pub struct Config {
    /// HTTPS RPC endpoint.
    pub rpc_http_url: String,
    /// WebSocket RPC endpoint.
    pub rpc_ws_url: String,
    /// With this on the bot detects tokens and logs what it would do, but never
    /// sends a transaction.
    pub dry_run: bool,
    /// SOL spent per buy.
    pub buy_amount_sol: Double,
    /// No new position is opened once the SOL spent would exceed this cap.
    pub max_total_sol_cap: Double,
    /// Largest acceptable slippage, in basis points.
    pub slippage_bps: u64,
    /// Sell when the unrealized gain reaches this percentage.
    pub take_profit_pct: Double,
    /// Sell when the unrealized loss reaches this percentage.
    pub stop_loss_pct: Double,
    /// Skip the buy if the creator holds more than this percentage of the
    /// supply.
    pub max_dev_holder_pct: Double,
    pub max_hold_enabled: bool,
    pub max_hold_seconds: u64,
    pub priority_fee_microlamports_per_cu: u64,
    pub priority_fee_compute_unit_limit: u32,
    /// File that holds the base58 private key, where the key does not come from
    /// the environment.
    pub wallet_key_path: Option<String>,
}

/// What the settings hold.
pub struct ConfigView {
    pub rpc_http_url: Seq<char>,
    pub rpc_ws_url: Seq<char>,
    pub dry_run: bool,
    pub buy_amount_sol: Double,
    pub max_total_sol_cap: Double,
    pub slippage_bps: u64,
    pub take_profit_pct: Double,
    pub stop_loss_pct: Double,
    pub max_dev_holder_pct: Double,
    pub max_hold_enabled: bool,
    pub max_hold_seconds: u64,
    pub priority_fee_microlamports_per_cu: u64,
    pub priority_fee_compute_unit_limit: u32,
    pub wallet_key_path: Option<Seq<char>>,
}

impl View for Config {
    type V = ConfigView;

    open spec fn view(&self) -> ConfigView {
        ConfigView {
            rpc_http_url: self.rpc_http_url@,
            rpc_ws_url: self.rpc_ws_url@,
            dry_run: self.dry_run,
            buy_amount_sol: self.buy_amount_sol,
            max_total_sol_cap: self.max_total_sol_cap,
            slippage_bps: self.slippage_bps,
            take_profit_pct: self.take_profit_pct,
            stop_loss_pct: self.stop_loss_pct,
            max_dev_holder_pct: self.max_dev_holder_pct,
            max_hold_enabled: self.max_hold_enabled,
            max_hold_seconds: self.max_hold_seconds,
            priority_fee_microlamports_per_cu: self.priority_fee_microlamports_per_cu,
            priority_fee_compute_unit_limit: self.priority_fee_compute_unit_limit,
            wallet_key_path: match self.wallet_key_path {
                Some(p) => Some(p@),
                None => None,
            },
        }
    }
}

/// The settings of a first start.
pub open spec fn default_config() -> ConfigView {
    ConfigView {
        rpc_http_url: "https://api.mainnet-beta.solana.com"@,
        rpc_ws_url: "wss://api.mainnet-beta.solana.com"@,
        dry_run: true,
        buy_amount_sol: Double { bits: DEFAULT_BUY_AMOUNT_BITS },
        max_total_sol_cap: Double { bits: DEFAULT_SOL_CAP_BITS },
        slippage_bps: 500,
        take_profit_pct: Double { bits: DEFAULT_TAKE_PROFIT_BITS },
        stop_loss_pct: Double { bits: DEFAULT_STOP_LOSS_BITS },
        max_dev_holder_pct: Double { bits: DEFAULT_DEV_HOLDER_BITS },
        max_hold_enabled: true,
        max_hold_seconds: 300,
        priority_fee_microlamports_per_cu: 200_000,
        priority_fee_compute_unit_limit: 200_000,
        wallet_key_path: None,
    }
}

impl Default for Config {
    fn default() -> (r: Config)
        ensures
            r@ == default_config(),
    {
        Config {
            rpc_http_url: "https://api.mainnet-beta.solana.com".to_owned(),
            rpc_ws_url: "wss://api.mainnet-beta.solana.com".to_owned(),
            dry_run: true,
            buy_amount_sol: Double { bits: DEFAULT_BUY_AMOUNT_BITS },
            max_total_sol_cap: Double { bits: DEFAULT_SOL_CAP_BITS },
            slippage_bps: 500,
            take_profit_pct: Double { bits: DEFAULT_TAKE_PROFIT_BITS },
            stop_loss_pct: Double { bits: DEFAULT_STOP_LOSS_BITS },
            max_dev_holder_pct: Double { bits: DEFAULT_DEV_HOLDER_BITS },
            max_hold_enabled: true,
            max_hold_seconds: 300,
            priority_fee_microlamports_per_cu: 200_000,
            priority_fee_compute_unit_limit: 200_000,
            wallet_key_path: None,
        }
    }
}

/// The priority fee that a transaction offers.
#[derive(Clone, Copy, Debug, PartialEq, Eq, Structural)]
pub struct PriorityFee {
    pub unit_limit: Option<u32>,
    pub unit_price: Option<u64>,
}

impl Config {
    /// A copy of the settings.
    pub fn copy(&self) -> (r: Config)
        ensures
            r@ == self@,
    {
        Config {
            rpc_http_url: self.rpc_http_url.clone(),
            rpc_ws_url: self.rpc_ws_url.clone(),
            dry_run: self.dry_run,
            buy_amount_sol: self.buy_amount_sol,
            max_total_sol_cap: self.max_total_sol_cap,
            slippage_bps: self.slippage_bps,
            take_profit_pct: self.take_profit_pct,
            stop_loss_pct: self.stop_loss_pct,
            max_dev_holder_pct: self.max_dev_holder_pct,
            max_hold_enabled: self.max_hold_enabled,
            max_hold_seconds: self.max_hold_seconds,
            priority_fee_microlamports_per_cu: self.priority_fee_microlamports_per_cu,
            priority_fee_compute_unit_limit: self.priority_fee_compute_unit_limit,
            wallet_key_path: match &self.wallet_key_path {
                Some(p) => Some(p.clone()),
                None => None,
            },
        }
    }

    /// The priority fee that every transaction offers.
    pub fn priority_fee_from(&self) -> (fee: PriorityFee)
        ensures
            fee == (PriorityFee {
                unit_limit: Some(self.priority_fee_compute_unit_limit),
                unit_price: Some(self.priority_fee_microlamports_per_cu),
            }),
    {
        PriorityFee {
            unit_limit: Some(self.priority_fee_compute_unit_limit),
            unit_price: Some(self.priority_fee_microlamports_per_cu),
        }
    }

    /// The priority fee of a transaction that uses its whole compute limit, in
    /// microlamports.
    pub fn priority_fee_microlamports(&self) -> (microlamports: u64)
        requires
            self.priority_fee_compute_unit_limit * self.priority_fee_microlamports_per_cu <= u64::MAX,
        ensures
            microlamports == self.priority_fee_compute_unit_limit * self.priority_fee_microlamports_per_cu,
    {
        self.priority_fee_compute_unit_limit as u64 * self.priority_fee_microlamports_per_cu
    }
}

/// The settings tab's editable copy of the settings that are not numbers.
#[derive(Debug)]
pub struct SettingsDraft {
    pub rpc_http_url: String,
    pub rpc_ws_url: String,
    pub dry_run: bool,
    pub max_hold_enabled: bool,
}

/// The numbers of the settings tab as they were read, where they could be. The
/// slippage is in basis points and the hold time in whole seconds.
#[derive(Clone, Copy, Debug)]
pub struct DraftNumbers {
    pub buy_amount_sol: Option<Double>,
    pub max_total_sol_cap: Option<Double>,
    pub slippage_bps: Option<u64>,
    pub take_profit_pct: Option<Double>,
    pub stop_loss_pct: Option<Double>,
    pub max_dev_holder_pct: Option<Double>,
    pub max_hold_seconds: Option<u64>,
}

/// The number of the settings tab that could not be read.
#[derive(Clone, Copy, Debug, PartialEq, Eq, Structural)]
pub enum DraftError {
    BuyAmount,
    MaxCap,
    Slippage,
    TakeProfit,
    StopLoss,
    DevHolder,
    MaxHoldSeconds,
}

/// The first number of the tab, from top to bottom, that could not be read.
pub open spec fn draft_fault(n: DraftNumbers) -> Option<DraftError> {
    if n.buy_amount_sol is None {
        Some(DraftError::BuyAmount)
    } else if n.max_total_sol_cap is None {
        Some(DraftError::MaxCap)
    } else if n.slippage_bps is None {
        Some(DraftError::Slippage)
    } else if n.take_profit_pct is None {
        Some(DraftError::TakeProfit)
    } else if n.stop_loss_pct is None {
        Some(DraftError::StopLoss)
    } else if n.max_dev_holder_pct is None {
        Some(DraftError::DevHolder)
    } else if n.max_hold_seconds is None {
        Some(DraftError::MaxHoldSeconds)
    } else {
        None
    }
}

/// The settings with the draft taken over. The profit target is moved up to 0,
/// the loss limit into 0 to 100; what the tab does not show stays.
pub open spec fn draft_applied(c: ConfigView, draft: SettingsDraft, n: DraftNumbers) -> ConfigView {
    ConfigView {
        rpc_http_url: draft.rpc_http_url@,
        rpc_ws_url: draft.rpc_ws_url@,
        dry_run: draft.dry_run,
        buy_amount_sol: n.buy_amount_sol->0,
        max_total_sol_cap: n.max_total_sol_cap->0,
        slippage_bps: n.slippage_bps->0,
        take_profit_pct: n.take_profit_pct->0.floored(Double::spec_zero()),
        stop_loss_pct: n.stop_loss_pct->0.clamped(Double::spec_zero(), Double::spec_hundred()),
        max_dev_holder_pct: n.max_dev_holder_pct->0,
        max_hold_enabled: draft.max_hold_enabled,
        max_hold_seconds: n.max_hold_seconds->0,
        ..c
    }
}

impl DraftError {
    pub open spec fn text(self) -> Seq<char> {
        match self {
            DraftError::BuyAmount => "Invalid buy amount"@,
            DraftError::MaxCap => "Invalid max cap"@,
            DraftError::Slippage => "Invalid slippage"@,
            DraftError::TakeProfit => "Invalid take profit"@,
            DraftError::StopLoss => "Invalid stop loss"@,
            DraftError::DevHolder => "Invalid dev holder %"@,
            DraftError::MaxHoldSeconds => "Invalid max hold seconds"@,
        }
    }

    /// What the settings tab says about the fault.
    pub fn message(&self) -> (r: &'static str)
        ensures
            r@ == self.text(),
    {
        match self {
            DraftError::BuyAmount => "Invalid buy amount",
            DraftError::MaxCap => "Invalid max cap",
            DraftError::Slippage => "Invalid slippage",
            DraftError::TakeProfit => "Invalid take profit",
            DraftError::StopLoss => "Invalid stop loss",
            DraftError::DevHolder => "Invalid dev holder %",
            DraftError::MaxHoldSeconds => "Invalid max hold seconds",
        }
    }
}

impl SettingsDraft {
    /// Whether the draft shows the settings.
    pub open spec fn shows(self, c: ConfigView) -> bool {
        &&& self.rpc_http_url@ == c.rpc_http_url
        &&& self.rpc_ws_url@ == c.rpc_ws_url
        &&& self.dry_run == c.dry_run
        &&& self.max_hold_enabled == c.max_hold_enabled
    }

    /// A draft of the current settings.
    pub fn from_config(cfg: &Config) -> (r: SettingsDraft)
        ensures
            r.shows(cfg@),
            r.rpc_http_url@ == cfg.rpc_http_url@,
            r.rpc_ws_url@ == cfg.rpc_ws_url@,
            r.dry_run == cfg.dry_run,
            r.max_hold_enabled == cfg.max_hold_enabled,
    {
        SettingsDraft {
            rpc_http_url: cfg.rpc_http_url.clone(),
            rpc_ws_url: cfg.rpc_ws_url.clone(),
            dry_run: cfg.dry_run,
            max_hold_enabled: cfg.max_hold_enabled,
        }
    }
}

/// Takes the draft over into the settings, unless one of its numbers could not
/// be read.
pub fn save_settings(cfg: &mut Config, draft: &SettingsDraft, numbers: &DraftNumbers) -> (r: Result<(), DraftError>)
    ensures
        match draft_fault(*numbers) {
            Some(e) => r == Err::<(), DraftError>(e) && final(cfg)@ == old(cfg)@,
            None => r is Ok && final(cfg)@ == draft_applied(old(cfg)@, *draft, *numbers),
        },
{
    let Some(buy_amount_sol) = numbers.buy_amount_sol else {
        return Err(DraftError::BuyAmount);
    };
    let Some(max_total_sol_cap) = numbers.max_total_sol_cap else {
        return Err(DraftError::MaxCap);
    };
    let Some(slippage_bps) = numbers.slippage_bps else {
        return Err(DraftError::Slippage);
    };
    let Some(take_profit_pct) = numbers.take_profit_pct else {
        return Err(DraftError::TakeProfit);
    };
    let Some(stop_loss_pct) = numbers.stop_loss_pct else {
        return Err(DraftError::StopLoss);
    };
    let Some(max_dev_holder_pct) = numbers.max_dev_holder_pct else {
        return Err(DraftError::DevHolder);
    };
    let Some(max_hold_seconds) = numbers.max_hold_seconds else {
        return Err(DraftError::MaxHoldSeconds);
    };
    cfg.rpc_http_url = draft.rpc_http_url.clone();
    cfg.rpc_ws_url = draft.rpc_ws_url.clone();
    cfg.dry_run = draft.dry_run;
    cfg.buy_amount_sol = buy_amount_sol;
    cfg.max_total_sol_cap = max_total_sol_cap;
    cfg.slippage_bps = slippage_bps;
    cfg.take_profit_pct = take_profit_pct.floor_at(&Double::zero());
    cfg.stop_loss_pct = stop_loss_pct.clamp(&Double::zero(), &Double::hundred());
    cfg.max_dev_holder_pct = max_dev_holder_pct;
    cfg.max_hold_enabled = draft.max_hold_enabled;
    cfg.max_hold_seconds = max_hold_seconds;
    Ok(())
}

/// After a save the profit target is at least 0 and the loss limit lies between 0
/// and 100, or they are no numbers at all; a profit target that was not negative
/// is kept, and the fee and wallet settings are those from before.
pub proof fn saved_percentages_lie_within_bounds(c: ConfigView, draft: SettingsDraft, n: DraftNumbers)
    requires
        draft_fault(n) is None,
    ensures
        ({
            let s = draft_applied(c, draft, n);
            let zero = Double::spec_zero();
            let hundred = Double::spec_hundred();
            &&& s.take_profit_pct.is_nan() || zero.at_most(s.take_profit_pct)
            &&& zero.at_most(n.take_profit_pct->0) ==> s.take_profit_pct == n.take_profit_pct->0
            &&& s.stop_loss_pct.is_nan() || (zero.at_most(s.stop_loss_pct) && s.stop_loss_pct.at_most(hundred))
            &&& s.wallet_key_path == c.wallet_key_path
            &&& s.priority_fee_compute_unit_limit == c.priority_fee_compute_unit_limit
            &&& s.priority_fee_microlamports_per_cu == c.priority_fee_microlamports_per_cu
        }),
{
}

/// Saving the same draft a second time changes nothing.
pub proof fn saving_twice_changes_nothing(c: ConfigView, draft: SettingsDraft, n: DraftNumbers)
    ensures
        draft_applied(draft_applied(c, draft, n), draft, n) == draft_applied(c, draft, n),
{
}

/// A draft is taken over exactly where all its numbers could be read. Otherwise the
/// fault is the number that could not be, and everything above it could.
pub proof fn the_first_unread_number_is_the_fault(n: DraftNumbers)
    ensures
        draft_fault(n) is None <==> n.buy_amount_sol is Some && n.max_total_sol_cap is Some && n.slippage_bps is Some
            && n.take_profit_pct is Some && n.stop_loss_pct is Some && n.max_dev_holder_pct is Some
            && n.max_hold_seconds is Some,
        match draft_fault(n) {
            None => true,
            Some(DraftError::BuyAmount) => n.buy_amount_sol is None,
            Some(DraftError::MaxCap) => n.max_total_sol_cap is None && n.buy_amount_sol is Some,
            Some(DraftError::Slippage) => n.slippage_bps is None && n.buy_amount_sol is Some && n.max_total_sol_cap
                is Some,
            Some(DraftError::TakeProfit) => n.take_profit_pct is None && n.buy_amount_sol is Some
                && n.max_total_sol_cap is Some && n.slippage_bps is Some,
            Some(DraftError::StopLoss) => n.stop_loss_pct is None && n.buy_amount_sol is Some && n.max_total_sol_cap
                is Some && n.slippage_bps is Some && n.take_profit_pct is Some,
            Some(DraftError::DevHolder) => n.max_dev_holder_pct is None && n.buy_amount_sol is Some
                && n.max_total_sol_cap is Some && n.slippage_bps is Some && n.take_profit_pct is Some
                && n.stop_loss_pct is Some,
            Some(DraftError::MaxHoldSeconds) => n.max_hold_seconds is None && n.buy_amount_sol is Some
                && n.max_total_sol_cap is Some && n.slippage_bps is Some && n.take_profit_pct is Some
                && n.stop_loss_pct is Some && n.max_dev_holder_pct is Some,
        },
{
}

/// A draft that is taken over is taken over whole: the settings are what the tab
/// shows, the two percentages moved to the bound that they exceed, and what the tab
/// does not show is as it was.
pub proof fn a_draft_is_taken_over_whole(c: ConfigView, draft: SettingsDraft, n: DraftNumbers)
    requires
        draft_fault(n) is None,
    ensures
        ({
            let s = draft_applied(c, draft, n);
            let zero = Double::spec_zero();
            let hundred = Double::spec_hundred();
            let target = n.take_profit_pct->0;
            let limit = n.stop_loss_pct->0;
            &&& s.rpc_http_url == draft.rpc_http_url@ && s.rpc_ws_url == draft.rpc_ws_url@
            &&& s.dry_run == draft.dry_run && s.max_hold_enabled == draft.max_hold_enabled
            &&& Some(s.buy_amount_sol) == n.buy_amount_sol && Some(s.max_total_sol_cap) == n.max_total_sol_cap
            &&& Some(s.slippage_bps) == n.slippage_bps && Some(s.max_dev_holder_pct) == n.max_dev_holder_pct
            &&& Some(s.max_hold_seconds) == n.max_hold_seconds
            &&& s.take_profit_pct == if target.below(zero) {
                zero
            } else {
                target
            }
            &&& s.stop_loss_pct == if limit.below(zero) {
                zero
            } else if hundred.below(limit) {
                hundred
            } else {
                limit
            }
            &&& s.wallet_key_path == c.wallet_key_path
            &&& s.priority_fee_compute_unit_limit == c.priority_fee_compute_unit_limit
            &&& s.priority_fee_microlamports_per_cu == c.priority_fee_microlamports_per_cu
        }),
{
}

/// Each fault names its own field.
pub proof fn faults_name_their_field()
    ensures
        DraftError::BuyAmount.text() == "Invalid buy amount"@,
        DraftError::MaxCap.text() == "Invalid max cap"@,
        DraftError::Slippage.text() == "Invalid slippage"@,
        DraftError::TakeProfit.text() == "Invalid take profit"@,
        DraftError::StopLoss.text() == "Invalid stop loss"@,
        DraftError::DevHolder.text() == "Invalid dev holder %"@,
        DraftError::MaxHoldSeconds.text() == "Invalid max hold seconds"@,
{
}

/// A draft that shows the settings, with the numbers that they hold, changes nothing
/// when it is taken over, as long as the two percentages lie within their bounds.
pub proof fn an_untouched_draft_changes_nothing(c: ConfigView, draft: SettingsDraft, n: DraftNumbers)
    requires
        draft.shows(c),
        n.buy_amount_sol == Some(c.buy_amount_sol),
        n.max_total_sol_cap == Some(c.max_total_sol_cap),
        n.slippage_bps == Some(c.slippage_bps),
        n.take_profit_pct == Some(c.take_profit_pct),
        n.stop_loss_pct == Some(c.stop_loss_pct),
        n.max_dev_holder_pct == Some(c.max_dev_holder_pct),
        n.max_hold_seconds == Some(c.max_hold_seconds),
        !c.take_profit_pct.below(Double::spec_zero()),
        !c.stop_loss_pct.below(Double::spec_zero()),
        !Double::spec_hundred().below(c.stop_loss_pct),
    ensures
        draft_fault(n) is None,
        draft_applied(c, draft, n) == c,
{
}

/// Nothing of the settings is left out of sight.
pub proof fn all_settings_are_in_sight(c: Config)
    ensures
        c@.rpc_http_url == c.rpc_http_url@ && c@.rpc_ws_url == c.rpc_ws_url@ && c@.dry_run == c.dry_run,
        c@.buy_amount_sol == c.buy_amount_sol && c@.max_total_sol_cap == c.max_total_sol_cap,
        c@.slippage_bps == c.slippage_bps && c@.take_profit_pct == c.take_profit_pct,
        c@.stop_loss_pct == c.stop_loss_pct && c@.max_dev_holder_pct == c.max_dev_holder_pct,
        c@.max_hold_enabled == c.max_hold_enabled && c@.max_hold_seconds == c.max_hold_seconds,
        c@.priority_fee_microlamports_per_cu == c.priority_fee_microlamports_per_cu,
        c@.priority_fee_compute_unit_limit == c.priority_fee_compute_unit_limit,
        c@.wallet_key_path is Some <==> c.wallet_key_path is Some,
        c.wallet_key_path is Some ==> c@.wallet_key_path->0 == c.wallet_key_path->0@,
{
}

} // verus!
