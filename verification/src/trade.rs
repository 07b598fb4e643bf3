//! Buying, selling and watching positions in the desktop bot.

use crate::config::{Config, ConfigView, PriorityFee};
use crate::curve::{
    estimate_tokens_out, fee_is_its_share, payment_fits, platform_fee, platform_fee_lamports, purchase_keeps_curve,
    tokens_bought,
};
use crate::double::Double;
use crate::monitor::Detection;
use crate::state::{position_views, trade_views, AppState, Position, PositionView, StateView, TradeRecord, TradeView};
use crate::text::same;
use crate::wallet::{address_of, address_text, parse_address};
use vstd::prelude::*;
use vstd::string::*;

verus! {

/// The network's fee for one signature, in lamports.
pub const BASE_NETWORK_FEE_LAMPORTS: u64 = 5_000;

/// The reserves of a bonding curve, and the platform's fee.
#[derive(Clone, Copy, Debug, PartialEq, Eq, Structural)]
pub struct CurveState {
    pub virtual_sol_reserves: u64,
    pub virtual_token_reserves: u64,
    pub fee_basis_points: u64,
}

impl CurveState {
    /// What a curve that cannot be read counts as.
    pub fn unread() -> (r: CurveState)
        ensures
            r == (CurveState { virtual_sol_reserves: 0, virtual_token_reserves: 0, fee_basis_points: 0 }),
    {
        CurveState { virtual_sol_reserves: 0, virtual_token_reserves: 0, fee_basis_points: 0 }
    }
}

/// What a trade costs besides its price.
#[derive(Clone, Copy, Debug, PartialEq, Eq, Structural)]
pub struct TradeFees {
    pub network_lamports: u64,
    pub priority_microlamports: u64,
    pub platform_lamports: u128,
}

/// Whether these are the costs of a trade besides its price.
pub open spec fn are_fees(r: TradeFees, c: ConfigView, lamports: nat, fee_basis_points: nat) -> bool {
    &&& r.network_lamports == BASE_NETWORK_FEE_LAMPORTS
    &&& r.priority_microlamports == c.priority_fee_compute_unit_limit * c.priority_fee_microlamports_per_cu
    &&& r.platform_lamports == platform_fee(lamports, fee_basis_points)
}

/// What a trade of `lamports` costs besides its price: the network's fee, the
/// priority fee, and the platform's fee.
pub fn trade_fees(cfg: &Config, lamports: u128, fee_basis_points: u64) -> (r: TradeFees)
    requires
        cfg.priority_fee_compute_unit_limit * cfg.priority_fee_microlamports_per_cu <= u64::MAX,
        lamports * fee_basis_points <= u128::MAX,
    ensures
        are_fees(r, cfg@, lamports as nat, fee_basis_points as nat),
{
    TradeFees {
        network_lamports: BASE_NETWORK_FEE_LAMPORTS,
        priority_microlamports: cfg.priority_fee_microlamports(),
        platform_lamports: platform_fee_lamports(lamports, fee_basis_points),
    }
}

/// A token that is bought.
#[derive(Debug)]
pub struct Purchase {
    pub mint: String,
    pub symbol: String,
    pub name: String,
    /// What the creator held of the token, in percent.
    pub dev_pct: Double,
    /// What is paid, in SOL.
    pub sol_amount: Double,
}

/// Whether a purchase is that of a detected token for the amount of the settings.
pub open spec fn is_purchase_of(p: Purchase, c: ConfigView, d: Detection, dev_pct: Double) -> bool {
    &&& p.mint@ == d.mint@
    &&& p.symbol@ == d.symbol@
    &&& p.name@ == d.name@
    &&& p.dev_pct == dev_pct
    &&& p.sol_amount == c.buy_amount_sol
}

/// The purchase of a detected token for the amount of the settings.
pub fn purchase_of(cfg: &Config, d: &Detection, dev_pct: Double) -> (p: Purchase)
    ensures
        is_purchase_of(p, cfg@, *d, dev_pct),
{
    Purchase {
        mint: d.mint.clone(),
        symbol: d.symbol.clone(),
        name: d.name.clone(),
        dev_pct,
        sol_amount: cfg.buy_amount_sol,
    }
}

/// What a purchase came to.
#[derive(Clone, Copy, Debug)]
pub struct Fill {
    pub token_amount: Double,
    /// SOL per token.
    pub price: Double,
    /// SOL.
    pub fees: Double,
    /// SOL spent so far with this purchase.
    pub total_spent: Double,
    pub opened_at: i64,
    pub recorded_at: i64,
}

/// What a buyer does next.
#[derive(Clone, Copy, Debug)]
pub enum BuyStep {
    /// Nothing more.
    Stop,
    /// Records a purchase of this many base units of the mint, for this much SOL,
    /// that was not made.
    Simulate { mint: [u8; 32], sol_amount: Double, base_units: u128 },
    /// Sends one purchase of the mint for this much SOL. `track_volume` asks the
    /// platform to count it.
    Submit {
        mint: [u8; 32],
        sol_amount: Double,
        track_volume: bool,
        slippage_bps: u64,
        priority_fee: PriorityFee,
    },
}

/// What a buyer says before it can do anything.
pub open spec fn buy_notice(
    dry_run: bool,
    symbol: Seq<char>,
    lamports: u128,
    curve: Result<CurveState, Seq<char>>,
) -> Option<Seq<char>> {
    match curve {
        Err(e) => Some("could not read bonding curve for "@ + symbol + ": "@ + e),
        Ok(c) => if dry_run && curve_fill(c, lamports) == 0 {
            Some("[DRY RUN] "@ + symbol + ": price estimate came back zero, skipping"@)
        } else {
            None
        },
    }
}

/// Base units that a payment buys.
pub open spec fn curve_fill(c: CurveState, lamports: u128) -> nat {
    tokens_bought(
        c.virtual_sol_reserves as nat,
        c.virtual_token_reserves as nat,
        c.fee_basis_points as nat,
        lamports as nat,
    )
}

/// The priority fee that the settings say.
pub open spec fn offered_fee(c: ConfigView) -> PriorityFee {
    PriorityFee {
        unit_limit: Some(c.priority_fee_compute_unit_limit),
        unit_price: Some(c.priority_fee_microlamports_per_cu),
    }
}

/// What a buyer does once the curve was read or could not be read.
pub open spec fn buy_step(
    c: ConfigView,
    mint: [u8; 32],
    lamports: u128,
    curve: Result<CurveState, Seq<char>>,
) -> BuyStep {
    match curve {
        Err(_) => BuyStep::Stop,
        Ok(state) => if !c.dry_run {
            BuyStep::Submit {
                mint,
                sol_amount: c.buy_amount_sol,
                track_volume: true,
                slippage_bps: c.slippage_bps,
                priority_fee: offered_fee(c),
            }
        } else if curve_fill(state, lamports) == 0 {
            BuyStep::Stop
        } else {
            BuyStep::Simulate {
                mint,
                sol_amount: c.buy_amount_sol,
                base_units: curve_fill(state, lamports) as u128,
            }
        },
    }
}

/// The state with a line logged, where there is one.
pub open spec fn logged_if(s: StateView, stamp: Seq<char>, msg: Option<Seq<char>>) -> StateView {
    match msg {
        Some(m) => s.logged(stamp, m),
        None => s,
    }
}

/// The state once a purchase was started or given up.
pub open spec fn buy_started(
    s: StateView,
    stamp: Seq<char>,
    dry_run: bool,
    symbol: Seq<char>,
    lamports: u128,
    curve: Result<CurveState, Seq<char>>,
) -> StateView {
    logged_if(s, stamp, buy_notice(dry_run, symbol, lamports, curve))
}

/// A curve, or the error of one that cannot be read.
pub open spec fn curve_view(curve: Result<CurveState, &str>) -> Result<CurveState, Seq<char>> {
    match curve {
        Ok(c) => Ok(c),
        Err(e) => Err(e@),
    }
}

/// Starts a purchase once the curve was read or could not be read. `lamports`
/// is the amount to pay.
pub fn execute_buy(
    state: &mut AppState,
    stamp: &str,
    cfg: &Config,
    mint: [u8; 32],
    symbol: &str,
    lamports: u128,
    curve: Result<CurveState, &str>,
) -> (r: BuyStep)
    requires
        cfg.dry_run && curve is Ok ==> curve->Ok_0.virtual_sol_reserves == 0 || curve->Ok_0.virtual_token_reserves == 0
            || payment_fits(curve->Ok_0.virtual_sol_reserves, curve->Ok_0.fee_basis_points, lamports),
    ensures
        final(state)@ == buy_started(old(state)@, stamp@, cfg.dry_run, symbol@, lamports, curve_view(curve)),
        r == buy_step(cfg@, mint, lamports, curve_view(curve)),
{
    match curve {
        Err(e) => {
            let mut msg = "could not read bonding curve for ".to_owned();
            msg.append(symbol);
            msg.append(": ");
            msg.append(e);
            state.push_log_at(stamp, msg.as_str());
            BuyStep::Stop
        },
        Ok(c) => {
            if !cfg.dry_run {
                return BuyStep::Submit {
                    mint,
                    sol_amount: cfg.buy_amount_sol,
                    track_volume: true,
                    slippage_bps: cfg.slippage_bps,
                    priority_fee: cfg.priority_fee_from(),
                };
            }
            let base_units: u128 = estimate_tokens_out(
                c.virtual_sol_reserves,
                c.virtual_token_reserves,
                c.fee_basis_points,
                lamports,
            );
            if base_units == 0 {
                let mut msg = "[DRY RUN] ".to_owned();
                msg.append(symbol);
                msg.append(": price estimate came back zero, skipping");
                state.push_log_at(stamp, msg.as_str());
                return BuyStep::Stop;
            }
            BuyStep::Simulate { mint, sol_amount: cfg.buy_amount_sol, base_units }
        },
    }
}

/// The position that a purchase opens.
pub open spec fn opened(p: Purchase, f: Fill) -> PositionView {
    PositionView {
        mint: p.mint@,
        symbol: p.symbol@,
        name: p.name@,
        entry_price_sol: f.price,
        token_amount: f.token_amount,
        sol_spent: p.sol_amount,
        opened_at: f.opened_at,
        current_price_sol: f.price,
        dev_holder_pct_at_entry: p.dev_pct,
    }
}

/// The record of a purchase; one without a signature was not made.
pub open spec fn buy_record(p: Purchase, f: Fill, signature: Option<Seq<char>>) -> TradeView {
    TradeView {
        mint: p.mint@,
        symbol: p.symbol@,
        side: "buy"@,
        sol_amount: p.sol_amount,
        token_amount: f.token_amount,
        price_sol: f.price,
        fees_sol: if signature is Some {
            f.fees
        } else {
            Double::spec_zero()
        },
        tx_signature: signature,
        timestamp: f.recorded_at,
        reason: if signature is Some {
            "manual"@
        } else {
            "dry_run"@
        },
        dry_run: signature is None,
    }
}

/// The state with a purchase in it.
pub open spec fn purchased(s: StateView, p: Purchase, f: Fill, signature: Option<Seq<char>>) -> StateView {
    StateView {
        total_spent_sol: f.total_spent,
        positions: s.positions.push(opened(p, f)),
        history: s.history.push(buy_record(p, f, signature)),
        ..s
    }
}

fn add_purchase(state: &mut AppState, p: &Purchase, f: &Fill, signature: Option<&str>)
    ensures
        final(state)@ == purchased(
            old(state)@,
            *p,
            *f,
            match signature {
                Some(s) => Some(s@),
                None => None,
            },
        ),
{
    let ghost positions = state.positions@;
    let ghost history = state.history@;
    state.total_spent_sol = f.total_spent;
    let position = Position {
        mint: p.mint.clone(),
        symbol: p.symbol.clone(),
        name: p.name.clone(),
        entry_price_sol: f.price,
        token_amount: f.token_amount,
        sol_spent: p.sol_amount,
        opened_at: f.opened_at,
        current_price_sol: f.price,
        dev_holder_pct_at_entry: p.dev_pct,
    };
    let live = signature.is_some();
    let record = TradeRecord {
        mint: p.mint.clone(),
        symbol: p.symbol.clone(),
        side: "buy".to_owned(),
        sol_amount: p.sol_amount,
        token_amount: f.token_amount,
        price_sol: f.price,
        fees_sol: if live {
            f.fees
        } else {
            Double::zero()
        },
        tx_signature: match signature {
            Some(s) => Some(s.to_owned()),
            None => None,
        },
        timestamp: f.recorded_at,
        reason: if live {
            "manual".to_owned()
        } else {
            "dry_run".to_owned()
        },
        dry_run: !live,
    };
    state.positions.push(position);
    state.history.push(record);
    proof {
        assert(position_views(positions.push(position)) =~= position_views(positions).push(position@));
        assert(trade_views(history.push(record)) =~= trade_views(history).push(record@));
        assert(position@ == opened(*p, *f));
    }
}

/// Texts of a purchase that was not made: SOL with four decimals, tokens with
/// none, the price with ten, the creator's share in percent with one.
pub struct DryBuyTexts<'a> {
    pub sol: &'a str,
    pub tokens: &'a str,
    pub price: &'a str,
    pub dev_pct: &'a str,
}

pub open spec fn dry_buy_line(symbol: Seq<char>, t: DryBuyTexts) -> Seq<char> {
    "[DRY RUN] would buy "@ + symbol + ": "@ + t.sol@ + " SOL -> ~"@ + t.tokens@ + " tokens (~"@ + t.price@
        + " SOL/token, dev held "@ + t.dev_pct@ + "%)"@
}

/// The state with a purchase that was not made.
pub open spec fn bought_dry(s: StateView, stamp: Seq<char>, p: Purchase, f: Fill, texts: DryBuyTexts) -> StateView {
    purchased(s, p, f, None).logged(stamp, dry_buy_line(p.symbol@, texts))
}

/// Records a purchase that was not made.
pub fn finish_dry_buy(state: &mut AppState, stamp: &str, p: &Purchase, f: &Fill, texts: &DryBuyTexts)
    ensures
        final(state)@ == bought_dry(old(state)@, stamp@, *p, *f, *texts),
{
    let mut msg = "[DRY RUN] would buy ".to_owned();
    msg.append(p.symbol.as_str());
    msg.append(": ");
    msg.append(texts.sol);
    msg.append(" SOL -> ~");
    msg.append(texts.tokens);
    msg.append(" tokens (~");
    msg.append(texts.price);
    msg.append(" SOL/token, dev held ");
    msg.append(texts.dev_pct);
    msg.append("%)");
    add_purchase(state, p, f, None);
    state.push_log_at(stamp, msg.as_str());
}

/// Tokens that a purchase brought.
pub open spec fn tokens_brought(reported: Option<Double>) -> Double {
    match reported {
        Some(d) => d,
        None => Double::spec_zero(),
    }
}

/// Tokens that a purchase brought: what the token account reports, or zero
/// where it reports nothing or cannot be read.
pub fn live_token_amount(reported: Option<Double>) -> (r: Double)
    ensures
        r == tokens_brought(reported),
{
    match reported {
        Some(d) => d,
        None => Double::zero(),
    }
}

/// What was paid for one token.
pub open spec fn price_paid(token_amount: Double, quotient: Double) -> Double {
    if Double::spec_zero().below(token_amount) {
        quotient
    } else {
        Double::spec_zero()
    }
}

/// The price of a purchase. `quotient` is the SOL paid over the tokens; without
/// tokens there is no such quotient and the price is zero.
pub fn live_price(token_amount: Double, quotient: Double) -> (r: Double)
    ensures
        r == price_paid(token_amount, quotient),
{
    if Double::zero().lt(&token_amount) {
        quotient
    } else {
        Double::zero()
    }
}

/// What the answer to a purchase does to the state: the purchase with its
/// signature, or a line in the log. `sol` is the amount with four decimals.
pub open spec fn buy_answered(
    s: StateView,
    stamp: Seq<char>,
    p: Purchase,
    f: Fill,
    sol: Seq<char>,
    answer: Result<Seq<char>, Seq<char>>,
) -> StateView {
    match answer {
        Ok(signature) => purchased(s, p, f, Some(signature)).logged(
            stamp,
            "BOUGHT "@ + p.symbol@ + ": "@ + sol + " SOL - tx "@ + signature,
        ),
        Err(e) => s.logged(stamp, "BUY FAILED for "@ + p.symbol@ + ": "@ + e),
    }
}

pub open spec fn answer_view(answer: Result<&str, &str>) -> Result<Seq<char>, Seq<char>> {
    match answer {
        Ok(s) => Ok(s@),
        Err(e) => Err(e@),
    }
}

/// Records the answer to a purchase that was sent.
pub fn finish_live_buy(
    state: &mut AppState,
    stamp: &str,
    p: &Purchase,
    f: &Fill,
    sol: &str,
    answer: Result<&str, &str>,
)
    ensures
        final(state)@ == buy_answered(old(state)@, stamp@, *p, *f, sol@, answer_view(answer)),
{
    match answer {
        Ok(signature) => {
            let mut msg = "BOUGHT ".to_owned();
            msg.append(p.symbol.as_str());
            msg.append(": ");
            msg.append(sol);
            msg.append(" SOL - tx ");
            msg.append(signature);
            add_purchase(state, p, f, Some(signature));
            state.push_log_at(stamp, msg.as_str());
        },
        Err(e) => {
            let mut msg = "BUY FAILED for ".to_owned();
            msg.append(p.symbol.as_str());
            msg.append(": ");
            msg.append(e);
            state.push_log_at(stamp, msg.as_str());
        },
    }
}

/// Where the first position with a mint stands, or the number of positions
/// where there is none.
pub open spec fn position_index(positions: Seq<PositionView>, mint: Seq<char>) -> nat
    decreases positions.len(),
{
    if positions.len() == 0 || positions[0].mint == mint {
        0
    } else {
        1 + position_index(positions.drop_first(), mint)
    }
}

proof fn lemma_position_index(positions: Seq<PositionView>, mint: Seq<char>, i: int)
    requires
        0 <= i <= positions.len(),
        forall|k: int| 0 <= k < i ==> (#[trigger] positions[k]).mint != mint,
        i < positions.len() ==> positions[i].mint == mint,
    ensures
        position_index(positions, mint) == i,
    decreases i,
{
    if i > 0 {
        assert forall|k: int| 0 <= k < i - 1 implies (#[trigger] positions.drop_first()[k]).mint != mint by {
            assert(positions.drop_first()[k] == positions[k + 1]);
        }
        lemma_position_index(positions.drop_first(), mint, i - 1);
        assert(positions[0].mint != mint);
    }
}

fn find_position(positions: &Vec<Position>, mint: &str) -> (i: usize)
    ensures
        i == position_index(position_views(positions@), mint@),
        i <= positions@.len(),
        i < positions@.len() ==> positions@[i as int].mint@ == mint@,
{
    let n: usize = positions.len();
    let mut i: usize = 0;
    let ghost all = position_views(positions@);
    while i < n && !same(positions[i].mint.as_str(), mint)
        invariant
            n == positions@.len(),
            all == position_views(positions@),
            i <= n,
            forall|k: int| 0 <= k < i ==> (#[trigger] all[k]).mint != mint@,
        decreases n - i,
    {
        i += 1;
    }
    proof {
        if i < n {
            assert(all[i as int].mint == mint@);
        }
        lemma_position_index(all, mint@, i as int);
    }
    i
}

/// The state without the first position that has a mint.
pub open spec fn position_taken(s: StateView, mint: Seq<char>) -> StateView {
    let i = position_index(s.positions, mint);
    if i < s.positions.len() {
        StateView { positions: s.positions.remove(i as int), ..s }
    } else {
        s
    }
}

/// Takes the first position with a mint out of the state, so that nothing else
/// sells it.
pub fn take_position(state: &mut AppState, mint: &str) -> (r: Option<Position>)
    ensures
        final(state)@ == position_taken(old(state)@, mint@),
        match r {
            Some(p) => position_index(old(state)@.positions, mint@) < old(state)@.positions.len() && p@
                == old(state)@.positions[position_index(old(state)@.positions, mint@) as int] && p@.mint == mint@,
            None => position_index(old(state)@.positions, mint@) == old(state)@.positions.len(),
        },
{
    let i: usize = find_position(&state.positions, mint);
    if i < state.positions.len() {
        let ghost before = state.positions@;
        let p = state.positions.remove(i);
        proof {
            assert(position_views(before.remove(i as int)) =~= position_views(before).remove(i as int));
        }
        Some(p)
    } else {
        None
    }
}

/// What a sale came to.
#[derive(Clone, Copy, Debug)]
pub struct Sale {
    /// SOL per token.
    pub price: Double,
    /// SOL.
    pub sol_out: Double,
    /// SOL.
    pub fees: Double,
    /// The day's profit or loss with this sale, in SOL.
    pub daily_total: Double,
    pub recorded_at: i64,
}

/// The record of a sale; one without a signature was not made.
pub open spec fn sell_record(
    p: PositionView,
    reason: Seq<char>,
    sale: Sale,
    signature: Option<Seq<char>>,
) -> TradeView {
    TradeView {
        mint: p.mint,
        symbol: p.symbol,
        side: "sell"@,
        sol_amount: sale.sol_out,
        token_amount: p.token_amount,
        price_sol: sale.price,
        fees_sol: if signature is Some {
            sale.fees
        } else {
            Double::spec_zero()
        },
        tx_signature: signature,
        timestamp: sale.recorded_at,
        reason,
        dry_run: signature is None,
    }
}

/// The state with a sale in it.
pub open spec fn sold(
    s: StateView,
    p: PositionView,
    reason: Seq<char>,
    sale: Sale,
    signature: Option<Seq<char>>,
) -> StateView {
    StateView {
        daily_realized_pnl_sol: sale.daily_total,
        history: s.history.push(sell_record(p, reason, sale, signature)),
        ..s
    }
}

fn add_sale(state: &mut AppState, p: &Position, reason: &str, sale: &Sale, signature: Option<&str>)
    ensures
        final(state)@ == sold(
            old(state)@,
            p@,
            reason@,
            *sale,
            match signature {
                Some(s) => Some(s@),
                None => None,
            },
        ),
{
    let ghost history = state.history@;
    let live = signature.is_some();
    state.daily_realized_pnl_sol = sale.daily_total;
    let record = TradeRecord {
        mint: p.mint.clone(),
        symbol: p.symbol.clone(),
        side: "sell".to_owned(),
        sol_amount: sale.sol_out,
        token_amount: p.token_amount,
        price_sol: sale.price,
        fees_sol: if live {
            sale.fees
        } else {
            Double::zero()
        },
        tx_signature: match signature {
            Some(s) => Some(s.to_owned()),
            None => None,
        },
        timestamp: sale.recorded_at,
        reason: reason.to_owned(),
        dry_run: !live,
    };
    state.history.push(record);
    proof {
        assert(trade_views(history.push(record)) =~= trade_views(history).push(record@));
    }
}

/// What a seller does next.
#[derive(Debug)]
pub enum SellStep {
    /// Nothing: there is no such position.
    Stop,
    /// Records a sale of the position that is not made.
    Simulate(Position),
    /// Sends the sale of the position.
    Submit { position: Position, slippage_bps: u64, priority_fee: PriorityFee },
}

/// What a seller does next.
pub enum SellStepView {
    Stop,
    Simulate(PositionView),
    Submit { position: PositionView, slippage_bps: u64, priority_fee: PriorityFee },
}

impl View for SellStep {
    type V = SellStepView;

    open spec fn view(&self) -> SellStepView {
        match *self {
            SellStep::Stop => SellStepView::Stop,
            SellStep::Simulate(p) => SellStepView::Simulate(p@),
            SellStep::Submit { position, slippage_bps, priority_fee } => SellStepView::Submit {
                position: position@,
                slippage_bps,
                priority_fee,
            },
        }
    }
}

/// What a seller does about the first position that has a mint.
pub open spec fn sell_step(s: StateView, c: ConfigView, mint: Seq<char>) -> SellStepView {
    let i = position_index(s.positions, mint);
    if i >= s.positions.len() {
        SellStepView::Stop
    } else if c.dry_run {
        SellStepView::Simulate(s.positions[i as int])
    } else {
        SellStepView::Submit {
            position: s.positions[i as int],
            slippage_bps: c.slippage_bps,
            priority_fee: offered_fee(c),
        }
    }
}

/// Starts the sale of the position with a mint: takes it out of the state.
pub fn execute_sell(state: &mut AppState, cfg: &Config, mint: &str) -> (r: SellStep)
    ensures
        final(state)@ == position_taken(old(state)@, mint@),
        r@ == sell_step(old(state)@, cfg@, mint@),
{
    match take_position(state, mint) {
        None => SellStep::Stop,
        Some(position) => if cfg.dry_run {
            SellStep::Simulate(position)
        } else {
            SellStep::Submit {
                position,
                slippage_bps: cfg.slippage_bps,
                priority_fee: cfg.priority_fee_from(),
            }
        },
    }
}

pub open spec fn dry_sell_line(symbol: Seq<char>, reason: Seq<char>, sol_out: Seq<char>, pnl: Seq<char>) -> Seq<char> {
    "[DRY RUN] would sell "@ + symbol + " ("@ + reason + "): ~"@ + sol_out + " SOL back, P&L ~"@ + pnl + " SOL"@
}

/// The state with a sale that was not made.
pub open spec fn sold_dry(
    s: StateView,
    stamp: Seq<char>,
    p: PositionView,
    reason: Seq<char>,
    sale: Sale,
    sol_out: Seq<char>,
    pnl: Seq<char>,
) -> StateView {
    sold(s, p, reason, sale, None).logged(stamp, dry_sell_line(p.symbol, reason, sol_out, pnl))
}

/// Records a sale that was not made. `sol_out` and `pnl` are the proceeds and
/// the profit in SOL with four decimals.
pub fn finish_dry_sell(
    state: &mut AppState,
    stamp: &str,
    p: &Position,
    reason: &str,
    sale: &Sale,
    sol_out: &str,
    pnl: &str,
)
    ensures
        final(state)@ == sold_dry(old(state)@, stamp@, p@, reason@, *sale, sol_out@, pnl@),
{
    let mut msg = "[DRY RUN] would sell ".to_owned();
    msg.append(p.symbol.as_str());
    msg.append(" (");
    msg.append(reason);
    msg.append("): ~");
    msg.append(sol_out);
    msg.append(" SOL back, P&L ~");
    msg.append(pnl);
    msg.append(" SOL");
    add_sale(state, p, reason, sale, None);
    state.push_log_at(stamp, msg.as_str());
}

/// What the answer to a sale does to the state: the sale with its signature, or
/// a line in the log and the position back, since nothing was sold.
pub open spec fn sell_answered(
    s: StateView,
    stamp: Seq<char>,
    p: PositionView,
    reason: Seq<char>,
    sale: Sale,
    answer: Result<Seq<char>, Seq<char>>,
) -> StateView {
    match answer {
        Ok(signature) => sold(s, p, reason, sale, Some(signature)).logged(
            stamp,
            "SOLD "@ + p.symbol + " ("@ + reason + "): tx "@ + signature,
        ),
        Err(e) => {
            let t = s.logged(stamp, "SELL FAILED for "@ + p.symbol + ": "@ + e);
            StateView { positions: t.positions.push(p), ..t }
        },
    }
}

/// Records the answer to a sale that was sent.
pub fn finish_live_sell(
    state: &mut AppState,
    stamp: &str,
    p: Position,
    reason: &str,
    sale: &Sale,
    answer: Result<&str, &str>,
)
    ensures
        final(state)@ == sell_answered(old(state)@, stamp@, p@, reason@, *sale, answer_view(answer)),
{
    match answer {
        Ok(signature) => {
            let mut msg = "SOLD ".to_owned();
            msg.append(p.symbol.as_str());
            msg.append(" (");
            msg.append(reason);
            msg.append("): tx ");
            msg.append(signature);
            add_sale(state, &p, reason, sale, Some(signature));
            state.push_log_at(stamp, msg.as_str());
        },
        Err(e) => {
            let mut msg = "SELL FAILED for ".to_owned();
            msg.append(p.symbol.as_str());
            msg.append(": ");
            msg.append(e);
            state.push_log_at(stamp, msg.as_str());
            let ghost positions = state.positions@;
            state.positions.push(p);
            proof {
                assert(position_views(positions.push(p)) =~= position_views(positions).push(p@));
            }
        },
    }
}

/// Positions whose mint is an address, with the address.
pub open spec fn addressed(positions: Seq<PositionView>) -> Seq<(Seq<char>, Seq<u8>)>
    decreases positions.len(),
{
    if positions.len() == 0 {
        Seq::empty()
    } else {
        let before = addressed(positions.drop_last());
        match address_of(positions.last().mint) {
            Some(a) => before.push((positions.last().mint, a)),
            None => before,
        }
    }
}

pub open spec fn mint_views(v: Seq<(String, [u8; 32])>) -> Seq<(Seq<char>, Seq<u8>)> {
    v.map_values(|m: (String, [u8; 32])| (m.0@, m.1@))
}

/// The mints of the open positions with their addresses, in order. A mint that
/// is no address is left out.
pub fn open_mints(state: &AppState) -> (r: Vec<(String, [u8; 32])>)
    ensures
        mint_views(r@) == addressed(state@.positions),
{
    let mut out: Vec<(String, [u8; 32])> = Vec::new();
    let n: usize = state.positions.len();
    let mut i: usize = 0;
    let ghost all = position_views(state.positions@);
    proof {
        assert(all.take(0) =~= Seq::empty());
        assert(mint_views(out@) =~= Seq::empty());
    }
    while i < n
        invariant
            n == state.positions@.len(),
            all == position_views(state.positions@),
            i <= n,
            mint_views(out@) == addressed(all.take(i as int)),
        decreases n - i,
    {
        proof {
            assert(all.take(i + 1).drop_last() =~= all.take(i as int));
            assert(all.take(i + 1).last() == state.positions@[i as int]@);
        }
        if let Some(a) = parse_address(state.positions[i].mint.as_str()) {
            let ghost before = out@;
            let m = state.positions[i].mint.clone();
            out.push((m, a));
            proof {
                assert(mint_views(out@) =~= mint_views(before).push((m@, a@)));
            }
        }
        i += 1;
    }
    proof {
        assert(all.take(n as int) =~= all);
    }
    out
}

/// The state with a new price for the first position that has a mint.
pub open spec fn repriced(s: StateView, mint: Seq<char>, price: Double) -> StateView {
    let i = position_index(s.positions, mint);
    if i < s.positions.len() {
        StateView {
            positions: s.positions.update(
                i as int,
                PositionView { current_price_sol: price, ..s.positions[i as int] },
            ),
            ..s
        }
    } else {
        s
    }
}

/// Puts a new price on the first position that has a mint.
pub fn refresh_price(state: &mut AppState, mint: &str, price: Double)
    ensures
        final(state)@ == repriced(old(state)@, mint@, price),
{
    let i: usize = find_position(&state.positions, mint);
    if i < state.positions.len() {
        let ghost before = state.positions@;
        let p = state.positions[i].copy();
        let q = Position { current_price_sol: price, ..p };
        state.positions.set(i, q);
        proof {
            assert(position_views(before.update(i as int, q)) =~= position_views(before).update(i as int, q@));
        }
    }
}

/// Seconds as a signed number, the largest half of the range as negative ones.
pub open spec fn signed_seconds(n: u64) -> int {
    if n <= i64::MAX {
        n as int
    } else {
        n - 0x1_0000_0000_0000_0000
    }
}

fn as_signed(n: u64) -> (r: i64)
    ensures
        r == signed_seconds(n),
{
    if n <= 0x7fff_ffff_ffff_ffff {
        n as i64
    } else {
        -1 - ((u64::MAX - n) as i64)
    }
}

/// Why a position is sold at a gain in percent and an age in seconds.
#[derive(Clone, Copy, Debug, PartialEq, Eq, Structural)]
pub enum ExitReason {
    TakeProfit,
    StopLoss,
    MaxHold,
}

impl ExitReason {
    pub open spec fn text(self) -> Seq<char> {
        match self {
            ExitReason::TakeProfit => "take_profit"@,
            ExitReason::StopLoss => "stop_loss"@,
            ExitReason::MaxHold => "max_hold"@,
        }
    }

    /// The reason as the trade record has it.
    pub fn name(&self) -> (r: &'static str)
        ensures
            r@ == self.text(),
    {
        match self {
            ExitReason::TakeProfit => "take_profit",
            ExitReason::StopLoss => "stop_loss",
            ExitReason::MaxHold => "max_hold",
        }
    }
}

/// Why a position is sold, if it is: the gain reached the profit target; else
/// the loss reached the limit; else the position was held too long.
pub open spec fn exit_due(c: ConfigView, pct: Double, age: int) -> Option<ExitReason> {
    if c.take_profit_pct.at_most(pct) {
        Some(ExitReason::TakeProfit)
    } else if pct.at_most(c.stop_loss_pct.negated()) {
        Some(ExitReason::StopLoss)
    } else if c.max_hold_enabled && age >= signed_seconds(c.max_hold_seconds) {
        Some(ExitReason::MaxHold)
    } else {
        None
    }
}

/// Why a position is sold, if it is.
pub fn exit_reason(cfg: &Config, pct: Double, age: i64) -> (r: Option<ExitReason>)
    ensures
        r == exit_due(cfg@, pct, age as int),
{
    if cfg.take_profit_pct.le(&pct) {
        Some(ExitReason::TakeProfit)
    } else if pct.le(&cfg.stop_loss_pct.neg()) {
        Some(ExitReason::StopLoss)
    } else if cfg.max_hold_enabled && age >= as_signed(cfg.max_hold_seconds) {
        Some(ExitReason::MaxHold)
    } else {
        None
    }
}

/// The gain of a position in percent. `change_pct` is the price change since
/// entry in percent of the entry price.
pub open spec fn gain(p: PositionView, change_pct: Double) -> Double {
    if p.entry_price_sol.at_most(Double::spec_zero()) {
        Double::spec_zero()
    } else {
        change_pct
    }
}

/// The positions that are sold, in order, each by its address and with the
/// reason. A position whose mint is no address is left out.
pub open spec fn due(c: ConfigView, positions: Seq<PositionView>, changes: Seq<Double>, now: int) -> Seq<
    (Seq<u8>, ExitReason),
>
    decreases positions.len(),
{
    if positions.len() == 0 {
        Seq::empty()
    } else {
        let before = due(c, positions.drop_last(), changes, now);
        let p = positions.last();
        match (exit_due(c, gain(p, changes[positions.len() - 1]), now - p.opened_at), address_of(p.mint)) {
            (Some(r), Some(a)) => before.push((a, r)),
            _ => before,
        }
    }
}

pub open spec fn due_views(v: Seq<([u8; 32], ExitReason)>) -> Seq<(Seq<u8>, ExitReason)> {
    v.map_values(|m: ([u8; 32], ExitReason)| (m.0@, m.1))
}

/// The positions that are sold at `now`. `changes` holds the price change since
/// entry of each position, in percent of its entry price.
pub fn run_position_manager(state: &AppState, cfg: &Config, changes: &Vec<Double>, now: i64) -> (r: Vec<
    ([u8; 32], ExitReason),
>)
    requires
        changes@.len() == state.positions@.len(),
        forall|i: int|
            0 <= i < state.positions@.len() ==> i64::MIN <= now - (#[trigger] state.positions@[i]).opened_at
                <= i64::MAX,
    ensures
        due_views(r@) == due(cfg@, state@.positions, changes@, now as int),
{
    let mut out: Vec<([u8; 32], ExitReason)> = Vec::new();
    let n: usize = state.positions.len();
    let mut i: usize = 0;
    let ghost all = position_views(state.positions@);
    proof {
        assert(all.take(0) =~= Seq::empty());
        assert(due_views(out@) =~= Seq::empty());
    }
    while i < n
        invariant
            n == state.positions@.len(),
            n == changes@.len(),
            forall|i: int|
                0 <= i < state.positions@.len() ==> i64::MIN <= now - (#[trigger] state.positions@[i]).opened_at
                    <= i64::MAX,
            all == position_views(state.positions@),
            i <= n,
            due_views(out@) == due(cfg@, all.take(i as int), changes@, now as int),
        decreases n - i,
    {
        let p = &state.positions[i];
        proof {
            assert(all.take(i + 1).drop_last() =~= all.take(i as int));
            assert(all.take(i + 1).last() == p@);
        }
        let pct = p.unrealized_pct(changes[i]);
        let age: i64 = p.age_at(now);
        if let Some(reason) = exit_reason(cfg, pct, age) {
            if let Some(a) = parse_address(p.mint.as_str()) {
                let ghost before = out@;
                out.push((a, reason));
                proof {
                    assert(due_views(out@) =~= due_views(before).push((a@, reason)));
                }
            }
        }
        i += 1;
    }
    proof {
        assert(all.take(n as int) =~= all);
    }
    out
}

/// In dry-run mode nothing is ever sent, and a trade that was not made is
/// recorded as such: without a signature and without fees.
pub proof fn dry_run_sends_nothing(
    c: ConfigView,
    key: [u8; 32],
    lamports: u128,
    curve: Result<CurveState, Seq<char>>,
    s: StateView,
    mint: Seq<char>,
    p: Purchase,
    f: Fill,
    q: PositionView,
    reason: Seq<char>,
    sale: Sale,
)
    requires
        c.dry_run,
    ensures
        !(buy_step(c, key, lamports, curve) is Submit),
        !(sell_step(s, c, mint) is Submit),
        buy_record(p, f, None).dry_run && buy_record(p, f, None).fees_sol == Double::spec_zero(),
        sell_record(q, reason, sale, None).dry_run && sell_record(q, reason, sale, None).fees_sol
            == Double::spec_zero(),
{
}

/// A curve that cannot be read, or a payment that buys nothing in a dry run,
/// leaves everything but the log as it was.
pub proof fn abandoned_purchase_changes_only_the_log(s: StateView, stamp: Seq<char>, msg: Option<Seq<char>>)
    ensures
        (StateView { log: s.log, ..logged_if(s, stamp, msg) }) == s,
{
}

/// A purchase is of the token that was detected, for the amount of the settings,
/// all the way: what the buyer is told to send or to simulate, the position that
/// is opened, and the trade that is recorded.
pub proof fn purchases_cost_what_the_settings_say(
    s: StateView,
    c: ConfigView,
    mint: [u8; 32],
    d: Detection,
    dev_pct: Double,
    lamports: u128,
    curve: Result<CurveState, Seq<char>>,
    p: Purchase,
    f: Fill,
    signature: Option<Seq<char>>,
)
    requires
        d.mint@ == address_text(mint@),
        is_purchase_of(p, c, d, dev_pct),
    ensures
        purchased(s, p, f, signature).positions.last().sol_spent == c.buy_amount_sol,
        purchased(s, p, f, signature).positions.last().mint == address_text(mint@),
        purchased(s, p, f, signature).history.last().sol_amount == c.buy_amount_sol,
        purchased(s, p, f, signature).history.last().mint == address_text(mint@),
        match buy_step(c, mint, lamports, curve) {
            BuyStep::Stop => true,
            BuyStep::Simulate { mint: m, sol_amount, .. } => m == mint && sol_amount == c.buy_amount_sol,
            BuyStep::Submit { mint: m, sol_amount, .. } => m == mint && sol_amount == c.buy_amount_sol,
        },
{
}

/// A trade adds one record to the history and keeps all the others.
pub proof fn every_trade_is_recorded_once(
    s: StateView,
    p: Purchase,
    f: Fill,
    q: PositionView,
    reason: Seq<char>,
    sale: Sale,
    signature: Option<Seq<char>>,
)
    ensures
        purchased(s, p, f, signature).history.len() == s.history.len() + 1,
        purchased(s, p, f, signature).history.drop_last() == s.history,
        sold(s, q, reason, sale, signature).history.len() == s.history.len() + 1,
        sold(s, q, reason, sale, signature).history.drop_last() == s.history,
{
    assert(s.history.push(buy_record(p, f, signature)).drop_last() =~= s.history);
    assert(s.history.push(sell_record(q, reason, sale, signature)).drop_last() =~= s.history);
}

/// The index of a mint is that of the first position that has it, or the number
/// of positions where none has.
pub proof fn index_names_the_first(positions: Seq<PositionView>, mint: Seq<char>)
    ensures
        position_index(positions, mint) <= positions.len(),
        position_index(positions, mint) < positions.len() ==> positions[position_index(positions, mint) as int].mint
            == mint,
        forall|k: int|
            0 <= k < position_index(positions, mint) ==> (#[trigger] positions[k]).mint != mint,
    decreases positions.len(),
{
    if positions.len() > 0 && positions[0].mint != mint {
        index_names_the_first(positions.drop_first(), mint);
        assert forall|k: int| 0 <= k < position_index(positions, mint) implies (#[trigger] positions[k]).mint
            != mint by {
            if k > 0 {
                assert(positions.drop_first()[k - 1] == positions[k]);
            }
        }
    }
}

/// Starting a sale takes one position out, with the mint asked for, and once it
/// is out no second sale of it can start unless another position has the mint.
pub proof fn a_position_is_taken_once(s: StateView, mint: Seq<char>)
    requires
        forall|i: int, j: int|
            0 <= i < j < s.positions.len() ==> !((#[trigger] s.positions[i]).mint == mint && (
            #[trigger] s.positions[j]).mint == mint),
    ensures
        position_index(s.positions, mint) < s.positions.len() ==> position_taken(s, mint).positions.len() + 1
            == s.positions.len(),
        position_index(position_taken(s, mint).positions, mint) == position_taken(s, mint).positions.len(),
{
    let i = position_index(s.positions, mint) as int;
    let after = position_taken(s, mint).positions;
    index_names_the_first(s.positions, mint);
    assert forall|k: int| 0 <= k < after.len() implies (#[trigger] after[k]).mint != mint by {
        if i < s.positions.len() {
            if k < i {
                assert(after[k] == s.positions[k]);
            } else {
                assert(after[k] == s.positions[k + 1]);
                assert(s.positions[i].mint == mint);
            }
        }
    }
    lemma_position_index(after, mint, after.len() as int);
}

/// A new price goes to the first position that has the mint, and touches nothing
/// but that one price.
pub proof fn repricing_touches_one_price(s: StateView, mint: Seq<char>, price: Double, k: int)
    requires
        0 <= k < s.positions.len(),
    ensures
        ({
            let after = repriced(s, mint, price);
            &&& after.positions.len() == s.positions.len()
            &&& s.positions[k].mint == mint && (forall|j: int| 0 <= j < k ==> (#[trigger] s.positions[j]).mint != mint)
                ==> after.positions[k].current_price_sol == price
            &&& s.positions[k].mint != mint ==> after.positions[k] == s.positions[k]
            &&& (exists|j: int| 0 <= j < k && (#[trigger] s.positions[j]).mint == mint) ==> after.positions[k]
                == s.positions[k]
            &&& (PositionView { current_price_sol: s.positions[k].current_price_sol, ..after.positions[k] })
                == s.positions[k]
            &&& (StateView { positions: s.positions, ..after }) == s
        }),
{
    index_names_the_first(s.positions, mint);
    if exists|j: int| 0 <= j < k && (#[trigger] s.positions[j]).mint == mint {
        let j = choose|j: int| 0 <= j < k && (#[trigger] s.positions[j]).mint == mint;
        assert(position_index(s.positions, mint) <= j);
    }
}

/// What a sale takes out is the first position with the mint: the others stay as
/// they are and in order, and nothing else changes. Without such a position
/// nothing changes at all.
pub proof fn a_sale_takes_the_first_position(s: StateView, mint: Seq<char>, i: int)
    requires
        0 <= i < s.positions.len(),
        s.positions[i].mint == mint,
        forall|k: int| 0 <= k < i ==> (#[trigger] s.positions[k]).mint != mint,
    ensures
        position_taken(s, mint).positions == s.positions.take(i) + s.positions.skip(i + 1),
        (StateView { positions: s.positions, ..position_taken(s, mint) }) == s,
{
    lemma_position_index(s.positions, mint, i);
    assert(s.positions.remove(i) =~= s.positions.take(i) + s.positions.skip(i + 1));
}

/// Nothing is sold of a token that is not held, in either mode.
pub proof fn nothing_held_nothing_sold(s: StateView, c: ConfigView, mint: Seq<char>)
    requires
        forall|k: int| 0 <= k < s.positions.len() ==> (#[trigger] s.positions[k]).mint != mint,
    ensures
        position_taken(s, mint) == s,
        sell_step(s, c, mint) is Stop,
{
    index_names_the_first(s.positions, mint);
}

/// What is held is sold, whatever it is worth and however long it was held: the
/// whole of the first position with the mint. It is sent with the settings'
/// slippage and priority fee, or only recorded where the settings say dry run.
pub proof fn what_is_held_is_sold(s: StateView, c: ConfigView, mint: Seq<char>, i: int)
    requires
        0 <= i < s.positions.len(),
        s.positions[i].mint == mint,
        forall|k: int| 0 <= k < i ==> (#[trigger] s.positions[k]).mint != mint,
    ensures
        match sell_step(s, c, mint) {
            SellStepView::Stop => false,
            SellStepView::Simulate(p) => c.dry_run && p == s.positions[i],
            SellStepView::Submit { position, slippage_bps, priority_fee } => !c.dry_run && position == s.positions[i]
                && slippage_bps == c.slippage_bps && priority_fee.unit_limit == Some(
                c.priority_fee_compute_unit_limit,
            ) && priority_fee.unit_price == Some(c.priority_fee_microlamports_per_cu),
        },
{
    lemma_position_index(s.positions, mint, i);
}

/// A purchase carries the token that was detected, what its creator held, and the
/// settings' amount; there is one such purchase for any of them.
pub proof fn a_purchase_is_of_the_detected_token(p: Purchase, c: ConfigView, d: Detection, dev_pct: Double)
    ensures
        is_purchase_of(p, c, d, dev_pct) <==> p.mint@ == d.mint@ && p.symbol@ == d.symbol@ && p.name@ == d.name@
            && p.dev_pct == dev_pct && p.sol_amount == c.buy_amount_sol,
{
}

/// The reason of an exit is stored under its own name, and a dry run logs what it
/// would have done and for whom.
pub proof fn exits_and_dry_runs_are_named(
    symbol: Seq<char>,
    t: DryBuyTexts,
    reason: Seq<char>,
    sol_out: Seq<char>,
    pnl: Seq<char>,
)
    ensures
        ExitReason::TakeProfit.text() == "take_profit"@,
        ExitReason::StopLoss.text() == "stop_loss"@,
        ExitReason::MaxHold.text() == "max_hold"@,
        dry_sell_line(symbol, reason, sol_out, pnl) == "[DRY RUN] would sell "@ + symbol + " ("@ + reason + "): ~"@
            + sol_out + " SOL back, P&L ~"@ + pnl + " SOL"@,
        dry_buy_line(symbol, t) == "[DRY RUN] would buy "@ + symbol + ": "@ + t.sol@ + " SOL -> ~"@ + t.tokens@
            + " tokens (~"@ + t.price@ + " SOL/token, dev held "@ + t.dev_pct@ + "%)"@,
{
}

/// A purchase stops where the curve cannot be read. Otherwise a live one is sent,
/// whatever the curve holds, with the settings' amount, slippage and priority
/// fee; a dry run records what the curve gives for the payment, and stops only
/// where that is nothing.
pub proof fn a_readable_curve_is_bought_on(
    c: ConfigView,
    mint: [u8; 32],
    lamports: u128,
    state: CurveState,
    e: Seq<char>,
)
    ensures
        buy_step(c, mint, lamports, Err(e)) is Stop,
        ({
            let units = tokens_bought(
                state.virtual_sol_reserves as nat,
                state.virtual_token_reserves as nat,
                state.fee_basis_points as nat,
                lamports as nat,
            );
            match buy_step(c, mint, lamports, Ok(state)) {
                BuyStep::Stop => c.dry_run && units == 0,
                BuyStep::Simulate { mint: m, sol_amount, base_units } => c.dry_run && units > 0 && base_units == units
                    && m == mint && sol_amount == c.buy_amount_sol,
                BuyStep::Submit { mint: m, sol_amount, track_volume, slippage_bps, priority_fee } => !c.dry_run && m
                    == mint && sol_amount == c.buy_amount_sol && track_volume && slippage_bps == c.slippage_bps
                    && priority_fee.unit_limit == Some(c.priority_fee_compute_unit_limit) && priority_fee.unit_price
                    == Some(c.priority_fee_microlamports_per_cu),
            }
        }),
{
    purchase_keeps_curve(
        state.virtual_sol_reserves as nat,
        state.virtual_token_reserves as nat,
        state.fee_basis_points as nat,
        lamports as nat,
    );
}

/// A buyer says something exactly where it stops: that the curve could not be
/// read, with the error, or that the estimate of a dry run came to nothing.
pub proof fn a_buyer_that_stops_says_why(
    c: ConfigView,
    mint: [u8; 32],
    symbol: Seq<char>,
    lamports: u128,
    curve: Result<CurveState, Seq<char>>,
)
    ensures
        buy_notice(c.dry_run, symbol, lamports, curve) is Some <==> buy_step(c, mint, lamports, curve) is Stop,
        match (curve, buy_notice(c.dry_run, symbol, lamports, curve)) {
            (Err(e), Some(line)) => line == "could not read bonding curve for "@ + symbol + ": "@ + e,
            (Ok(_), Some(line)) => c.dry_run && line == "[DRY RUN] "@ + symbol
                + ": price estimate came back zero, skipping"@,
            (_, None) => curve is Ok,
        },
{
}

/// A purchase opens one position behind those that were open, with the price and
/// amount that it was filled at and the settings' amount as its cost, and adds
/// one record with the same figures. Apart from the total spent nothing else
/// changes.
pub proof fn a_purchase_opens_one_position(s: StateView, p: Purchase, f: Fill, signature: Option<Seq<char>>)
    ensures
        ({
            let after = purchased(s, p, f, signature);
            let q = after.positions.last();
            let t = after.history.last();
            &&& after.positions.len() == s.positions.len() + 1
            &&& after.positions.drop_last() == s.positions
            &&& q.mint == p.mint@ && q.symbol == p.symbol@ && q.name == p.name@
            &&& q.entry_price_sol == f.price && q.current_price_sol == f.price
            &&& q.token_amount == f.token_amount && q.sol_spent == p.sol_amount
            &&& q.opened_at == f.opened_at && q.dev_holder_pct_at_entry == p.dev_pct
            &&& after.history.len() == s.history.len() + 1
            &&& after.history.drop_last() == s.history
            &&& t.mint == p.mint@ && t.symbol == p.symbol@ && t.side == "buy"@
            &&& t.sol_amount == p.sol_amount && t.token_amount == f.token_amount && t.price_sol == f.price
            &&& t.tx_signature == signature && t.timestamp == f.recorded_at
            &&& t.dry_run <==> signature is None
            &&& t.fees_sol == if signature is Some {
                f.fees
            } else {
                Double::spec_zero()
            }
            &&& t.reason == if signature is Some {
                "manual"@
            } else {
                "dry_run"@
            }
            &&& after.total_spent_sol == f.total_spent
            &&& (StateView {
                total_spent_sol: s.total_spent_sol,
                positions: s.positions,
                history: s.history,
                ..after
            }) == s
        }),
{
    assert(s.positions.push(opened(p, f)).drop_last() =~= s.positions);
    assert(s.history.push(buy_record(p, f, signature)).drop_last() =~= s.history);
}

/// A sale adds one record, of the whole position at the price that it fetched and
/// for the reason that was given. Apart from the day's result nothing else
/// changes.
pub proof fn a_sale_is_recorded_as_it_was(
    s: StateView,
    p: PositionView,
    reason: Seq<char>,
    sale: Sale,
    signature: Option<Seq<char>>,
)
    ensures
        ({
            let after = sold(s, p, reason, sale, signature);
            let t = after.history.last();
            &&& after.history.len() == s.history.len() + 1
            &&& after.history.drop_last() == s.history
            &&& t.mint == p.mint && t.symbol == p.symbol && t.side == "sell"@ && t.reason == reason
            &&& t.sol_amount == sale.sol_out && t.token_amount == p.token_amount && t.price_sol == sale.price
            &&& t.tx_signature == signature && t.timestamp == sale.recorded_at
            &&& t.dry_run <==> signature is None
            &&& t.fees_sol == if signature is Some {
                sale.fees
            } else {
                Double::spec_zero()
            }
            &&& after.daily_realized_pnl_sol == sale.daily_total
            &&& (StateView {
                daily_realized_pnl_sol: s.daily_realized_pnl_sol,
                history: s.history,
                ..after
            }) == s
        }),
{
    assert(s.history.push(sell_record(p, reason, sale, signature)).drop_last() =~= s.history);
}

/// The answer to a purchase decides: with a signature the purchase is in the
/// state, with an error everything but the log is as it was. Either way the log
/// has one more line, which ends in the signature or the error.
pub proof fn the_answer_decides_a_purchase(
    s: StateView,
    stamp: Seq<char>,
    p: Purchase,
    f: Fill,
    sol: Seq<char>,
    signature: Seq<char>,
    e: Seq<char>,
)
    ensures
        (StateView { log: s.log, ..buy_answered(s, stamp, p, f, sol, Err(e)) }) == s,
        (StateView { log: s.log, ..buy_answered(s, stamp, p, f, sol, Ok(signature)) }) == purchased(
            s,
            p,
            f,
            Some(signature),
        ),
        buy_answered(s, stamp, p, f, sol, Err(e)).log == s.logged(
            stamp,
            "BUY FAILED for "@ + p.symbol@ + ": "@ + e,
        ).log,
        buy_answered(s, stamp, p, f, sol, Ok(signature)).log == s.logged(
            stamp,
            "BOUGHT "@ + p.symbol@ + ": "@ + sol + " SOL - tx "@ + signature,
        ).log,
{
}

/// The answer to a sale decides: with a signature the sale is recorded and the
/// positions stay as they are, without the one that was sold; with an error the
/// position is put back at the end and nothing is recorded. Either way the log
/// has one more line, which ends in the signature or the error.
pub proof fn the_answer_decides_a_sale(
    s: StateView,
    stamp: Seq<char>,
    p: PositionView,
    reason: Seq<char>,
    sale: Sale,
    signature: Seq<char>,
    e: Seq<char>,
)
    ensures
        (StateView { log: s.log, ..sell_answered(s, stamp, p, reason, sale, Ok(signature)) }) == sold(
            s,
            p,
            reason,
            sale,
            Some(signature),
        ),
        sell_answered(s, stamp, p, reason, sale, Ok(signature)).positions == s.positions,
        sell_answered(s, stamp, p, reason, sale, Err(e)).positions == s.positions.push(p),
        (StateView { log: s.log, positions: s.positions, ..sell_answered(s, stamp, p, reason, sale, Err(e)) }) == s,
        sell_answered(s, stamp, p, reason, sale, Err(e)).log == s.logged(
            stamp,
            "SELL FAILED for "@ + p.symbol + ": "@ + e,
        ).log,
        sell_answered(s, stamp, p, reason, sale, Ok(signature)).log == s.logged(
            stamp,
            "SOLD "@ + p.symbol + " ("@ + reason + "): tx "@ + signature,
        ).log,
{
}

/// A dry run leaves the same behind as a trade that was made, without a signature, and
/// says in the log what would have been done. Starting a purchase leaves nothing behind
/// but what is said of one that was given up.
pub proof fn a_dry_run_is_recorded_like_a_trade(
    s: StateView,
    stamp: Seq<char>,
    p: Purchase,
    f: Fill,
    texts: DryBuyTexts,
    q: PositionView,
    reason: Seq<char>,
    sale: Sale,
    sol_out: Seq<char>,
    pnl: Seq<char>,
)
    ensures
        (StateView { log: s.log, ..bought_dry(s, stamp, p, f, texts) }) == purchased(s, p, f, None),
        bought_dry(s, stamp, p, f, texts).log == s.logged(stamp, dry_buy_line(p.symbol@, texts)).log,
        (StateView { log: s.log, ..sold_dry(s, stamp, q, reason, sale, sol_out, pnl) }) == sold(
            s,
            q,
            reason,
            sale,
            None,
        ),
        sold_dry(s, stamp, q, reason, sale, sol_out, pnl).log == s.logged(
            stamp,
            dry_sell_line(q.symbol, reason, sol_out, pnl),
        ).log,
{
}

/// What a buyer says is logged, and starting a purchase changes nothing else.
pub proof fn a_purchase_starts_with_what_is_said(
    s: StateView,
    stamp: Seq<char>,
    dry_run: bool,
    symbol: Seq<char>,
    lamports: u128,
    curve: Result<CurveState, Seq<char>>,
)
    ensures
        match buy_notice(dry_run, symbol, lamports, curve) {
            Some(line) => buy_started(s, stamp, dry_run, symbol, lamports, curve) == s.logged(stamp, line),
            None => buy_started(s, stamp, dry_run, symbol, lamports, curve) == s,
        },
{
}

/// Lists and answers are taken entry by entry and as they are: none is left out, and an
/// error stays one whatever it says.
pub proof fn lists_and_answers_are_taken_as_they_are(
    due_list: Seq<([u8; 32], ExitReason)>,
    mints: Seq<(String, [u8; 32])>,
    i: int,
    ok: &str,
    e: &str,
    c: CurveState,
)
    ensures
        due_views(due_list).len() == due_list.len(),
        0 <= i < due_list.len() ==> due_views(due_list)[i].0 == due_list[i].0@ && due_views(due_list)[i].1
            == due_list[i].1,
        mint_views(mints).len() == mints.len(),
        0 <= i < mints.len() ==> mint_views(mints)[i].0 == mints[i].0@ && mint_views(mints)[i].1 == mints[i].1@,
        answer_view(Ok(ok)) == Ok::<Seq<char>, Seq<char>>(ok@),
        answer_view(Err(e)) == Err::<Seq<char>, Seq<char>>(e@),
        curve_view(Ok(c)) == Ok::<CurveState, Seq<char>>(c),
        curve_view(Err(e)) == Err::<CurveState, Seq<char>>(e@),
{
}

/// A trade costs five thousand lamports of network fee, the priority fee for the
/// whole unit limit whatever the trade is worth, and the platform's share of
/// what is traded.
pub proof fn fees_add_up(r: TradeFees, c: ConfigView, lamports: nat, fee_basis_points: nat)
    requires
        are_fees(r, c, lamports, fee_basis_points),
    ensures
        r.network_lamports == 5_000,
        r.priority_microlamports == c.priority_fee_compute_unit_limit * c.priority_fee_microlamports_per_cu,
        10_000 * r.platform_lamports <= lamports * fee_basis_points,
        lamports * fee_basis_points < 10_000 * (r.platform_lamports + 1),
{
    fee_is_its_share(lamports, fee_basis_points);
}

/// What the token account reports is what was bought, and without a report
/// nothing was. Tokens were paid for at the quotient; where there are none there
/// is no price.
pub proof fn a_purchase_is_worth_what_it_brought(amount: Double, quotient: Double)
    ensures
        tokens_brought(Some(amount)) == amount,
        tokens_brought(None).bits == 0,
        Double::spec_zero().below(amount) ==> price_paid(amount, quotient) == quotient,
        !Double::spec_zero().below(amount) ==> price_paid(amount, quotient).bits == 0,
{
}

/// How many of the first `n` positions have a mint that is an address.
pub open spec fn addressed_among(positions: Seq<PositionView>, n: int) -> nat
    decreases n,
{
    if n <= 0 {
        0
    } else {
        addressed_among(positions, n - 1) + if address_of(positions[n - 1].mint) is Some {
            1nat
        } else {
            0nat
        }
    }
}

proof fn lemma_addressed_among_depends_on_prefix(a: Seq<PositionView>, b: Seq<PositionView>, n: int)
    requires
        n <= a.len(),
        n <= b.len(),
        forall|k: int| 0 <= k < n ==> #[trigger] a[k] == b[k],
    ensures
        addressed_among(a, n) == addressed_among(b, n),
    decreases n,
{
    if n > 0 {
        lemma_addressed_among_depends_on_prefix(a, b, n - 1);
        assert(a[n - 1] == b[n - 1]);
    }
}

/// Every open position whose mint is an address is priced, in order, by its mint
/// and its address, and no other is.
pub proof fn every_addressed_position_is_priced(positions: Seq<PositionView>)
    ensures
        addressed(positions).len() == addressed_among(positions, positions.len() as int),
        forall|i: int|
            0 <= i < positions.len() && address_of((#[trigger] positions[i]).mint) is Some ==> {
                let k = addressed_among(positions, i);
                &&& k < addressed(positions).len()
                &&& addressed(positions)[k as int].0 == positions[i].mint
                &&& Some(addressed(positions)[k as int].1) == address_of(positions[i].mint)
            },
    decreases positions.len(),
{
    if positions.len() > 0 {
        let fewer = positions.drop_last();
        let last = positions.len() - 1;
        every_addressed_position_is_priced(fewer);
        lemma_addressed_among_depends_on_prefix(positions, fewer, last);
        assert forall|i: int|
            0 <= i < positions.len() && address_of((#[trigger] positions[i]).mint) is Some implies ({
            let k = addressed_among(positions, i);
            &&& k < addressed(positions).len()
            &&& addressed(positions)[k as int].0 == positions[i].mint
            &&& Some(addressed(positions)[k as int].1) == address_of(positions[i].mint)
        }) by {
            lemma_addressed_among_depends_on_prefix(positions, fewer, i);
            if i < last {
                assert(fewer[i] == positions[i]);
            }
        }
    }
}

/// The profit target comes before the loss limit, and both before the holding
/// time. Each rule decides exactly where it holds and none before it does, and a
/// position is kept exactly where none of the three holds. The age counts for
/// the holding time alone.
pub proof fn exit_rules_rank(c: ConfigView, pct: Double, age: int)
    ensures
        ({
            let gained = c.take_profit_pct.at_most(pct);
            let lost = pct.at_most(c.stop_loss_pct.negated());
            let old = c.max_hold_enabled && age >= signed_seconds(c.max_hold_seconds);
            &&& exit_due(c, pct, age) == Some(ExitReason::TakeProfit) <==> gained
            &&& exit_due(c, pct, age) == Some(ExitReason::StopLoss) <==> !gained && lost
            &&& exit_due(c, pct, age) == Some(ExitReason::MaxHold) <==> !gained && !lost && old
            &&& exit_due(c, pct, age) is None <==> !gained && !lost && !old
        }),
{
}

/// An exit at one age is an exit at any age unless the holding time decides, and
/// a position that is held too long stays so as it grows older.
pub proof fn age_counts_for_the_holding_time_alone(c: ConfigView, pct: Double, age: int, other: int)
    ensures
        exit_due(c, pct, age) == Some(ExitReason::TakeProfit) || exit_due(c, pct, age) == Some(ExitReason::StopLoss)
            ==> exit_due(c, pct, other) == exit_due(c, pct, age),
        exit_due(c, pct, age) is Some && age <= other ==> exit_due(c, pct, other) == exit_due(c, pct, age),
        !c.max_hold_enabled ==> exit_due(c, pct, other) == exit_due(c, pct, age),
{
}

/// A holding time is its number of seconds; one of which there is no such signed
/// number wraps to a negative one.
pub proof fn seconds_wrap_past_half(n: u64)
    ensures
        n <= 0x7fff_ffff_ffff_ffff ==> signed_seconds(n) == n,
        n > 0x7fff_ffff_ffff_ffff ==> signed_seconds(n) < 0 && signed_seconds(n) + 0x1_0000_0000_0000_0000 == n,
{
}

/// The gain of a position is the change of its price; without a positive price to
/// start from there is no gain. Nothing else about the position counts.
pub proof fn gain_is_the_price_change(p: PositionView, q: PositionView, change_pct: Double)
    ensures
        Double::spec_zero().below(p.entry_price_sol) ==> gain(p, change_pct) == change_pct,
        p.entry_price_sol.is_nan() ==> gain(p, change_pct) == change_pct,
        p.entry_price_sol.at_most(Double::spec_zero()) ==> gain(p, change_pct) == Double::spec_zero(),
        p.entry_price_sol == q.entry_price_sol ==> gain(p, change_pct) == gain(q, change_pct),
{
}

/// Whether a position is to be sold: its mint is an address, and an exit rule
/// holds for it.
pub open spec fn is_due(c: ConfigView, p: PositionView, change_pct: Double, now: int) -> bool {
    let g = if p.entry_price_sol.at_most(Double::spec_zero()) {
        Double::spec_zero()
    } else {
        change_pct
    };
    &&& address_of(p.mint) is Some
    &&& c.take_profit_pct.at_most(g) || g.at_most(c.stop_loss_pct.negated()) || (c.max_hold_enabled && now
        - p.opened_at >= signed_seconds(c.max_hold_seconds))
}

/// How many of the first `n` positions are to be sold.
pub open spec fn due_among(
    c: ConfigView,
    positions: Seq<PositionView>,
    changes: Seq<Double>,
    now: int,
    n: int,
) -> nat
    decreases n,
{
    if n <= 0 {
        0
    } else {
        due_among(c, positions, changes, now, n - 1) + if is_due(c, positions[n - 1], changes[n - 1], now) {
            1nat
        } else {
            0nat
        }
    }
}

proof fn lemma_due_among_depends_on_prefix(
    c: ConfigView,
    a: Seq<PositionView>,
    b: Seq<PositionView>,
    changes: Seq<Double>,
    now: int,
    n: int,
)
    requires
        n <= a.len(),
        n <= b.len(),
        forall|k: int| 0 <= k < n ==> #[trigger] a[k] == b[k],
    ensures
        due_among(c, a, changes, now, n) == due_among(c, b, changes, now, n),
    decreases n,
{
    if n > 0 {
        lemma_due_among_depends_on_prefix(c, a, b, changes, now, n - 1);
        assert(a[n - 1] == b[n - 1]);
    }
}

proof fn lemma_due_among_grows(
    c: ConfigView,
    positions: Seq<PositionView>,
    changes: Seq<Double>,
    now: int,
    m: int,
    n: int,
)
    requires
        m <= n,
    ensures
        due_among(c, positions, changes, now, m) <= due_among(c, positions, changes, now, n),
    decreases n - m,
{
    if m < n {
        lemma_due_among_grows(c, positions, changes, now, m, n - 1);
    }
}

/// Every open position that is to be sold is sold, once, by its address and for
/// its reason, and the positions keep their order: the list holds as many
/// entries as positions are due, and the entry of a position comes after those of
/// the due positions before it.
pub proof fn every_due_position_is_sold(
    c: ConfigView,
    positions: Seq<PositionView>,
    changes: Seq<Double>,
    now: int,
)
    ensures
        due(c, positions, changes, now).len() == due_among(c, positions, changes, now, positions.len() as int),
        forall|i: int|
            0 <= i < positions.len() && is_due(c, #[trigger] positions[i], changes[i], now) ==> {
                let k = due_among(c, positions, changes, now, i);
                &&& k < due(c, positions, changes, now).len()
                &&& Some(due(c, positions, changes, now)[k as int].0) == address_of(positions[i].mint)
                &&& Some(due(c, positions, changes, now)[k as int].1) == exit_due(
                    c,
                    gain(positions[i], changes[i]),
                    now - positions[i].opened_at,
                )
            },
    decreases positions.len(),
{
    if positions.len() > 0 {
        let fewer = positions.drop_last();
        let last = positions.len() - 1;
        every_due_position_is_sold(c, fewer, changes, now);
        lemma_due_among_depends_on_prefix(c, positions, fewer, changes, now, last);
        assert forall|i: int|
            0 <= i < positions.len() && is_due(c, #[trigger] positions[i], changes[i], now) implies ({
            let k = due_among(c, positions, changes, now, i);
            &&& k < due(c, positions, changes, now).len()
            &&& Some(due(c, positions, changes, now)[k as int].0) == address_of(positions[i].mint)
            &&& Some(due(c, positions, changes, now)[k as int].1) == exit_due(
                c,
                gain(positions[i], changes[i]),
                now - positions[i].opened_at,
            )
        }) by {
            lemma_due_among_depends_on_prefix(c, positions, fewer, changes, now, i);
            if i < last {
                assert(fewer[i] == positions[i]);
            }
        }
    }
}

/// The entry of a position that is to be sold comes before those of all later
/// ones.
pub proof fn sales_keep_the_order(
    c: ConfigView,
    positions: Seq<PositionView>,
    changes: Seq<Double>,
    now: int,
    i: int,
    j: int,
)
    requires
        0 <= i < j < positions.len(),
        is_due(c, positions[i], changes[i], now),
    ensures
        due_among(c, positions, changes, now, i) < due_among(c, positions, changes, now, j),
{
    lemma_due_among_grows(c, positions, changes, now, i + 1, j);
}

/// Whatever is sold is an open position for which an exit rule holds.
pub proof fn only_due_positions_are_sold(
    c: ConfigView,
    positions: Seq<PositionView>,
    changes: Seq<Double>,
    now: int,
    k: int,
)
    requires
        0 <= k < due(c, positions, changes, now).len(),
    ensures
        exists|i: int|
            0 <= i < positions.len() && address_of(#[trigger] positions[i].mint) == Some(
                due(c, positions, changes, now)[k].0,
            ) && exit_due(c, gain(positions[i], changes[i]), now - positions[i].opened_at) == Some(
                due(c, positions, changes, now)[k].1,
            ),
    decreases positions.len(),
{
    let before = due(c, positions.drop_last(), changes, now);
    if k < before.len() {
        only_due_positions_are_sold(c, positions.drop_last(), changes, now, k);
        let i = choose|i: int|
            0 <= i < positions.drop_last().len() && address_of(#[trigger] positions.drop_last()[i].mint) == Some(
                before[k].0,
            ) && exit_due(c, gain(positions.drop_last()[i], changes[i]), now - positions.drop_last()[i].opened_at)
                == Some(before[k].1);
        assert(positions[i] == positions.drop_last()[i]);
        assert(address_of(positions[i].mint) == Some(before[k].0));
    } else {
        let last = positions.len() - 1;
        assert(address_of(positions[last].mint) is Some);
    }
}

/// A sale that failed gives the position back: the same positions are open as
/// before the sale, and nothing was recorded or earned.
pub proof fn failed_sale_gives_the_position_back(
    s: StateView,
    mint: Seq<char>,
    stamp: Seq<char>,
    reason: Seq<char>,
    sale: Sale,
    e: Seq<char>,
)
    requires
        position_index(s.positions, mint) < s.positions.len(),
    ensures
        ({
            let p = s.positions[position_index(s.positions, mint) as int];
            let after = sell_answered(position_taken(s, mint), stamp, p, reason, sale, Err(e));
            &&& after.positions.to_multiset() =~= s.positions.to_multiset()
            &&& after.positions.last() == p
            &&& after.history == s.history
            &&& after.daily_realized_pnl_sol == s.daily_realized_pnl_sol
            &&& after.total_spent_sol == s.total_spent_sol
        }),
{
    let i = position_index(s.positions, mint) as int;
    s.positions.to_multiset_ensures();
    s.positions.remove(i).to_multiset_ensures();
    vstd::seq_lib::to_multiset_remove(s.positions, i);
}

} // verus!
