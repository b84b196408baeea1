//! The application state: configuration, live metrics, bounded history and
//! log, alarm and target flags, and the configuration form.
use vstd::prelude::*;
use crate::clock::{clock_text, local_now, push_clock, stamp, stamp_text, ClockTime};
use crate::market::PairData;
use crate::history::{bounded_push, push_bounded, MAX_HISTORY, MAX_LOG};
use crate::text::{
    pop_char, push_char, change_text, dec_text, fit_u64, fixed_of, parse_fixed, parse_u64, push_change, push_decimal,
    push_scaled, scaled_text, trim, trimmed, uint_of,
};

verus! {

/// Target market cap in cents used where none is given or it does not parse.
pub const DEFAULT_TARGET_CENTS: u64 = 10_000_000;

/// Seconds between fetches used where none is given or it does not parse.
pub const DEFAULT_INTERVAL_SECS: u64 = 180;

/// Number of fields of the configuration form.
pub const FORM_FIELDS: usize = 4;

/// Which of the two screens takes the keyboard.
#[derive(Clone, Copy, Debug, PartialEq, Eq, Structural)]
pub enum UiMode {
    Monitoring,
    ConfiguringForm,
}

/// The whole state of the monitor. Dollar amounts are in cents, the price in
/// `10^10`ths of a dollar, price changes in hundredths of a percent.
pub struct App {
    pub pair_address: String,
    pub chain: String,
    pub target_market_cap: u64,
    pub check_interval: u64,
    pub alarm_file: Option<String>,
    pub alarm_duration: u64,
    pub token_name: String,
    pub token_symbol: String,
    pub current_price: u64,
    pub market_cap: u64,
    pub fdv: u64,
    pub volume_24h: u64,
    pub price_change_1h: i64,
    pub price_change_24h: i64,
    pub liquidity_usd: u64,
    pub buys_24h: u64,
    pub sells_24h: u64,
    /// Market caps in whole dollars, oldest first.
    pub market_cap_history: Vec<u64>,
    pub log_messages: Vec<String>,
    /// `HH:MM:SS` of the last successful fetch.
    pub last_fetch: Option<String>,
    pub target_hit: bool,
    pub alarm_active: bool,
    pub running: bool,
    pub fetch_count: u64,
    pub error_count: u64,
    pub modal_open: bool,
    /// Address, chain, target and interval, as typed.
    pub modal_fields: Vec<String>,
    pub modal_active_field: usize,
    pub configured: bool,
}

/// The texts of a sequence of strings.
pub open spec fn texts(v: Seq<String>) -> Seq<Seq<char>> {
    v.map_values(|s: String| s@)
}

proof fn lemma_texts_bounded_push(v: Seq<String>, x: String, cap: nat)
    ensures
        texts(bounded_push(v, x, cap)) == bounded_push(texts(v), x@, cap),
{
    assert(texts(v.push(x)) =~= texts(v).push(x@));
    if v.len() + 1 > cap {
        assert(texts(v.push(x).drop_first()) =~= texts(v).push(x@).drop_first());
    }
}

/// `n + 1`, held at `u64::MAX`.
pub open spec fn bump(n: u64) -> u64 {
    if n < u64::MAX {
        (n + 1) as u64
    } else {
        n
    }
}

/// Progress towards the target in hundredths of a percent: none for a zero
/// target, else the ratio, rounded down and capped at 100%.
pub open spec fn progress_of(market_cap: nat, target: nat) -> nat {
    if target == 0 {
        0
    } else if market_cap * 10000 / target >= 10000 {
        10000
    } else {
        market_cap * 10000 / target
    }
}

/// The log line of a failed fetch.
pub open spec fn error_line(t: ClockTime, err: Seq<char>) -> Seq<char> {
    stamp_text(t) + " ❌ Error: "@ + err
}

/// The log line of a successful fetch: market cap in whole dollars, price
/// with eight places, 1-hour change with its sign.
pub open spec fn fetch_line(t: ClockTime, market_cap: u64, price: u64, change_1h: i64) -> Seq<char> {
    stamp_text(t) + " MCap: $"@ + scaled_text(market_cap as nat, 2, 0) + " | Price: $"@
        + scaled_text(price as nat, 10, 8) + " | 1h: "@ + change_text(change_1h as int)
}

/// The log line of the fetch on which the target is first reached.
pub open spec fn hit_line(t: ClockTime, market_cap: u64) -> Seq<char> {
    stamp_text(t) + " 🔥 TARGET HIT! Market cap reached $"@ + scaled_text(market_cap as nat, 2, 0)
        + " 🔥"@
}

/// The price of a record in `10^10`ths of a dollar; zero where it is missing
/// or does not parse.
pub open spec fn price_of(d: PairData) -> u64 {
    match d.price_usd {
        Some(p) => match fit_u64(fixed_of(p@, 10)) {
            Some(v) => v,
            None => 0,
        },
        None => 0,
    }
}

/// The market cap of a record, else its fully diluted valuation, else zero.
pub open spec fn market_cap_of(d: PairData) -> u64 {
    match d.market_cap {
        Some(v) => v,
        None => match d.fdv {
            Some(v) => v,
            None => 0,
        },
    }
}

pub open spec fn or_zero(v: Option<u64>) -> u64 {
    match v {
        Some(x) => x,
        None => 0,
    }
}

pub open spec fn or_zero_signed(v: Option<i64>) -> i64 {
    match v {
        Some(x) => x,
        None => 0,
    }
}

/// The text of `name`, or `current` where it is missing.
pub open spec fn text_or(name: Option<String>, current: Seq<char>) -> Seq<char> {
    match name {
        Some(n) => n@,
        None => current,
    }
}

/// The live metrics of state `b` are those read from the record `d`, over
/// state `a`: missing numbers read as zero, missing names keep `a`'s.
pub open spec fn metrics_read(a: App, b: App, d: PairData) -> bool {
    &&& b.token_name@ == (match d.base_token {
        Some(tok) => text_or(tok.name, a.token_name@),
        None => a.token_name@,
    })
    &&& b.token_symbol@ == (match d.base_token {
        Some(tok) => text_or(tok.symbol, a.token_symbol@),
        None => a.token_symbol@,
    })
    &&& b.current_price == price_of(d)
    &&& b.market_cap == market_cap_of(d)
    &&& b.fdv == or_zero(d.fdv)
    &&& b.volume_24h == (match d.volume {
        Some(v) => or_zero(v.h24),
        None => 0,
    })
    &&& b.price_change_1h == (match d.price_change {
        Some(c) => or_zero_signed(c.h1),
        None => 0,
    })
    &&& b.price_change_24h == (match d.price_change {
        Some(c) => or_zero_signed(c.h24),
        None => 0,
    })
    &&& b.liquidity_usd == (match d.liquidity {
        Some(l) => or_zero(l.usd),
        None => 0,
    })
    &&& b.buys_24h == (match d.txns {
        Some(t) => match t.h24 {
            Some(c) => or_zero(c.buys),
            None => 0,
        },
        None => 0,
    })
    &&& b.sells_24h == (match d.txns {
        Some(t) => match t.h24 {
            Some(c) => or_zero(c.sells),
            None => 0,
        },
        None => 0,
    })
}

/// [`metrics_read`], with nothing else of the state changed.
pub open spec fn metrics_taken(a: App, b: App, d: PairData) -> bool {
    &&& metrics_read(a, b, d)
    &&& b == (App {
        token_name: b.token_name,
        token_symbol: b.token_symbol,
        current_price: b.current_price,
        market_cap: b.market_cap,
        fdv: b.fdv,
        volume_24h: b.volume_24h,
        price_change_1h: b.price_change_1h,
        price_change_24h: b.price_change_24h,
        liquidity_usd: b.liquidity_usd,
        buys_24h: b.buys_24h,
        sells_24h: b.sells_24h,
        ..a
    })
}

/// What taking in the record `d` at time `now` makes of state `a`: see
/// [`App::update_from_pair_data_at`].
pub open spec fn fetch_applied(a: App, b: App, now: ClockTime, d: PairData) -> bool {
    &&& metrics_read(a, b, d)
    &&& b.market_cap_history@ == bounded_push(
        a.market_cap_history@,
        (market_cap_of(d) / 100) as u64,
        MAX_HISTORY as nat,
    )
    &&& b.fetch_count == bump(a.fetch_count)
    &&& b.last_fetch is Some
    &&& b.last_fetch->0@ == clock_text(now)
    &&& ({
        let mc = market_cap_of(d);
        let hit = mc >= a.target_market_cap && !a.target_hit;
        let logged = bounded_push(
            a.log_view(),
            fetch_line(now, mc, price_of(d), b.price_change_1h),
            MAX_LOG as nat,
        );
        &&& b.target_hit == (a.target_hit || hit)
        &&& b.alarm_active == (a.alarm_active || hit)
        &&& b.log_view() == if hit {
            bounded_push(logged, hit_line(now, mc), MAX_LOG as nat)
        } else {
            logged
        }
    })
    &&& b == (App {
        token_name: b.token_name,
        token_symbol: b.token_symbol,
        current_price: b.current_price,
        market_cap: b.market_cap,
        fdv: b.fdv,
        volume_24h: b.volume_24h,
        price_change_1h: b.price_change_1h,
        price_change_24h: b.price_change_24h,
        liquidity_usd: b.liquidity_usd,
        buys_24h: b.buys_24h,
        sells_24h: b.sells_24h,
        market_cap_history: b.market_cap_history,
        log_messages: b.log_messages,
        last_fetch: b.last_fetch,
        target_hit: b.target_hit,
        alarm_active: b.alarm_active,
        fetch_count: b.fetch_count,
        ..a
    })
}

/// Opening line of a monitor started without a configuration.
pub open spec fn welcome_line(t: ClockTime) -> Seq<char> {
    stamp_text(t) + " 🚀 MoonCap started — press Enter to configure"@
}

/// Opening line of a monitor started with a configuration.
pub open spec fn started_line(t: ClockTime, chain: Seq<char>, target: u64) -> Seq<char> {
    stamp_text(t) + " 🚀 MoonCap started | Chain: "@ + chain + " | Target: $"@ + scaled_text(
        target as nat,
        2,
        0,
    )
}

/// Opening line after the form was submitted.
pub open spec fn configured_line(t: ClockTime, chain: Seq<char>, target: u64) -> Seq<char> {
    stamp_text(t) + " 🚀 Configured | Chain: "@ + chain + " | Target: $"@ + scaled_text(
        target as nat,
        2,
        0,
    )
}

pub open spec fn monitoring_line(t: ClockTime, pair: Seq<char>) -> Seq<char> {
    stamp_text(t) + " 📡 Monitoring pair: "@ + pair
}

pub open spec fn interval_line(t: ClockTime, secs: u64) -> Seq<char> {
    stamp_text(t) + " ⏱  Check interval: "@ + dec_text(secs as nat) + "s"@
}

/// The form's fields as the configuration of `a` fills them: the target in
/// whole dollars.
pub open spec fn form_of(a: App) -> Seq<Seq<char>> {
    seq![
        a.pair_address@,
        a.chain@,
        dec_text((a.target_market_cap / 100) as nat),
        dec_text(a.check_interval as nat),
    ]
}

/// The chain that a form field gives: its trimmed text, or `solana` where
/// that is empty.
pub open spec fn chain_from(f: Seq<char>) -> Seq<char> {
    if trimmed(f).len() == 0 {
        "solana"@
    } else {
        trimmed(f)
    }
}

/// The target in cents that a form field gives, or the default where it
/// does not parse.
pub open spec fn target_from(f: Seq<char>) -> u64 {
    match fit_u64(fixed_of(trimmed(f), 2)) {
        Some(v) => v,
        None => DEFAULT_TARGET_CENTS,
    }
}

/// The interval in seconds that a form field gives, or the default where it
/// does not parse.
pub open spec fn interval_from(f: Seq<char>) -> u64 {
    match fit_u64(uint_of(trimmed(f))) {
        Some(v) => v,
        None => DEFAULT_INTERVAL_SECS,
    }
}

/// The live part of `b` is that of a monitor that has fetched nothing yet.
pub open spec fn live_reset(b: App) -> bool {
    &&& b.token_name@ == "Loading..."@
    &&& b.token_symbol@ == "???"@
    &&& b.current_price == 0
    &&& b.market_cap == 0
    &&& b.fdv == 0
    &&& b.volume_24h == 0
    &&& b.price_change_1h == 0
    &&& b.price_change_24h == 0
    &&& b.liquidity_usd == 0
    &&& b.buys_24h == 0
    &&& b.sells_24h == 0
    &&& b.market_cap_history@.len() == 0
    &&& !b.target_hit
    &&& !b.alarm_active
    &&& b.fetch_count == 0
    &&& b.error_count == 0
}

/// What applying the form at time `now` makes of state `a`: see
/// [`App::apply_modal_config_at`].
pub open spec fn config_applied(a: App, b: App, now: ClockTime) -> bool {
    &&& b.pair_address@ == trimmed(a.form_view()[0])
    &&& b.chain@ == chain_from(a.form_view()[1])
    &&& b.target_market_cap == target_from(a.form_view()[2])
    &&& b.check_interval == interval_from(a.form_view()[3])
    &&& b.configured
    &&& !b.modal_open
    &&& live_reset(b)
    &&& b.log_view() == seq![
        configured_line(now, b.chain@, b.target_market_cap),
        monitoring_line(now, b.pair_address@),
        interval_line(now, b.check_interval),
    ]
    &&& b == (App {
        pair_address: b.pair_address,
        chain: b.chain,
        target_market_cap: b.target_market_cap,
        check_interval: b.check_interval,
        configured: true,
        modal_open: false,
        token_name: b.token_name,
        token_symbol: b.token_symbol,
        current_price: 0,
        market_cap: 0,
        fdv: 0,
        volume_24h: 0,
        price_change_1h: 0,
        price_change_24h: 0,
        liquidity_usd: 0,
        buys_24h: 0,
        sells_24h: 0,
        market_cap_history: b.market_cap_history,
        target_hit: false,
        alarm_active: false,
        fetch_count: 0,
        error_count: 0,
        log_messages: b.log_messages,
        ..a
    })
}

/// What submitting the form at time `now` makes of state `a`, with result
/// `r`: see [`App::submit_configuration_form_at`].
pub open spec fn form_submitted(a: App, b: App, now: ClockTime, r: bool) -> bool {
    &&& r == (trimmed(a.form_view()[0]).len() > 0)
    &&& r ==> config_applied(a, b, now)
    &&& !r ==> b == a
}

impl App {
    /// The form has its four fields and points at one of them; the buffers
    /// are within their capacities.
    pub open spec fn wf(&self) -> bool {
        &&& self.modal_fields@.len() == FORM_FIELDS
        &&& self.modal_active_field < FORM_FIELDS
        &&& self.market_cap_history@.len() <= MAX_HISTORY
        &&& self.log_messages@.len() <= MAX_LOG
    }

    /// The texts of the log, oldest first.
    pub open spec fn log_view(&self) -> Seq<Seq<char>> {
        texts(self.log_messages@)
    }

    /// The texts of the form's fields.
    pub open spec fn form_view(&self) -> Seq<Seq<char>> {
        texts(self.modal_fields@)
    }

    pub open spec fn spec_ui_mode(&self) -> UiMode {
        if self.modal_open {
            UiMode::ConfiguringForm
        } else {
            UiMode::Monitoring
        }
    }

    /// The screen that takes the keyboard.
    #[verifier::when_used_as_spec(spec_ui_mode)]
    pub fn ui_mode(&self) -> (r: UiMode)
        ensures
            r == self.spec_ui_mode(),
    {
        if self.modal_open {
            UiMode::ConfiguringForm
        } else {
            UiMode::Monitoring
        }
    }

    /// Appends a line to the log, dropping the oldest beyond its capacity.
    pub fn add_log(&mut self, msg: String)
        requires
            old(self).wf(),
        ensures
            final(self).wf(),
            final(self).log_view() == bounded_push(old(self).log_view(), msg@, MAX_LOG as nat),
            *final(self) == (App { log_messages: final(self).log_messages, ..*old(self) }),
    {
        proof {
            lemma_texts_bounded_push(self.log_messages@, msg, MAX_LOG as nat);
        }
        push_bounded(&mut self.log_messages, msg, MAX_LOG);
    }

    /// Records a failed fetch at time `now`: one more error and a log line.
    pub fn add_error_at(&mut self, now: ClockTime, err: String)
        requires
            old(self).wf(),
        ensures
            final(self).wf(),
            final(self).error_count == bump(old(self).error_count),
            final(self).log_view() == bounded_push(
                old(self).log_view(),
                error_line(now, err@),
                MAX_LOG as nat,
            ),
            *final(self) == (App {
                log_messages: final(self).log_messages,
                error_count: final(self).error_count,
                ..*old(self)
            }),
    {
        if self.error_count < u64::MAX {
            self.error_count = self.error_count + 1;
        }
        let mut line = stamp(now);
        line.append(" ❌ Error: ");
        line.append(err.as_str());
        assert(line@ =~= error_line(now, err@));
        self.add_log(line);
    }

    /// Records a failed fetch now: one more error and a log line.
    pub fn add_error(&mut self, err: String)
        requires
            old(self).wf(),
        ensures
            final(self).wf(),
            final(self).error_count == bump(old(self).error_count),
            exists|t: ClockTime|
                t.wf() && final(self).log_view() == bounded_push(
                    old(self).log_view(),
                    #[trigger] error_line(t, err@),
                    MAX_LOG as nat,
                ),
            *final(self) == (App {
                log_messages: final(self).log_messages,
                error_count: final(self).error_count,
                ..*old(self)
            }),
    {
        let now = local_now();
        self.add_error_at(now, err);
    }

    /// Takes in one fetched record at time `now`: the live metrics (missing
    /// numbers read as zero, missing names keep the current ones), the trend
    /// buffer, the fetch count, the log, and the target flags, which are raised
    /// on the first record whose market cap reaches the target.
    /// The form's fields filled from the configuration.
    fn config_form(&self) -> (r: Vec<String>)
        ensures
            texts(r@) == form_of(*self),
            r@.len() == FORM_FIELDS,
    {
        let mut target = String::new();
        push_decimal(&mut target, (self.target_market_cap / 100) as u128);
        let mut interval = String::new();
        push_decimal(&mut interval, self.check_interval as u128);
        let r = vec![self.pair_address.clone(), self.chain.clone(), target, interval];
        assert(texts(r@) =~= form_of(*self));
        r
    }

    /// A state with the given configuration, nothing fetched, an empty log,
    /// the form filled from the configuration and closed, and not configured.
    fn blank(
        pair_address: String,
        chain: String,
        target_market_cap: u64,
        check_interval: u64,
        alarm_file: Option<String>,
        alarm_duration: u64,
    ) -> (r: App)
        ensures
            r.wf(),
            r.pair_address == pair_address,
            r.chain == chain,
            r.target_market_cap == target_market_cap,
            r.check_interval == check_interval,
            r.alarm_file == alarm_file,
            r.alarm_duration == alarm_duration,
            live_reset(r),
            r.log_view().len() == 0,
            r.last_fetch is None,
            r.running,
            !r.modal_open,
            r.form_view() == form_of(r),
            r.modal_active_field == 0,
            !r.configured,
    {
        let mut app = App {
            pair_address,
            chain,
            target_market_cap,
            check_interval,
            alarm_file,
            alarm_duration,
            token_name: String::from_str("Loading..."),
            token_symbol: String::from_str("???"),
            current_price: 0,
            market_cap: 0,
            fdv: 0,
            volume_24h: 0,
            price_change_1h: 0,
            price_change_24h: 0,
            liquidity_usd: 0,
            buys_24h: 0,
            sells_24h: 0,
            market_cap_history: Vec::new(),
            log_messages: Vec::new(),
            last_fetch: None,
            target_hit: false,
            alarm_active: false,
            running: true,
            fetch_count: 0,
            error_count: 0,
            modal_open: false,
            modal_fields: Vec::new(),
            modal_active_field: 0,
            configured: false,
        };
        app.modal_fields = app.config_form();
        assert(app.log_view() =~= Seq::empty());
        app
    }

    /// A monitor started without a configuration, at time `now`: the form is
    /// open with the default chain, target and interval, nothing is fetched,
    /// and the log holds one welcome line.
    pub fn new_interactive_at(now: ClockTime, alarm_file: Option<String>, alarm_duration: u64) -> (r: App)
        ensures
            r.wf(),
            r.pair_address@.len() == 0,
            r.chain@ == "solana"@,
            r.target_market_cap == DEFAULT_TARGET_CENTS,
            r.check_interval == DEFAULT_INTERVAL_SECS,
            r.alarm_file == alarm_file,
            r.alarm_duration == alarm_duration,
            live_reset(r),
            r.log_view() == seq![welcome_line(now)],
            r.last_fetch is None,
            r.running,
            r.modal_open,
            r.form_view() == form_of(r),
            r.modal_active_field == 0,
            !r.configured,
    {
        let mut app = App::blank(
            String::new(),
            String::from_str("solana"),
            DEFAULT_TARGET_CENTS,
            DEFAULT_INTERVAL_SECS,
            alarm_file,
            alarm_duration,
        );
        app.modal_open = true;
        let mut line = stamp(now);
        line.append(" 🚀 MoonCap started — press Enter to configure");
        app.add_log(line);
        assert(app.log_view() =~= seq![welcome_line(now)]);
        app
    }

    /// A monitor started without a configuration, now.
    pub fn new_interactive(alarm_file: Option<String>, alarm_duration: u64) -> (r: App)
        ensures
            r.wf(),
            r.pair_address@.len() == 0,
            r.chain@ == "solana"@,
            r.target_market_cap == DEFAULT_TARGET_CENTS,
            r.check_interval == DEFAULT_INTERVAL_SECS,
            r.alarm_file == alarm_file,
            r.alarm_duration == alarm_duration,
            live_reset(r),
            exists|t: ClockTime| t.wf() && r.log_view() == seq![#[trigger] welcome_line(t)],
            r.last_fetch is None,
            r.running,
            r.modal_open,
            r.form_view() == form_of(r),
            r.modal_active_field == 0,
            !r.configured,
    {
        let now = local_now();
        App::new_interactive_at(now, alarm_file, alarm_duration)
    }

    /// A monitor started with a configuration, at time `now`: monitoring,
    /// nothing fetched yet, and three opening log lines.
    pub fn new_with_config_at(
        now: ClockTime,
        pair_address: String,
        chain: String,
        target_market_cap: u64,
        check_interval: u64,
        alarm_file: Option<String>,
        alarm_duration: u64,
    ) -> (r: App)
        ensures
            r.wf(),
            r.pair_address == pair_address,
            r.chain == chain,
            r.target_market_cap == target_market_cap,
            r.check_interval == check_interval,
            r.alarm_file == alarm_file,
            r.alarm_duration == alarm_duration,
            live_reset(r),
            r.log_view() == seq![
                started_line(now, chain@, target_market_cap),
                monitoring_line(now, pair_address@),
                interval_line(now, check_interval),
            ],
            r.last_fetch is None,
            r.running,
            !r.modal_open,
            r.form_view() == form_of(r),
            r.modal_active_field == 0,
            r.configured,
    {
        let mut app = App::blank(
            pair_address,
            chain,
            target_market_cap,
            check_interval,
            alarm_file,
            alarm_duration,
        );
        app.configured = true;
        app.log_opening(now, false);
        app
    }

    /// A monitor started with a configuration, now.
    pub fn new_with_config(
        pair_address: String,
        chain: String,
        target_market_cap: u64,
        check_interval: u64,
        alarm_file: Option<String>,
        alarm_duration: u64,
    ) -> (r: App)
        ensures
            r.wf(),
            r.pair_address == pair_address,
            r.chain == chain,
            r.target_market_cap == target_market_cap,
            r.check_interval == check_interval,
            r.alarm_file == alarm_file,
            r.alarm_duration == alarm_duration,
            live_reset(r),
            exists|t: ClockTime|
                t.wf() && r.log_view() == seq![
                    #[trigger] started_line(t, chain@, target_market_cap),
                    monitoring_line(t, pair_address@),
                    interval_line(t, check_interval),
                ],
            r.last_fetch is None,
            r.running,
            !r.modal_open,
            r.form_view() == form_of(r),
            r.modal_active_field == 0,
            r.configured,
    {
        let now = local_now();
        App::new_with_config_at(
            now,
            pair_address,
            chain,
            target_market_cap,
            check_interval,
            alarm_file,
            alarm_duration,
        )
    }

    /// Appends the three opening lines of a configured monitor.
    fn log_opening(&mut self, now: ClockTime, reconfigured: bool)
        requires
            old(self).wf(),
            old(self).log_view().len() == 0,
        ensures
            final(self).wf(),
            final(self).log_view() == seq![
                if reconfigured {
                    configured_line(now, old(self).chain@, old(self).target_market_cap)
                } else {
                    started_line(now, old(self).chain@, old(self).target_market_cap)
                },
                monitoring_line(now, old(self).pair_address@),
                interval_line(now, old(self).check_interval),
            ],
            *final(self) == (App { log_messages: final(self).log_messages, ..*old(self) }),
    {
        let mut first = stamp(now);
        if reconfigured {
            first.append(" 🚀 Configured | Chain: ");
        } else {
            first.append(" 🚀 MoonCap started | Chain: ");
        }
        first.append(self.chain.as_str());
        first.append(" | Target: $");
        push_scaled(&mut first, self.target_market_cap, 2, 0);
        self.add_log(first);
        let mut second = stamp(now);
        second.append(" 📡 Monitoring pair: ");
        second.append(self.pair_address.as_str());
        self.add_log(second);
        let mut third = stamp(now);
        third.append(" ⏱  Check interval: ");
        push_decimal(&mut third, self.check_interval as u128);
        third.append("s");
        self.add_log(third);
        assert(self.log_view() =~= seq![
            if reconfigured {
                configured_line(now, old(self).chain@, old(self).target_market_cap)
            } else {
                started_line(now, old(self).chain@, old(self).target_market_cap)
            },
            monitoring_line(now, old(self).pair_address@),
            interval_line(now, old(self).check_interval),
        ]);
    }

    /// Opens the form with its fields filled from the configuration and the
    /// first field active.
    pub fn open_modal(&mut self)
        requires
            old(self).wf(),
        ensures
            final(self).wf(),
            final(self).form_view() == form_of(*old(self)),
            *final(self) == (App {
                modal_fields: final(self).modal_fields,
                modal_active_field: 0,
                modal_open: true,
                ..*old(self)
            }),
    {
        self.modal_fields = self.config_form();
        self.modal_active_field = 0;
        self.modal_open = true;
    }

    /// Leaves the form for the monitoring screen, keeping the configuration.
    pub fn close_modal(&mut self)
        requires
            old(self).configured,
        ensures
            *final(self) == (App { modal_open: false, ..*old(self) }),
    {
        self.modal_open = false;
    }

    /// Makes the next field active, the first after the last.
    pub fn modal_next_field(&mut self)
        requires
            old(self).wf(),
        ensures
            final(self).wf(),
            *final(self) == (App {
                modal_active_field: ((old(self).modal_active_field + 1) % (FORM_FIELDS as int)) as usize,
                ..*old(self)
            }),
    {
        self.modal_active_field = (self.modal_active_field + 1) % FORM_FIELDS;
    }

    /// Makes the previous field active, the last before the first.
    pub fn modal_prev_field(&mut self)
        requires
            old(self).wf(),
        ensures
            final(self).wf(),
            *final(self) == (App {
                modal_active_field: if old(self).modal_active_field == 0 {
                    (FORM_FIELDS - 1) as usize
                } else {
                    (old(self).modal_active_field - 1) as usize
                },
                ..*old(self)
            }),
    {
        self.modal_active_field = if self.modal_active_field == 0 {
            FORM_FIELDS - 1
        } else {
            self.modal_active_field - 1
        };
    }

    /// Appends `c` to the active field.
    pub fn modal_type_char(&mut self, c: char)
        requires
            old(self).wf(),
        ensures
            final(self).wf(),
            final(self).form_view() == old(self).form_view().update(
                old(self).modal_active_field as int,
                old(self).form_view()[old(self).modal_active_field as int].push(c),
            ),
            *final(self) == (App { modal_fields: final(self).modal_fields, ..*old(self) }),
    {
        let i = self.modal_active_field;
        let mut f = self.modal_fields.remove(i);
        push_char(&mut f, c);
        self.modal_fields.insert(i, f);
        assert(self.form_view() =~= old(self).form_view().update(
            i as int,
            old(self).form_view()[i as int].push(c),
        ));
    }

    /// Removes the last character of the active field, if it has one.
    pub fn modal_backspace(&mut self)
        requires
            old(self).wf(),
        ensures
            final(self).wf(),
            final(self).form_view() == if old(self).form_view()[old(self).modal_active_field as int].len() > 0 {
                old(self).form_view().update(
                    old(self).modal_active_field as int,
                    old(self).form_view()[old(self).modal_active_field as int].drop_last(),
                )
            } else {
                old(self).form_view()
            },
            *final(self) == (App { modal_fields: final(self).modal_fields, ..*old(self) }),
    {
        let i = self.modal_active_field;
        let mut f = self.modal_fields.remove(i);
        let _ = pop_char(&mut f);
        self.modal_fields.insert(i, f);
        proof {
            if old(self).form_view()[i as int].len() > 0 {
                assert(self.form_view() =~= old(self).form_view().update(
                    i as int,
                    old(self).form_view()[i as int].drop_last(),
                ));
            } else {
                assert(self.form_view() =~= old(self).form_view());
            }
        }
    }

    /// Returns the live part to that of a monitor that has fetched nothing.
    fn reset_live(&mut self)
        requires
            old(self).wf(),
        ensures
            final(self).wf(),
            live_reset(*final(self)),
            *final(self) == (App {
                token_name: final(self).token_name,
                token_symbol: final(self).token_symbol,
                current_price: 0,
                market_cap: 0,
                fdv: 0,
                volume_24h: 0,
                price_change_1h: 0,
                price_change_24h: 0,
                liquidity_usd: 0,
                buys_24h: 0,
                sells_24h: 0,
                market_cap_history: final(self).market_cap_history,
                target_hit: false,
                alarm_active: false,
                fetch_count: 0,
                error_count: 0,
                ..*old(self)
            }),
    {
        self.token_name = String::from_str("Loading...");
        self.token_symbol = String::from_str("???");
        self.current_price = 0;
        self.market_cap = 0;
        self.fdv = 0;
        self.volume_24h = 0;
        self.price_change_1h = 0;
        self.price_change_24h = 0;
        self.liquidity_usd = 0;
        self.buys_24h = 0;
        self.sells_24h = 0;
        self.market_cap_history.clear();
        self.target_hit = false;
        self.alarm_active = false;
        self.fetch_count = 0;
        self.error_count = 0;
    }

    /// Takes the form's fields as the new configuration at time `now`: the
    /// trimmed address; the trimmed chain, or `solana` where it is blank; the
    /// target and interval where they parse, else their defaults. Monitoring
    /// starts over: live data, trend, counters and flags are reset, and the
    /// log holds the three opening lines alone.
    pub fn apply_modal_config_at(&mut self, now: ClockTime)
        requires
            old(self).wf(),
        ensures
            final(self).wf(),
            config_applied(*old(self), *final(self), now),
    {
        let pair = trim(self.modal_fields[0].as_str());
        let chain = trim(self.modal_fields[1].as_str());
        let target = trim(self.modal_fields[2].as_str());
        let interval = trim(self.modal_fields[3].as_str());
        self.pair_address = pair;
        self.chain = if chain.as_str().unicode_len() == 0 {
            String::from_str("solana")
        } else {
            chain
        };
        self.target_market_cap = match parse_fixed(target.as_str(), 2) {
            Some(v) => v,
            None => DEFAULT_TARGET_CENTS,
        };
        self.check_interval = match parse_u64(interval.as_str()) {
            Some(v) => v,
            None => DEFAULT_INTERVAL_SECS,
        };
        self.configured = true;
        self.modal_open = false;
        self.reset_live();
        self.log_messages.clear();
        assert(self.log_view() =~= Seq::empty());
        self.log_opening(now, true);
    }

    /// [`App::apply_modal_config_at`] at the current time.
    pub fn apply_modal_config(&mut self)
        requires
            old(self).wf(),
        ensures
            final(self).wf(),
            exists|t: ClockTime| t.wf() && #[trigger] config_applied(*old(self), *final(self), t),
    {
        let now = local_now();
        self.apply_modal_config_at(now);
    }

    /// Submits the form at time `now`: where the address field is blank once
    /// trimmed, nothing changes and the result is `false`; otherwise the form
    /// is applied as [`App::apply_modal_config_at`] says and the result is
    /// `true`.
    pub fn submit_configuration_form_at(&mut self, now: ClockTime) -> (r: bool)
        requires
            old(self).wf(),
        ensures
            final(self).wf(),
            form_submitted(*old(self), *final(self), now, r),
    {
        let pair = trim(self.modal_fields[0].as_str());
        if pair.as_str().unicode_len() == 0 {
            false
        } else {
            self.apply_modal_config_at(now);
            true
        }
    }

    /// [`App::submit_configuration_form_at`] at the current time.
    pub fn submit_configuration_form(&mut self) -> (r: bool)
        requires
            old(self).wf(),
        ensures
            final(self).wf(),
            r == (trimmed(old(self).form_view()[0]).len() > 0),
            r ==> exists|t: ClockTime| t.wf() && #[trigger] config_applied(*old(self), *final(self), t),
            !r ==> *final(self) == *old(self),
    {
        let now = local_now();
        self.submit_configuration_form_at(now)
    }

    /// [`App::update_from_pair_data_at`] at the current time.
    pub fn update_from_pair_data(&mut self, data: &PairData)
        requires
            old(self).wf(),
        ensures
            final(self).wf(),
            exists|t: ClockTime| t.wf() && #[trigger] fetch_applied(*old(self), *final(self), t, *data),
    {
        let now = local_now();
        self.update_from_pair_data_at(now, data);
    }

    /// Reads the live metrics out of one record.
    fn take_metrics(&mut self, data: &PairData)
        ensures
            metrics_taken(*old(self), *final(self), *data),
    {
        match &data.base_token {
            Some(base) => {
                match &base.name {
                    Some(name) => {
                        self.token_name = name.clone();
                    },
                    None => {},
                }
                match &base.symbol {
                    Some(symbol) => {
                        self.token_symbol = symbol.clone();
                    },
                    None => {},
                }
            },
            None => {},
        }
        self.current_price = match &data.price_usd {
            Some(p) => match parse_fixed(p.as_str(), 10) {
                Some(v) => v,
                None => 0,
            },
            None => 0,
        };
        self.market_cap = match data.market_cap {
            Some(v) => v,
            None => match data.fdv {
                Some(v) => v,
                None => 0,
            },
        };
        self.fdv = match data.fdv {
            Some(v) => v,
            None => 0,
        };
        self.volume_24h = match data.volume {
            Some(v) => match v.h24 {
                Some(x) => x,
                None => 0,
            },
            None => 0,
        };
        match data.price_change {
            Some(c) => {
                self.price_change_1h = match c.h1 {
                    Some(x) => x,
                    None => 0,
                };
                self.price_change_24h = match c.h24 {
                    Some(x) => x,
                    None => 0,
                };
            },
            None => {
                self.price_change_1h = 0;
                self.price_change_24h = 0;
            },
        }
        self.liquidity_usd = match data.liquidity {
            Some(l) => match l.usd {
                Some(x) => x,
                None => 0,
            },
            None => 0,
        };
        let (buys, sells) = match data.txns {
            Some(t) => match t.h24 {
                Some(c) => (
                    match c.buys {
                        Some(x) => x,
                        None => 0,
                    },
                    match c.sells {
                        Some(x) => x,
                        None => 0,
                    },
                ),
                None => (0, 0),
            },
            None => (0, 0),
        };
        self.buys_24h = buys;
        self.sells_24h = sells;

    }

    pub fn update_from_pair_data_at(&mut self, now: ClockTime, data: &PairData)
        requires
            old(self).wf(),
        ensures
            final(self).wf(),
            fetch_applied(*old(self), *final(self), now, *data),
    {
        self.take_metrics(data);
        push_bounded(&mut self.market_cap_history, self.market_cap / 100, MAX_HISTORY);
        if self.fetch_count < u64::MAX {
            self.fetch_count = self.fetch_count + 1;
        }
        let mut clock = String::new();
        push_clock(&mut clock, now);
        assert(clock@ =~= clock_text(now));
        self.last_fetch = Some(clock);

        let mut line = stamp(now);
        line.append(" MCap: $");
        push_scaled(&mut line, self.market_cap, 2, 0);
        line.append(" | Price: $");
        push_scaled(&mut line, self.current_price, 10, 8);
        line.append(" | 1h: ");
        push_change(&mut line, self.price_change_1h);
        assert(line@ =~= fetch_line(now, self.market_cap, self.current_price, self.price_change_1h));
        self.add_log(line);

        if self.market_cap >= self.target_market_cap && !self.target_hit {
            self.target_hit = true;
            self.alarm_active = true;
            let mut hit = stamp(now);
            hit.append(" 🔥 TARGET HIT! Market cap reached $");
            push_scaled(&mut hit, self.market_cap, 2, 0);
            hit.append(" 🔥");
            assert(hit@ =~= hit_line(now, self.market_cap));
            self.add_log(hit);
        }
    }

    /// Progress towards the target in hundredths of a percent.
    pub fn progress(&self) -> (r: u64)
        ensures
            r as nat == progress_of(self.market_cap as nat, self.target_market_cap as nat),
    {
        if self.target_market_cap == 0 {
            return 0;
        }
        let ratio = (self.market_cap as u128) * 10000 / (self.target_market_cap as u128);
        if ratio >= 10000 {
            10000
        } else {
            ratio as u64
        }
    }
}

} // verus!
