//! Application state: the bounded transaction log, the viewport over it,
//! connection statistics and the detail view.

use crate::filter::{record_matches, FilterState};
use crate::record::Transaction;
use crate::text::chars_of;
use vstd::string::*;
use std::collections::VecDeque;
use vstd::prelude::*;

verus! {

/// Capacity of the log when none is configured.
pub const DEFAULT_MAX_TRANSACTIONS: usize = 1000;

/// Rows assumed visible in the transaction table.
pub const VIEWPORT_HEIGHT: usize = 20;

/// Rows moved by one page step.
pub const PAGE_SIZE: usize = 10;

/// Rows moved by one page step in the detail view.
pub const DETAILS_PAGE_SIZE: usize = 10;

/// Milliseconds between two updates of the throughput figures.
pub const PERF_UPDATE_INTERVAL_MS: u64 = 1000;

/// Bytes of string data assumed per record on top of its inline size.
pub const RECORD_STRING_ESTIMATE: usize = 500;

/// Cursor and first visible row of the transaction table.
#[derive(Debug, Clone, Copy, PartialEq, Eq, Structural)]
pub struct ScrollState {
    pub offset: usize,
    pub selected: usize,
}

/// Connection and throughput statistics.
#[derive(Debug)]
pub struct Stats {
    pub total_transactions: u64,
    /// Wall-clock start of the session, in seconds since the epoch.
    pub start_time: i64,
    pub connected: bool,
    pub last_error: Option<String>,
    /// Transactions per second since the start, in tenths.
    pub transactions_per_second_tenths: u64,
    /// Estimated bytes held by the log.
    pub memory_usage_bytes: usize,
    /// Monotonic clock reading, in milliseconds, at the start of the session.
    pub started_ms: u64,
    /// Monotonic clock reading, in milliseconds, of the last figures update.
    pub last_perf_update_ms: u64,
}

/// Settings loaded once at start.
#[derive(Debug, Clone)]
pub struct Config {
    pub rpc_url: String,
    /// Informational: the supervisor retries without limit.
    pub reconnect_attempts: u32,
    /// Delay between connection attempts, in milliseconds.
    pub reconnect_delay: u64,
    pub max_transactions: usize,
    /// Whether quitting asks for confirmation; without it `q` quits at once.
    pub confirm_quit: bool,
}

impl Config {
    /// Settings from the raw texts of the environment: the endpoint, the log
    /// capacity, the reconnect attempts and the delay in milliseconds. A
    /// text that is absent or not a number in range leaves the default.
    pub fn load(
        rpc_url: Option<String>,
        max_transactions: Option<&str>,
        reconnect_attempts: Option<&str>,
        reconnect_delay: Option<&str>,
    ) -> (r: Config)
        ensures
            rpc_url is Some ==> r.rpc_url == rpc_url->0,
            rpc_url is None ==> r.rpc_url@ == default_rpc_url(),
            r.max_transactions == match max_transactions {
                Some(t) => match parsed_unsigned(t@, usize::MAX as u64) {
                    Some(v) => v as usize,
                    None => DEFAULT_MAX_TRANSACTIONS,
                },
                None => DEFAULT_MAX_TRANSACTIONS,
            },
            r.reconnect_attempts == match reconnect_attempts {
                Some(t) => match parsed_unsigned(t@, u32::MAX as u64) {
                    Some(v) => v as u32,
                    None => 10,
                },
                None => 10,
            },
            r.reconnect_delay == match reconnect_delay {
                Some(t) => match parsed_unsigned(t@, u64::MAX) {
                    Some(v) => v,
                    None => 5000,
                },
                None => 5000,
            },
            r.confirm_quit,
    {
        let url = match rpc_url {
            Some(u) => u,
            None => String::from_str("wss://base-rpc.publicnode.com"),
        };
        let mut config = Config::new(url);
        match max_transactions {
            Some(t) => match parse_unsigned(t, usize::MAX as u64) {
                Some(v) => config.max_transactions = v as usize,
                None => {},
            },
            None => {},
        }
        match reconnect_attempts {
            Some(t) => match parse_unsigned(t, u32::MAX as u64) {
                Some(v) => config.reconnect_attempts = v as u32,
                None => {},
            },
            None => {},
        }
        match reconnect_delay {
            Some(t) => match parse_unsigned(t, u64::MAX) {
                Some(v) => config.reconnect_delay = v,
                None => {},
            },
            None => {},
        }
        config
    }

    /// The default settings for the given endpoint.
    pub fn new(rpc_url: String) -> (r: Config)
        ensures
            r.rpc_url == rpc_url,
            r.reconnect_attempts == 10,
            r.reconnect_delay == 5000,
            r.max_transactions == DEFAULT_MAX_TRANSACTIONS,
            r.confirm_quit,
    {
        Config {
            rpc_url,
            reconnect_attempts: 10,
            reconnect_delay: 5000,
            max_transactions: DEFAULT_MAX_TRANSACTIONS,
            confirm_quit: true,
        }
    }
}

/// The endpoint used when none is configured.
pub open spec fn default_rpc_url() -> Seq<char> {
    "wss://base-rpc.publicnode.com"@
}

/// The value of a decimal digit character, or -1.
pub open spec fn digit_value(c: char) -> int {
    if '0' <= c && c <= '9' {
        c as int - '0' as int
    } else {
        -1
    }
}

/// The value of a string of decimal digits.
pub open spec fn decimal_value(s: Seq<char>) -> int
    decreases s.len(),
{
    if s.len() == 0 {
        0
    } else {
        10 * decimal_value(s.drop_last()) + digit_value(s.last())
    }
}

/// One or more decimal digits.
pub open spec fn all_digits(s: Seq<char>) -> bool {
    s.len() > 0 && forall|i: int| 0 <= i < s.len() ==> 0 <= #[trigger] digit_value(s[i])
}

/// An unsigned number as text: an optional `+`, then decimal digits whose
/// value is at most `max`.
pub open spec fn parsed_unsigned(s: Seq<char>, max: u64) -> Option<u64> {
    let d = if s.len() > 0 && s[0] == '+' {
        s.drop_first()
    } else {
        s
    };
    if all_digits(d) && decimal_value(d) <= max {
        Some(decimal_value(d) as u64)
    } else {
        None
    }
}

/// Reads an unsigned number of at most `max`.
pub fn parse_unsigned(s: &str, max: u64) -> (r: Option<u64>)
    ensures
        r == parsed_unsigned(s@, max),
{
    let c = chars_of(s);
    let n = c.len();
    let start: usize = if n > 0 && c[0] == '+' {
        1
    } else {
        0
    };
    if start == n {
        return None;
    }
    let ghost d = if s@.len() > 0 && s@[0] == '+' {
        s@.drop_first()
    } else {
        s@
    };
    assert(d =~= s@.subrange(start as int, n as int));
    let cap: u128 = max as u128 + 1;
    let mut acc: u128 = 0;
    let mut i: usize = start;
    while i < n
        invariant
            c@ == s@,
            n == c@.len(),
            start <= i <= n,
            d =~= c@.subrange(start as int, n as int),
            d == if s@.len() > 0 && s@[0] == '+' {
                s@.drop_first()
            } else {
                s@
            },
            cap == max + 1,
            forall|k: int| start <= k < i ==> 0 <= #[trigger] digit_value(c@[k]),
            acc == if decimal_value(c@.subrange(start as int, i as int)) < cap {
                decimal_value(c@.subrange(start as int, i as int))
            } else {
                cap as int
            },
        decreases n - i,
    {
        let ch = c[i];
        if ch < '0' || ch > '9' {
            assert(d[i - start] == ch);
            assert(digit_value(d[i - start]) < 0);
            assert(!all_digits(d));
            return None;
        }
        let digit: u128 = (ch as u32 - '0' as u32) as u128;
        let ghost v = decimal_value(c@.subrange(start as int, i as int));
        proof {
            let p = c@.subrange(start as int, i + 1);
            assert(p.drop_last() =~= c@.subrange(start as int, i as int));
            assert(p.last() == ch);
            assert(decimal_value(p) == 10 * v + digit);
            assert(v >= 0) by {
                lemma_decimal_value_nonneg(c@.subrange(start as int, i as int));
            }
        }
        let next: u128 = acc * 10 + digit;
        acc = if next < cap {
            next
        } else {
            cap
        };
        proof {
            if v >= cap {
                assert(10 * v + digit >= cap) by (nonlinear_arith)
                    requires
                        v >= cap,
                        digit >= 0,
                        cap >= 1,
                ;
            }
        }
        i = i + 1;
    }
    assert(c@.subrange(start as int, n as int) =~= d);
    if acc < cap {
        Some(acc as u64)
    } else {
        None
    }
}

proof fn lemma_decimal_value_nonneg(s: Seq<char>)
    requires
        forall|i: int| 0 <= i < s.len() ==> 0 <= #[trigger] digit_value(s[i]),
    ensures
        decimal_value(s) >= 0,
    decreases s.len(),
{
    if s.len() > 0 {
        lemma_decimal_value_nonneg(s.drop_last());
        assert(0 <= digit_value(s[s.len() - 1]));
    }
}

/// The viewport stays inside the log: `0 <= selected < max(length, 1)`,
/// `offset <= selected`, and the cursor is within the window of
/// `VIEWPORT_HEIGHT` rows that starts at the offset.
pub open spec fn viewport_ok(s: ScrollState, len: nat) -> bool {
    &&& s.offset <= s.selected
    &&& s.selected < s.offset + VIEWPORT_HEIGHT
    &&& s.selected < if len == 0 {
        1
    } else {
        len
    }
}

/// Whether inserting into `log` evicts its oldest record.
pub open spec fn evicts(log: Seq<Transaction>, cap: usize) -> bool {
    log.len() >= cap
}

/// The log after one insertion: in prepend mode the record goes to the head
/// and the tail is evicted when full; in append mode it goes to the tail and
/// the head is evicted when full. A log of capacity 0 keeps nothing.
pub open spec fn after_insert(
    log: Seq<Transaction>,
    cap: usize,
    new_on_top: bool,
    tx: Transaction,
) -> Seq<Transaction> {
    if cap == 0 {
        log
    } else if new_on_top {
        seq![tx] + if evicts(log, cap) {
            log.drop_last()
        } else {
            log
        }
    } else {
        (if evicts(log, cap) {
            log.drop_first()
        } else {
            log
        }).push(tx)
    }
}

/// The log after a sequence of insertions, in order.
pub open spec fn after_inserts(
    log: Seq<Transaction>,
    cap: usize,
    new_on_top: bool,
    txs: Seq<Transaction>,
) -> Seq<Transaction>
    decreases txs.len(),
{
    if txs.len() == 0 {
        log
    } else {
        after_insert(after_inserts(log, cap, new_on_top, txs.drop_last()), cap, new_on_top, txs.last())
    }
}

/// The viewport after one insertion. In prepend mode a cursor below the top
/// follows its record one row down (staying on the last row when that record
/// was evicted); in append mode an eviction moves cursor and offset one row up.
pub open spec fn scroll_after_insert(
    s: ScrollState,
    log: Seq<Transaction>,
    cap: usize,
    new_on_top: bool,
) -> ScrollState {
    let new_len = if evicts(log, cap) {
        log.len()
    } else {
        log.len() + 1
    };
    if cap == 0 {
        s
    } else if new_on_top {
        if s.selected > 0 {
            let sel = if s.selected + 1 < new_len {
                s.selected + 1
            } else {
                new_len - 1
            };
            ScrollState {
                selected: sel as usize,
                offset: (if s.offset + 1 <= sel {
                    s.offset + 1
                } else {
                    sel
                }) as usize,
            }
        } else {
            s
        }
    } else if evicts(log, cap) {
        ScrollState {
            selected: (if s.selected > 0 {
                s.selected - 1
            } else {
                0
            }) as usize,
            offset: (if s.offset > 0 {
                s.offset - 1
            } else {
                0
            }) as usize,
        }
    } else {
        s
    }
}

/// The viewport after a sequence of insertions, in order.
pub open spec fn scroll_after_inserts(
    s: ScrollState,
    log: Seq<Transaction>,
    cap: usize,
    new_on_top: bool,
    txs: Seq<Transaction>,
) -> ScrollState
    decreases txs.len(),
{
    if txs.len() == 0 {
        s
    } else {
        scroll_after_insert(
            scroll_after_inserts(s, log, cap, new_on_top, txs.drop_last()),
            after_inserts(log, cap, new_on_top, txs.drop_last()),
            cap,
            new_on_top,
        )
    }
}

/// The record counter after `n` more records, stopping at `u64::MAX`.
pub open spec fn counted(total: u64, n: nat) -> u64 {
    if total + n <= u64::MAX {
        (total + n) as u64
    } else {
        u64::MAX
    }
}

/// One row up, pulling the offset along when the cursor leaves the window.
pub open spec fn scroll_up_spec(s: ScrollState) -> ScrollState {
    if s.selected > 0 {
        let sel = (s.selected - 1) as usize;
        ScrollState {
            selected: sel,
            offset: if sel < s.offset {
                sel
            } else {
                s.offset
            },
        }
    } else {
        s
    }
}

/// One row down, stopping at the last row, pushing the offset along when the
/// cursor leaves the window of `VIEWPORT_HEIGHT` rows.
pub open spec fn scroll_down_spec(s: ScrollState, len: nat) -> ScrollState {
    if s.selected + 1 < len {
        let sel = (s.selected + 1) as usize;
        ScrollState {
            selected: sel,
            offset: if sel >= s.offset + VIEWPORT_HEIGHT {
                (sel - (VIEWPORT_HEIGHT - 1)) as usize
            } else {
                s.offset
            },
        }
    } else {
        s
    }
}

/// `n` steps up.
pub open spec fn scroll_up_n(s: ScrollState, n: nat) -> ScrollState
    decreases n,
{
    if n == 0 {
        s
    } else {
        scroll_up_spec(scroll_up_n(s, (n - 1) as nat))
    }
}

/// `n` steps down.
pub open spec fn scroll_down_n(s: ScrollState, len: nat, n: nat) -> ScrollState
    decreases n,
{
    if n == 0 {
        s
    } else {
        scroll_down_spec(scroll_down_n(s, len, (n - 1) as nat), len)
    }
}

/// The cursor on the last row, with the last page visible.
pub open spec fn bottom_spec(len: nat) -> ScrollState {
    let sel: int = if len == 0 {
        0
    } else {
        len - 1
    };
    ScrollState {
        selected: sel as usize,
        offset: (if sel >= VIEWPORT_HEIGHT - 1 {
            sel - (VIEWPORT_HEIGHT - 1)
        } else {
            0
        }) as usize,
    }
}

/// Relies on `VecDeque::capacity`: how many records the log has room for
/// without reallocating; allocator-dependent, so nothing is stated of it.
#[verifier::external_body]
fn reserved_slots(v: &VecDeque<Transaction>) -> usize {
    v.capacity()
}

/// Relies on `VecDeque::shrink_to_fit`: releases spare storage and keeps the
/// contents.
#[verifier::external_body]
fn release_spare(v: &mut VecDeque<Transaction>)
    ensures
        final(v)@ == old(v)@,
{
    v.shrink_to_fit()
}

/// Relies on `std::mem::size_of`: the inline size of a record, which depends
/// on the target, so nothing is stated of it.
#[verifier::external_body]
fn record_inline_size() -> usize {
    std::mem::size_of::<Transaction>()
}

/// Everything the event loop mutates, owned by that single loop.
#[derive(Debug)]
pub struct AppState {
    pub transactions: VecDeque<Transaction>,
    pub max_transactions: usize,
    pub scroll_state: ScrollState,
    pub stats: Stats,
    pub config: Config,
    pub should_quit: bool,
    pub show_new_on_top: bool,
    pub show_details: bool,
    pub selected_transaction: Option<Transaction>,
    pub details_scroll_offset: usize,
    pub filter: FilterState,
    pub quit_confirmation: bool,
    pub pending_tx_fetch: Option<String>,
}


/// The log, its capacity, its direction and the viewport are as before.
pub open spec fn same_log(a: &AppState, b: &AppState) -> bool {
    &&& a.transactions@ == b.transactions@
    &&& a.max_transactions == b.max_transactions
    &&& a.show_new_on_top == b.show_new_on_top
    &&& a.scroll_state == b.scroll_state
}

/// Statistics, settings and the quit flag are as before.
pub open spec fn same_session(a: &AppState, b: &AppState) -> bool {
    &&& a.stats == b.stats
    &&& a.config == b.config
    &&& a.should_quit == b.should_quit
}

/// The detail view is as before.
pub open spec fn same_details(a: &AppState, b: &AppState) -> bool {
    &&& a.show_details == b.show_details
    &&& a.selected_transaction == b.selected_transaction
    &&& a.details_scroll_offset == b.details_scroll_offset
}

/// The filter, the quit dialog and the pending lookup are as before.
pub open spec fn same_modes(a: &AppState, b: &AppState) -> bool {
    &&& a.filter@ == b.filter@
    &&& a.quit_confirmation == b.quit_confirmation
    &&& a.pending_tx_fetch == b.pending_tx_fetch
}

/// A copy of `d` in reverse order.
fn reversed(d: VecDeque<Transaction>) -> (r: VecDeque<Transaction>)
    ensures
        r@ == d@.reverse(),
{
    let ghost orig = d@;
    let mut src = d;
    let mut rev: VecDeque<Transaction> = VecDeque::new();
    while src.len() > 0
        invariant
            rev@.len() + src@.len() == orig.len(),
            src@ == orig.subrange(rev@.len() as int, orig.len() as int),
            forall|i: int| 0 <= i < rev@.len() ==> rev@[i] == orig[rev@.len() - 1 - i],
        decreases src@.len(),
    {
        let ghost k = rev@.len();
        let x = src.pop_front();
        match x {
            Some(t) => {
                assert(t == orig[k as int]);
                rev.push_front(t);
                assert forall|i: int| 0 <= i < rev@.len() implies rev@[i] == orig[rev@.len() - 1
                    - i] by {}
                assert(src@ =~= orig.subrange(rev@.len() as int, orig.len() as int));
            },
            None => {},
        }
    }
    assert(rev@ =~= orig.reverse());
    rev
}

impl AppState {
    /// The log holds at most its capacity, the viewport stays inside the log
    /// and the filter's cursor inside the query.
    pub open spec fn wf(&self) -> bool {
        &&& self.transactions@.len() <= self.max_transactions
        &&& viewport_ok(self.scroll_state, self.transactions@.len())
        &&& self.filter.wf()
    }

    /// A fresh state: empty log in prepend mode, viewport at the top, no
    /// dialog open. `start_time` is the wall clock in seconds, `now_ms` the
    /// monotonic clock in milliseconds.
    pub fn new(config: Config, start_time: i64, now_ms: u64) -> (r: Self)
        ensures
            r.wf(),
            r.transactions@.len() == 0,
            r.max_transactions == config.max_transactions,
            r.scroll_state == (ScrollState { offset: 0, selected: 0 }),
            r.config == config,
            r.show_new_on_top,
            !r.should_quit,
            !r.show_details,
            r.selected_transaction is None,
            r.details_scroll_offset == 0,
            r.filter@.query.len() == 0,
            !r.filter@.active,
            !r.quit_confirmation,
            r.pending_tx_fetch is None,
            r.stats.total_transactions == 0,
            r.stats.start_time == start_time,
            !r.stats.connected,
            r.stats.last_error is None,
            r.stats.transactions_per_second_tenths == 0,
            r.stats.memory_usage_bytes == 0,
            r.stats.started_ms == now_ms,
            r.stats.last_perf_update_ms == now_ms,
    {
        let max_transactions = config.max_transactions;
        AppState {
            transactions: VecDeque::new(),
            max_transactions,
            scroll_state: ScrollState { offset: 0, selected: 0 },
            stats: Stats {
                total_transactions: 0,
                start_time,
                connected: false,
                last_error: None,
                transactions_per_second_tenths: 0,
                memory_usage_bytes: 0,
                started_ms: now_ms,
                last_perf_update_ms: now_ms,
            },
            config,
            should_quit: false,
            show_new_on_top: true,
            show_details: false,
            selected_transaction: None,
            details_scroll_offset: 0,
            filter: FilterState::new(),
            quit_confirmation: false,
            pending_tx_fetch: None,
        }
    }

    /// Inserts a record according to the current direction, evicting the
    /// oldest one when the log is full, and keeps the viewport on the record
    /// it showed.
    pub fn add_transaction(&mut self, tx: Transaction, now_ms: u64)
        requires
            old(self).wf(),
        ensures
            final(self).wf(),
            final(self).transactions@ == after_insert(
                old(self).transactions@,
                old(self).max_transactions,
                old(self).show_new_on_top,
                tx,
            ),
            final(self).scroll_state == scroll_after_insert(
                old(self).scroll_state,
                old(self).transactions@,
                old(self).max_transactions,
                old(self).show_new_on_top,
            ),
            final(self).max_transactions == old(self).max_transactions,
            final(self).show_new_on_top == old(self).show_new_on_top,
            final(self).stats.total_transactions == counted(old(self).stats.total_transactions, 1),
            final(self).stats.connected == old(self).stats.connected,
            final(self).stats.last_error == old(self).stats.last_error,
            final(self).stats.start_time == old(self).stats.start_time,
            final(self).stats.started_ms == old(self).stats.started_ms,
            final(self).stats.last_perf_update_ms == if now_ms >= old(self).stats.last_perf_update_ms
                + PERF_UPDATE_INTERVAL_MS {
                now_ms
            } else {
                old(self).stats.last_perf_update_ms
            },
            now_ms >= old(self).stats.last_perf_update_ms + PERF_UPDATE_INTERVAL_MS && (now_ms
                - old(self).stats.started_ms) / 1000 > 0
                ==> final(self).stats.transactions_per_second_tenths == min_u64(
                final(self).stats.total_transactions * 10 / ((now_ms - old(self).stats.started_ms)
                    / 1000),
            ),
            now_ms < old(self).stats.last_perf_update_ms + PERF_UPDATE_INTERVAL_MS ==> {
                &&& final(self).stats.transactions_per_second_tenths
                    == old(self).stats.transactions_per_second_tenths
                &&& final(self).stats.memory_usage_bytes == old(self).stats.memory_usage_bytes
            },
            final(self).config == old(self).config,
            final(self).should_quit == old(self).should_quit,
            same_details(old(self), final(self)),
            same_modes(old(self), final(self)),
    {
        let cap = self.max_transactions;
        let len = self.transactions.len();
        if cap == 0 {
        } else if self.show_new_on_top {
            if len >= cap {
                self.transactions.pop_back();
            }
            self.transactions.push_front(tx);
            if self.scroll_state.selected > 0 {
                let new_len = self.transactions.len();
                let sel = if self.scroll_state.selected + 1 < new_len {
                    self.scroll_state.selected + 1
                } else {
                    new_len - 1
                };
                let off = if self.scroll_state.offset + 1 <= sel {
                    self.scroll_state.offset + 1
                } else {
                    sel
                };
                self.scroll_state = ScrollState { offset: off, selected: sel };
            }
        } else {
            if len >= cap {
                self.transactions.pop_front();
                if self.scroll_state.selected > 0 {
                    self.scroll_state.selected = self.scroll_state.selected - 1;
                }
                if self.scroll_state.offset > 0 {
                    self.scroll_state.offset = self.scroll_state.offset - 1;
                }
            }
            self.transactions.push_back(tx);
        }
        self.stats.total_transactions = self.stats.total_transactions.saturating_add(1);
        let shrink_threshold = if self.max_transactions > usize::MAX / 2 {
            usize::MAX
        } else {
            self.max_transactions * 2
        };
        if reserved_slots(&self.transactions) > shrink_threshold && self.transactions.len()
            < self.max_transactions / 2 {
            release_spare(&mut self.transactions);
        }
        self.update_performance_stats(now_ms);
    }

    /// Refreshes the throughput and memory figures at most once per
    /// `PERF_UPDATE_INTERVAL_MS`.
    fn update_performance_stats(&mut self, now_ms: u64)
        ensures
            final(self).stats.total_transactions == old(self).stats.total_transactions,
            final(self).stats.connected == old(self).stats.connected,
            final(self).stats.last_error == old(self).stats.last_error,
            final(self).stats.start_time == old(self).stats.start_time,
            final(self).stats.started_ms == old(self).stats.started_ms,
            final(self).transactions@ == old(self).transactions@,
            final(self).max_transactions == old(self).max_transactions,
            final(self).show_new_on_top == old(self).show_new_on_top,
            final(self).scroll_state == old(self).scroll_state,
            final(self).config == old(self).config,
            final(self).should_quit == old(self).should_quit,
            same_details(old(self), final(self)),
            same_modes(old(self), final(self)),
            now_ms >= old(self).stats.last_perf_update_ms + PERF_UPDATE_INTERVAL_MS ==> {
                &&& final(self).stats.last_perf_update_ms == now_ms
                &&& (now_ms - old(self).stats.started_ms) / 1000 > 0
                    ==> final(self).stats.transactions_per_second_tenths == min_u64(
                    old(self).stats.total_transactions * 10 / ((now_ms - old(self).stats.started_ms) / 1000),
                )
            },
            now_ms < old(self).stats.last_perf_update_ms + PERF_UPDATE_INTERVAL_MS ==> final(self).stats == old(self).stats,
    {
        if now_ms >= self.stats.last_perf_update_ms && now_ms - self.stats.last_perf_update_ms
            >= PERF_UPDATE_INTERVAL_MS {
            let runtime_secs = now_ms.saturating_sub(self.stats.started_ms) / 1000;
            if runtime_secs > 0 {
                let rate: u128 = (self.stats.total_transactions as u128) * 10 / (
                runtime_secs as u128);
                self.stats.transactions_per_second_tenths = if rate > u64::MAX as u128 {
                    u64::MAX
                } else {
                    rate as u64
                };
            }
            let per_record = record_inline_size().saturating_add(RECORD_STRING_ESTIMATE);
            let count = self.transactions.len() as u128;
            let each = per_record as u128;
            assert(count * each <= u128::MAX) by (nonlinear_arith)
                requires
                    count <= u64::MAX,
                    each <= u64::MAX,
            ;
            let bytes: u128 = count * each;
            self.stats.memory_usage_bytes = if bytes > usize::MAX as u128 {
                usize::MAX
            } else {
                bytes as usize
            };
            self.stats.last_perf_update_ms = now_ms;
        }
    }
}

impl AppState {
    /// Moves the cursor one row up.
    pub fn scroll_up(&mut self)
        requires
            old(self).wf(),
        ensures
            final(self).wf(),
            final(self).scroll_state == scroll_up_spec(old(self).scroll_state),
            final(self).transactions@ == old(self).transactions@,
            final(self).max_transactions == old(self).max_transactions,
            final(self).show_new_on_top == old(self).show_new_on_top,
            same_session(old(self), final(self)),
            same_details(old(self), final(self)),
            same_modes(old(self), final(self)),
    {
        if self.scroll_state.selected > 0 {
            self.scroll_state.selected = self.scroll_state.selected - 1;
            if self.scroll_state.selected < self.scroll_state.offset {
                self.scroll_state.offset = self.scroll_state.selected;
            }
        }
    }

    /// Moves the cursor one row down, stopping at the last record.
    pub fn scroll_down(&mut self)
        requires
            old(self).wf(),
        ensures
            final(self).wf(),
            final(self).scroll_state == scroll_down_spec(
                old(self).scroll_state,
                old(self).transactions@.len(),
            ),
            final(self).transactions@ == old(self).transactions@,
            final(self).max_transactions == old(self).max_transactions,
            final(self).show_new_on_top == old(self).show_new_on_top,
            same_session(old(self), final(self)),
            same_details(old(self), final(self)),
            same_modes(old(self), final(self)),
    {
        let len = self.transactions.len();
        if self.scroll_state.selected + 1 < len {
            self.scroll_state.selected = self.scroll_state.selected + 1;
            if self.scroll_state.selected - self.scroll_state.offset >= VIEWPORT_HEIGHT {
                self.scroll_state.offset = self.scroll_state.selected - (VIEWPORT_HEIGHT - 1);
            }
        }
    }

    /// `PAGE_SIZE` rows up.
    pub fn page_up(&mut self)
        requires
            old(self).wf(),
        ensures
            final(self).wf(),
            final(self).scroll_state == scroll_up_n(old(self).scroll_state, PAGE_SIZE as nat),
            final(self).transactions@ == old(self).transactions@,
            final(self).max_transactions == old(self).max_transactions,
            final(self).show_new_on_top == old(self).show_new_on_top,
            same_session(old(self), final(self)),
            same_details(old(self), final(self)),
            same_modes(old(self), final(self)),
    {
        let mut i: usize = 0;
        while i < PAGE_SIZE
            invariant
                i <= PAGE_SIZE,
                self.wf(),
                self.scroll_state == scroll_up_n(old(self).scroll_state, i as nat),
                self.transactions@ == old(self).transactions@,
                self.max_transactions == old(self).max_transactions,
                self.show_new_on_top == old(self).show_new_on_top,
                same_session(old(self), self),
                same_details(old(self), self),
                same_modes(old(self), self),
            decreases PAGE_SIZE - i,
        {
            self.scroll_up();
            i = i + 1;
        }
    }

    /// `PAGE_SIZE` rows down.
    pub fn page_down(&mut self)
        requires
            old(self).wf(),
        ensures
            final(self).wf(),
            final(self).scroll_state == scroll_down_n(
                old(self).scroll_state,
                old(self).transactions@.len(),
                PAGE_SIZE as nat,
            ),
            final(self).transactions@ == old(self).transactions@,
            final(self).max_transactions == old(self).max_transactions,
            final(self).show_new_on_top == old(self).show_new_on_top,
            same_session(old(self), final(self)),
            same_details(old(self), final(self)),
            same_modes(old(self), final(self)),
    {
        let mut i: usize = 0;
        while i < PAGE_SIZE
            invariant
                i <= PAGE_SIZE,
                self.wf(),
                self.scroll_state == scroll_down_n(
                    old(self).scroll_state,
                    old(self).transactions@.len(),
                    i as nat,
                ),
                self.transactions@ == old(self).transactions@,
                self.max_transactions == old(self).max_transactions,
                self.show_new_on_top == old(self).show_new_on_top,
                same_session(old(self), self),
                same_details(old(self), self),
                same_modes(old(self), self),
            decreases PAGE_SIZE - i,
        {
            self.scroll_down();
            i = i + 1;
        }
    }

    /// Cursor and offset to the first row.
    pub fn jump_to_top(&mut self)
        requires
            old(self).wf(),
        ensures
            final(self).wf(),
            final(self).scroll_state == (ScrollState { offset: 0, selected: 0 }),
            final(self).transactions@ == old(self).transactions@,
            final(self).max_transactions == old(self).max_transactions,
            final(self).show_new_on_top == old(self).show_new_on_top,
            same_session(old(self), final(self)),
            same_details(old(self), final(self)),
            same_modes(old(self), final(self)),
    {
        self.scroll_state = ScrollState { offset: 0, selected: 0 };
    }

    /// Cursor to the last row, with the last page visible.
    pub fn jump_to_bottom(&mut self)
        requires
            old(self).wf(),
        ensures
            final(self).wf(),
            final(self).scroll_state == bottom_spec(old(self).transactions@.len()),
            final(self).transactions@ == old(self).transactions@,
            final(self).max_transactions == old(self).max_transactions,
            final(self).show_new_on_top == old(self).show_new_on_top,
            same_session(old(self), final(self)),
            same_details(old(self), final(self)),
            same_modes(old(self), final(self)),
    {
        let len = self.transactions.len();
        let sel = if len == 0 {
            0
        } else {
            len - 1
        };
        let off = if sel >= VIEWPORT_HEIGHT - 1 {
            sel - (VIEWPORT_HEIGHT - 1)
        } else {
            0
        };
        self.scroll_state = ScrollState { offset: off, selected: sel };
    }

    /// Records the connection status; a connection clears the last error.
    pub fn set_connected(&mut self, connected: bool)
        ensures
            final(self).stats.connected == connected,
            connected ==> final(self).stats.last_error is None,
            !connected ==> final(self).stats.last_error == old(self).stats.last_error,
            final(self).stats.total_transactions == old(self).stats.total_transactions,
            final(self).stats.start_time == old(self).stats.start_time,
            final(self).config == old(self).config,
            final(self).should_quit == old(self).should_quit,
            same_log(old(self), final(self)),
            same_details(old(self), final(self)),
            same_modes(old(self), final(self)),
    {
        self.stats.connected = connected;
        if connected {
            self.stats.last_error = None;
        }
    }

    /// Records an error; the connection counts as lost.
    pub fn set_error(&mut self, error: String)
        ensures
            final(self).stats.last_error == Some(error),
            !final(self).stats.connected,
            final(self).stats.total_transactions == old(self).stats.total_transactions,
            final(self).stats.start_time == old(self).stats.start_time,
            final(self).config == old(self).config,
            final(self).should_quit == old(self).should_quit,
            same_log(old(self), final(self)),
            same_details(old(self), final(self)),
            same_modes(old(self), final(self)),
    {
        self.stats.last_error = Some(error);
        self.stats.connected = false;
    }

    /// Signals the event loop to stop.
    pub fn quit(&mut self)
        ensures
            final(self).should_quit,
            final(self).stats == old(self).stats,
            final(self).config == old(self).config,
            same_log(old(self), final(self)),
            same_details(old(self), final(self)),
            same_modes(old(self), final(self)),
    {
        self.should_quit = true;
    }

    /// Reverses the stored order, flips the direction and resets the viewport.
    pub fn toggle_sort_order(&mut self)
        requires
            old(self).wf(),
        ensures
            final(self).wf(),
            final(self).transactions@ == old(self).transactions@.reverse(),
            final(self).show_new_on_top == !old(self).show_new_on_top,
            final(self).scroll_state == (ScrollState { offset: 0, selected: 0 }),
            final(self).max_transactions == old(self).max_transactions,
            same_session(old(self), final(self)),
            same_details(old(self), final(self)),
            same_modes(old(self), final(self)),
    {
        self.show_new_on_top = !self.show_new_on_top;
        let mut taken: VecDeque<Transaction> = VecDeque::new();
        std::mem::swap(&mut taken, &mut self.transactions);
        self.transactions = reversed(taken);
        self.scroll_state = ScrollState { offset: 0, selected: 0 };
    }

    /// Empties the log, resets the viewport and closes the detail view.
    pub fn clear_transactions(&mut self)
        requires
            old(self).wf(),
        ensures
            final(self).wf(),
            final(self).transactions@.len() == 0,
            final(self).scroll_state == (ScrollState { offset: 0, selected: 0 }),
            final(self).selected_transaction is None,
            !final(self).show_details,
            final(self).details_scroll_offset == old(self).details_scroll_offset,
            final(self).max_transactions == old(self).max_transactions,
            final(self).show_new_on_top == old(self).show_new_on_top,
            same_session(old(self), final(self)),
            same_modes(old(self), final(self)),
    {
        self.transactions.clear();
        self.scroll_state = ScrollState { offset: 0, selected: 0 };
        self.selected_transaction = None;
        self.show_details = false;
    }

    /// Opens the detail view on the selected record, when there is one.
    pub fn show_transaction_details(&mut self)
        requires
            old(self).wf(),
        ensures
            final(self).wf(),
            old(self).scroll_state.selected < old(self).transactions@.len() ==> {
                &&& final(self).selected_transaction == Some(
                    old(self).transactions@[old(self).scroll_state.selected as int],
                )
                &&& final(self).show_details
                &&& final(self).details_scroll_offset == 0
            },
            old(self).scroll_state.selected >= old(self).transactions@.len() ==> same_details(
                old(self),
                final(self),
            ),
            same_log(old(self), final(self)),
            same_session(old(self), final(self)),
            same_modes(old(self), final(self)),
    {
        let sel = self.scroll_state.selected;
        if sel < self.transactions.len() {
            let tx = self.transactions[sel].clone();
            self.selected_transaction = Some(tx);
            self.show_details = true;
            self.details_scroll_offset = 0;
        }
    }

    /// Opens the detail view on a record obtained by lookup.
    pub fn show_fetched_transaction(&mut self, tx: Transaction)
        ensures
            final(self).selected_transaction == Some(tx),
            final(self).show_details,
            final(self).details_scroll_offset == 0,
            same_log(old(self), final(self)),
            same_session(old(self), final(self)),
            same_modes(old(self), final(self)),
    {
        self.selected_transaction = Some(tx);
        self.show_details = true;
        self.details_scroll_offset = 0;
    }

    /// Closes the detail view.
    pub fn hide_transaction_details(&mut self)
        ensures
            !final(self).show_details,
            final(self).selected_transaction is None,
            final(self).details_scroll_offset == 0,
            same_log(old(self), final(self)),
            same_session(old(self), final(self)),
            same_modes(old(self), final(self)),
    {
        self.show_details = false;
        self.selected_transaction = None;
        self.details_scroll_offset = 0;
    }

    /// Scrolls the detail view one line up, stopping at the top.
    pub fn scroll_details_up(&mut self)
        ensures
            final(self).details_scroll_offset == if old(self).details_scroll_offset > 0 {
                old(self).details_scroll_offset - 1
            } else {
                0
            },
            final(self).show_details == old(self).show_details,
            final(self).selected_transaction == old(self).selected_transaction,
            same_log(old(self), final(self)),
            same_session(old(self), final(self)),
            same_modes(old(self), final(self)),
    {
        self.details_scroll_offset = self.details_scroll_offset.saturating_sub(1);
    }

    /// Scrolls the detail view one line down.
    pub fn scroll_details_down(&mut self)
        ensures
            final(self).details_scroll_offset == if old(self).details_scroll_offset < usize::MAX {
                old(self).details_scroll_offset + 1
            } else {
                usize::MAX as int
            },
            final(self).show_details == old(self).show_details,
            final(self).selected_transaction == old(self).selected_transaction,
            same_log(old(self), final(self)),
            same_session(old(self), final(self)),
            same_modes(old(self), final(self)),
    {
        self.details_scroll_offset = self.details_scroll_offset.saturating_add(1);
    }

    /// Scrolls the detail view one page up, stopping at the top.
    pub fn scroll_details_page_up(&mut self)
        ensures
            final(self).details_scroll_offset == if old(self).details_scroll_offset
                > DETAILS_PAGE_SIZE {
                old(self).details_scroll_offset - DETAILS_PAGE_SIZE
            } else {
                0
            },
            final(self).show_details == old(self).show_details,
            final(self).selected_transaction == old(self).selected_transaction,
            same_log(old(self), final(self)),
            same_session(old(self), final(self)),
            same_modes(old(self), final(self)),
    {
        self.details_scroll_offset = self.details_scroll_offset.saturating_sub(DETAILS_PAGE_SIZE);
    }

    /// Scrolls the detail view one page down.
    pub fn scroll_details_page_down(&mut self)
        ensures
            final(self).details_scroll_offset == if old(self).details_scroll_offset
                + DETAILS_PAGE_SIZE <= usize::MAX {
                old(self).details_scroll_offset + DETAILS_PAGE_SIZE
            } else {
                usize::MAX as int
            },
            final(self).show_details == old(self).show_details,
            final(self).selected_transaction == old(self).selected_transaction,
            same_log(old(self), final(self)),
            same_session(old(self), final(self)),
            same_modes(old(self), final(self)),
    {
        self.details_scroll_offset = self.details_scroll_offset.saturating_add(DETAILS_PAGE_SIZE);
    }

    /// Positions, in log order, of the records that match the filter.
    pub fn filtered_indices(&self) -> (r: Vec<usize>)
        ensures
            forall|k: int| 0 <= k < r@.len() ==> r@[k] < self.transactions@.len(),
            forall|k: int, l: int| 0 <= k < l < r@.len() ==> r@[k] < r@[l],
            forall|i: int|
                0 <= i < self.transactions@.len() ==> (r@.contains(i as usize) <==> record_matches(
                    self.filter@.query,
                    #[trigger] self.transactions@[i],
                )),
    {
        let mut r: Vec<usize> = Vec::new();
        let n = self.transactions.len();
        let mut i: usize = 0;
        while i < n
            invariant
                n == self.transactions@.len(),
                i <= n,
                forall|k: int| 0 <= k < r@.len() ==> r@[k] < i,
                forall|k: int, l: int| 0 <= k < l < r@.len() ==> r@[k] < r@[l],
                forall|j: int|
                    0 <= j < i ==> (r@.contains(j as usize) <==> record_matches(
                        self.filter@.query,
                        #[trigger] self.transactions@[j],
                    )),
            decreases n - i,
        {
            let m = self.filter.matches(&self.transactions[i]);
            let ghost before = r@;
            if m {
                r.push(i);
            }
            assert forall|j: int|
                0 <= j < i + 1 implies (r@.contains(j as usize) <==> record_matches(
                self.filter@.query,
                #[trigger] self.transactions@[j],
            )) by {
                if j < i {
                    if r@.contains(j as usize) {
                        let k = choose|k: int| 0 <= k < r@.len() && r@[k] == j as usize;
                        if k < before.len() {
                            assert(before[k] == j as usize);
                        }
                    }
                    if before.contains(j as usize) {
                        let k = choose|k: int| 0 <= k < before.len() && before[k] == j as usize;
                        assert(r@[k] == j as usize);
                    }
                } else {
                    if m {
                        assert(r@[r@.len() - 1] == i);
                    } else {
                        if r@.contains(i) {
                            let k = choose|k: int| 0 <= k < r@.len() && r@[k] == i;
                        }
                    }
                }
            }
            i = i + 1;
        }
        r
    }
}

/// Any sequence of insertions keeps a log that starts within its capacity
/// within that capacity.
pub proof fn lemma_inserts_stay_bounded(
    log: Seq<Transaction>,
    cap: usize,
    new_on_top: bool,
    txs: Seq<Transaction>,
)
    requires
        log.len() <= cap,
    ensures
        after_inserts(log, cap, new_on_top, txs).len() <= cap,
    decreases txs.len(),
{
    if txs.len() > 0 {
        lemma_inserts_stay_bounded(log, cap, new_on_top, txs.drop_last());
    }
}

/// Every viewport step, and the adjustment made on insertion, keeps the
/// cursor inside the log, the offset at or before the cursor and the cursor
/// inside the window: `0 <= selected < max(length, 1)` and
/// `offset <= selected < offset + VIEWPORT_HEIGHT`.
pub proof fn lemma_viewport_steps_keep_bounds(
    s: ScrollState,
    log: Seq<Transaction>,
    cap: usize,
    new_on_top: bool,
    tx: Transaction,
)
    requires
        viewport_ok(s, log.len()),
        log.len() <= usize::MAX,
    ensures
        viewport_ok(scroll_up_spec(s), log.len()),
        viewport_ok(scroll_down_spec(s, log.len()), log.len()),
        viewport_ok(bottom_spec(log.len()), log.len()),
        viewport_ok(ScrollState { offset: 0, selected: 0 }, log.len()),
        viewport_ok(
            scroll_after_insert(s, log, cap, new_on_top),
            after_insert(log, cap, new_on_top, tx).len(),
        ),
{
}

/// Toggling the direction twice restores the stored order.
pub proof fn lemma_toggle_twice_restores(log: Seq<Transaction>)
    ensures
        log.reverse().reverse() == log,
{
    assert(log.reverse().reverse() =~= log);
}

/// Into an empty log, at most `cap` insertions in prepend mode leave the
/// records in reverse order of insertion.
pub proof fn lemma_prepend_reverses(cap: usize, txs: Seq<Transaction>)
    requires
        txs.len() <= cap,
    ensures
        after_inserts(Seq::empty(), cap, true, txs) == txs.reverse(),
    decreases txs.len(),
{
    if txs.len() > 0 {
        lemma_prepend_reverses(cap, txs.drop_last());
        assert(seq![txs.last()] + txs.drop_last().reverse() =~= txs.reverse());
    } else {
        assert(txs.reverse() =~= Seq::<Transaction>::empty());
    }
}

/// Into an empty log, at most `cap` insertions in append mode leave the
/// records in order of insertion.
pub proof fn lemma_append_keeps_order(cap: usize, txs: Seq<Transaction>)
    requires
        txs.len() <= cap,
    ensures
        after_inserts(Seq::empty(), cap, false, txs) == txs,
    decreases txs.len(),
{
    if txs.len() > 0 {
        lemma_append_keeps_order(cap, txs.drop_last());
        assert(txs.drop_last().push(txs.last()) =~= txs);
    } else {
        assert(txs =~= Seq::<Transaction>::empty());
    }
}

/// `x` capped at `u64::MAX`.
pub open spec fn min_u64(x: int) -> u64 {
    if x > u64::MAX {
        u64::MAX
    } else {
        x as u64
    }
}

} // verus!
