//! The decisions of the event loop. The loop itself waits on its four
//! sources (keys, records, application events, the render clock) and calls
//! one of these for whichever is ready.

use crate::batch::{add_outcome, elapsed, timeout_outcome, TransactionBatch};
use crate::handler::{event_step, handle_event, handle_key_event, key_step, AppEvent, KeyEvent};
use crate::record::Transaction;
use crate::render::{RenderState, FRAME_TIME_MS};
use crate::state::{after_inserts, counted, same_details, same_modes, scroll_after_inserts, AppState};
use vstd::prelude::*;

verus! {

/// Applies records to the log in order.
pub fn apply_batch(state: &mut AppState, batch: Vec<Transaction>, now_ms: u64)
    requires
        old(state).wf(),
    ensures
        final(state).wf(),
        final(state).transactions@ == after_inserts(
            old(state).transactions@,
            old(state).max_transactions,
            old(state).show_new_on_top,
            batch@,
        ),
        final(state).scroll_state == scroll_after_inserts(
            old(state).scroll_state,
            old(state).transactions@,
            old(state).max_transactions,
            old(state).show_new_on_top,
            batch@,
        ),
        final(state).stats.total_transactions == counted(
            old(state).stats.total_transactions,
            batch@.len(),
        ),
        final(state).stats.connected == old(state).stats.connected,
        final(state).stats.last_error == old(state).stats.last_error,
        final(state).stats.start_time == old(state).stats.start_time,
        final(state).config == old(state).config,
        final(state).max_transactions == old(state).max_transactions,
        final(state).show_new_on_top == old(state).show_new_on_top,
        final(state).should_quit == old(state).should_quit,
        same_details(old(state), final(state)),
        same_modes(old(state), final(state)),
{
    let ghost orig = batch@;
    let n = batch.len();
    let mut rest = batch;
    let mut i: usize = 0;
    while rest.len() > 0
        invariant
            state.wf(),
            n == orig.len(),
            i + rest@.len() == orig.len(),
            rest@ == orig.subrange(i as int, orig.len() as int),
            state.transactions@ == after_inserts(
                old(state).transactions@,
                old(state).max_transactions,
                old(state).show_new_on_top,
                orig.subrange(0, i as int),
            ),
            state.scroll_state == scroll_after_inserts(
                old(state).scroll_state,
                old(state).transactions@,
                old(state).max_transactions,
                old(state).show_new_on_top,
                orig.subrange(0, i as int),
            ),
            state.stats.total_transactions == counted(old(state).stats.total_transactions, i as nat),
            state.stats.connected == old(state).stats.connected,
            state.stats.last_error == old(state).stats.last_error,
            state.stats.start_time == old(state).stats.start_time,
            state.config == old(state).config,
            state.max_transactions == old(state).max_transactions,
            state.show_new_on_top == old(state).show_new_on_top,
            state.should_quit == old(state).should_quit,
            same_details(old(state), state),
            same_modes(old(state), state),
        decreases rest@.len(),
    {
        let tx = rest.remove(0);
        state.add_transaction(tx, now_ms);
        proof {
            let p = orig.subrange(0, i + 1);
            assert(p.drop_last() =~= orig.subrange(0, i as int));
            assert(p.last() == tx);
        }
        i = i + 1;
        assert(rest@ =~= orig.subrange(i as int, orig.len() as int));
    }
    assert(orig.subrange(0, i as int) =~= orig);
    assert(i == orig.len());
}

/// Applying two batches one after the other is applying all their records
/// in arrival order: batching never reorders records.
pub proof fn lemma_batches_compose(
    log: Seq<Transaction>,
    cap: usize,
    new_on_top: bool,
    first: Seq<Transaction>,
    second: Seq<Transaction>,
)
    ensures
        after_inserts(after_inserts(log, cap, new_on_top, first), cap, new_on_top, second)
            == after_inserts(log, cap, new_on_top, first + second),
    decreases second.len(),
{
    if second.len() == 0 {
        assert(first + second =~= first);
    } else {
        lemma_batches_compose(log, cap, new_on_top, first, second.drop_last());
        assert((first + second).drop_last() =~= first + second.drop_last());
        assert((first + second).last() == second.last());
    }
}

/// The loop's own state: the render throttle and the pending batch.
#[derive(Debug)]
pub struct EventLoop {
    pub render: RenderState,
    pub batch: TransactionBatch,
}

impl EventLoop {
    /// Starts at `now_ms` with a draw wanted and an empty batch.
    pub fn new(now_ms: u64) -> (r: Self)
        ensures
            r.render.needs_render,
            r.render.last_render_ms == now_ms,
            r.batch@.items.len() == 0,
            r.batch@.since_ms == now_ms,
    {
        EventLoop { render: RenderState::new(now_ms), batch: TransactionBatch::new(now_ms) }
    }

    /// A key arrived: dispatch it and want a draw. Returns whether the loop
    /// must stop.
    pub fn on_key(&mut self, state: &mut AppState, key: KeyEvent) -> (quit: bool)
        requires
            old(state).wf(),
        ensures
            final(state).wf(),
            key_step(old(state), final(state), key),
            final(self).render.needs_render,
            final(self).render.last_render_ms == old(self).render.last_render_ms,
            final(self).batch@ == old(self).batch@,
            quit == final(state).should_quit,
    {
        handle_key_event(key, state);
        self.render.request_render();
        state.should_quit
    }

    /// A record arrived: batch it; when the batch is handed out, apply it
    /// in order and want a draw.
    pub fn on_record(&mut self, state: &mut AppState, tx: Transaction, now_ms: u64)
        requires
            old(state).wf(),
        ensures
            final(state).wf(),
            final(self).batch@ == add_outcome(old(self).batch@, tx, now_ms).0,
            match add_outcome(old(self).batch@, tx, now_ms).1 {
                Some(items) => {
                    &&& final(state).transactions@ == after_inserts(
                        old(state).transactions@,
                        old(state).max_transactions,
                        old(state).show_new_on_top,
                        items,
                    )
                    &&& final(state).scroll_state == scroll_after_inserts(
                        old(state).scroll_state,
                        old(state).transactions@,
                        old(state).max_transactions,
                        old(state).show_new_on_top,
                        items,
                    )
                    &&& final(state).stats.total_transactions == counted(
                        old(state).stats.total_transactions,
                        items.len(),
                    )
                    &&& final(self).render.needs_render
                },
                None => {
                    &&& *final(state) == *old(state)
                    &&& final(self).render == old(self).render
                },
            },
    {
        let out = self.batch.add(tx, now_ms);
        match out {
            Some(items) => {
                apply_batch(state, items, now_ms);
                self.render.request_render();
            },
            None => {},
        }
    }

    /// An application event arrived: apply it and want a draw.
    pub fn on_app_event(&mut self, state: &mut AppState, event: AppEvent, now_ms: u64)
        requires
            old(state).wf(),
        ensures
            final(state).wf(),
            event_step(old(state), final(state), event, now_ms),
            final(self).render.needs_render,
            final(self).batch@ == old(self).batch@,
    {
        handle_event(event, state, now_ms);
        self.render.request_render();
    }

    /// The render clock ticked: apply a batch that waited past its timeout,
    /// then report whether a frame is due; a due frame counts as drawn at
    /// `now_ms`.
    pub fn on_tick(&mut self, state: &mut AppState, now_ms: u64) -> (draw: bool)
        requires
            old(state).wf(),
        ensures
            final(state).wf(),
            final(self).batch@ == timeout_outcome(old(self).batch@, now_ms).0,
            match timeout_outcome(old(self).batch@, now_ms).1 {
                Some(items) => {
                    &&& final(state).transactions@ == after_inserts(
                        old(state).transactions@,
                        old(state).max_transactions,
                        old(state).show_new_on_top,
                        items,
                    )
                    &&& final(state).scroll_state == scroll_after_inserts(
                        old(state).scroll_state,
                        old(state).transactions@,
                        old(state).max_transactions,
                        old(state).show_new_on_top,
                        items,
                    )
                    &&& final(state).stats.total_transactions == counted(
                        old(state).stats.total_transactions,
                        items.len(),
                    )
                },
                None => *final(state) == *old(state),
            },
            draw == ((old(self).render.needs_render || timeout_outcome(
                old(self).batch@,
                now_ms,
            ).1 is Some) && elapsed(old(self).render.last_render_ms, now_ms) >= FRAME_TIME_MS),
            draw ==> !final(self).render.needs_render && final(self).render.last_render_ms
                == now_ms,
    {
        let out = self.batch.flush_if_timeout(now_ms);
        match out {
            Some(items) => {
                apply_batch(state, items, now_ms);
                self.render.request_render();
            },
            None => {},
        }
        let draw = self.render.should_render(now_ms);
        if draw {
            self.render.mark_rendered(now_ms);
        }
        draw
    }
}

} // verus!
