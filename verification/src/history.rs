//! What holds of a coordinator over whole sequences of events.

use vstd::prelude::*;
use crate::command::{ClearValues, Command, DrawCall};
use crate::coordinator::LoopState;
use crate::event::Event;

verus! {

/// `ticks` advanced by `frames`, stopping at the largest count.
pub open spec fn ticks_after(ticks: u64, frames: nat) -> u64 {
    if ticks + frames <= u64::MAX {
        (ticks + frames) as u64
    } else {
        u64::MAX
    }
}

/// The number of redraw requests among `events`.
pub open spec fn redraw_count(events: Seq<Event>) -> nat
    decreases events.len(),
{
    if events.len() == 0 {
        0
    } else if events[0] == Event::RedrawRequested {
        1 + redraw_count(events.skip(1))
    } else {
        redraw_count(events.skip(1))
    }
}

/// `frames` redraw requests in a row.
pub open spec fn redraws(frames: nat) -> Seq<Event> {
    Seq::new(frames, |i: int| Event::RedrawRequested)
}

impl LoopState {
    /// The state after a sequence of events, handled first to last.
    pub open spec fn run(self, events: Seq<Event>) -> LoopState
        decreases events.len(),
    {
        if events.len() == 0 {
            self
        } else {
            self.next(events[0]).run(events.skip(1))
        }
    }

    /// Every command issued while a sequence of events is handled, in order.
    pub open spec fn trace(self, events: Seq<Event>) -> Seq<Command>
        decreases events.len(),
    {
        if events.len() == 0 {
            seq![]
        } else {
            self.commands(events[0]) + self.next(events[0]).trace(events.skip(1))
        }
    }
}

/// A sequence of one event is handled as that event is.
pub proof fn lemma_run_single(state: LoopState, event: Event)
    ensures
        state.run(seq![event]) == state.next(event),
        state.trace(seq![event]) == state.commands(event),
{
    let one = seq![event];
    let none = one.skip(1);
    assert(none.len() == 0);
    assert(state.next(event).run(none) == state.next(event));
    assert(state.next(event).trace(none) == Seq::<Command>::empty());
    assert(state.trace(one) =~= state.commands(event));
}

/// Handling two sequences one after the other is handling their concatenation.
pub proof fn lemma_run_concat(state: LoopState, first: Seq<Event>, second: Seq<Event>)
    ensures
        state.run(first + second) == state.run(first).run(second),
        state.trace(first + second) == state.trace(first) + state.run(first).trace(second),
    decreases first.len(),
{
    if first.len() == 0 {
        assert(first + second =~= second);
        assert(state.trace(first) + state.trace(second) =~= state.trace(second));
    } else {
        let rest = first.skip(1);
        assert((first + second).skip(1) =~= rest + second);
        assert((first + second)[0] == first[0]);
        lemma_run_concat(state.next(first[0]), rest, second);
        let after = state.next(first[0]);
        assert(state.trace(first + second) =~= state.commands(first[0]) + (after.trace(rest)
            + after.run(rest).trace(second)));
        assert(state.trace(first) + state.run(first).trace(second) =~= state.commands(first[0])
            + (after.trace(rest) + after.run(rest).trace(second)));
    }
}

/// After a close request nothing changes any more and nothing is asked of the
/// host, whatever events still arrive.
pub proof fn lemma_closed_is_terminal(state: LoopState, events: Seq<Event>)
    requires
        state.closed,
    ensures
        state.run(events) == state,
        state.trace(events) == Seq::<Command>::empty(),
    decreases events.len(),
{
    if events.len() > 0 {
        lemma_closed_is_terminal(state, events.skip(1));
        assert(state.trace(events) =~= Seq::<Command>::empty());
    }
}

/// The frame count never decreases and is never reset, the options never
/// change, and a closed coordinator stays closed.
pub proof fn lemma_run_keeps(state: LoopState, events: Seq<Event>)
    ensures
        state.run(events).ticks >= state.ticks,
        state.run(events).options == state.options,
        state.closed ==> state.run(events).closed,
    decreases events.len(),
{
    if events.len() > 0 {
        lemma_run_keeps(state.next(events[0]), events.skip(1));
    }
}

/// While no close request arrives, the frame count advances by one for each
/// redraw request and by nothing else, however the requests are interleaved
/// with other events.
pub proof fn lemma_ticks_count_redraws(state: LoopState, events: Seq<Event>)
    requires
        !state.closed,
        forall|i: int| 0 <= i < events.len() ==> events[i] != Event::CloseRequested,
    ensures
        !state.run(events).closed,
        state.run(events).ticks == ticks_after(state.ticks, redraw_count(events)),
    decreases events.len(),
{
    if events.len() > 0 {
        let rest = events.skip(1);
        assert(events[0] != Event::CloseRequested);
        assert forall|i: int| 0 <= i < rest.len() implies rest[i] != Event::CloseRequested by {
            assert(rest[i] == events[i + 1]);
        }
        lemma_ticks_count_redraws(state.next(events[0]), rest);
    }
}

/// The draw call of the `k`-th frame (from 0) that an open coordinator in
/// `state` renders, if the viewport is not resized meanwhile.
pub open spec fn nth_draw(state: LoopState, k: nat) -> DrawCall {
    DrawCall {
        tick: ticks_after(state.ticks, k + 1),
        viewport: state.viewport,
        depth_test: true,
        depth_write: true,
        cull_backfaces: state.options.cull_backfaces,
        textures: state.options.textures,
    }
}

/// The commands of one whole frame.
pub open spec fn frame_commands(draw: DrawCall) -> Seq<Command> {
    seq![
        Command::BeginFrame,
        Command::Clear(ClearValues::fixed()),
        Command::Draw(draw),
        Command::Present,
    ]
}

/// The `k`-th group of four commands in `trace`.
pub open spec fn frame_at(trace: Seq<Command>, k: int) -> Seq<Command> {
    trace.subrange(4 * k, 4 * k + 4)
}

/// Driving an open coordinator through `frames` redraw requests advances the
/// frame count by `frames` and changes nothing else. For each request the host
/// is asked for exactly one frame: begin, one clear, one draw, one present, in
/// that order, and the draw calls carry consecutive frame numbers.
pub proof fn lemma_redraws_render_one_frame_each(state: LoopState, frames: nat)
    requires
        !state.closed,
    ensures
        state.run(redraws(frames)) == (LoopState {
            ticks: ticks_after(state.ticks, frames),
            ..state
        }),
        state.trace(redraws(frames)).len() == 4 * frames,
        forall|k: int|
            0 <= k < frames ==> #[trigger] frame_at(state.trace(redraws(frames)), k)
                == frame_commands(nth_draw(state, k as nat)),
    decreases frames,
{
    let events = redraws(frames);
    if frames > 0 {
        let after = state.next(Event::RedrawRequested);
        let rest = redraws((frames - 1) as nat);
        assert(events.skip(1) =~= rest);
        assert(events[0] == Event::RedrawRequested);
        lemma_redraws_render_one_frame_each(after, (frames - 1) as nat);
        let head = state.commands(Event::RedrawRequested);
        let tail = after.trace(rest);
        assert(state.trace(events) == head + tail);
        assert(head.len() == 4);
        assert forall|k: int| 0 <= k < frames implies #[trigger] frame_at(state.trace(events), k)
            == frame_commands(nth_draw(state, k as nat)) by {
            if k == 0 {
                assert(nth_draw(state, 0) == state.next_draw());
                assert(frame_at(head + tail, 0) =~= head);
            } else {
                let j = k - 1;
                assert(frame_at(tail, j) == frame_commands(nth_draw(after, j as nat)));
                assert(frame_at(head + tail, k) =~= frame_at(tail, j));
                assert(nth_draw(after, j as nat) == nth_draw(state, k as nat));
            }
        }
    } else {
        assert(state.trace(events) =~= Seq::<Command>::empty());
    }
}

/// A coordinator that starts fresh and handles `frames` redraw requests has
/// counted exactly `frames`, as long as the count fits in 64 bits.
pub proof fn lemma_fresh_run_counts_frames(start: LoopState, frames: nat)
    requires
        start.ticks == 0,
        !start.closed,
        frames <= u64::MAX,
    ensures
        start.run(redraws(frames)).ticks == frames,
{
    lemma_redraws_render_one_frame_each(start, frames);
}

} // verus!
