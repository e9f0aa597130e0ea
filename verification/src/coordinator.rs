//! The frame loop coordinator: a state machine from host events to commands.

use vstd::prelude::*;
use crate::command::{ClearValues, Command, DrawCall, RenderOptions};
use crate::event::Event;
use crate::history::{lemma_run_concat, lemma_run_single};
use crate::viewport::ViewportSize;

verus! {

/// The state of a coordinator as contracts speak of it.
pub struct LoopState {
    /// Frames rendered so far; the animation phase is a fixed multiple of it.
    pub ticks: u64,
    /// The size last reported by the host.
    pub viewport: ViewportSize,
    pub options: RenderOptions,
    /// A close request has been handled: the state is terminal.
    pub closed: bool,
}

impl LoopState {
    pub open spec fn initial(viewport: ViewportSize, options: RenderOptions) -> LoopState {
        LoopState { ticks: 0, viewport, options, closed: false }
    }

    /// The frame count after one more frame. It stops at the largest value
    /// rather than starting over, so it never decreases.
    pub open spec fn advanced_ticks(self) -> u64 {
        if self.ticks < u64::MAX {
            (self.ticks + 1) as u64
        } else {
            self.ticks
        }
    }

    /// The draw call of the next frame.
    pub open spec fn next_draw(self) -> DrawCall {
        DrawCall {
            tick: self.advanced_ticks(),
            viewport: self.viewport,
            depth_test: true,
            depth_write: true,
            cull_backfaces: self.options.cull_backfaces,
            textures: self.options.textures,
        }
    }

    /// The state after `event`.
    pub open spec fn next(self, event: Event) -> LoopState {
        if self.closed {
            self
        } else {
            match event {
                Event::CloseRequested => LoopState { closed: true, ..self },
                Event::Resized(size) => LoopState { viewport: size, ..self },
                Event::RedrawRequested => LoopState { ticks: self.advanced_ticks(), ..self },
                Event::AboutToWait => self,
                Event::Other => self,
            }
        }
    }

    /// What the host is asked to do for `event`, in order.
    pub open spec fn commands(self, event: Event) -> Seq<Command> {
        if self.closed {
            seq![]
        } else {
            match event {
                Event::CloseRequested => seq![Command::Exit],
                Event::Resized(size) => seq![Command::ResizeSurface(size)],
                Event::RedrawRequested => seq![
                    Command::BeginFrame,
                    Command::Clear(ClearValues::fixed()),
                    Command::Draw(self.next_draw()),
                    Command::Present,
                ],
                Event::AboutToWait => seq![Command::RequestRedraw],
                Event::Other => seq![],
            }
        }
    }
}

/// Owns the animation state and the cached viewport of one render loop.
///
/// The frame count starts at 0 and changes only in [`Coordinator::handle`], on
/// a redraw request.
#[derive(Debug)]
pub struct Coordinator {
    ticks: u64,
    viewport: ViewportSize,
    options: RenderOptions,
    closed: bool,
}

impl View for Coordinator {
    type V = LoopState;

    closed spec fn view(&self) -> LoopState {
        LoopState {
            ticks: self.ticks,
            viewport: self.viewport,
            options: self.options,
            closed: self.closed,
        }
    }
}

impl Coordinator {
    /// A coordinator that has rendered nothing yet, for a surface of the given size.
    pub fn new(viewport: ViewportSize, options: RenderOptions) -> (coordinator: Coordinator)
        ensures
            coordinator@ == LoopState::initial(viewport, options),
    {
        Coordinator { ticks: 0, viewport, options, closed: false }
    }

    /// Handles one event: updates the state and returns the commands that the
    /// host must carry out, in order, before it delivers the next event.
    pub fn handle(&mut self, event: Event) -> (commands: Vec<Command>)
        ensures
            final(self)@ == old(self)@.next(event),
            commands@ == old(self)@.commands(event),
    {
        let mut commands: Vec<Command> = Vec::new();
        if self.closed {
            return commands;
        }
        match event {
            Event::CloseRequested => {
                self.closed = true;
                commands.push(Command::Exit);
            },
            Event::Resized(size) => {
                self.viewport = size;
                commands.push(Command::ResizeSurface(size));
            },
            Event::RedrawRequested => {
                if self.ticks < u64::MAX {
                    self.ticks = self.ticks + 1;
                }
                let draw = DrawCall {
                    tick: self.ticks,
                    viewport: self.viewport,
                    depth_test: true,
                    depth_write: true,
                    cull_backfaces: self.options.cull_backfaces,
                    textures: self.options.textures,
                };
                commands.push(Command::BeginFrame);
                commands.push(Command::Clear(ClearValues::every_frame()));
                commands.push(Command::Draw(draw));
                commands.push(Command::Present);
            },
            Event::AboutToWait => {
                commands.push(Command::RequestRedraw);
            },
            Event::Other => {},
        }
        assert(commands@ =~= old(self)@.commands(event));
        commands
    }

    /// Handles `events` first to last, as [`Coordinator::handle`] does each,
    /// and returns every command issued on the way, in order.
    pub fn handle_all(&mut self, events: &[Event]) -> (commands: Vec<Command>)
        ensures
            final(self)@ == old(self)@.run(events@),
            commands@ == old(self)@.trace(events@),
    {
        let mut commands: Vec<Command> = Vec::new();
        let mut done: usize = 0;
        proof {
            assert(events@.take(0) =~= Seq::<Event>::empty());
        }
        while done < events.len()
            invariant
                done <= events.len(),
                self@ == old(self)@.run(events@.take(done as int)),
                commands@ == old(self)@.trace(events@.take(done as int)),
            decreases events.len() - done,
        {
            let event = events[done];
            proof {
                let before = events@.take(done as int);
                let one = seq![event];
                assert(events@.take(done + 1) =~= before + one);
                lemma_run_single(self@, event);
                lemma_run_concat(old(self)@, before, one);
            }
            let mut issued = self.handle(event);
            commands.append(&mut issued);
            done = done + 1;
        }
        proof {
            assert(events@.take(done as int) =~= events@);
        }
        commands
    }

    /// Frames rendered so far.
    pub fn ticks(&self) -> (ticks: u64)
        ensures
            ticks == self@.ticks,
    {
        self.ticks
    }

    /// The size that the next frame's projection is computed for.
    pub fn viewport(&self) -> (viewport: ViewportSize)
        ensures
            viewport == self@.viewport,
    {
        self.viewport
    }

    pub fn options(&self) -> (options: RenderOptions)
        ensures
            options == self@.options,
    {
        self.options
    }

    /// Whether a close request has been handled.
    pub fn is_closed(&self) -> (closed: bool)
        ensures
            closed == self@.closed,
    {
        self.closed
    }
}

} // verus!
