//! The render loop's state and exit logic. Each iteration first checks
//! a one-way close flag, then swaps buffers, polls events, processes the
//! polled batch — an Escape press requests close — and issues exactly
//! one draw. Once the flag is set, the next iteration check stops the
//! loop, so no draw follows the close request's iteration.

use vstd::prelude::*;

verus! {

/// Width of the window in pixels.
pub const WINDOW_WIDTH: u32 = 1080;

/// Height of the window in pixels.
pub const WINDOW_HEIGHT: u32 = 720;

/// Major version of the graphics context the window asks for.
pub const CONTEXT_MAJOR: u32 = 3;

/// Minor version of the graphics context the window asks for.
pub const CONTEXT_MINOR: u32 = 3;

/// The window's title text.
pub fn window_title() -> (t: &'static str)
    ensures
        t@ == "Hello Triangle from Rust GL"@,
        t@.len() > 0,
{
    proof {
        reveal_strlit("Hello Triangle from Rust GL");
    }
    "Hello Triangle from Rust GL"
}

/// A key as the loop distinguishes it: only Escape matters.
#[derive(Clone, Copy, PartialEq, Eq, Structural, Debug)]
pub enum LoopKey {
    Escape,
    Other,
}

/// What happened to the key in one event.
#[derive(Clone, Copy, PartialEq, Eq, Structural, Debug)]
pub enum KeyMotion {
    Press,
    Release,
    Repeat,
}

/// One polled key event.
#[derive(Clone, Copy, PartialEq, Eq, Structural, Debug)]
pub struct KeyEvent {
    pub key: LoopKey,
    pub motion: KeyMotion,
}

/// Whether one event asks the loop to close: an Escape press, and
/// nothing else.
pub open spec fn is_exit_request(e: KeyEvent) -> bool {
    e.key is Escape && e.motion is Press
}

/// Whether this event makes the loop request close.
pub fn requests_exit(e: &KeyEvent) -> (r: bool)
    ensures
        r == is_exit_request(*e),
{
    match (e.key, e.motion) {
        (LoopKey::Escape, KeyMotion::Press) => true,
        _ => false,
    }
}

/// The loop's whole state: the one-way close flag and a count of draws
/// issued so far.
#[derive(Clone, Copy, PartialEq, Eq, Structural, Debug)]
pub struct LoopState {
    pub close_requested: bool,
    pub frames_drawn: u64,
}

/// The state after one polled batch is processed: the close flag is set
/// exactly when it already was or some event in the batch asks to exit;
/// nothing is drawn by processing alone.
pub open spec fn after_events(s: LoopState, events: Seq<KeyEvent>) -> LoopState {
    LoopState {
        close_requested: s.close_requested || exists|i: int|
            0 <= i < events.len() && is_exit_request(events[i]),
        frames_drawn: s.frames_drawn,
    }
}

/// Whether the iteration check lets the loop run another frame.
pub open spec fn continues(s: LoopState) -> bool {
    !s.close_requested
}

/// The state after one full loop iteration on the polled batch: events
/// are processed, then the iteration's single draw is issued.
pub open spec fn iteration(s: LoopState, events: Seq<KeyEvent>) -> LoopState {
    LoopState {
        close_requested: after_events(s, events).close_requested,
        frames_drawn: (after_events(s, events).frames_drawn + 1) as u64,
    }
}

impl LoopState {
    /// The loop's starting state: no close request, nothing drawn.
    pub fn start() -> (s: Self)
        ensures
            !s.close_requested,
            s.frames_drawn == 0,
    {
        LoopState { close_requested: false, frames_drawn: 0 }
    }

    /// The per-iteration check: run another frame only while no close
    /// was requested.
    pub fn should_run(&self) -> (r: bool)
        ensures
            r == continues(*self),
    {
        !self.close_requested
    }

    /// Process one polled batch of key events.
    pub fn process_events(&mut self, events: &Vec<KeyEvent>)
        ensures
            *final(self) == after_events(*old(self), events@),
    {
        let n = events.len();
        let mut i: usize = 0;
        while i < n
            invariant
                i <= n,
                n == events@.len(),
                self.frames_drawn == old(self).frames_drawn,
                self.close_requested == (old(self).close_requested || exists|k: int|
                    0 <= k < i && is_exit_request(events@[k])),
            decreases n - i,
        {
            if requests_exit(&events[i]) {
                self.close_requested = true;
            }
            i = i + 1;
        }
    }

    /// Record the iteration's single draw call.
    pub fn record_draw(&mut self)
        requires
            old(self).frames_drawn < u64::MAX,
        ensures
            final(self).frames_drawn == old(self).frames_drawn + 1,
            final(self).close_requested == old(self).close_requested,
    {
        self.frames_drawn = self.frames_drawn + 1;
    }

    /// One full loop iteration: process the polled batch, then draw.
    pub fn run_iteration(&mut self, events: &Vec<KeyEvent>)
        requires
            continues(*old(self)),
            old(self).frames_drawn < u64::MAX,
        ensures
            *final(self) == iteration(*old(self), events@),
    {
        self.process_events(events);
        self.record_draw();
    }
}

/// Law: when some event of the polled batch requests exit, the close
/// flag is set once the batch is processed, the iteration that polled
/// it still issues its one draw, and the next iteration check stops the
/// loop — no draw is issued after the close request.
pub proof fn lemma_escape_stops_loop(s: LoopState, events: Seq<KeyEvent>)
    requires
        continues(s),
        s.frames_drawn < u64::MAX,
        exists|i: int| 0 <= i < events.len() && is_exit_request(events[i]),
    ensures
        after_events(s, events).close_requested,
        !continues(iteration(s, events)),
        iteration(s, events).frames_drawn == s.frames_drawn + 1,
{
}

/// Law: the close flag is one-way — processing a batch never clears a
/// close request already made, and a batch with no exit request leaves
/// the flag exactly as it was.
pub proof fn lemma_close_flag_one_way(s: LoopState, events: Seq<KeyEvent>)
    ensures
        s.close_requested ==> after_events(s, events).close_requested,
        (forall|i: int| 0 <= i < events.len() ==> !is_exit_request(events[i]))
            ==> after_events(s, events).close_requested == s.close_requested,
{
}

} // verus!
