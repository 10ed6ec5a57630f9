//! The engine's window registry and the decisions of its event loop.
//!
//! The loop itself (waiting for the window system, drawing on the GPU) runs
//! outside this library: it hands each window event to [`Pine::handle_event`]
//! and carries out the [`Action`] that comes back.
use vstd::prelude::*;
use crate::windowing::{Window, WindowConfig};

verus! {

/// Whether the loop still has windows to serve.
#[derive(Debug, Clone, Copy, PartialEq, Eq, Structural)]
pub enum LoopState {
    Running,
    Shutdown,
}

/// An event that the window system reports for one window.
#[derive(Debug, Clone, Copy, PartialEq, Eq, Structural)]
pub enum WindowEvent {
    CloseRequested,
    /// The window's new inner size, in physical pixels.
    Resized { width: u32, height: u32 },
    RedrawRequested,
    ScaleFactorChanged,
    /// A key was pressed or released; `space` tells whether it was the space bar.
    KeyboardInput { space: bool },
    MouseWheel,
    Other,
}

/// What the loop has to do after an event.
#[derive(Debug, Clone, Copy, PartialEq, Eq, Structural)]
pub enum Action {
    /// Nothing beyond what the registry already did.
    Continue,
    /// Draw a frame for the window at this index of the registry.
    Redraw(usize),
    /// The event named a window that is not registered; it is ignored.
    UnknownWindow,
    /// The last window is closed: leave the loop.
    Exit,
}

/// Whether `i` is the first index of a window with identifier `id`.
pub open spec fn is_first_with_id<H>(ws: Seq<Window<H>>, id: u64, i: int) -> bool {
    &&& 0 <= i < ws.len()
    &&& ws[i].id == id
    &&& forall|k: int| 0 <= k < i ==> ws[k].id != id
}

/// The index of the first window with identifier `id`, or -1 when there is none.
pub open spec fn first_with_id<H>(ws: Seq<Window<H>>, id: u64) -> int {
    if exists|i: int| is_first_with_id(ws, id, i) {
        choose|i: int| is_first_with_id(ws, id, i)
    } else {
        -1
    }
}

/// The windows, state and action after `event` for window `id`, given the
/// windows and state before it.
///
/// Once shut down, nothing changes any more. Otherwise a close request
/// removes the window and shuts the loop down when no window is left; a
/// resize is applied to the window's renderer; a redraw asks for a frame of
/// that window. Events for unregistered windows change nothing, and the
/// other events are only observed.
pub open spec fn step<H>(ws: Seq<Window<H>>, state: LoopState, id: u64, event: WindowEvent) -> (
    Seq<Window<H>>,
    LoopState,
    Action,
) {
    let i = first_with_id(ws, id);
    if state == LoopState::Shutdown {
        (ws, state, Action::Continue)
    } else {
        match event {
            WindowEvent::CloseRequested => {
                let rest = if i >= 0 {
                    ws.remove(i)
                } else {
                    ws
                };
                if rest.len() == 0 {
                    (rest, LoopState::Shutdown, Action::Exit)
                } else {
                    (rest, LoopState::Running, Action::Continue)
                }
            },
            WindowEvent::Resized { width, height } => {
                if i >= 0 {
                    let w = ws[i];
                    (
                        ws.update(
                            i,
                            Window {
                                id: w.id,
                                handle: w.handle,
                                renderer: w.renderer.spec_resized(width, height),
                                clear_color: w.clear_color,
                            },
                        ),
                        state,
                        Action::Continue,
                    )
                } else {
                    (ws, state, Action::UnknownWindow)
                }
            },
            WindowEvent::RedrawRequested => {
                if i >= 0 {
                    (ws, state, Action::Redraw(i as usize))
                } else {
                    (ws, state, Action::UnknownWindow)
                }
            },
            _ => (ws, state, Action::Continue),
        }
    }
}

/// The engine: the open windows and the state of the loop that serves them.
#[derive(Debug)]
pub struct Pine<H> {
    windows: Vec<Window<H>>,
    state: LoopState,
}

impl<H> Pine<H> {
    /// The open windows.
    pub closed spec fn spec_windows(&self) -> Seq<Window<H>> {
        self.windows@
    }

    /// The state of the loop.
    pub closed spec fn spec_state(&self) -> LoopState {
        self.state
    }

    /// Starts with the windows given; the loop runs while there is at least one.
    pub fn new(windows: Vec<Window<H>>) -> (p: Pine<H>)
        ensures
            p.spec_windows() == windows@,
            (p.spec_state() == LoopState::Running) <==> p.spec_windows().len() > 0,
            p.spec_state() == (if windows@.len() == 0 {
                LoopState::Shutdown
            } else {
                LoopState::Running
            }),
    {
        let state = if windows.len() == 0 {
            LoopState::Shutdown
        } else {
            LoopState::Running
        };
        Pine { windows, state }
    }

    /// Starts a configuration to which windows can be added.
    pub fn app() -> (c: PineConfig)
        ensures
            c.window_configs@.len() == 0,
    {
        PineConfig::new()
    }

    /// The state of the loop.
    pub fn state(&self) -> (s: LoopState)
        ensures
            s == self.spec_state(),
    {
        self.state
    }

    /// Whether the loop is still running.
    pub fn is_running(&self) -> (b: bool)
        ensures
            b == (self.spec_state() == LoopState::Running),
    {
        self.state == LoopState::Running
    }

    /// The number of open windows.
    pub fn window_count(&self) -> (n: usize)
        ensures
            n == self.spec_windows().len(),
    {
        self.windows.len()
    }

    /// The open window at index `i`.
    pub fn window(&self, i: usize) -> (w: &Window<H>)
        requires
            i < self.spec_windows().len(),
        ensures
            *w == self.spec_windows()[i as int],
    {
        &self.windows[i]
    }

    /// The index of the first open window with identifier `id`.
    pub fn find(&self, id: u64) -> (r: Option<usize>)
        ensures
            r is None <==> first_with_id(self.spec_windows(), id) == -1,
            r matches Some(i) ==> i == first_with_id(self.spec_windows(), id),
    {
        let mut i: usize = 0;
        while i < self.windows.len()
            invariant
                0 <= i <= self.windows@.len(),
                forall|k: int| 0 <= k < i ==> self.windows@[k].id != id,
            decreases self.windows@.len() - i,
        {
            if self.windows[i].id == id {
                proof {
                    lemma_first_with_id(self.windows@, id, i as int);
                }
                return Some(i);
            }
            i = i + 1;
        }
        proof {
            if exists|j: int| is_first_with_id(self.windows@, id, j) {
                let j = choose|j: int| is_first_with_id(self.windows@, id, j);
                assert(self.windows@[j].id == id);
            }
        }
        None
    }

    /// Takes one window event into account, as [`step`] says, and returns
    /// what the loop has to do next.
    pub fn handle_event(&mut self, id: u64, event: WindowEvent) -> (a: Action)
        ensures
            (final(self).spec_windows(), final(self).spec_state(), a) == step(
                old(self).spec_windows(),
                old(self).spec_state(),
                id,
                event,
            ),
    {
        if self.state == LoopState::Shutdown {
            return Action::Continue;
        }
        let found = self.find(id);
        match event {
            WindowEvent::CloseRequested => {
                if let Some(i) = found {
                    self.windows.remove(i);
                }
                if self.windows.len() == 0 {
                    self.state = LoopState::Shutdown;
                    Action::Exit
                } else {
                    Action::Continue
                }
            },
            WindowEvent::Resized { width, height } => {
                match found {
                    Some(i) => {
                        let mut w = self.windows.remove(i);
                        w.renderer.resize(width, height);
                        self.windows.insert(i, w);
                        proof {
                            assert(self.windows@ =~= old(self).windows@.update(
                                i as int,
                                Window {
                                    id: w.id,
                                    handle: w.handle,
                                    renderer: w.renderer,
                                    clear_color: w.clear_color,
                                },
                            ));
                        }
                        Action::Continue
                    },
                    None => Action::UnknownWindow,
                }
            },
            WindowEvent::RedrawRequested => {
                match found {
                    Some(i) => Action::Redraw(i),
                    None => Action::UnknownWindow,
                }
            },
            _ => Action::Continue,
        }
    }
}

/// The loop runs exactly while at least one window is open, and every event
/// keeps it so.
pub proof fn lemma_running_iff_windows_open<H>(
    ws: Seq<Window<H>>,
    state: LoopState,
    id: u64,
    event: WindowEvent,
)
    requires
        (state == LoopState::Running) <==> ws.len() > 0,
    ensures
        (step(ws, state, id, event).1 == LoopState::Running) <==> step(ws, state, id, event).0.len()
            > 0,
{
}

/// The windows and state after a sequence of `(identifier, event)` pairs,
/// with the number of times the loop was asked to exit.
pub open spec fn run<H>(ws: Seq<Window<H>>, state: LoopState, events: Seq<(u64, WindowEvent)>) -> (
    Seq<Window<H>>,
    LoopState,
    nat,
)
    decreases events.len(),
{
    if events.len() == 0 {
        (ws, state, 0)
    } else {
        let (ws1, s1, a) = step(ws, state, events[0].0, events[0].1);
        let (ws2, s2, n) = run(ws1, s1, events.drop_first());
        (ws2, s2, n + (if a == Action::Exit {
            1nat
        } else {
            0nat
        }))
    }
}

/// Once shut down, no sequence of events changes the windows or the state,
/// or asks for an exit again.
pub proof fn lemma_shutdown_is_final<H>(ws: Seq<Window<H>>, events: Seq<(u64, WindowEvent)>)
    ensures
        run(ws, LoopState::Shutdown, events) == (ws, LoopState::Shutdown, 0nat),
    decreases events.len(),
{
    if events.len() > 0 {
        lemma_shutdown_is_final(ws, events.drop_first());
    }
}

/// Whatever the events, the loop is asked to exit at most once.
pub proof fn lemma_exit_at_most_once<H>(
    ws: Seq<Window<H>>,
    state: LoopState,
    events: Seq<(u64, WindowEvent)>,
)
    ensures
        run(ws, state, events).2 <= 1,
    decreases events.len(),
{
    if events.len() > 0 {
        let (ws1, s1, a) = step(ws, state, events[0].0, events[0].1);
        if a == Action::Exit {
            lemma_shutdown_is_final(ws1, events.drop_first());
        } else {
            lemma_exit_at_most_once(ws1, s1, events.drop_first());
        }
    }
}

/// Closing the only open window empties the registry and asks exactly once
/// for the loop to end, whatever events come after.
pub proof fn lemma_closing_last_window<H>(
    ws: Seq<Window<H>>,
    id: u64,
    later: Seq<(u64, WindowEvent)>,
)
    requires
        ws.len() == 1,
        ws[0].id == id,
    ensures
        step(ws, LoopState::Running, id, WindowEvent::CloseRequested) == (
            Seq::<Window<H>>::empty(),
            LoopState::Shutdown,
            Action::Exit,
        ),
        run(ws, LoopState::Running, seq![(id, WindowEvent::CloseRequested)] + later) == (
            Seq::<Window<H>>::empty(),
            LoopState::Shutdown,
            1nat,
        ),
{
    lemma_first_with_id(ws, id, 0);
    assert(ws.remove(0) =~= Seq::<Window<H>>::empty());
    let events = seq![(id, WindowEvent::CloseRequested)] + later;
    assert(events[0] == (id, WindowEvent::CloseRequested));
    assert(events.drop_first() =~= later);
    lemma_shutdown_is_final(Seq::<Window<H>>::empty(), later);
}

/// When `i` is the first index with identifier `id`, it is the one chosen.
proof fn lemma_first_with_id<H>(ws: Seq<Window<H>>, id: u64, i: int)
    requires
        is_first_with_id(ws, id, i),
    ensures
        first_with_id(ws, id) == i,
{
    let j = choose|j: int| is_first_with_id(ws, id, j);
    assert(is_first_with_id(ws, id, j));
    if j < i {
        assert(ws[j].id != id);
    } else if i < j {
        assert(ws[i].id != id);
    }
}

/// The windows to open when the engine starts.
#[derive(Debug, Clone)]
pub struct PineConfig {
    pub window_configs: Vec<WindowConfig>,
}

impl PineConfig {
    /// A configuration with no window yet.
    pub fn new() -> (c: PineConfig)
        ensures
            c.window_configs@.len() == 0,
    {
        PineConfig { window_configs: Vec::new() }
    }

    /// Appends a window; the windows are opened in the order they were added.
    pub fn with_window(&mut self, config: WindowConfig) -> (r: &mut PineConfig)
        ensures
            r.window_configs@ == old(self).window_configs@.push(config),
            *final(self) == *final(r),
    {
        self.window_configs.push(config);
        self
    }
}

} // verus!
