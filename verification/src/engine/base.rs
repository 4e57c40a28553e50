use super::pacing::{is_min_framerate, spec_frame_interval};
use super::registry::{
    spec_handle_action, spec_handle_windows, EngineAction, Event, WindowRegistry,
};
use super::timer::Timer;
use crate::window::base::WindowModel;
use crate::window::camera::CameraUpdate;
use vstd::prelude::*;

verus! {

/// A running engine as contracts see it.
pub struct EngineModel<N> {
    /// The windows, each under its number.
    pub windows: Map<u64, WindowModel<N>>,
    /// The least duration of a frame in microseconds, where redraws are
    /// paced.
    pub interval: Option<u64>,
    /// The clock reading at which the current frame began.
    pub frame_start: u64,
    /// The loop has not been left yet.
    pub running: bool,
}

impl<N> EngineModel<N> {
    /// What the loop has to do after `event`: once the loop was left, nothing
    /// any more.
    pub open spec fn action(self, event: Event<N>) -> EngineAction {
        if self.running {
            spec_handle_action(self.windows, event)
        } else {
            EngineAction::Idle
        }
    }

    /// The engine after `event`: it takes events in until one of them ends
    /// the loop, and none after that.
    pub open spec fn handled(self, event: Event<N>) -> Self {
        if self.running {
            EngineModel {
                windows: spec_handle_windows(self.windows, event),
                running: spec_handle_action(self.windows, event) != EngineAction::Exit,
                ..self
            }
        } else {
            self
        }
    }

    /// How long the loop has to wait at `now` before it asks for redraws.
    pub open spec fn wait(self, now: u64) -> int {
        match self.interval {
            Some(interval) => {
                let elapsed = if now >= self.frame_start {
                    now - self.frame_start
                } else {
                    0
                };
                if elapsed < interval {
                    interval - elapsed
                } else {
                    0
                }
            },
            None => 0,
        }
    }
}

/// The state of a running engine: its windows and the pace of its redraws.
pub struct Engine<N> {
    windows: WindowRegistry<N>,
    timer: Option<Timer>,
    running: bool,
}

impl<N> View for Engine<N> {
    type V = EngineModel<N>;

    closed spec fn view(&self) -> EngineModel<N> {
        EngineModel {
            windows: self.windows@,
            interval: match self.timer {
                Some(timer) => Some(timer.limit()),
                None => None,
            },
            frame_start: match self.timer {
                Some(timer) => timer.started_at(),
                None => 0,
            },
            running: self.running,
        }
    }
}

impl<N: Copy> Engine<N> {
    /// The registry of the engine is in order.
    pub closed spec fn wf(&self) -> bool {
        self.windows.wf()
    }

    /// The numbers of the windows in the order in which they were added.
    pub closed spec fn spec_ids(&self) -> Seq<u64> {
        self.windows.spec_ids()
    }

    /// Starts an engine over `windows` at clock reading `now`. Its redraws
    /// are paced by the window with the lowest framerate, if any window asks
    /// for one.
    pub fn new(windows: WindowRegistry<N>, now: u64) -> (engine: Self)
        requires
            windows.wf(),
        ensures
            engine.wf(),
            engine@.windows == windows@,
            engine@.running,
            engine.spec_ids() == windows.spec_ids(),
            engine@.interval is Some ==> engine@.frame_start == now,
            exists|rates: Seq<Option<u64>>, rate: Option<u64>|
                {
                    &&& rates.len() == windows.spec_ids().len()
                    &&& forall|i: int|
                        0 <= i < rates.len() ==> rates[i] == windows@[#[trigger] windows.spec_ids()[i]].framerate
                    &&& #[trigger] is_min_framerate(rates, rate)
                    &&& engine@.interval == match rate {
                        Some(min) => Some(spec_frame_interval(min)),
                        None => None,
                    }
                },
    {
        let timer = windows.pacing_timer(now);
        Self { windows, timer, running: true }
    }

    /// Returns whether the loop has not been left yet.
    pub fn is_running(&self) -> (running: bool)
        ensures
            running == self@.running,
    {
        self.running
    }

    /// Returns the numbers of all windows: the windows to ask for a redraw.
    pub fn window_ids(&self) -> (ids: Vec<u64>)
        requires
            self.wf(),
        ensures
            ids@ == self.spec_ids(),
            ids@.no_duplicates(),
            forall|id: u64| ids@.contains(id) <==> self@.windows.contains_key(id),
    {
        self.windows.window_ids()
    }

    /// Takes in one event of the loop and says what the loop has to do next.
    pub fn handle(&mut self, event: &Event<N>) -> (action: EngineAction)
        requires
            old(self).wf(),
        ensures
            final(self).wf(),
            final(self).spec_ids() == old(self).spec_ids(),
            final(self)@ == old(self)@.handled(*event),
            action == old(self)@.action(*event),
    {
        if !self.running {
            return EngineAction::Idle;
        }
        let action = self.windows.handle(event);
        match action {
            EngineAction::Exit => {
                self.running = false;
            },
            _ => {},
        }
        action
    }

    /// Starts a frame of the window under `window_id`; see
    /// `WindowRegistry::update`.
    pub fn update(&mut self, window_id: u64) -> (update: Option<CameraUpdate<N>>)
        requires
            old(self).wf(),
        ensures
            final(self).wf(),
            final(self).spec_ids() == old(self).spec_ids(),
            final(self)@.interval == old(self)@.interval,
            final(self)@.frame_start == old(self)@.frame_start,
            final(self)@.running == old(self)@.running,
            update is Some <==> old(self)@.windows.contains_key(window_id),
            !old(self)@.windows.contains_key(window_id) ==> final(self)@.windows == old(
                self,
            )@.windows,
            old(self)@.windows.contains_key(window_id) ==> {
                &&& final(self)@.windows == old(self)@.windows.insert(
                    window_id,
                    old(self)@.windows[window_id].updated(),
                )
                &&& update.unwrap().window_size == old(
                    self,
                )@.windows[window_id].controller.window_size
                &&& update.unwrap().cursor_moves@ == old(
                    self,
                )@.windows[window_id].controller.cursor_moves
                &&& update.unwrap().wheel_moves@ == old(
                    self,
                )@.windows[window_id].controller.wheel_moves
                &&& update.unwrap().rotate == old(
                    self,
                )@.windows[window_id].controller.is_left_mouse_pressed
                &&& update.unwrap().pan == old(
                    self,
                )@.windows[window_id].controller.is_right_mouse_pressed
                &&& update.unwrap().key_x == crate::window::camera::controller::key_axis(
                    old(self)@.windows[window_id].controller.is_left_key_pressed,
                    old(self)@.windows[window_id].controller.is_right_key_pressed,
                )
                &&& update.unwrap().key_y == crate::window::camera::controller::key_axis(
                    old(self)@.windows[window_id].controller.is_up_key_pressed,
                    old(self)@.windows[window_id].controller.is_down_key_pressed,
                )
            },
    {
        self.windows.update(window_id)
    }

    /// Returns how many microseconds the loop has to sleep at `now` before it
    /// asks the windows to redraw: the rest of the frame interval, or nothing
    /// where redraws are not paced.
    pub fn wait(&self, now: u64) -> (micros: u64)
        ensures
            micros == self@.wait(now),
    {
        match &self.timer {
            Some(timer) => timer.remaining(now),
            None => 0,
        }
    }

    /// Records that a new frame begins at clock reading `now`, after the
    /// loop has slept.
    pub fn restart(&mut self, now: u64)
        requires
            old(self).wf(),
        ensures
            final(self).wf(),
            final(self).spec_ids() == old(self).spec_ids(),
            final(self)@.windows == old(self)@.windows,
            final(self)@.running == old(self)@.running,
            final(self)@.interval == old(self)@.interval,
            final(self)@.interval is Some ==> final(self)@.frame_start == now,
    {
        match self.timer {
            Some(timer) => {
                let mut timer = timer;
                timer.restart(now);
                self.timer = Some(timer);
            },
            None => {},
        }
    }
}

/// Once an event has ended the loop, the engine stays as it is: no later
/// event changes a window or asks the loop for anything.
pub proof fn lemma_exit_is_final<N>(engine: EngineModel<N>, event: Event<N>, later: Event<N>)
    requires
        engine.action(event) == EngineAction::Exit,
    ensures
        !engine.handled(event).running,
        engine.handled(event).handled(later) == engine.handled(event),
        engine.handled(event).action(later) == EngineAction::Idle,
{
}

/// With windows that ask for the framerates `slow <= fast`, the loop waits
/// for the interval of the slower one: at the start of a frame it waits
/// exactly that long, which is at least as long as the faster one asks for.
pub proof fn lemma_engine_waits_for_the_slowest<N>(engine: EngineModel<N>, slow: u64, fast: u64)
    requires
        slow <= fast,
        engine.interval == Some(spec_frame_interval(slow)),
    ensures
        engine.wait(engine.frame_start) == spec_frame_interval(slow),
        engine.wait(engine.frame_start) >= spec_frame_interval(fast),
{
    super::pacing::lemma_slower_window_paces(slow, fast);
}

} // verus!
