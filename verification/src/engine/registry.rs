use super::pacing::{is_min_framerate, pacing_interval, spec_frame_interval};
use super::timer::Timer;
use crate::window::base::{Window, WindowModel};
use crate::window::camera::CameraUpdate;
use crate::window::event::{ElementState, VirtualKeyCode, WindowEvent, WindowEventState};
use vstd::prelude::*;

verus! {

/// An event of the platform's event loop, with windows named by number.
#[derive(Clone, Copy, Debug)]
pub enum Event<N> {
    /// An event of one window.
    WindowEvent { window_id: u64, event: WindowEvent<N> },
    /// A window has to be drawn anew.
    RedrawRequested { window_id: u64 },
    /// All events of this turn of the loop have been handed out.
    MainEventsCleared,
    /// Any other event.
    Other,
}

/// What the loop has to do after the engine took in an event.
#[derive(Clone, Copy, Debug, PartialEq, Eq, Structural)]
pub enum EngineAction {
    /// Nothing.
    Idle,
    /// Leave the loop.
    Exit,
    /// Make the surface of the window anew with the given size.
    Resize { window_id: u64, width: u32, height: u32 },
    /// Start a frame of the window and draw it.
    Redraw { window_id: u64 },
    /// Wait for the end of the frame interval, then ask every window to redraw.
    RequestRedraws,
}

/// What the engine itself makes of an event that the window did not use: a
/// close request or a press of Escape ends the loop, a new size or scale
/// factor resizes the window, anything else is dropped.
pub open spec fn spec_interpret<N>(window_id: u64, event: WindowEvent<N>) -> EngineAction {
    match event {
        WindowEvent::CloseRequested => EngineAction::Exit,
        WindowEvent::KeyboardInput {
            state: ElementState::Pressed,
            virtual_keycode: Some(VirtualKeyCode::Escape),
        } => EngineAction::Exit,
        WindowEvent::Resized { width, height } => EngineAction::Resize { window_id, width, height },
        WindowEvent::ScaleFactorChanged { width, height } => EngineAction::Resize {
            window_id,
            width,
            height,
        },
        _ => EngineAction::Idle,
    }
}

/// Returns what the engine itself makes of an event that the window did not
/// use.
pub fn interpret<N>(window_id: u64, event: &WindowEvent<N>) -> (action: EngineAction)
    ensures
        action == spec_interpret(window_id, *event),
{
    match event {
        WindowEvent::CloseRequested => EngineAction::Exit,
        WindowEvent::KeyboardInput {
            state: ElementState::Pressed,
            virtual_keycode: Some(VirtualKeyCode::Escape),
        } => EngineAction::Exit,
        WindowEvent::Resized { width, height } => EngineAction::Resize {
            window_id,
            width: *width,
            height: *height,
        },
        WindowEvent::ScaleFactorChanged { width, height } => EngineAction::Resize {
            window_id,
            width: *width,
            height: *height,
        },
        _ => EngineAction::Idle,
    }
}

/// The windows after the engine took in `event`: an event of a known window
/// goes to that window first, and where the engine answers an unused one with
/// a resize, the window has the new size.
pub open spec fn spec_handle_windows<N>(
    windows: Map<u64, WindowModel<N>>,
    event: Event<N>,
) -> Map<u64, WindowModel<N>> {
    match event {
        Event::WindowEvent { window_id, event } => if windows.contains_key(window_id) {
            let after = windows[window_id].input(event);
            match spec_handle_action(windows, Event::WindowEvent { window_id, event }) {
                EngineAction::Resize { window_id, width, height } => windows.insert(
                    window_id,
                    after.resized(width, height),
                ),
                _ => windows.insert(window_id, after),
            }
        } else {
            windows
        },
        _ => windows,
    }
}

/// What the loop has to do after the engine took in `event`. Events of
/// unknown windows are dropped, and so are events that a window used.
pub open spec fn spec_handle_action<N>(
    windows: Map<u64, WindowModel<N>>,
    event: Event<N>,
) -> EngineAction {
    match event {
        Event::WindowEvent { window_id, event } => if windows.contains_key(window_id)
            && windows[window_id].controller.answer(event) == WindowEventState::Unused {
            spec_interpret(window_id, event)
        } else {
            EngineAction::Idle
        },
        Event::RedrawRequested { window_id } => if windows.contains_key(window_id) {
            EngineAction::Redraw { window_id }
        } else {
            EngineAction::Idle
        },
        Event::MainEventsCleared => EngineAction::RequestRedraws,
        Event::Other => EngineAction::Idle,
    }
}

/// The place of `id` among `ids`.
pub closed spec fn position(ids: Seq<u64>, id: u64) -> int {
    choose|i: int| 0 <= i < ids.len() && ids[i] == id
}

/// Among numbers without repetition, every number has the place it stands
/// at.
proof fn lemma_position(ids: Seq<u64>, i: int)
    requires
        ids.no_duplicates(),
        0 <= i < ids.len(),
    ensures
        position(ids, ids[i]) == i,
{
    let p = position(ids, ids[i]);
    assert(0 <= p < ids.len() && ids[p] == ids[i]);
}

/// The windows of an engine, each under the number of its platform window.
pub struct WindowRegistry<N> {
    ids: Vec<u64>,
    windows: Vec<Window<N>>,
}

impl<N> View for WindowRegistry<N> {
    type V = Map<u64, WindowModel<N>>;

    closed spec fn view(&self) -> Map<u64, WindowModel<N>> {
        Map::new(
            |id: u64| self.ids@.contains(id),
            |id: u64| self.windows@[position(self.ids@, id)]@,
        )
    }
}

impl<N: Copy> WindowRegistry<N> {
    /// Every window stands under one number, and no number is used twice.
    pub closed spec fn wf(&self) -> bool {
        &&& self.ids@.len() == self.windows@.len()
        &&& self.ids@.no_duplicates()
    }

    /// The numbers of the windows in the order in which they were added.
    pub closed spec fn spec_ids(&self) -> Seq<u64> {
        self.ids@
    }

    /// Makes a registry without windows.
    pub fn new() -> (registry: Self)
        ensures
            registry.wf(),
            registry@ == Map::<u64, WindowModel<N>>::empty(),
            registry.spec_ids().len() == 0,
    {
        let registry = Self { ids: Vec::new(), windows: Vec::new() };
        assert(registry@ =~= Map::<u64, WindowModel<N>>::empty());
        registry
    }

    fn find(&self, window_id: u64) -> (place: Option<usize>)
        requires
            self.wf(),
        ensures
            match place {
                Some(i) => i < self.ids@.len() && self.ids@[i as int] == window_id && position(
                    self.ids@,
                    window_id,
                ) == i,
                None => !self.ids@.contains(window_id),
            },
    {
        let mut i: usize = 0;
        while i < self.ids.len()
            invariant
                self.wf(),
                i <= self.ids@.len(),
                forall|j: int| 0 <= j < i ==> self.ids@[j] != window_id,
            decreases self.ids@.len() - i,
        {
            if self.ids[i] == window_id {
                proof {
                    lemma_position(self.ids@, i as int);
                }
                return Some(i);
            }
            i = i + 1;
        }
        None
    }

    /// Puts `window` under `window_id`, in place of the window that stood
    /// there, if there was one.
    pub fn insert(&mut self, window_id: u64, window: Window<N>)
        requires
            old(self).wf(),
        ensures
            final(self).wf(),
            final(self)@ == old(self)@.insert(window_id, window@),
    {
        let ghost before = self.ids@;
        match self.find(window_id) {
            Some(i) => {
                self.windows[i] = window;
                assert(self@ =~= old(self)@.insert(window_id, window@));
            },
            None => {
                self.ids.push(window_id);
                self.windows.push(window);
                proof {
                    assert forall|j: int| 0 <= j < self.ids@.len() implies position(
                        self.ids@,
                        #[trigger] self.ids@[j],
                    ) == j by {
                        lemma_position(self.ids@, j);
                    }
                    assert forall|id: u64| before.contains(id) implies position(self.ids@, id)
                        == position(before, id) by {
                        let p = position(before, id);
                        assert(self.ids@[p] == id);
                    }
                    assert forall|id: u64| self.ids@.contains(id) implies id == window_id
                        || before.contains(id) by {
                        let p = position(self.ids@, id);
                        if p < before.len() {
                            assert(before[p] == id);
                        }
                    }
                    assert forall|id: u64| before.contains(id) implies self.ids@.contains(id) by {
                        let p = position(before, id);
                        assert(self.ids@[p] == id);
                    }
                    assert(self.ids@[before.len() as int] == window_id);
                    assert(self@ =~= old(self)@.insert(window_id, window@));
                }
            },
        }
    }

    /// Returns whether a window stands under `window_id`.
    pub fn contains(&self, window_id: u64) -> (known: bool)
        requires
            self.wf(),
        ensures
            known == self@.contains_key(window_id),
    {
        self.find(window_id).is_some()
    }

    /// Returns the number of windows.
    pub fn len(&self) -> (len: usize)
        requires
            self.wf(),
        ensures
            len == self.spec_ids().len(),
            len == self@.dom().len(),
            self@.dom().finite(),
    {
        proof {
            self.ids@.unique_seq_to_set();
            assert(self@.dom() =~= self.ids@.to_set());
        }
        self.ids.len()
    }

    /// Returns the numbers of all windows, in the order in which they were
    /// added: the windows to ask for a redraw.
    pub fn window_ids(&self) -> (ids: Vec<u64>)
        requires
            self.wf(),
        ensures
            ids@ == self.spec_ids(),
            ids@.no_duplicates(),
            forall|id: u64| ids@.contains(id) <==> self@.contains_key(id),
    {
        self.ids.clone()
    }

    /// Returns the framerates that the windows ask for, in the order in which
    /// the windows were added.
    pub fn framerates(&self) -> (rates: Vec<Option<u64>>)
        requires
            self.wf(),
        ensures
            rates@.len() == self.spec_ids().len(),
            forall|i: int|
                0 <= i < rates@.len() ==> rates@[i] == self@[#[trigger] self.spec_ids()[i]].framerate,
    {
        let mut rates: Vec<Option<u64>> = Vec::new();
        let mut i: usize = 0;
        while i < self.windows.len()
            invariant
                self.wf(),
                i <= self.windows@.len(),
                rates@.len() == i,
                forall|j: int|
                    0 <= j < i ==> rates@[j] == self@[#[trigger] self.ids@[j]].framerate,
            decreases self.windows@.len() - i,
        {
            proof {
                lemma_position(self.ids@, i as int);
            }
            rates.push(self.windows[i].framerate());
            i = i + 1;
        }
        rates
    }

    /// Makes the timer that paces the redraws, started at clock reading
    /// `now`: its frame lasts as long as the window with the lowest framerate
    /// asks for. There is none where no window asks for a framerate.
    pub fn pacing_timer(&self, now: u64) -> (timer: Option<Timer>)
        requires
            self.wf(),
        ensures
            exists|rates: Seq<Option<u64>>, rate: Option<u64>|
                {
                    &&& rates.len() == self.spec_ids().len()
                    &&& forall|i: int|
                        0 <= i < rates.len() ==> rates[i] == self@[#[trigger] self.spec_ids()[i]].framerate
                    &&& #[trigger] is_min_framerate(rates, rate)
                    &&& match rate {
                        Some(min) => timer is Some && timer.unwrap().limit() == spec_frame_interval(
                            min,
                        ) && timer.unwrap().started_at() == now,
                        None => timer is None,
                    }
                },
    {
        let rates = self.framerates();
        match pacing_interval(&rates) {
            Some(micros) => Timer::try_new(micros, now),
            None => None,
        }
    }

    /// Takes in one event of the loop: hands an event of a known window to
    /// that window and says what the loop has to do next.
    pub fn handle(&mut self, event: &Event<N>) -> (action: EngineAction)
        requires
            old(self).wf(),
        ensures
            final(self).wf(),
            final(self).spec_ids() == old(self).spec_ids(),
            final(self)@ == spec_handle_windows(old(self)@, *event),
            action == spec_handle_action(old(self)@, *event),
    {
        match event {
            Event::WindowEvent { window_id, event: window_event } => {
                match self.find(*window_id) {
                    Some(i) => {
                        let state = self.windows[i].input(window_event);
                        let action = match state {
                            WindowEventState::Unused => interpret(*window_id, window_event),
                            WindowEventState::Consumed => EngineAction::Idle,
                        };
                        match action {
                            EngineAction::Resize { window_id: _, width, height } => {
                                self.windows[i].resize(width, height);
                            },
                            _ => {},
                        }
                        assert(self@ =~= spec_handle_windows(old(self)@, *event));
                        action
                    },
                    None => EngineAction::Idle,
                }
            },
            Event::RedrawRequested { window_id } => {
                if self.contains(*window_id) {
                    EngineAction::Redraw { window_id: *window_id }
                } else {
                    EngineAction::Idle
                }
            },
            Event::MainEventsCleared => EngineAction::RequestRedraws,
            Event::Other => EngineAction::Idle,
        }
    }

    /// Starts a frame of the window under `window_id`: hands out what its
    /// camera has to be moved by, or `None` where no window stands there.
    pub fn update(&mut self, window_id: u64) -> (update: Option<CameraUpdate<N>>)
        requires
            old(self).wf(),
        ensures
            final(self).wf(),
            final(self).spec_ids() == old(self).spec_ids(),
            update is Some <==> old(self)@.contains_key(window_id),
            !old(self)@.contains_key(window_id) ==> final(self)@ == old(self)@,
            old(self)@.contains_key(window_id) ==> {
                &&& final(self)@ == old(self)@.insert(window_id, old(self)@[window_id].updated())
                &&& update.unwrap().window_size == old(self)@[window_id].controller.window_size
                &&& update.unwrap().cursor_moves@ == old(self)@[window_id].controller.cursor_moves
                &&& update.unwrap().wheel_moves@ == old(self)@[window_id].controller.wheel_moves
                &&& update.unwrap().rotate == old(self)@[window_id].controller.is_left_mouse_pressed
                &&& update.unwrap().pan == old(self)@[window_id].controller.is_right_mouse_pressed
                &&& update.unwrap().key_x == crate::window::camera::controller::key_axis(
                    old(self)@[window_id].controller.is_left_key_pressed,
                    old(self)@[window_id].controller.is_right_key_pressed,
                )
                &&& update.unwrap().key_y == crate::window::camera::controller::key_axis(
                    old(self)@[window_id].controller.is_up_key_pressed,
                    old(self)@[window_id].controller.is_down_key_pressed,
                )
            },
    {
        match self.find(window_id) {
            Some(i) => {
                let update = self.windows[i].update();
                assert(self@ =~= old(self)@.insert(window_id, old(self)@[window_id].updated()));
                Some(update)
            },
            None => None,
        }
    }
}

/// An event that a window's camera controller used is never taken for a
/// command to the engine: the loop neither ends nor resizes on it.
pub proof fn lemma_consumed_events_are_not_reinterpreted<N>(
    windows: Map<u64, WindowModel<N>>,
    window_id: u64,
    event: WindowEvent<N>,
)
    requires
        windows.contains_key(window_id),
        windows[window_id].controller.answer(event) == WindowEventState::Consumed,
    ensures
        spec_handle_action(windows, Event::WindowEvent { window_id, event }) == EngineAction::Idle,
        spec_handle_windows(windows, Event::WindowEvent { window_id, event }) == windows.insert(
            window_id,
            windows[window_id].input(event),
        ),
{
}

/// The engine never adds or drops a window on an event.
pub proof fn lemma_events_keep_the_windows<N>(windows: Map<u64, WindowModel<N>>, event: Event<N>)
    ensures
        spec_handle_windows(windows, event).dom() =~= windows.dom(),
{
}

} // verus!
