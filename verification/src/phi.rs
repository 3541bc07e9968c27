//! The context that a view is run in: the input of the current tick and the
//! render target, and what a view may ask of the loop that runs it.

use crate::gfx::DrawList;
use vstd::prelude::*;

verus! {

/// What happened since the last tick. For a key: `Some(true)` if it went down,
/// `Some(false)` if it came up, nothing otherwise.
#[derive(Clone, Copy, Debug, PartialEq, Eq, Structural)]
pub struct ImmediateEvents {
    pub key_escape: Option<bool>,
    pub key_up: Option<bool>,
    pub key_down: Option<bool>,
    pub key_left: Option<bool>,
    pub key_right: Option<bool>,
    pub key_space: Option<bool>,
    pub key_enter: Option<bool>,
    pub key_1: Option<bool>,
    pub key_2: Option<bool>,
    pub key_3: Option<bool>,
    /// The window was asked to close.
    pub quit: bool,
}

impl ImmediateEvents {
    /// Nothing happened.
    pub open spec fn quiet() -> ImmediateEvents {
        ImmediateEvents {
            key_escape: None,
            key_up: None,
            key_down: None,
            key_left: None,
            key_right: None,
            key_space: None,
            key_enter: None,
            key_1: None,
            key_2: None,
            key_3: None,
            quit: false,
        }
    }

    /// Nothing happened.
    pub fn new() -> (r: ImmediateEvents)
        ensures
            r == ImmediateEvents::quiet(),
    {
        ImmediateEvents {
            key_escape: None,
            key_up: None,
            key_down: None,
            key_left: None,
            key_right: None,
            key_space: None,
            key_enter: None,
            key_1: None,
            key_2: None,
            key_3: None,
            quit: false,
        }
    }
}

/// The input of one tick: what happened since the last one, and which keys
/// are held down now.
#[derive(Clone, Copy, Debug, PartialEq, Eq, Structural)]
pub struct Events {
    pub now: ImmediateEvents,
    pub key_escape: bool,
    pub key_up: bool,
    pub key_down: bool,
    pub key_left: bool,
    pub key_right: bool,
    pub key_space: bool,
    pub key_enter: bool,
    pub key_1: bool,
    pub key_2: bool,
    pub key_3: bool,
}

impl Events {
    /// No key is held and nothing happened.
    pub fn new() -> (r: Events)
        ensures
            r.now == ImmediateEvents::quiet(),
            !r.key_escape && !r.key_up && !r.key_down && !r.key_left && !r.key_right,
            !r.key_space && !r.key_enter && !r.key_1 && !r.key_2 && !r.key_3,
    {
        Events {
            now: ImmediateEvents::new(),
            key_escape: false,
            key_up: false,
            key_down: false,
            key_left: false,
            key_right: false,
            key_space: false,
            key_enter: false,
            key_1: false,
            key_2: false,
            key_3: false,
        }
    }
}

/// The keys that the game listens to.
#[derive(Clone, Copy, Debug, PartialEq, Eq, Structural)]
pub enum Key {
    Escape,
    Up,
    Down,
    Left,
    Right,
    Space,
    Enter,
    Num1,
    Num2,
    Num3,
}

impl Events {
    /// Whether `key` is held down.
    pub open spec fn spec_held(self, key: Key) -> bool {
        match key {
            Key::Escape => self.key_escape,
            Key::Up => self.key_up,
            Key::Down => self.key_down,
            Key::Left => self.key_left,
            Key::Right => self.key_right,
            Key::Space => self.key_space,
            Key::Enter => self.key_enter,
            Key::Num1 => self.key_1,
            Key::Num2 => self.key_2,
            Key::Num3 => self.key_3,
        }
    }

    /// What happened to `key` since the last tick.
    pub open spec fn spec_now(self, key: Key) -> Option<bool> {
        match key {
            Key::Escape => self.now.key_escape,
            Key::Up => self.now.key_up,
            Key::Down => self.now.key_down,
            Key::Left => self.now.key_left,
            Key::Right => self.now.key_right,
            Key::Space => self.now.key_space,
            Key::Enter => self.now.key_enter,
            Key::Num1 => self.now.key_1,
            Key::Num2 => self.now.key_2,
            Key::Num3 => self.now.key_3,
        }
    }

    /// The same input, but for what is known of `key`.
    pub open spec fn spec_with(self, key: Key, held: bool, now: Option<bool>) -> Events {
        match key {
            Key::Escape => Events {
                key_escape: held,
                now: ImmediateEvents { key_escape: now, ..self.now },
                ..self
            },
            Key::Up => Events { key_up: held, now: ImmediateEvents { key_up: now, ..self.now }, ..self },
            Key::Down => Events {
                key_down: held,
                now: ImmediateEvents { key_down: now, ..self.now },
                ..self
            },
            Key::Left => Events {
                key_left: held,
                now: ImmediateEvents { key_left: now, ..self.now },
                ..self
            },
            Key::Right => Events {
                key_right: held,
                now: ImmediateEvents { key_right: now, ..self.now },
                ..self
            },
            Key::Space => Events {
                key_space: held,
                now: ImmediateEvents { key_space: now, ..self.now },
                ..self
            },
            Key::Enter => Events {
                key_enter: held,
                now: ImmediateEvents { key_enter: now, ..self.now },
                ..self
            },
            Key::Num1 => Events { key_1: held, now: ImmediateEvents { key_1: now, ..self.now }, ..self },
            Key::Num2 => Events { key_2: held, now: ImmediateEvents { key_2: now, ..self.now }, ..self },
            Key::Num3 => Events { key_3: held, now: ImmediateEvents { key_3: now, ..self.now }, ..self },
        }
    }

    /// Begins a tick: nothing has happened yet, and the keys that were held
    /// are held still.
    pub fn begin_tick(&mut self)
        ensures
            *final(self) == (Events { now: ImmediateEvents::quiet(), ..*old(self) }),
    {
        self.now = ImmediateEvents::new();
    }

    /// Records that `key` is down. It counts as having gone down only if it
    /// was not held: a key that repeats while held goes down once.
    pub fn key_down(&mut self, key: Key)
        ensures
            *final(self) == old(self).spec_with(
                key,
                true,
                if old(self).spec_held(key) {
                    old(self).spec_now(key)
                } else {
                    Some(true)
                },
            ),
    {
        let before: Events = *self;
        let now: Option<bool> = if before.held(key) {
            before.now(key)
        } else {
            Some(true)
        };
        self.set(key, true, now);
    }

    /// Records that `key` came up.
    pub fn key_up(&mut self, key: Key)
        ensures
            *final(self) == old(self).spec_with(key, false, Some(false)),
    {
        self.set(key, false, Some(false));
    }

    /// Records that the window was asked to close.
    pub fn quit(&mut self)
        ensures
            *final(self) == (Events {
                now: ImmediateEvents { quit: true, ..old(self).now },
                ..*old(self)
            }),
    {
        self.now.quit = true;
    }

    /// Whether `key` is held down.
    pub fn held(&self, key: Key) -> (r: bool)
        ensures
            r == self.spec_held(key),
    {
        match key {
            Key::Escape => self.key_escape,
            Key::Up => self.key_up,
            Key::Down => self.key_down,
            Key::Left => self.key_left,
            Key::Right => self.key_right,
            Key::Space => self.key_space,
            Key::Enter => self.key_enter,
            Key::Num1 => self.key_1,
            Key::Num2 => self.key_2,
            Key::Num3 => self.key_3,
        }
    }

    /// What happened to `key` since the last tick.
    pub fn now(&self, key: Key) -> (r: Option<bool>)
        ensures
            r == self.spec_now(key),
    {
        match key {
            Key::Escape => self.now.key_escape,
            Key::Up => self.now.key_up,
            Key::Down => self.now.key_down,
            Key::Left => self.now.key_left,
            Key::Right => self.now.key_right,
            Key::Space => self.now.key_space,
            Key::Enter => self.now.key_enter,
            Key::Num1 => self.now.key_1,
            Key::Num2 => self.now.key_2,
            Key::Num3 => self.now.key_3,
        }
    }

    /// Sets what is known of `key`.
    fn set(&mut self, key: Key, held: bool, now: Option<bool>)
        ensures
            *final(self) == old(self).spec_with(key, held, now),
    {
        let was: Events = *self;
        let next: Events = match key {
            Key::Escape => Events {
                key_escape: held,
                now: ImmediateEvents { key_escape: now, ..was.now },
                ..was
            },
            Key::Up => Events { key_up: held, now: ImmediateEvents { key_up: now, ..was.now }, ..was },
            Key::Down => Events {
                key_down: held,
                now: ImmediateEvents { key_down: now, ..was.now },
                ..was
            },
            Key::Left => Events {
                key_left: held,
                now: ImmediateEvents { key_left: now, ..was.now },
                ..was
            },
            Key::Right => Events {
                key_right: held,
                now: ImmediateEvents { key_right: now, ..was.now },
                ..was
            },
            Key::Space => Events {
                key_space: held,
                now: ImmediateEvents { key_space: now, ..was.now },
                ..was
            },
            Key::Enter => Events {
                key_enter: held,
                now: ImmediateEvents { key_enter: now, ..was.now },
                ..was
            },
            Key::Num1 => Events { key_1: held, now: ImmediateEvents { key_1: now, ..was.now }, ..was },
            Key::Num2 => Events { key_2: held, now: ImmediateEvents { key_2: now, ..was.now }, ..was },
            Key::Num3 => Events { key_3: held, now: ImmediateEvents { key_3: now, ..was.now }, ..was },
        };
        *self = next;
    }
}

/// Whether a key went down since the last tick.
pub open spec fn pressed(key: Option<bool>) -> bool {
    key == Some(true)
}

/// Whether a key went down since the last tick.
pub fn is_pressed(key: Option<bool>) -> (r: bool)
    ensures
        r == pressed(key),
{
    match key {
        Some(down) => down,
        None => false,
    }
}

/// The input of the current tick together with the render target.
pub struct Phi {
    pub events: Events,
    pub renderer: DrawList,
}

impl Phi {
    /// A context with the given input and target.
    pub fn new(events: Events, renderer: DrawList) -> (r: Phi)
        ensures
            r.events == events,
            r.renderer == renderer,
    {
        Phi { events, renderer }
    }

    /// Width and height of the window, as lengths.
    pub fn output_size(&self) -> (r: (i64, i64))
        ensures
            r == self.renderer.spec_output_size(),
            0 <= r.0 <= u32::MAX * crate::data::UNIT,
            0 <= r.1 <= u32::MAX * crate::data::UNIT,
    {
        self.renderer.output_size()
    }
}

/// The views of the game.
#[derive(Clone, Copy, Debug, PartialEq, Eq, Structural)]
pub enum ViewId {
    MainMenu,
    Game,
}

/// What the view that has just run asks of the loop that runs it.
#[derive(Clone, Copy, Debug, PartialEq, Eq, Structural)]
pub enum ViewAction {
    /// Show the frame and go on with this view.
    Continue,
    /// End the program.
    Quit,
    /// Go on with a new view of the given kind.
    ChangeView(ViewId),
}


/// The least time between two ticks, in milliseconds: a sixtieth of a second.
pub const TICK_INTERVAL: u64 = 1_000 / 60;

/// The time that a view is told has passed in a tick, in microseconds. It is
/// fixed, whatever the clock says: the loop sees to it that ticks are no more
/// frequent than the interval, and the simulation moves by equal steps.
pub const TICK_ELAPSED: i64 = 10_000;

/// What the loop is to do at a moment.
#[derive(Clone, Copy, Debug, PartialEq, Eq, Structural)]
pub enum Pace {
    /// Too soon for a tick: wait so many milliseconds and ask again.
    Wait(u64),
    /// Run a tick. More than a second after the last report, the number of
    /// ticks run since then, this one included, is reported.
    Run { report: Option<u16> },
}

/// The clock that paces the loop: when the last tick ran, when ticks were
/// last counted, and how many ran since. Times are in milliseconds.
#[derive(Clone, Copy, Debug, PartialEq, Eq, Structural)]
pub struct FrameClock {
    pub before: u64,
    pub last_second: u64,
    pub fps: u16,
}

impl FrameClock {
    /// The count was begun no later than the last tick and no more than a
    /// second before it, and each tick counted took its interval.
    pub open spec fn wf(self) -> bool {
        &&& self.last_second <= self.before
        &&& self.before - self.last_second <= 1_000
        &&& self.fps * TICK_INTERVAL <= self.before - self.last_second
    }

    /// What the loop is to do at the time `now`, and the clock afterwards.
    pub open spec fn spec_tick(self, now: u64) -> (Pace, FrameClock) {
        if now - self.before < TICK_INTERVAL {
            (Pace::Wait((TICK_INTERVAL - (now - self.before)) as u64), self)
        } else if now - self.last_second > 1_000 {
            (
                Pace::Run { report: Some((self.fps + 1) as u16) },
                FrameClock { before: now, last_second: now, fps: 0 },
            )
        } else {
            (
                Pace::Run { report: None },
                FrameClock { before: now, last_second: self.last_second, fps: (self.fps + 1) as u16 },
            )
        }
    }

    /// A clock that begins to count at the time `now`.
    pub fn new(now: u64) -> (r: FrameClock)
        ensures
            r == (FrameClock { before: now, last_second: now, fps: 0 }),
            r.wf(),
    {
        FrameClock { before: now, last_second: now, fps: 0 }
    }

    /// Says what the loop is to do at the time `now`: to wait for the rest of
    /// the interval if less than that has passed since the last tick, and
    /// else to run a tick.
    pub fn tick(&mut self, now: u64) -> (r: Pace)
        requires
            old(self).wf(),
            now >= old(self).before,
        ensures
            (r, *final(self)) == old(self).spec_tick(now),
            final(self).wf(),
    {
        let dt: u64 = now - self.before;
        if dt < TICK_INTERVAL {
            return Pace::Wait(TICK_INTERVAL - dt);
        }
        self.before = now;
        self.fps = self.fps + 1;
        if now - self.last_second > 1_000 {
            let report: u16 = self.fps;
            self.last_second = now;
            self.fps = 0;
            Pace::Run { report: Some(report) }
        } else {
            Pace::Run { report: None }
        }
    }
}

} // verus!
