//! The state of the running window: whether it goes on, how large it is and
//! which keys are held, as the window's events change it.

use vstd::prelude::*;
use crate::device::Command;

verus! {

/// One event of the window, with keys given by their scan codes.
#[derive(Clone, Copy, Debug, PartialEq, Eq, Structural)]
pub enum Event {
    /// The window was asked to close.
    Quit,
    /// The window has a new width and height.
    Resized(i32, i32),
    /// A key went down; `None` where the key has no scan code.
    KeyDown(Option<i32>),
    /// A key went up; `None` where the key has no scan code.
    KeyUp(Option<i32>),
    /// Anything else.
    Other,
}

/// What the window's state comes to.
pub struct GameView {
    pub running: bool,
    pub window_size: (i32, i32),
    pub keys_down: Set<i32>,
}

/// The state of the running window.
#[derive(Debug)]
pub struct Game {
    running: bool,
    window_size: (i32, i32),
    keys_down: Vec<i32>,
}

/// The state after one event.
pub open spec fn after_event(state: GameView, event: Event) -> GameView {
    match event {
        Event::Quit => GameView { running: false, ..state },
        Event::Resized(width, height) => GameView { window_size: (width, height), ..state },
        Event::KeyDown(Some(key)) => GameView { keys_down: state.keys_down.insert(key), ..state },
        Event::KeyUp(Some(key)) => GameView { keys_down: state.keys_down.remove(key), ..state },
        _ => state,
    }
}

/// The state after the events `events`, taken in order.
pub open spec fn after_events(state: GameView, events: Seq<Event>) -> GameView
    decreases events.len(),
{
    if events.len() == 0 {
        state
    } else {
        after_event(after_events(state, events.drop_last()), events.last())
    }
}

/// The keys of `keys`, as a set.
spec fn held(keys: Seq<i32>) -> Set<i32> {
    Set::new(|key: i32| keys.contains(key))
}

impl Game {
    pub closed spec fn view(self) -> GameView {
        GameView {
            running: self.running,
            window_size: self.window_size,
            keys_down: held(self.keys_down@),
        }
    }

    /// The state of a window of `window_size` that has just opened: running,
    /// with no key held.
    pub fn new(window_size: (i32, i32)) -> (r: Self)
        ensures
            r@ == (GameView { running: true, window_size, keys_down: Set::empty() }),
    {
        let r = Game { running: true, window_size, keys_down: Vec::new() };
        assert(held(r.keys_down@) =~= Set::empty());
        r
    }

    /// The command that sets the drawing area when the window opens.
    pub fn init(&self) -> (c: Command)
        ensures
            c == (Command::Viewport { width: self@.window_size.0, height: self@.window_size.1 }),
    {
        Command::Viewport { width: self.window_size.0, height: self.window_size.1 }
    }

    /// Takes the pending events in, in order.
    pub fn handle_events(&mut self, events: &[Event])
        ensures
            final(self)@ == after_events(old(self)@, events@),
    {
        let mut i: usize = 0;
        while i < events.len()
            invariant
                i <= events@.len(),
                self@ == after_events(old(self)@, events@.take(i as int)),
            decreases events@.len() - i,
        {
            proof {
                assert(events@.take(i + 1).drop_last() =~= events@.take(i as int));
            }
            self.handle_event(events[i]);
            i += 1;
        }
        assert(events@.take(i as int) =~= events@);
    }

    /// Takes one event in.
    pub fn handle_event(&mut self, event: Event)
        ensures
            final(self)@ == after_event(old(self)@, event),
    {
        match event {
            Event::Quit => {
                self.running = false;
            },
            Event::Resized(width, height) => {
                self.window_size = (width, height);
            },
            Event::KeyDown(Some(key)) => {
                if !self.is_key_down(key) {
                    let ghost before = self.keys_down@;
                    self.keys_down.push(key);
                    proof {
                        assert(self.keys_down@.last() == key);
                        assert forall|k: i32|
                            self.keys_down@.contains(k) <==> before.contains(k) || k == key by {
                            if before.contains(k) {
                                let j = choose|j: int| 0 <= j < before.len() && before[j] == k;
                                assert(self.keys_down@[j] == k);
                            }
                            if k == key {
                                assert(self.keys_down@[before.len() as int] == k);
                            }
                        }
                    }
                }
                assert(held(self.keys_down@) =~= held(old(self).keys_down@).insert(key));
            },
            Event::KeyUp(Some(key)) => {
                let mut kept: Vec<i32> = Vec::new();
                let mut i: usize = 0;
                while i < self.keys_down.len()
                    invariant
                        i <= self.keys_down@.len(),
                        *self == *old(self),
                        forall|j: int| 0 <= j < kept@.len() ==> kept@[j] != key
                            && self.keys_down@.contains(#[trigger] kept@[j]),
                        forall|j: int|
                            0 <= j < i && self.keys_down@[j] != key ==> kept@.contains(
                                #[trigger] self.keys_down@[j],
                            ),
                    decreases self.keys_down@.len() - i,
                {
                    let k: i32 = self.keys_down[i];
                    if k != key {
                        let ghost before = kept@;
                        kept.push(k);
                        proof {
                            assert(kept@[before.len() as int] == k);
                            assert forall|j: int|
                                0 <= j < i + 1 && self.keys_down@[j] != key implies kept@.contains(
                                #[trigger] self.keys_down@[j],
                            ) by {
                                if j < i {
                                    let m = choose|m: int|
                                        0 <= m < before.len() && before[m] == self.keys_down@[j];
                                    assert(kept@[m] == self.keys_down@[j]);
                                }
                            }
                        }
                    }
                    i += 1;
                }
                proof {
                    assert forall|k: i32|
                        kept@.contains(k) <==> old(self).keys_down@.contains(k) && k != key by {
                        if old(self).keys_down@.contains(k) && k != key {
                            let j = choose|j: int|
                                0 <= j < old(self).keys_down@.len() && old(self).keys_down@[j] == k;
                            assert(kept@.contains(old(self).keys_down@[j]));
                        }
                    }
                    assert(held(kept@) =~= held(old(self).keys_down@).remove(key));
                }
                self.keys_down = kept;
            },
            _ => {},
        }
    }

    /// Whether the window goes on.
    pub fn is_running(&self) -> (r: bool)
        ensures
            r == self@.running,
    {
        self.running
    }

    /// Records the window's new size and sets the drawing area to it.
    pub fn resize_window(&mut self, size: (i32, i32)) -> (c: Command)
        ensures
            final(self)@ == (GameView { window_size: size, ..old(self)@ }),
            c == (Command::Viewport { width: size.0, height: size.1 }),
    {
        self.window_size = size;
        Command::Viewport { width: size.0, height: size.1 }
    }

    /// Whether the key with scan code `key` is held.
    pub fn is_key_down(&self, key: i32) -> (r: bool)
        ensures
            r == self@.keys_down.contains(key),
    {
        let mut i: usize = 0;
        while i < self.keys_down.len()
            invariant
                i <= self.keys_down@.len(),
                forall|j: int| 0 <= j < i ==> self.keys_down@[j] != key,
            decreases self.keys_down@.len() - i,
        {
            if self.keys_down[i] == key {
                return true;
            }
            i += 1;
        }
        false
    }

    /// The window's width and height.
    pub fn window_size(&self) -> (r: (i32, i32))
        ensures
            r == self@.window_size,
    {
        self.window_size
    }
}

} // verus!
