//! The sampler: run-time toggles and the decisions of each loop step.
//!
//! The caller drives the loop. Each iteration it hands the sampler the key
//! that is pending (if any), asks what to do next, and when told to acquire,
//! reads the cursor and hands the position to `tick`, which says what to
//! publish and what to show. A pause is resolved by one blocking key read.

use vstd::prelude::*;
use crate::command::{Command, Key, command_of, command_for_key};
use crate::config::RunConfig;

verus! {

/// The two switches flipped by key presses.
#[derive(Debug, Clone, Copy, PartialEq, Eq, Structural)]
pub struct Toggles {
    pub streaming_enabled: bool,
    pub display_enabled: bool,
}

impl Toggles {
    /// Streaming as requested, display on.
    pub fn new(streaming: bool) -> (r: Toggles)
        ensures
            r == (Toggles { streaming_enabled: streaming, display_enabled: true }),
    {
        Toggles { streaming_enabled: streaming, display_enabled: true }
    }

    pub open spec fn stream_flipped(self) -> Toggles {
        Toggles { streaming_enabled: !self.streaming_enabled, ..self }
    }

    pub open spec fn display_flipped(self) -> Toggles {
        Toggles { display_enabled: !self.display_enabled, ..self }
    }

    /// Flips streaming; display is left as it is.
    pub fn toggle_stream(&mut self)
        ensures
            *final(self) == old(self).stream_flipped(),
    {
        self.streaming_enabled = !self.streaming_enabled;
    }

    /// Flips display; streaming is left as it is.
    pub fn toggle_display(&mut self)
        ensures
            *final(self) == old(self).display_flipped(),
    {
        self.display_enabled = !self.display_enabled;
    }

    /// The tag shown on each telemetry line for the streaming state.
    pub fn stream_tag(&self) -> (r: &'static str)
        ensures
            self.streaming_enabled ==> r@ == "[+lsl]"@,
            !self.streaming_enabled ==> r@ == "[-lsl]"@,
    {
        if self.streaming_enabled {
            "[+lsl]"
        } else {
            "[-lsl]"
        }
    }
}

/// Flipping streaming twice gives back the toggles one started with.
pub proof fn toggle_stream_twice(t: Toggles)
    ensures
        t.stream_flipped().stream_flipped() == t,
{
}

/// Flipping display twice gives back the toggles one started with.
pub proof fn toggle_display_twice(t: Toggles)
    ensures
        t.display_flipped().display_flipped() == t,
{
}

/// One cursor reading: milliseconds since start, and screen coordinates.
#[derive(Debug, Clone, Copy, PartialEq, Eq, Structural)]
pub struct MousePosition {
    pub timestamp: u128,
    pub x: i32,
    pub y: i32,
}

impl MousePosition {
    pub fn new(timestamp: u128, x: i32, y: i32) -> (r: MousePosition)
        ensures
            r == (MousePosition { timestamp, x, y }),
    {
        MousePosition { timestamp, x, y }
    }
}

/// A status line that a key press calls for.
#[derive(Debug, Clone, Copy, PartialEq, Eq, Structural)]
pub enum Notice {
    Silent,
    Farewell,
    PausePrompt,
    /// Streaming is now on (`true`) or off.
    StreamingSet(bool),
    DisplayOff,
    RateChangeUnavailable,
}

/// What the loop does after the input check.
#[derive(Debug, Clone, Copy, PartialEq, Eq, Structural)]
pub enum Action {
    /// Stop the loop; nothing more is acquired, published or shown.
    Exit,
    /// Block until one key is read and hand it to `handle_input`.
    WaitForKey,
    /// Read the cursor and hand it to `tick`.
    Acquire,
}

/// The content of one telemetry line.
#[derive(Debug, Clone, Copy, PartialEq, Eq, Structural)]
pub struct Telemetry {
    pub count: u64,
    pub timestamp: u128,
    pub x: i32,
    pub y: i32,
    pub streaming: bool,
}

/// The two channels pushed to the outbound stream.
#[derive(Debug, Clone, Copy, PartialEq, Eq, Structural)]
pub struct StreamSample {
    pub x: i32,
    pub y: i32,
}

impl StreamSample {
    /// The channel values in stream order: x, then y.
    pub fn channels(&self) -> (r: Vec<i32>)
        ensures
            r@ == seq![self.x, self.y],
    {
        vec![self.x, self.y]
    }
}

/// What one tick hands on: the sample to publish and the line to show.
#[derive(Debug, Clone, Copy, PartialEq, Eq, Structural)]
pub struct TickOutput {
    pub published: Option<StreamSample>,
    pub telemetry: Option<Telemetry>,
}

pub open spec fn no_output() -> TickOutput {
    TickOutput { published: None, telemetry: None }
}

/// The loop's state between steps.
#[derive(Debug, Clone, Copy, PartialEq, Eq, Structural)]
pub struct Sampler {
    pub toggles: Toggles,
    /// Ticks taken so far (held at the largest `u64` once it is reached).
    pub sample_count: u64,
    pub paused: bool,
    pub exited: bool,
}

impl Sampler {
    pub open spec fn initial(config: RunConfig) -> Sampler {
        Sampler {
            toggles: Toggles { streaming_enabled: config.streaming_requested, display_enabled: true },
            sample_count: 0,
            paused: false,
            exited: false,
        }
    }

    pub open spec fn next_action(self) -> Action {
        if self.exited {
            Action::Exit
        } else if self.paused {
            Action::WaitForKey
        } else {
            Action::Acquire
        }
    }

    /// The state and notice after the input check, given the key read (if any).
    /// While paused, any key resumes and is otherwise ignored.
    pub open spec fn after_input(self, key: Option<Key>) -> (Sampler, Notice) {
        if self.exited {
            (self, Notice::Silent)
        } else {
            match key {
                None => (self, Notice::Silent),
                Some(k) => if self.paused {
                    (Sampler { paused: false, ..self }, Notice::Silent)
                } else {
                    match command_of(k) {
                        Command::Exit => (Sampler { exited: true, ..self }, Notice::Farewell),
                        Command::Pause => (Sampler { paused: true, ..self }, Notice::PausePrompt),
                        Command::ChangeRate => (self, Notice::RateChangeUnavailable),
                        Command::ToggleStream => {
                            let t = self.toggles.stream_flipped();
                            (Sampler { toggles: t, ..self }, Notice::StreamingSet(t.streaming_enabled))
                        },
                        Command::ToggleDisplay => {
                            let t = self.toggles.display_flipped();
                            (
                                Sampler { toggles: t, ..self },
                                if t.display_enabled {
                                    Notice::Silent
                                } else {
                                    Notice::DisplayOff
                                },
                            )
                        },
                        Command::NoOp => (self, Notice::Silent),
                    }
                },
            }
        }
    }

    /// The state and output of a tick on a cursor reading. Only a sampler
    /// that is told to acquire does anything.
    pub open spec fn after_tick(self, pos: MousePosition) -> (Sampler, TickOutput) {
        if self.next_action() != Action::Acquire {
            (self, no_output())
        } else {
            let count = if self.sample_count < u64::MAX {
                (self.sample_count + 1) as u64
            } else {
                self.sample_count
            };
            (
                Sampler { sample_count: count, ..self },
                TickOutput {
                    published: if self.toggles.streaming_enabled {
                        Some(StreamSample { x: pos.x, y: pos.y })
                    } else {
                        None
                    },
                    telemetry: if self.toggles.display_enabled {
                        Some(
                            Telemetry {
                                count,
                                timestamp: pos.timestamp,
                                x: pos.x,
                                y: pos.y,
                                streaming: self.toggles.streaming_enabled,
                            },
                        )
                    } else {
                        None
                    },
                },
            )
        }
    }

    pub fn new(config: RunConfig) -> (r: Sampler)
        ensures
            r == Sampler::initial(config),
    {
        Sampler {
            toggles: Toggles::new(config.streaming_requested),
            sample_count: 0,
            paused: false,
            exited: false,
        }
    }

    /// What to do after the input check.
    pub fn action(&self) -> (r: Action)
        ensures
            r == self.next_action(),
    {
        if self.exited {
            Action::Exit
        } else if self.paused {
            Action::WaitForKey
        } else {
            Action::Acquire
        }
    }

    /// Takes the key read in the input check (`None` when none was pending),
    /// or the key that ends a pause.
    pub fn handle_input(&mut self, key: Option<Key>) -> (r: Notice)
        ensures
            (*final(self), r) == old(self).after_input(key),
    {
        if self.exited {
            return Notice::Silent;
        }
        match key {
            None => Notice::Silent,
            Some(k) => {
                if self.paused {
                    self.paused = false;
                    return Notice::Silent;
                }
                match command_for_key(k) {
                    Command::Exit => {
                        self.exited = true;
                        Notice::Farewell
                    },
                    Command::Pause => {
                        self.paused = true;
                        Notice::PausePrompt
                    },
                    Command::ChangeRate => Notice::RateChangeUnavailable,
                    Command::ToggleStream => {
                        self.toggles.toggle_stream();
                        Notice::StreamingSet(self.toggles.streaming_enabled)
                    },
                    Command::ToggleDisplay => {
                        self.toggles.toggle_display();
                        if self.toggles.display_enabled {
                            Notice::Silent
                        } else {
                            Notice::DisplayOff
                        }
                    },
                    Command::NoOp => Notice::Silent,
                }
            },
        }
    }

    /// Counts a cursor reading and says what to publish and what to show.
    pub fn tick(&mut self, pos: MousePosition) -> (r: TickOutput)
        ensures
            (*final(self), r) == old(self).after_tick(pos),
            final(self).toggles == old(self).toggles,
            !old(self).toggles.streaming_enabled ==> r.published is None,
            !old(self).toggles.display_enabled ==> r.telemetry is None,
            old(self).next_action() == Action::Acquire && old(self).toggles.streaming_enabled
                ==> r.published == Some(StreamSample { x: pos.x, y: pos.y }),
    {
        if self.exited || self.paused {
            return TickOutput { published: None, telemetry: None };
        }
        if self.sample_count < u64::MAX {
            self.sample_count = self.sample_count + 1;
        }
        let published = if self.toggles.streaming_enabled {
            Some(StreamSample { x: pos.x, y: pos.y })
        } else {
            None
        };
        let telemetry = if self.toggles.display_enabled {
            Some(
                Telemetry {
                    count: self.sample_count,
                    timestamp: pos.timestamp,
                    x: pos.x,
                    y: pos.y,
                    streaming: self.toggles.streaming_enabled,
                },
            )
        } else {
            None
        };
        TickOutput { published, telemetry }
    }
}

/// How many of the ticks on `positions`, taken in order from `s` with no key
/// pressed in between, hand a sample to the outbound stream.
pub open spec fn publish_count(s: Sampler, positions: Seq<MousePosition>) -> nat
    decreases positions.len(),
{
    if positions.len() == 0 {
        0
    } else {
        let (next, out) = s.after_tick(positions[0]);
        (if out.published is Some {
            1nat
        } else {
            0nat
        }) + publish_count(next, positions.drop_first())
    }
}

/// With streaming off, no sequence of ticks hands a single sample to the
/// outbound stream.
pub proof fn streaming_off_publishes_nothing(s: Sampler, positions: Seq<MousePosition>)
    requires
        !s.toggles.streaming_enabled,
    ensures
        publish_count(s, positions) == 0,
    decreases positions.len(),
{
    if positions.len() > 0 {
        streaming_off_publishes_nothing(s.after_tick(positions[0]).0, positions.drop_first());
    }
}

/// A pause stops ticking: while paused, a tick acquires, publishes and shows
/// nothing and an empty input check changes nothing; exactly one key read
/// ends the pause, and that key changes nothing else.
pub proof fn pause_holds_until_one_key(s: Sampler, pause_key: Key, pos: MousePosition, key: Key)
    requires
        !s.exited,
        !s.paused,
        command_of(pause_key) == Command::Pause,
    ensures
        ({
            let p = s.after_input(Some(pause_key)).0;
            &&& p.next_action() == Action::WaitForKey
            &&& p.after_tick(pos) == (p, no_output())
            &&& p.after_input(None) == (p, Notice::Silent)
            &&& p.after_input(Some(key)).0 == s
            &&& p.after_input(Some(key)).0.next_action() == Action::Acquire
        }),
{
}

/// An exit key stops the loop before anything more is acquired, published or
/// shown, and no later step undoes it.
pub proof fn exit_ends_ticking(s: Sampler, exit_key: Key, pos: MousePosition, key: Option<Key>)
    requires
        !s.exited,
        !s.paused,
        command_of(exit_key) == Command::Exit,
    ensures
        ({
            let e = s.after_input(Some(exit_key));
            &&& e.1 == Notice::Farewell
            &&& e.0.next_action() == Action::Exit
            &&& e.0.after_tick(pos) == (e.0, no_output())
            &&& e.0.after_input(key) == (e.0, Notice::Silent)
        }),
{
}

} // verus!
