use vstd::prelude::*;

verus! {

/// What a change of playback asks of every resource stream.
#[derive(Debug, PartialEq, Eq, Structural, Clone, Copy)]
pub enum StreamCommand {
    Play,
    Pause,
    Restart,
}

/// The clock that shaders see: it runs while playing, stands while paused,
/// and can be moved by hand, frame by frame.
#[derive(Debug, PartialEq, Eq, Structural, Clone, Copy)]
pub struct Playback {
    pub playing: bool,
    /// Playback position in nanoseconds.
    pub time: u128,
    /// The number of frames played.
    pub frame: u32,
}

/// `a + b`, held to the range of 128 bits.
pub open spec fn time_after(a: u128, b: u128) -> u128 {
    if a + b > u128::MAX {
        u128::MAX
    } else {
        (a + b) as u128
    }
}

/// `a - b`, or 0 where `b` is the larger.
pub open spec fn time_before(a: u128, b: u128) -> u128 {
    if a < b {
        0
    } else {
        (a - b) as u128
    }
}

impl Playback {
    /// One frame on: the clock advances by `dt`, the frame count by one. The
    /// frame count stops at its largest number.
    pub open spec fn forward(self, dt: u128) -> Playback {
        Playback {
            playing: self.playing,
            time: time_after(self.time, dt),
            frame: if self.frame == u32::MAX {
                self.frame
            } else {
                (self.frame + 1) as u32
            },
        }
    }

    /// One frame back; nothing at frame 0.
    pub open spec fn backward(self, dt: u128) -> Playback {
        if self.frame > 0 {
            Playback {
                playing: self.playing,
                time: time_before(self.time, dt),
                frame: (self.frame - 1) as u32,
            }
        } else {
            self
        }
    }

    /// Paused, at time 0 and frame 0.
    pub fn new() -> (playback: Playback)
        ensures
            playback == (Playback { playing: false, time: 0, frame: 0 }),
    {
        Playback { playing: false, time: 0, frame: 0 }
    }

    pub fn play(&mut self) -> (command: StreamCommand)
        ensures
            *final(self) == (Playback { playing: true, ..*old(self) }),
            command == StreamCommand::Play,
    {
        self.playing = true;
        StreamCommand::Play
    }

    pub fn pause(&mut self) -> (command: StreamCommand)
        ensures
            *final(self) == (Playback { playing: false, ..*old(self) }),
            command == StreamCommand::Pause,
    {
        self.playing = false;
        StreamCommand::Pause
    }

    /// Pauses if playing, plays if paused.
    pub fn toggle_play(&mut self) -> (command: StreamCommand)
        ensures
            *final(self) == (Playback { playing: !old(self).playing, ..*old(self) }),
            command == (if old(self).playing {
                StreamCommand::Pause
            } else {
                StreamCommand::Play
            }),
    {
        if self.playing {
            self.pause()
        } else {
            self.play()
        }
    }

    /// Back to time 0 and frame 0, playing or paused as before.
    pub fn restart(&mut self) -> (command: StreamCommand)
        ensures
            *final(self) == (Playback { playing: old(self).playing, time: 0, frame: 0 }),
            command == StreamCommand::Restart,
    {
        self.time = 0;
        self.frame = 0;
        StreamCommand::Restart
    }

    pub fn step_forward(&mut self, dt: u128)
        ensures
            *final(self) == old(self).forward(dt),
    {
        self.time = if dt > u128::MAX - self.time {
            u128::MAX
        } else {
            self.time + dt
        };
        if self.frame < u32::MAX {
            self.frame = self.frame + 1;
        }
    }

    pub fn step_backward(&mut self, dt: u128)
        ensures
            *final(self) == old(self).backward(dt),
    {
        if self.frame > 0 {
            self.time = if self.time < dt {
                0
            } else {
                self.time - dt
            };
            self.frame = self.frame - 1;
        }
    }

    /// The end of a frame that took `dt`: the clock moves on if it is
    /// playing.
    pub fn tick(&mut self, dt: u128)
        ensures
            *final(self) == (if old(self).playing {
                old(self).forward(dt)
            } else {
                *old(self)
            }),
    {
        if self.playing {
            self.step_forward(dt);
        }
    }
}

/// The seconds since midnight at a time of day.
pub fn seconds_of_day(hour: u32, minute: u32, second: u32) -> (seconds: u64)
    ensures
        seconds == hour * 3600 + minute * 60 + second,
{
    (hour as u64) * 3600 + (minute as u64) * 60 + (second as u64)
}

} // verus!
