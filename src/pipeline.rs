//! The per-frame order of work: read the clock, run the update stage when
//! it is enabled, run the draw stage with its copy into the read-back
//! buffer, encode the image and write it, then go on with the next frame.
//!
//! The orchestrator only decides. Whoever drives it performs each action it
//! hands out, waits for that work to complete, and reports the completion as
//! the next event, so no stage starts before the one before it has finished.
use vstd::prelude::*;
use crate::frame::{
    encode_frame, filtered_len, png_rgba8_of, readback_len, rgba8_len, FrameError,
};
use crate::naming::{frame_file_name, frame_path, lemma_frame_paths_distinct};

verus! {

/// Work items per group of the update stage's dispatch.
pub const DISPATCH_GROUP_SIZE: u32 = 64;

/// Groups needed to cover `points_num` work items.
pub open spec fn groups_for(points_num: nat) -> nat {
    (points_num + DISPATCH_GROUP_SIZE - 1) as nat / DISPATCH_GROUP_SIZE as nat
}

/// Number of groups of the update dispatch: `points_num` rounded up to a
/// whole number of groups.
pub fn dispatch_groups(points_num: u32) -> (r: u32)
    ensures
        r as nat == groups_for(points_num as nat),
        r as nat * DISPATCH_GROUP_SIZE as nat >= points_num as nat,
        (r as nat * DISPATCH_GROUP_SIZE as nat) < points_num as nat + DISPATCH_GROUP_SIZE as nat,
{
    let whole = points_num / DISPATCH_GROUP_SIZE;
    if points_num % DISPATCH_GROUP_SIZE == 0 {
        whole
    } else {
        whole + 1
    }
}

/// The fixed parameters of a run.
#[derive(Clone, Copy, Debug, PartialEq, Eq, Structural)]
pub struct RenderConfig {
    /// Width of every frame, in pixels.
    pub width: u32,
    /// Height of every frame, in pixels.
    pub height: u32,
    /// Number of frames to render.
    pub frames_num: u32,
    /// Frames per second; the time step of a frame is its inverse.
    pub frame_rate: u32,
    /// Number of seed points.
    pub points_num: u32,
    /// Whether the update stage moves the points before each draw.
    pub update_enabled: bool,
}

/// Why a configuration cannot be rendered.
#[derive(Clone, Copy, Debug, PartialEq, Eq, Structural)]
pub enum ConfigError {
    /// The width or the height is zero.
    EmptyExtent,
    /// The frame rate is zero, so the time step is undefined.
    ZeroFrameRate,
    /// A frame does not fit in memory addresses.
    TooLarge,
}

/// A configuration that can be rendered.
pub open spec fn config_ok(c: RenderConfig) -> bool {
    &&& c.width > 0
    &&& c.height > 0
    &&& c.frame_rate > 0
    &&& filtered_len(c.width as nat, c.height as nat) <= usize::MAX
}

/// The later of two times.
pub open spec fn later(a: u64, b: u64) -> u64 {
    if b > a {
        b
    } else {
        a
    }
}

/// The per-frame constants handed to both stages.
#[derive(Clone, Copy, Debug, PartialEq, Eq, Structural)]
pub struct FrameParameters {
    /// Output width in pixels.
    pub width: u32,
    /// Output height in pixels.
    pub height: u32,
    /// Time since the start of the run, in nanoseconds.
    pub time_nanos: u64,
    /// Frames per second; the time step of a frame is its inverse.
    pub frame_rate: u32,
    /// Number of seed points.
    pub points_num: u32,
}

/// The parameters of a frame drawn at `time_nanos`.
pub open spec fn params_at(c: RenderConfig, time_nanos: u64) -> FrameParameters {
    FrameParameters {
        width: c.width,
        height: c.height,
        time_nanos,
        frame_rate: c.frame_rate,
        points_num: c.points_num,
    }
}

/// Where the orchestrator stands within a frame.
#[derive(Clone, Copy, Debug, PartialEq, Eq, Structural)]
pub enum Stage {
    /// Waiting for the time of the next frame.
    AwaitClock,
    /// The update stage was handed out.
    AwaitUpdate,
    /// The draw stage and its copy were handed out.
    AwaitDraw,
    /// The encoded frame was handed out to be written.
    AwaitWrite,
    /// Every frame was written.
    Done,
}

/// What happened since the last action.
pub enum FrameEvent {
    /// The clock was read: time since the start of the run.
    Clock { elapsed_nanos: u64 },
    /// The update stage completed.
    UpdateDone,
    /// The draw stage and the copy completed; the read-back pixels.
    DrawDone { pixels: Vec<u8> },
    /// The frame file was written.
    FileWritten,
}

/// What to do next.
pub enum FrameAction {
    /// Read the time elapsed since the start of the run.
    ReadClock,
    /// Dispatch the update stage in `groups` groups, then wait for it.
    RunUpdate { params: FrameParameters, groups: u32 },
    /// Run the draw stage and copy the image into the read-back buffer,
    /// then wait for both.
    RunDraw { params: FrameParameters },
    /// Write `png` to the file at `path`.
    WriteFile { path: String, png: Vec<u8> },
    /// The run is complete.
    Finish,
}

/// Why a step was refused.
#[derive(Clone, Copy, Debug, PartialEq, Eq, Structural)]
pub enum StepError {
    /// The event does not answer the action that was handed out.
    UnexpectedEvent,
    /// The read-back image does not have the size of a frame.
    Frame(FrameError),
}

/// Drives the frames of a run, one stage at a time.
pub struct FrameOrchestrator {
    pub config: RenderConfig,
    /// Index of the current frame; the number of frames written so far.
    pub frame: u32,
    pub stage: Stage,
    /// Parameters of the current frame.
    pub params: FrameParameters,
    /// The paths that frames were written to, in order.
    pub written: Ghost<Seq<Seq<char>>>,
}

impl FrameOrchestrator {
    /// The orchestrator's invariant.
    pub open spec fn wf(&self) -> bool {
        &&& config_ok(self.config)
        &&& self.frame <= self.config.frames_num
        &&& (self.stage == Stage::Done <==> self.frame == self.config.frames_num)
        &&& self.params == params_at(self.config, self.params.time_nanos)
        &&& self.written@ == Seq::new(self.frame as nat, |i: int| frame_path(i as nat))
    }

    /// A run of `config` that has not started: at frame 0, at time 0.
    pub fn new(config: RenderConfig) -> (r: Result<FrameOrchestrator, ConfigError>)
        ensures
            r == Err::<FrameOrchestrator, ConfigError>(ConfigError::EmptyExtent) <==> (
            config.width == 0 || config.height == 0),
            r == Err::<FrameOrchestrator, ConfigError>(ConfigError::ZeroFrameRate) <==> (
            config.width != 0 && config.height != 0 && config.frame_rate == 0),
            r == Err::<FrameOrchestrator, ConfigError>(ConfigError::TooLarge) <==> (config.width
                != 0 && config.height != 0 && config.frame_rate != 0 && filtered_len(
                config.width as nat,
                config.height as nat,
            ) > usize::MAX),
            r is Ok <==> config_ok(config),
            r matches Ok(o) ==> {
                &&& o.wf()
                &&& o.config == config
                &&& o.frame == 0
                &&& o.params == params_at(config, 0)
                &&& o.stage == (if config.frames_num == 0 {
                    Stage::Done
                } else {
                    Stage::AwaitClock
                })
            },
    {
        if config.width == 0 || config.height == 0 {
            return Err(ConfigError::EmptyExtent);
        }
        if config.frame_rate == 0 {
            return Err(ConfigError::ZeroFrameRate);
        }
        proof {
            assert((config.width as int * 4 + 1) * (config.height as int) <= 0x4_0000_0000int
                * 0xffff_ffffint) by (nonlinear_arith)
                requires
                    0 <= config.width <= 0xffff_ffff,
                    0 <= config.height <= 0xffff_ffff,
            ;
        }
        let filtered = ((config.width as u128) * 4 + 1) * (config.height as u128);
        if filtered > usize::MAX as u128 {
            return Err(ConfigError::TooLarge);
        }
        let stage = if config.frames_num == 0 {
            Stage::Done
        } else {
            Stage::AwaitClock
        };
        let o = FrameOrchestrator {
            config,
            frame: 0,
            stage,
            params: FrameParameters {
                width: config.width,
                height: config.height,
                time_nanos: 0,
                frame_rate: config.frame_rate,
                points_num: config.points_num,
            },
            written: Ghost(Seq::empty()),
        };
        proof {
            assert(o.written@ =~= Seq::new(0, |i: int| frame_path(i as nat)));
        }
        Ok(o)
    }

    /// The first action of the run.
    pub fn start(&self) -> (r: FrameAction)
        requires
            self.wf(),
        ensures
            self.stage == Stage::Done ==> r is Finish,
            self.stage != Stage::Done ==> r is ReadClock,
    {
        if self.stage == Stage::Done {
            FrameAction::Finish
        } else {
            FrameAction::ReadClock
        }
    }

    /// Size in bytes of the read-back buffer that the draw stage fills.
    pub fn readback_size(&self) -> (r: usize)
        requires
            self.wf(),
        ensures
            r as nat == rgba8_len(self.config.width as nat, self.config.height as nat),
    {
        proof {
            assert((self.config.width as int) * (self.config.height as int) * 4 <= (
            self.config.width as int * 4 + 1) * (self.config.height as int)) by (nonlinear_arith)
                requires
                    0 <= self.config.width,
                    0 <= self.config.height,
            ;
        }
        match readback_len(self.config.width, self.config.height) {
            Some(n) => n,
            None => 0,
        }
    }

    /// Takes the event that answers the last action and returns the next
    /// action. An event that does not answer it is refused and changes
    /// nothing. A clock reading earlier than the current frame's time counts
    /// as that time, so frame times never go back.
    pub fn step(&mut self, event: FrameEvent) -> (r: Result<FrameAction, StepError>)
        requires
            old(self).wf(),
        ensures
            final(self).wf(),
            final(self).config == old(self).config,
            final(self).params.time_nanos >= old(self).params.time_nanos,
            final(self).params.frame_rate == old(self).config.frame_rate,
            r is Err ==> *final(self) == *old(self),
            ({
                let o = *old(self);
                let f = *final(self);
                match event {
                    FrameEvent::Clock { elapsed_nanos } => if o.stage == Stage::AwaitClock {
                        &&& f.frame == o.frame
                        &&& f.params == params_at(o.config, later(o.params.time_nanos, elapsed_nanos))
                        &&& if o.config.update_enabled {
                            &&& f.stage == Stage::AwaitUpdate
                            &&& r matches Ok(FrameAction::RunUpdate { params, groups })
                            &&& params == f.params
                            &&& groups as nat == groups_for(o.config.points_num as nat)
                        } else {
                            &&& f.stage == Stage::AwaitDraw
                            &&& r matches Ok(FrameAction::RunDraw { params })
                            &&& params == f.params
                        }
                    } else {
                        r == Err::<FrameAction, StepError>(StepError::UnexpectedEvent)
                    },
                    FrameEvent::UpdateDone => if o.stage == Stage::AwaitUpdate {
                        &&& f.frame == o.frame
                        &&& f.params == o.params
                        &&& f.stage == Stage::AwaitDraw
                        &&& r matches Ok(FrameAction::RunDraw { params })
                        &&& params == o.params
                    } else {
                        r == Err::<FrameAction, StepError>(StepError::UnexpectedEvent)
                    },
                    FrameEvent::DrawDone { pixels } => if o.stage == Stage::AwaitDraw {
                        if pixels@.len() == rgba8_len(o.config.width as nat, o.config.height as nat) {
                            &&& f.frame == o.frame
                            &&& f.params == o.params
                            &&& f.stage == Stage::AwaitWrite
                            &&& r matches Ok(FrameAction::WriteFile { path, png })
                            &&& path@ == frame_path(o.frame as nat)
                            &&& png@ == png_rgba8_of(o.config.width, o.config.height, pixels@)
                        } else {
                            r == Err::<FrameAction, StepError>(
                                StepError::Frame(FrameError::PixelCountMismatch),
                            )
                        }
                    } else {
                        r == Err::<FrameAction, StepError>(StepError::UnexpectedEvent)
                    },
                    FrameEvent::FileWritten => if o.stage == Stage::AwaitWrite {
                        &&& f.frame == o.frame + 1
                        &&& f.params == o.params
                        &&& if f.frame == o.config.frames_num {
                            f.stage == Stage::Done && r matches Ok(FrameAction::Finish)
                        } else {
                            f.stage == Stage::AwaitClock && r matches Ok(FrameAction::ReadClock)
                        }
                    } else {
                        r == Err::<FrameAction, StepError>(StepError::UnexpectedEvent)
                    },
                }
            }),
    {
        match event {
            FrameEvent::Clock { elapsed_nanos } => {
                if self.stage != Stage::AwaitClock {
                    return Err(StepError::UnexpectedEvent);
                }
                let time_nanos = if elapsed_nanos > self.params.time_nanos {
                    elapsed_nanos
                } else {
                    self.params.time_nanos
                };
                self.params = FrameParameters {
                    width: self.config.width,
                    height: self.config.height,
                    time_nanos,
                    frame_rate: self.config.frame_rate,
                    points_num: self.config.points_num,
                };
                if self.config.update_enabled {
                    self.stage = Stage::AwaitUpdate;
                    Ok(
                        FrameAction::RunUpdate {
                            params: self.params,
                            groups: dispatch_groups(self.config.points_num),
                        },
                    )
                } else {
                    self.stage = Stage::AwaitDraw;
                    Ok(FrameAction::RunDraw { params: self.params })
                }
            },
            FrameEvent::UpdateDone => {
                if self.stage != Stage::AwaitUpdate {
                    return Err(StepError::UnexpectedEvent);
                }
                self.stage = Stage::AwaitDraw;
                Ok(FrameAction::RunDraw { params: self.params })
            },
            FrameEvent::DrawDone { pixels } => {
                if self.stage != Stage::AwaitDraw {
                    return Err(StepError::UnexpectedEvent);
                }
                match encode_frame(self.config.width, self.config.height, pixels.as_slice()) {
                    Ok(png) => {
                        self.stage = Stage::AwaitWrite;
                        Ok(FrameAction::WriteFile { path: frame_file_name(self.frame), png })
                    },
                    Err(e) => Err(StepError::Frame(e)),
                }
            },
            FrameEvent::FileWritten => {
                if self.stage != Stage::AwaitWrite {
                    return Err(StepError::UnexpectedEvent);
                }
                proof {
                    self.written@ = self.written@.push(frame_path(self.frame as nat));
                    assert(self.written@ =~= Seq::new(
                        (self.frame + 1) as nat,
                        |i: int| frame_path(i as nat),
                    ));
                }
                self.frame = self.frame + 1;
                if self.frame == self.config.frames_num {
                    self.stage = Stage::Done;
                    Ok(FrameAction::Finish)
                } else {
                    self.stage = Stage::AwaitClock;
                    Ok(FrameAction::ReadClock)
                }
            },
        }
    }

    /// Whether every frame was written.
    pub fn is_finished(&self) -> (r: bool)
        ensures
            r == (self.stage == Stage::Done),
    {
        self.stage == Stage::Done
    }

    /// Index of the current frame, which is the number of frames written.
    pub fn current_frame(&self) -> (r: u32)
        ensures
            r == self.frame,
    {
        self.frame
    }
}

/// When a run is finished it has written exactly `frames_num` files, frame
/// `i` to the path of index `i`, and no two frames to the same path.
pub proof fn lemma_finished_run_wrote_every_frame(o: FrameOrchestrator)
    requires
        o.wf(),
        o.stage == Stage::Done,
    ensures
        o.written@.len() == o.config.frames_num,
        forall|i: int| 0 <= i < o.config.frames_num ==> o.written@[i] == frame_path(i as nat),
        forall|i: int, j: int|
            0 <= i < o.written@.len() && 0 <= j < o.written@.len() && i != j ==> o.written@[i]
                != o.written@[j],
{
    assert forall|i: int, j: int|
        0 <= i < o.written@.len() && 0 <= j < o.written@.len() && i != j implies o.written@[i]
        != o.written@[j] by {
        lemma_frame_paths_distinct(i as nat, j as nat);
    }
}

} // verus!
