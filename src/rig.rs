//! The camera rig, which owns the pose, and the controller that runs one frame:
//! events through the capture state machine, then motion gated by its mode.
use crate::capture::{any_quit, reactions, mode_after, BatchOutcome, CaptureMode, CapturePolicy, CaptureState};
use crate::event::{classify_batch, signals_of, Event};
use crate::motion::{
    advance, advance_spec, clamp, look, look_spec, wrap_yaw, Basis, CameraPose, FrameInput,
    MotionConfig, Orientation, Vec3, FULL_TURN, MAX_PITCH, WORLD_LIMIT,
};
use vstd::prelude::*;

verus! {

/// The pose a rig starts with: the position saturated at the world limit,
/// facing the given orientation (yaw wrapped into one turn, pitch clamped), or
/// yaw and pitch zero when none is given.
pub open spec fn initial_pose(position: Vec3, facing: Option<Orientation>) -> CameraPose {
    CameraPose {
        position: Vec3 {
            x: clamp(position.x as int, -WORLD_LIMIT, WORLD_LIMIT as int) as i128,
            y: clamp(position.y as int, -WORLD_LIMIT, WORLD_LIMIT as int) as i128,
            z: clamp(position.z as int, -WORLD_LIMIT, WORLD_LIMIT as int) as i128,
        },
        orientation: match facing {
            None => Orientation { yaw: 0, pitch: 0 },
            Some(o) => Orientation {
                yaw: (o.yaw as int % (FULL_TURN as int)) as i64,
                pitch: clamp(o.pitch as int, -MAX_PITCH, MAX_PITCH as int) as i64,
            },
        },
    }
}

fn saturate(v: i128) -> (r: i128)
    ensures
        r == clamp(v as int, -WORLD_LIMIT, WORLD_LIMIT as int),
{
    if v < -WORLD_LIMIT {
        -WORLD_LIMIT
    } else if v > WORLD_LIMIT {
        WORLD_LIMIT
    } else {
        v
    }
}

/// The camera's pose; only `advance` changes it after construction.
pub struct CameraRig {
    pose: CameraPose,
}

impl View for CameraRig {
    type V = CameraPose;

    closed spec fn view(&self) -> CameraPose {
        self.pose
    }
}

impl CameraRig {
    #[verifier::type_invariant]
    closed spec fn inv(&self) -> bool {
        self.pose.wf()
    }

    /// A rig at `position`, facing `facing` (as a look-at construction gives
    /// it) or yaw and pitch zero.
    pub fn new(position: Vec3, facing: Option<Orientation>) -> (r: CameraRig)
        ensures
            r@ == initial_pose(position, facing),
            r@.wf(),
    {
        let orientation = match facing {
            None => Orientation { yaw: 0, pitch: 0 },
            Some(o) => {
                let pitch = if o.pitch < -MAX_PITCH {
                    -MAX_PITCH
                } else if o.pitch > MAX_PITCH {
                    MAX_PITCH
                } else {
                    o.pitch
                };
                Orientation { yaw: wrap_yaw(o.yaw as i128), pitch }
            },
        };
        let position = Vec3 {
            x: saturate(position.x),
            y: saturate(position.y),
            z: saturate(position.z),
        };
        CameraRig { pose: CameraPose { position, orientation } }
    }

    /// The pose, for the renderer.
    pub fn current_pose(&self) -> (r: CameraPose)
        ensures
            r == self@,
            r.wf(),
    {
        proof {
            use_type_invariant(self);
        }
        self.pose
    }

    /// The orientation that `advance` with the same arguments will give the
    /// rig; its basis is what `advance` moves along.
    pub fn heading(&self, mode: CaptureMode, input: &FrameInput, cfg: &MotionConfig) -> (r:
        Orientation)
        requires
            cfg.wf(),
        ensures
            r == (match mode {
                CaptureMode::Released => self@.orientation,
                CaptureMode::Captured => look_spec(self@.orientation, *input, *cfg),
            }),
    {
        proof {
            use_type_invariant(self);
        }
        match mode {
            CaptureMode::Released => self.pose.orientation,
            CaptureMode::Captured => look(self.pose.orientation, input, cfg),
        }
    }

    /// Integrates one frame.
    pub fn advance(&mut self, mode: CaptureMode, input: &FrameInput, cfg: &MotionConfig, basis: &Basis)
        requires
            cfg.wf(),
        ensures
            final(self)@ == advance_spec(old(self)@, mode, *input, *cfg, *basis),
    {
        proof {
            use_type_invariant(&*self);
        }
        let next = advance(&self.pose, mode, input, cfg, basis);
        self.pose = next;
    }
}

/// A free-look controller: the capture state machine, the rig, the motion
/// configuration, and whether flying is enabled at all.
pub struct FreeLook {
    pub capture: CaptureState,
    pub rig: CameraRig,
    pub config: MotionConfig,
    pub fly_enabled: bool,
}

impl FreeLook {
    pub open spec fn wf(&self) -> bool {
        self.config.wf()
    }

    /// A controller with the cursor captured and the rig at its initial pose.
    pub fn new(
        policy: CapturePolicy,
        config: MotionConfig,
        position: Vec3,
        facing: Option<Orientation>,
        fly_enabled: bool,
    ) -> (r: FreeLook)
        requires
            config.wf(),
        ensures
            r.wf(),
            r.capture == CaptureState::new_spec(policy),
            r.rig@ == initial_pose(position, facing),
            r.config == config,
            r.fly_enabled == fly_enabled,
    {
        FreeLook {
            capture: CaptureState::new(policy),
            rig: CameraRig::new(position, facing),
            config,
            fly_enabled,
        }
    }

    /// Handles one frame's events in arrival order: each is classified, and
    /// each signal goes through the capture state machine.
    pub fn handle_events(&mut self, events: &Vec<Event>) -> (r: BatchOutcome)
        ensures
            r.reactions@ == reactions(
                old(self).capture.mode,
                old(self).capture.policy,
                signals_of(events@),
            ),
            r.quit == any_quit(r.reactions@),
            final(self).capture.mode == mode_after(
                old(self).capture.mode,
                old(self).capture.policy,
                signals_of(events@),
            ),
            final(self).capture.policy == old(self).capture.policy,
            final(self).rig@ == old(self).rig@,
            final(self).config == old(self).config,
            final(self).fly_enabled == old(self).fly_enabled,
    {
        let signals = classify_batch(events);
        self.capture.handle_batch(&signals)
    }

    /// Whether this frame moves the camera: flying is enabled and the cursor is
    /// captured.
    pub open spec fn moves(&self) -> bool {
        self.fly_enabled && self.capture.mode == CaptureMode::Captured
    }

    /// The orientation that `integrate` will give the rig for `input`; the
    /// caller computes its basis for `integrate`.
    pub fn heading(&self, input: &FrameInput) -> (r: Orientation)
        requires
            self.wf(),
        ensures
            r == (if self.moves() {
                look_spec(self.rig@.orientation, *input, self.config)
            } else {
                self.rig@.orientation
            }),
    {
        let mode = if self.fly_enabled {
            self.capture.mode
        } else {
            CaptureMode::Released
        };
        self.rig.heading(mode, input, &self.config)
    }

    /// Integrates one frame; the pose changes only while flying is enabled and
    /// the cursor is captured.
    pub fn integrate(&mut self, input: &FrameInput, basis: &Basis)
        requires
            old(self).wf(),
        ensures
            final(self).rig@ == (if old(self).moves() {
                advance_spec(old(self).rig@, CaptureMode::Captured, *input, old(self).config, *basis)
            } else {
                old(self).rig@
            }),
            final(self).capture == old(self).capture,
            final(self).config == old(self).config,
            final(self).fly_enabled == old(self).fly_enabled,
    {
        if self.fly_enabled {
            let mode = self.capture.mode;
            self.rig.advance(mode, input, &self.config, basis);
        }
    }
}

} // verus!
