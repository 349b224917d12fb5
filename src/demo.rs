use vstd::prelude::*;
use crate::render::{Binding, RenderPass, render_passes, scene_passes, scene_valid, spec_snapshot_source};
use crate::solver::{
    ceil_div, compute_plan, compute_work_group_count, extra_steps_due, spec_compute_plan,
    spec_extra_steps_due, spec_phrase_gate, step_params, Dispatch, GridResources, StepParams,
    COMPUTE_EXTRAS, COMPUTE_PASSES, WORKGROUP,
};
use crate::timeline::{
    advanced_to, beat_granularity, fires, progress_ppm, show_cues, show_timeline, spec_beat_granularity,
    spec_shader_code, timeline_wf, Cue, Position, Scene, ShowState, MAX_ELAPSED_US, SLIDE_COUNT,
};

verus! {

/// Cells along each side of the solver grid at start.
pub const GRID_SIZE: u32 = 100;

/// `now - then`, or zero when `then` lies later.
pub open spec fn since(now: u64, then: u64) -> u64 {
    if now >= then {
        (now - then) as u64
    } else {
        0
    }
}

/// Patterns whose frames pulse with the beat.
pub open spec fn spec_beat_pulse(pattern: usize) -> bool {
    (0x04 <= pattern <= 0x0f) || (0x18 <= pattern <= 0x19)
}

pub fn beat_pulse(pattern: usize) -> (r: bool)
    ensures
        r == spec_beat_pulse(pattern),
{
    (0x04 <= pattern && pattern <= 0x0f) || (0x18 <= pattern && pattern <= 0x19)
}

/// The compute work of one frame of the smoke scene.
#[derive(Debug)]
pub struct ComputeFrame {
    /// Smoke stage: how many lasers shine.
    pub stage: u32,
    /// Parameters of every slot, to upload before dispatching.
    pub params: Vec<StepParams>,
    /// Dispatches in the order they must run.
    pub dispatches: Vec<Dispatch>,
    /// Workgroups per dispatch along x, y and z.
    pub groups: (u32, u32, u32),
}

/// Everything one frame asks of the GPU side, decided from the playback position
/// and the clock.
#[derive(Debug)]
pub struct FramePlan {
    /// Textures to copy into the previous-frame snapshot, in order, one per cue left.
    pub snapshots: Vec<Binding>,
    /// A beat fired this frame.
    pub beat: bool,
    /// The composite target is cleared to black.
    pub clear_composite: bool,
    /// Selection code of the final composite shader.
    pub shader_code: u32,
    /// Microseconds since the last cue change.
    pub transition_us: u64,
    /// Transition progress in millionths.
    pub progress: u64,
    /// Microseconds since the last beat.
    pub beat_us: u64,
    /// The final pass pulses with the beat.
    pub beat_pulse: bool,
    /// Microseconds since the start, and since the previous frame.
    pub time_us: u64,
    pub delta_us: u64,
    /// Solver work, in the smoke scene only.
    pub compute: Option<ComputeFrame>,
}

/// The show context: cue table, show state and solver grid.
#[derive(Debug)]
pub struct Demo {
    pub cues: Vec<Cue>,
    pub show: ShowState,
    pub grid: GridResources,
    /// Time of the previous frame, in microseconds since the start.
    pub last_time_us: u64,
}

impl Demo {
    pub open spec fn wf(&self) -> bool {
        &&& timeline_wf(self.cues@)
        &&& forall|i: int| 0 <= i < self.cues.len() ==> scene_valid(#[trigger] self.cues@[i].scene, SLIDE_COUNT)
        &&& self.show.tracks(self.cues@)
        &&& self.grid.wf()
    }

    /// The show at its first cue, `now_us` microseconds after the start.
    pub fn new(now_us: u64) -> (r: Demo)
        ensures
            r.wf(),
            r.cues@ == show_cues(),
            r.show.cue == 0,
            r.show.transitioned_at == now_us,
            r.show.beat.last_row.is_none(),
            r.grid.size == GRID_SIZE,
            r.grid.generation == 0,
            r.last_time_us == now_us,
    {
        let cues = show_timeline();
        let show = ShowState::start(&cues, now_us);
        Demo { cues, show, grid: GridResources::new(GRID_SIZE), last_time_us: now_us }
    }

    /// Advances the show to playback position `(pattern, row)` at `now_us`
    /// microseconds after the start and plans the frame.
    pub fn update(&mut self, pattern: usize, row: usize, now_us: u64) -> (r: FramePlan)
        requires
            old(self).wf(),
            now_us <= MAX_ELAPSED_US,
        ensures
            final(self).wf(),
            final(self).cues == old(self).cues,
            final(self).grid == old(self).grid,
            final(self).last_time_us == now_us,
            advanced_to(old(self).cues@, old(self).show.cue as int, Position { pattern, row }, final(self).show.cue as int),
            r.snapshots.len() == final(self).show.cue - old(self).show.cue,
            forall|k: int| 0 <= k < r.snapshots.len() ==> r.snapshots@[k] == spec_snapshot_source(
                #[trigger] old(self).cues@[old(self).show.cue + k].scene,
            ),
            final(self).show.transitioned_at == if r.snapshots.len() > 0 {
                now_us
            } else {
                old(self).show.transitioned_at
            },
            r.beat == fires(old(self).show.beat.last_row, row, spec_beat_granularity(pattern)),
            final(self).show.beat.last_row == Some(row),
            final(self).show.beat.last_beat_at == if r.beat { now_us } else { old(self).show.beat.last_beat_at },
            r.clear_composite == (final(self).show.scene == Scene::Black),
            r.shader_code == spec_shader_code(final(self).show.transition),
            r.transition_us == since(now_us, final(self).show.transitioned_at),
            r.progress as int == progress_ppm(final(self).show.transition, r.transition_us as int),
            r.beat_us == since(now_us, final(self).show.beat.last_beat_at),
            r.beat_pulse == spec_beat_pulse(pattern),
            r.time_us == now_us,
            r.delta_us == since(now_us, old(self).last_time_us),
            r.compute.is_some() == (final(self).show.scene matches Scene::Smoke(_)),
            r.compute matches Some(c) ==> {
                &&& final(self).show.scene == Scene::Smoke(c.stage)
                &&& c.dispatches@ == spec_compute_plan(spec_extra_steps_due(pattern, row))
                &&& c.params.len() == COMPUTE_PASSES + COMPUTE_EXTRAS
                &&& forall|i: int| 0 <= i < c.params.len() ==> (#[trigger] c.params@[i]) == (StepParams {
                    step: i as u32,
                    delta_us: r.delta_us,
                    time_us: now_us,
                    gate: spec_phrase_gate(row),
                })
                &&& c.groups.0 as int == ceil_div(old(self).grid.size as int, WORKGROUP.0 as int)
                &&& c.groups.1 as int == ceil_div(old(self).grid.size as int, WORKGROUP.1 as int)
                &&& c.groups.2 as int == ceil_div(old(self).grid.size as int, WORKGROUP.2 as int)
            },
    {
        let delta_us: u64 = if now_us >= self.last_time_us { now_us - self.last_time_us } else { 0 };
        self.last_time_us = now_us;
        let snapshots = self.show.advance(&self.cues, Position::new(pattern, row), now_us);
        let granularity = beat_granularity(pattern);
        let beat = self.show.beat.observe(row, granularity, now_us);
        let compute = match self.show.scene {
            Scene::Smoke(stage) => {
                let size = self.grid.size;
                Some(ComputeFrame {
                    stage,
                    params: step_params(delta_us, now_us, row),
                    dispatches: compute_plan(extra_steps_due(pattern, row)),
                    groups: compute_work_group_count((size, size, size), WORKGROUP),
                })
            },
            _ => None,
        };
        let transitioned_at = self.show.transitioned_at;
        let transition_us: u64 = if now_us >= transitioned_at { now_us - transitioned_at } else { 0 };
        let last_beat_at = self.show.beat.last_beat_at;
        let beat_us: u64 = if now_us >= last_beat_at { now_us - last_beat_at } else { 0 };
        proof {
            assert(self.cues@[self.show.cue as int].transition == self.show.transition);
        }
        FramePlan {
            snapshots,
            beat,
            clear_composite: self.show.scene == Scene::Black,
            shader_code: self.show.transition.shader_code(),
            transition_us,
            progress: self.show.transition.progress(transition_us),
            beat_us,
            beat_pulse: beat_pulse(pattern),
            time_us: now_us,
            delta_us,
            compute,
        }
    }

    /// The render passes of the active scene, in order.
    pub fn render(&self) -> (r: Vec<RenderPass>)
        requires
            self.wf(),
        ensures
            r@ == scene_passes(self.show.scene),
    {
        proof {
            assert(scene_valid(self.cues@[self.show.cue as int].scene, SLIDE_COUNT));
        }
        render_passes(self.show.scene)
    }

    /// Resizes the solver grid to `size` cells a side, reallocating every
    /// resource that depends on it. Zero or the current size changes nothing.
    pub fn resize_cube(&mut self, size: usize) -> (r: bool)
        requires
            old(self).wf(),
            size <= u32::MAX,
            old(self).grid.generation < u64::MAX,
        ensures
            final(self).wf(),
            r == (size != old(self).grid.size && size > 0),
            r ==> final(self).grid.size == size && final(self).grid.generation == old(self).grid.generation + 1,
            r ==> forall|i: int| 0 <= i < final(self).grid.textures.len() ==> (#[trigger] final(self).grid.textures@[i]).size == size
                && final(self).grid.textures@[i].generation != old(self).grid.generation,
            r ==> forall|i: int| 0 <= i < final(self).grid.bind_groups.len() ==> (#[trigger] final(self).grid.bind_groups@[i]).size == size
                && final(self).grid.bind_groups@[i].generation != old(self).grid.generation,
            !r ==> final(self).grid == old(self).grid,
            final(self).cues == old(self).cues,
            final(self).show == old(self).show,
            final(self).last_time_us == old(self).last_time_us,
    {
        self.grid.resize(size as u32)
    }
}

/// Largest offscreen target, in pixels.
pub const MAX_TARGET_WIDTH: u32 = 1920;
pub const MAX_TARGET_HEIGHT: u32 = 1080;

/// Size of the offscreen targets after the window is resized to `width` by
/// `height`: the window's size capped at the largest target. An empty window
/// gives `None` and is ignored.
pub fn surface_extent(width: u32, height: u32) -> (r: Option<(u32, u32)>)
    ensures
        r == if width > 0 && height > 0 {
            Some((
                if width < MAX_TARGET_WIDTH { width } else { MAX_TARGET_WIDTH },
                if height < MAX_TARGET_HEIGHT { height } else { MAX_TARGET_HEIGHT },
            ))
        } else {
            None
        },
{
    if width > 0 && height > 0 {
        let w = if width < MAX_TARGET_WIDTH { width } else { MAX_TARGET_WIDTH };
        let h = if height < MAX_TARGET_HEIGHT { height } else { MAX_TARGET_HEIGHT };
        Some((w, h))
    } else {
        None
    }
}

} // verus!
