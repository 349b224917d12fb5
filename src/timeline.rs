use vstd::prelude::*;
use vstd::arithmetic::div_mod::{lemma_div_is_ordered, lemma_fundamental_div_mod};
use crate::render::{Binding, scene_valid, snapshot_source, spec_snapshot_source};

verus! {

/// A point of the music: pattern index and row within the pattern.
#[derive(Clone, Copy, Debug, PartialEq, Eq, Structural)]
pub struct Position {
    pub pattern: usize,
    pub row: usize,
}

/// `at` has been reached once playback stands at `pos` (lexicographic `at <= pos`).
pub open spec fn reached(at: Position, pos: Position) -> bool {
    at.pattern < pos.pattern || (at.pattern == pos.pattern && at.row <= pos.row)
}

/// `a` comes strictly before `b`.
pub open spec fn precedes(a: Position, b: Position) -> bool {
    a.pattern < b.pattern || (a.pattern == b.pattern && a.row < b.row)
}

impl Position {
    pub fn new(pattern: usize, row: usize) -> (r: Position)
        ensures
            r.pattern == pattern,
            r.row == row,
    {
        Position { pattern, row }
    }

    /// Whether a cue at `self` has been reached when playback stands at `pos`.
    pub fn reached_by(&self, pos: Position) -> (r: bool)
        ensures
            r == reached(*self, pos),
    {
        self.pattern < pos.pattern || (self.pattern == pos.pattern && self.row <= pos.row)
    }
}

/// What is on screen between two cues. The number carries the slide index for
/// slide-backed scenes and the stage for the smoke scene.
#[derive(Clone, Copy, Debug, PartialEq, Eq, Structural)]
pub enum Scene {
    Slide(u32),
    Black,
    CDs(u32),
    StarWars(u32),
    Ocean(u32),
    Smoke(u32),
}

/// How the previous frame blends into a new scene.
#[derive(Clone, Copy, Debug, PartialEq, Eq, Structural)]
pub enum Transition {
    /// Hard cut, no blending.
    Cut,
    /// Cross-fade over the given number of milliseconds.
    Fade(u32),
    Slide,
    Blink,
    Blink2,
}

/// One entry of the show: from `at` on, `scene` is shown, entered with `transition`.
#[derive(Clone, Copy, Debug, PartialEq, Eq, Structural)]
pub struct Cue {
    pub at: Position,
    pub scene: Scene,
    pub transition: Transition,
}

pub open spec fn transition_valid(t: Transition) -> bool {
    match t {
        Transition::Fade(ms) => ms > 0,
        _ => true,
    }
}

/// A usable cue table: not empty, strictly ascending positions, no zero-length fades.
pub open spec fn timeline_wf(cues: Seq<Cue>) -> bool {
    &&& cues.len() > 0
    &&& forall|i: int| 0 <= i < cues.len() - 1 ==> #[trigger] precedes(cues[i].at, cues[i + 1].at)
    &&& forall|i: int| 0 <= i < cues.len() ==> transition_valid(#[trigger] cues[i].transition)
}

/// Position of the cue after `i`, or `None` past the last one.
pub open spec fn next_position(cues: Seq<Cue>, i: int) -> Option<Position> {
    if i + 1 < cues.len() {
        Some(cues[i + 1].at)
    } else {
        None
    }
}

/// `i` is the last cue reached at `pos`: reached, and the next one (if any) not.
pub open spec fn is_latest(cues: Seq<Cue>, i: int, pos: Position) -> bool {
    &&& 0 <= i < cues.len()
    &&& reached(cues[i].at, pos)
    &&& (i + 1 < cues.len() ==> !reached(cues[i + 1].at, pos))
}

/// Starting from cue `from`, the show stands at cue `to` after playback reached
/// `pos`: every cue in between was reached, the one after `to` (if any) not.
pub open spec fn advanced_to(cues: Seq<Cue>, from: int, pos: Position, to: int) -> bool {
    &&& 0 <= from <= to < cues.len()
    &&& forall|i: int| from < i <= to ==> reached(#[trigger] cues[i].at, pos)
    &&& (to + 1 < cues.len() ==> !reached(cues[to + 1].at, pos))
}

/// Rows between beats: eight in the slow sections, four elsewhere.
pub open spec fn spec_beat_granularity(pattern: usize) -> usize {
    if (0x0a <= pattern <= 0x0d) || (0x18 <= pattern <= 0x19) {
        8
    } else {
        4
    }
}

pub fn beat_granularity(pattern: usize) -> (r: usize)
    ensures
        r == spec_beat_granularity(pattern),
{
    if (0x0a <= pattern && pattern <= 0x0d) || (0x18 <= pattern && pattern <= 0x19) {
        8
    } else {
        4
    }
}

/// Remembers the last row seen, to fire a beat only on the edge into a beat row.
#[derive(Clone, Copy, Debug, PartialEq, Eq, Structural)]
pub struct BeatTracker {
    pub last_row: Option<usize>,
    pub last_beat_at: u64,
}

/// A beat fires on a row that is a multiple of the granularity and differs from
/// the row seen before it.
pub open spec fn fires(last_row: Option<usize>, row: usize, granularity: usize) -> bool {
    row % granularity == 0 && last_row != Some(row)
}

/// Beats fired over a run of rows fed to a fresh tracker, one per row.
pub open spec fn beat_count(rows: Seq<usize>, granularity: usize) -> nat
    decreases rows.len(),
{
    if rows.len() == 0 {
        0
    } else {
        let prev = if rows.len() == 1 { None } else { Some(rows[rows.len() - 2]) };
        beat_count(rows.drop_last(), granularity) + if fires(prev, rows.last(), granularity) {
            1nat
        } else {
            0nat
        }
    }
}

impl BeatTracker {
    /// A tracker that has seen no row yet.
    pub fn new(now: u64) -> (r: BeatTracker)
        ensures
            r.last_row.is_none(),
            r.last_beat_at == now,
    {
        BeatTracker { last_row: None, last_beat_at: now }
    }

    /// Feeds the row seen this frame; returns whether a beat fired, in which case
    /// the beat time becomes `now`.
    pub fn observe(&mut self, row: usize, granularity: usize, now: u64) -> (r: bool)
        requires
            granularity > 0,
        ensures
            r == fires(old(self).last_row, row, granularity),
            final(self).last_row == Some(row),
            final(self).last_beat_at == if r { now } else { old(self).last_beat_at },
    {
        let fired = row % granularity == 0 && self.last_row != Some(row);
        if fired {
            self.last_beat_at = now;
        }
        self.last_row = Some(row);
        fired
    }
}

/// Feeds `rows` one by one to a fresh tracker and counts the beats that fire.
pub fn count_beats(rows: &Vec<usize>, granularity: usize) -> (r: usize)
    requires
        granularity > 0,
    ensures
        r == beat_count(rows@, granularity),
{
    let mut tracker = BeatTracker::new(0);
    let mut count: usize = 0;
    let mut i: usize = 0;
    while i < rows.len()
        invariant
            granularity > 0,
            i <= rows.len(),
            count <= i,
            count == beat_count(rows@.subrange(0, i as int), granularity),
            tracker.last_row == if i == 0 { None } else { Some(rows@[i - 1]) },
        decreases rows.len() - i,
    {
        let ghost before = rows@.subrange(0, i as int);
        let fired = tracker.observe(rows[i], granularity, 0);
        proof {
            let after = rows@.subrange(0, i + 1);
            assert(after.drop_last() =~= before);
        }
        if fired {
            count = count + 1;
        }
        i = i + 1;
    }
    proof {
        assert(rows@.subrange(0, rows@.len() as int) =~= rows@);
    }
    count
}

/// Shader selection code of the final composite pass.
pub open spec fn spec_shader_code(t: Transition) -> u32 {
    match t {
        Transition::Cut => 0,
        Transition::Fade(_) => 1,
        Transition::Slide => 2,
        Transition::Blink => 3,
        Transition::Blink2 => 3,
    }
}

/// Largest elapsed time, in microseconds, that progress is computed for
/// (about 31 years).
pub const MAX_ELAPSED_US: u64 = 1_000_000_000_000_000;

/// Blink's slow segment: 0.1052 per second.
pub open spec fn blink_slow(elapsed_us: int) -> int {
    elapsed_us * 1052 / 10000
}

/// Blink's fast segment: 2 per second, starting 9 units below zero.
pub open spec fn blink_fast(elapsed_us: int) -> int {
    2 * elapsed_us - 9_000_000
}

/// Transition progress in millionths, `elapsed_us` microseconds after the cue.
pub open spec fn progress_ppm(t: Transition, elapsed_us: int) -> int {
    match t {
        Transition::Cut => elapsed_us,
        Transition::Fade(ms) => elapsed_us * 1000 / (ms as int),
        Transition::Slide => elapsed_us,
        Transition::Blink => if blink_slow(elapsed_us) >= blink_fast(elapsed_us) {
            blink_slow(elapsed_us)
        } else {
            blink_fast(elapsed_us)
        },
        Transition::Blink2 => 2 * elapsed_us,
    }
}

impl Transition {
    pub fn shader_code(&self) -> (r: u32)
        ensures
            r == spec_shader_code(*self),
    {
        match self {
            Transition::Cut => 0,
            Transition::Fade(_) => 1,
            Transition::Slide => 2,
            Transition::Blink => 3,
            Transition::Blink2 => 3,
        }
    }

    /// Progress of this transition, in millionths, `elapsed_us` microseconds after
    /// it started. Not capped above one: the shader saturates it.
    pub fn progress(&self, elapsed_us: u64) -> (r: u64)
        requires
            transition_valid(*self),
            elapsed_us <= MAX_ELAPSED_US,
        ensures
            r as int == progress_ppm(*self, elapsed_us as int),
    {
        match self {
            Transition::Cut => elapsed_us,
            Transition::Fade(ms) => {
                let scaled: u64 = elapsed_us * 1000;
                scaled / (*ms as u64)
            },
            Transition::Slide => elapsed_us,
            Transition::Blink => {
                let slow: u64 = elapsed_us * 1052 / 10000;
                if 2 * elapsed_us > 9_000_000 && 2 * elapsed_us - 9_000_000 > slow {
                    2 * elapsed_us - 9_000_000
                } else {
                    slow
                }
            },
            Transition::Blink2 => 2 * elapsed_us,
        }
    }
}

/// Mutable show state, one per run, updated once per frame.
#[derive(Clone, Copy, Debug, PartialEq, Eq, Structural)]
pub struct ShowState {
    /// Index of the active cue.
    pub cue: usize,
    /// Position of the following cue, `None` once the last cue is active.
    pub next: Option<Position>,
    pub scene: Scene,
    pub transition: Transition,
    /// Time of the last cue change, in microseconds since the start.
    pub transitioned_at: u64,
    pub beat: BeatTracker,
}

impl ShowState {
    /// The state mirrors cue `self.cue` of `cues`.
    pub open spec fn tracks(&self, cues: Seq<Cue>) -> bool {
        &&& self.cue < cues.len()
        &&& self.scene == cues[self.cue as int].scene
        &&& self.transition == cues[self.cue as int].transition
        &&& self.next == next_position(cues, self.cue as int)
    }

    /// State at the start of the show: the first cue, entered `now`.
    pub fn start(cues: &Vec<Cue>, now: u64) -> (r: ShowState)
        requires
            timeline_wf(cues@),
        ensures
            r.tracks(cues@),
            r.cue == 0,
            r.transitioned_at == now,
            r.beat.last_row.is_none(),
            r.beat.last_beat_at == now,
    {
        ShowState {
            cue: 0,
            next: next_after(cues, 0),
            scene: cues[0].scene,
            transition: cues[0].transition,
            transitioned_at: now,
            beat: BeatTracker::new(now),
        }
    }

    /// Moves forward past every cue reached at `pos`, possibly several at once,
    /// never back. Returns, for each cue left, the texture whose content becomes
    /// the previous frame for the transition shader, in order.
    pub fn advance(&mut self, cues: &Vec<Cue>, pos: Position, now: u64) -> (r: Vec<Binding>)
        requires
            timeline_wf(cues@),
            old(self).tracks(cues@),
        ensures
            final(self).tracks(cues@),
            advanced_to(cues@, old(self).cue as int, pos, final(self).cue as int),
            r.len() == final(self).cue - old(self).cue,
            forall|k: int| 0 <= k < r.len() ==> r@[k] == spec_snapshot_source(
                #[trigger] cues@[old(self).cue + k].scene,
            ),
            final(self).transitioned_at == if r.len() > 0 { now } else { old(self).transitioned_at },
            final(self).beat == old(self).beat,
    {
        let mut snapshots: Vec<Binding> = Vec::new();
        loop
            invariant
                timeline_wf(cues@),
                self.tracks(cues@),
                self.cue >= old(self).cue,
                forall|i: int| old(self).cue < i <= self.cue ==> reached(#[trigger] cues@[i].at, pos),
                snapshots.len() == self.cue - old(self).cue,
                forall|k: int| 0 <= k < snapshots.len() ==> snapshots@[k] == spec_snapshot_source(
                    #[trigger] cues@[old(self).cue + k].scene,
                ),
                self.transitioned_at == if snapshots.len() > 0 { now } else { old(self).transitioned_at },
                self.beat == old(self).beat,
            ensures
                self.tracks(cues@),
                self.cue >= old(self).cue,
                forall|i: int| old(self).cue < i <= self.cue ==> reached(#[trigger] cues@[i].at, pos),
                self.next matches Some(at) ==> !reached(at, pos),
                snapshots.len() == self.cue - old(self).cue,
                forall|k: int| 0 <= k < snapshots.len() ==> snapshots@[k] == spec_snapshot_source(
                    #[trigger] cues@[old(self).cue + k].scene,
                ),
                self.transitioned_at == if snapshots.len() > 0 { now } else { old(self).transitioned_at },
                self.beat == old(self).beat,
            decreases cues.len() - self.cue,
        {
            let due = match self.next {
                Some(at) => at.reached_by(pos),
                None => false,
            };
            if !due {
                break;
            }
            snapshots.push(snapshot_source(self.scene));
            self.cue = self.cue + 1;
            self.transitioned_at = now;
            self.scene = cues[self.cue].scene;
            self.transition = cues[self.cue].transition;
            self.next = next_after(cues, self.cue);
        }
        snapshots
    }
}

fn next_after(cues: &Vec<Cue>, i: usize) -> (r: Option<Position>)
    requires
        i < cues.len(),
    ensures
        r == next_position(cues@, i as int),
{
    if i + 1 < cues.len() {
        Some(cues[i + 1].at)
    } else {
        None
    }
}

pub open spec fn cue_of(pattern: usize, row: usize, scene: Scene, transition: Transition) -> Cue {
    Cue { at: Position { pattern, row }, scene, transition }
}

impl Cue {
    pub fn new(pattern: usize, row: usize, scene: Scene, transition: Transition) -> (r: Cue)
        ensures
            r == cue_of(pattern, row, scene, transition),
    {
        Cue { at: Position { pattern, row }, scene, transition }
    }
}

/// Number of slide textures the show refers to.
pub const SLIDE_COUNT: u32 = 24;

/// The show's cue table, in playback order.
pub open spec fn show_cues() -> Seq<Cue> {
    seq![
        cue_of(0x00, 0x00, Scene::Black, Transition::Cut),
        cue_of(0x00, 0x18, Scene::Slide(0), Transition::Cut),
        cue_of(0x01, 0x16, Scene::Black, Transition::Cut),
        cue_of(0x01, 0x1b, Scene::Slide(1), Transition::Cut),
        cue_of(0x01, 0x3b, Scene::Slide(2), Transition::Slide),
        cue_of(0x02, 0x0f, Scene::Slide(3), Transition::Slide),
        cue_of(0x02, 0x1b, Scene::Slide(4), Transition::Fade(1000)),
        cue_of(0x02, 0x34, Scene::Slide(5), Transition::Fade(1000)),
        cue_of(0x03, 0x0f, Scene::Slide(6), Transition::Fade(1000)),
        cue_of(0x03, 0x23, Scene::Slide(7), Transition::Fade(1000)),
        cue_of(0x03, 0x2d, Scene::CDs(8), Transition::Blink),
        cue_of(0x04, 0x30, Scene::CDs(9), Transition::Cut),
        cue_of(0x05, 0x10, Scene::CDs(10), Transition::Cut),
        cue_of(0x07, 0x00, Scene::StarWars(11), Transition::Slide),
        cue_of(0x07, 0x30, Scene::StarWars(12), Transition::Cut),
        cue_of(0x08, 0x10, Scene::StarWars(13), Transition::Cut),
        cue_of(0x0a, 0x00, Scene::Ocean(14), Transition::Slide),
        cue_of(0x0b, 0x00, Scene::Ocean(15), Transition::Cut),
        cue_of(0x0c, 0x00, Scene::Ocean(16), Transition::Cut),
        cue_of(0x0e, 0x00, Scene::Slide(17), Transition::Slide),
        cue_of(0x0e, 0x20, Scene::Black, Transition::Fade(200)),
        cue_of(0x0f, 0x00, Scene::Slide(18), Transition::Fade(300)),
        cue_of(0x0f, 0x10, Scene::Slide(19), Transition::Fade(1000)),
        cue_of(0x0f, 0x20, Scene::Slide(20), Transition::Fade(1000)),
        cue_of(0x10, 0x00, Scene::Black, Transition::Fade(500)),
        cue_of(0x10, 0x08, Scene::Smoke(1), Transition::Cut),
        cue_of(0x11, 0x00, Scene::Smoke(2), Transition::Cut),
        cue_of(0x12, 0x00, Scene::Smoke(3), Transition::Cut),
        cue_of(0x13, 0x00, Scene::Smoke(4), Transition::Cut),
        cue_of(0x18, 0x00, Scene::Slide(20), Transition::Fade(500)),
        cue_of(0x18, 0x08, Scene::Slide(21), Transition::Slide),
        cue_of(0x19, 0x08, Scene::Slide(22), Transition::Fade(1000)),
        cue_of(0x19, 0x3d, Scene::Slide(23), Transition::Blink2),
    ]
}

/// Builds the show's cue table.
pub fn show_timeline() -> (r: Vec<Cue>)
    ensures
        r@ == show_cues(),
        timeline_wf(r@),
        forall|i: int| 0 <= i < r.len() ==> scene_valid(#[trigger] r@[i].scene, SLIDE_COUNT),
{
    let r = vec![
        Cue::new(0x00, 0x00, Scene::Black, Transition::Cut),
        Cue::new(0x00, 0x18, Scene::Slide(0), Transition::Cut),
        Cue::new(0x01, 0x16, Scene::Black, Transition::Cut),
        Cue::new(0x01, 0x1b, Scene::Slide(1), Transition::Cut),
        Cue::new(0x01, 0x3b, Scene::Slide(2), Transition::Slide),
        Cue::new(0x02, 0x0f, Scene::Slide(3), Transition::Slide),
        Cue::new(0x02, 0x1b, Scene::Slide(4), Transition::Fade(1000)),
        Cue::new(0x02, 0x34, Scene::Slide(5), Transition::Fade(1000)),
        Cue::new(0x03, 0x0f, Scene::Slide(6), Transition::Fade(1000)),
        Cue::new(0x03, 0x23, Scene::Slide(7), Transition::Fade(1000)),
        Cue::new(0x03, 0x2d, Scene::CDs(8), Transition::Blink),
        Cue::new(0x04, 0x30, Scene::CDs(9), Transition::Cut),
        Cue::new(0x05, 0x10, Scene::CDs(10), Transition::Cut),
        Cue::new(0x07, 0x00, Scene::StarWars(11), Transition::Slide),
        Cue::new(0x07, 0x30, Scene::StarWars(12), Transition::Cut),
        Cue::new(0x08, 0x10, Scene::StarWars(13), Transition::Cut),
        Cue::new(0x0a, 0x00, Scene::Ocean(14), Transition::Slide),
        Cue::new(0x0b, 0x00, Scene::Ocean(15), Transition::Cut),
        Cue::new(0x0c, 0x00, Scene::Ocean(16), Transition::Cut),
        Cue::new(0x0e, 0x00, Scene::Slide(17), Transition::Slide),
        Cue::new(0x0e, 0x20, Scene::Black, Transition::Fade(200)),
        Cue::new(0x0f, 0x00, Scene::Slide(18), Transition::Fade(300)),
        Cue::new(0x0f, 0x10, Scene::Slide(19), Transition::Fade(1000)),
        Cue::new(0x0f, 0x20, Scene::Slide(20), Transition::Fade(1000)),
        Cue::new(0x10, 0x00, Scene::Black, Transition::Fade(500)),
        Cue::new(0x10, 0x08, Scene::Smoke(1), Transition::Cut),
        Cue::new(0x11, 0x00, Scene::Smoke(2), Transition::Cut),
        Cue::new(0x12, 0x00, Scene::Smoke(3), Transition::Cut),
        Cue::new(0x13, 0x00, Scene::Smoke(4), Transition::Cut),
        Cue::new(0x18, 0x00, Scene::Slide(20), Transition::Fade(500)),
        Cue::new(0x18, 0x08, Scene::Slide(21), Transition::Slide),
        Cue::new(0x19, 0x08, Scene::Slide(22), Transition::Fade(1000)),
        Cue::new(0x19, 0x3d, Scene::Slide(23), Transition::Blink2),
    ];
    assert(r@ =~= show_cues());
    r
}


proof fn lemma_sorted(cues: Seq<Cue>, i: int, j: int)
    requires
        timeline_wf(cues),
        0 <= i < j < cues.len(),
    ensures
        precedes(cues[i].at, cues[j].at),
    decreases j - i,
{
    if j > i + 1 {
        lemma_sorted(cues, i, j - 1);
        assert(precedes(cues[j - 1].at, cues[j].at));
    }
}

/// For non-decreasing playback positions the active cue never moves back, and
/// after each advance it is the last cue reached: the next one is not, nor any
/// later one.
pub proof fn lemma_monotonic_cue_advance(cues: Seq<Cue>, from: int, earlier: Position, pos: Position, to: int)
    requires
        timeline_wf(cues),
        0 <= from < cues.len(),
        reached(cues[from].at, earlier),
        reached(earlier, pos),
        advanced_to(cues, from, pos, to),
    ensures
        from <= to,
        reached(cues[to].at, pos),
        forall|j: int| to < j < cues.len() ==> !reached(#[trigger] cues[j].at, pos),
        is_latest(cues, to, pos),
{
    assert forall|j: int| to < j < cues.len() implies !reached(#[trigger] cues[j].at, pos) by {
        if j > to + 1 {
            lemma_sorted(cues, to + 1, j);
        }
    }
}

/// Every transition's progress is zero when it starts.
pub proof fn lemma_progress_starts_at_zero(t: Transition)
    requires
        transition_valid(t),
    ensures
        progress_ppm(t, 0) == 0,
{
}

/// Progress never decreases as time passes, so it never falls below its value
/// at the start, zero.
pub proof fn lemma_progress_monotonic(t: Transition, e1: int, e2: int)
    requires
        transition_valid(t),
        0 <= e1 <= e2,
    ensures
        0 <= progress_ppm(t, e1) <= progress_ppm(t, e2),
{
    match t {
        Transition::Fade(ms) => {
            lemma_div_is_ordered(0, e1 * 1000, ms as int);
            lemma_div_is_ordered(e1 * 1000, e2 * 1000, ms as int);
        },
        Transition::Blink => {
            lemma_div_is_ordered(0, e1 * 1052, 10000);
            lemma_div_is_ordered(e1 * 1052, e2 * 1052, 10000);
        },
        _ => {},
    }
}

/// Blink follows its slow segment up to 4.749 s and its fast one from 4.75 s
/// on, and grows by at most two millionths per microsecond: the segments meet
/// without a jump.
pub proof fn lemma_blink_continuous(e: int)
    requires
        e >= 0,
    ensures
        e <= 4_749_000 ==> progress_ppm(Transition::Blink, e) == blink_slow(e),
        e >= 4_750_000 ==> progress_ppm(Transition::Blink, e) == blink_fast(e),
        progress_ppm(Transition::Blink, e) <= progress_ppm(Transition::Blink, e + 1),
        progress_ppm(Transition::Blink, e + 1) <= progress_ppm(Transition::Blink, e) + 2,
{
    lemma_fundamental_div_mod(e * 1052, 10000);
    lemma_fundamental_div_mod((e + 1) * 1052, 10000);
    let q = e * 1052 / 10000;
    let q1 = (e + 1) * 1052 / 10000;
    assert(0 <= (e * 1052) % 10000 < 10000);
    assert(0 <= ((e + 1) * 1052) % 10000 < 10000);
    assert(q <= q1 <= q + 1);
}

/// Beats are edge-triggered: once a row has been seen, the same row again
/// never fires, whatever the granularity.
pub proof fn lemma_beat_no_refire(row: usize, granularity: usize)
    ensures
        !fires(Some(row), row, granularity),
{
}

} // verus!
