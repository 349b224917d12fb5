use smoke_demo::demo::{beat_pulse, surface_extent, Demo, GRID_SIZE};
use smoke_demo::render::{render_passes, snapshot_source, Binding, Geometry, Instances, Pipeline, Target};
use smoke_demo::solver::{
    compute_plan, compute_work_group_count, extra_steps_due, index, step_params, Buffer, GridResources,
    GridTexture, PingPong, StepBinding,
};
use smoke_demo::timeline::{
    beat_granularity, count_beats, show_timeline, BeatTracker, Cue, Position, Scene, ShowState, Transition,
};

#[test]
fn dispatch_dimension_rounding() {
    assert_eq!(compute_work_group_count((100, 100, 100), (8, 8, 4)), (13, 13, 25));
    assert_eq!(compute_work_group_count((8, 16, 4), (8, 8, 4)), (1, 2, 1));
    assert_eq!(compute_work_group_count((0, 1, 9), (8, 8, 4)), (0, 1, 3));
    assert_eq!(compute_work_group_count((u32::MAX, u32::MAX, 1), (2, 1, 1)), (1 << 31, u32::MAX, 1));
}

#[test]
fn beat_fires_on_edges_only() {
    assert_eq!(count_beats(&vec![0, 0, 0, 4, 4, 8, 8, 8, 12], 4), 4);
    assert_eq!(count_beats(&vec![], 4), 0);
    assert_eq!(count_beats(&vec![1, 2, 3, 5, 6, 7], 4), 0);
    assert_eq!(count_beats(&vec![4, 5, 4, 4, 8], 4), 3);
    assert_eq!(count_beats(&vec![0, 4, 8, 12, 16], 8), 3);
}

#[test]
fn beat_tracker_records_row_and_time() {
    let mut t = BeatTracker::new(7);
    assert!(t.last_row.is_none());
    assert!(t.observe(0, 4, 10));
    assert_eq!(t.last_beat_at, 10);
    assert!(!t.observe(0, 4, 20));
    assert_eq!(t.last_beat_at, 10);
    assert!(!t.observe(3, 4, 30));
    assert!(t.observe(4, 4, 40));
    assert_eq!(t.last_beat_at, 40);
    assert_eq!(t.last_row, Some(4));
}

#[test]
fn beat_granularity_by_pattern() {
    assert_eq!(beat_granularity(0x00), 4);
    assert_eq!(beat_granularity(0x09), 4);
    assert_eq!(beat_granularity(0x0a), 8);
    assert_eq!(beat_granularity(0x0d), 8);
    assert_eq!(beat_granularity(0x0e), 4);
    assert_eq!(beat_granularity(0x18), 8);
    assert_eq!(beat_granularity(0x19), 8);
    assert_eq!(beat_granularity(0x1a), 4);
}

#[test]
fn cue_table_is_ascending() {
    let cues = show_timeline();
    assert_eq!(cues.len(), 33);
    assert_eq!(cues[0], Cue::new(0, 0, Scene::Black, Transition::Cut));
    assert_eq!(cues[10], Cue::new(0x03, 0x2d, Scene::CDs(8), Transition::Blink));
    assert_eq!(cues[32], Cue::new(0x19, 0x3d, Scene::Slide(23), Transition::Blink2));
    for i in 1..cues.len() {
        let (a, b) = (cues[i - 1].at, cues[i].at);
        assert!(a.pattern < b.pattern || (a.pattern == b.pattern && a.row < b.row));
    }
}

#[test]
fn advance_moves_forward_one_cue() {
    let cues = show_timeline();
    let mut s = ShowState::start(&cues, 5);
    assert_eq!(s.cue, 0);
    assert_eq!(s.next, Some(Position::new(0x00, 0x18)));
    let snaps = s.advance(&cues, Position::new(0x00, 0x17), 10);
    assert!(snaps.is_empty());
    assert_eq!(s.transitioned_at, 5);
    let snaps = s.advance(&cues, Position::new(0x00, 0x18), 20);
    assert_eq!(snaps, vec![Binding::Composite]);
    assert_eq!(s.cue, 1);
    assert_eq!(s.scene, Scene::Slide(0));
    assert_eq!(s.transition, Transition::Cut);
    assert_eq!(s.transitioned_at, 20);
    assert_eq!(s.next, Some(Position::new(0x01, 0x16)));
}

#[test]
fn advance_skips_several_cues() {
    let cues = show_timeline();
    let mut s = ShowState::start(&cues, 0);
    let snaps = s.advance(&cues, Position::new(0x02, 0x00), 100);
    assert_eq!(s.cue, 4);
    assert_eq!(s.scene, Scene::Slide(2));
    assert_eq!(s.transition, Transition::Slide);
    assert_eq!(s.next, Some(Position::new(0x02, 0x0f)));
    assert_eq!(snaps, vec![Binding::Composite, Binding::Slide(0), Binding::Composite, Binding::Slide(1)]);
}

#[test]
fn advance_is_monotonic_and_latest() {
    let cues = show_timeline();
    let mut s = ShowState::start(&cues, 0);
    let mut last = 0;
    let mut now = 0;
    for pattern in 0..0x1c {
        for row in (0..0x40).step_by(3) {
            now += 1;
            s.advance(&cues, Position::new(pattern, row), now);
            assert!(s.cue >= last);
            last = s.cue;
            let latest = cues
                .iter()
                .rposition(|c| c.at.pattern < pattern || (c.at.pattern == pattern && c.at.row <= row))
                .unwrap();
            assert_eq!(s.cue, latest);
        }
    }
    assert_eq!(s.cue, 32);
    assert_eq!(s.next, None);
}

#[test]
fn advance_stays_on_last_cue() {
    let cues = show_timeline();
    let mut s = ShowState::start(&cues, 0);
    s.advance(&cues, Position::new(0xff, 0xff), 1);
    assert_eq!(s.cue, 32);
    assert_eq!(s.scene, Scene::Slide(23));
    let snaps = s.advance(&cues, Position::new(usize::MAX, usize::MAX), 2);
    assert!(snaps.is_empty());
    assert_eq!(s.cue, 32);
    assert_eq!(s.transitioned_at, 1);
}

#[test]
fn advance_never_goes_back() {
    let cues = show_timeline();
    let mut s = ShowState::start(&cues, 0);
    s.advance(&cues, Position::new(0x07, 0x00), 1);
    assert_eq!(s.scene, Scene::StarWars(11));
    let snaps = s.advance(&cues, Position::new(0x01, 0x00), 2);
    assert!(snaps.is_empty());
    assert_eq!(s.cue, 13);
}

#[test]
fn shader_codes() {
    assert_eq!(Transition::Cut.shader_code(), 0);
    assert_eq!(Transition::Fade(1000).shader_code(), 1);
    assert_eq!(Transition::Slide.shader_code(), 2);
    assert_eq!(Transition::Blink.shader_code(), 3);
    assert_eq!(Transition::Blink2.shader_code(), 3);
}

#[test]
fn transition_progress_values() {
    assert_eq!(Transition::Cut.progress(1_234_567), 1_234_567);
    assert_eq!(Transition::Slide.progress(42), 42);
    assert_eq!(Transition::Fade(1000).progress(500_000), 500_000);
    assert_eq!(Transition::Fade(200).progress(1_000_000), 5_000_000);
    assert_eq!(Transition::Fade(300).progress(100_000), 333_333);
    assert_eq!(Transition::Blink2.progress(750_000), 1_500_000);
    assert_eq!(Transition::Blink.progress(0), 0);
    assert_eq!(Transition::Blink.progress(1_000_000), 105_200);
    assert_eq!(Transition::Blink.progress(4_749_000), 499_594);
    assert_eq!(Transition::Blink.progress(4_750_000), 500_000);
    assert_eq!(Transition::Blink.progress(5_000_000), 1_000_000);
}

#[test]
fn transition_progress_never_decreases() {
    for t in [Transition::Cut, Transition::Fade(300), Transition::Slide, Transition::Blink, Transition::Blink2] {
        let mut prev = t.progress(0);
        assert_eq!(prev, 0);
        for e in (0..8_000_000u64).step_by(9_999) {
            let p = t.progress(e);
            assert!(p >= prev);
            prev = p;
        }
    }
    for e in 4_740_000u64..4_760_000 {
        let a = Transition::Blink.progress(e);
        let b = Transition::Blink.progress(e + 1);
        assert!(a <= b && b <= a + 2);
    }
}

#[test]
fn ping_pong_parity() {
    let mut p = PingPong::new();
    assert_eq!(p.current(), Buffer::A);
    for n in 1..=9u64 {
        let before = p.current();
        let b = p.step();
        let expected_read = if (n - 1) % 2 == 0 { Buffer::A } else { Buffer::B };
        assert_eq!(before, expected_read);
        assert_eq!(b, if n % 2 == 1 { StepBinding::First } else { StepBinding::Second });
        assert_eq!(p.current(), if n % 2 == 0 { Buffer::A } else { Buffer::B });
    }
    assert_eq!(p.steps, 9);
}

#[test]
fn compute_plan_orders_steps() {
    let plain = compute_plan(false);
    assert_eq!(plain.len(), 6);
    for (i, d) in plain.iter().enumerate() {
        assert_eq!(d.params_slot, i);
        assert_eq!(d.binding, if i % 2 == 0 { StepBinding::First } else { StepBinding::Second });
    }
    let extra = compute_plan(true);
    assert_eq!(extra.len(), 8);
    assert_eq!(extra[0].params_slot, 6);
    assert_eq!(extra[0].binding, StepBinding::First);
    assert_eq!(extra[1].params_slot, 7);
    assert_eq!(extra[1].binding, StepBinding::Second);
    assert_eq!(extra[2].params_slot, 0);
    assert_eq!(extra[2].binding, StepBinding::First);
    assert_eq!(extra[7].params_slot, 5);
}

#[test]
fn extra_steps_window() {
    assert!(extra_steps_due(0x14, 0));
    assert!(extra_steps_due(0x17, 18));
    assert!(!extra_steps_due(0x17, 19));
    assert!(!extra_steps_due(0x13, 0));
    assert!(!extra_steps_due(0x18, 1));
}

#[test]
fn step_params_share_frame_values() {
    let p = step_params(16_000, 2_000_000, 17);
    assert_eq!(p.len(), 8);
    for (i, s) in p.iter().enumerate() {
        assert_eq!(s.step as usize, i);
        assert_eq!(s.delta_us, 16_000);
        assert_eq!(s.time_us, 2_000_000);
        assert_eq!(s.gate, 1);
    }
    assert_eq!(step_params(1, 1, 15)[0].gate, 0);
    assert_eq!(step_params(1, 1, 32)[0].gate, 0);
}

#[test]
fn grid_index() {
    assert_eq!(index(1, 2, 3, (10, 10, 10)), 321);
    assert_eq!(index(0, 0, 0, (100, 100, 100)), 0);
    assert_eq!(index(99, 99, 99, (100, 100, 100)), 999_999);
    assert_eq!(index(4, 1, 2, (5, 3, 7)), 4 + 5 + 30);
    assert_eq!(index(-1, 0, 0, (10, 10, 10)), usize::MAX);
}

#[test]
fn grid_resize_reallocates_everything() {
    let mut g = GridResources::new(100);
    assert_eq!(g.textures.len(), 5);
    assert_eq!(g.bind_groups.len(), 3);
    assert!(!g.resize(0));
    assert!(!g.resize(100));
    assert_eq!(g.generation, 0);
    assert!(g.resize(64));
    assert_eq!(g.size, 64);
    assert_eq!(g.generation, 1);
    for t in g.textures.iter() {
        assert_eq!(t.size, 64);
        assert_eq!(t.generation, 1);
    }
    for b in g.bind_groups.iter() {
        assert_eq!(b.size, 64);
        assert_eq!(b.generation, 1);
    }
    assert_eq!(g.textures[2].kind, GridTexture::Packed);
}

#[test]
fn snapshot_sources() {
    assert_eq!(snapshot_source(Scene::Slide(4)), Binding::Slide(4));
    assert_eq!(snapshot_source(Scene::Black), Binding::Composite);
    assert_eq!(snapshot_source(Scene::Smoke(2)), Binding::Composite);
}

#[test]
fn render_pass_tables() {
    let slide = render_passes(Scene::Slide(3));
    assert_eq!(slide.len(), 1);
    assert_eq!(slide[0].target, Target::Screen);
    assert_eq!(slide[0].first.group0, Binding::Slide(3));
    assert_eq!(slide[0].first.group2, Some(Binding::Previous));
    assert!(!slide[0].clear);

    let cds = render_passes(Scene::CDs(8));
    assert_eq!(cds.len(), 3);
    assert_eq!(cds[0].target, Target::Window);
    assert_eq!(cds[0].pipeline, Pipeline::CdRender);
    assert_eq!(cds[0].instances, Instances::Cds);
    assert_eq!((cds[0].first.first_instance, cds[0].first.end_instance), (0, 301));
    assert_eq!(cds[1].target, Target::Composite);
    assert_eq!(cds[1].first.group2, Some(Binding::Slide(7)));
    let window = cds[1].second.unwrap();
    assert_eq!((window.first_instance, window.end_instance), (1, 2));
    assert_eq!(cds[2].first.group0, Binding::Composite);

    let stars = render_passes(Scene::StarWars(11));
    assert_eq!(stars.len(), 4);
    assert_eq!(stars[0].target, Target::Blur);
    assert_eq!(stars[0].geometry, Geometry::Model);
    assert_eq!(stars[0].first.end_instance, 200);
    assert_eq!(stars[1].first.group0, Binding::Blur);
    assert_eq!(stars[2].first.group2, Some(Binding::Slide(10)));
    assert_eq!(stars[2].second.unwrap().first_instance, 2);

    let smoke = render_passes(Scene::Smoke(1));
    assert_eq!(smoke.len(), 2);
    assert_eq!(smoke[0].pipeline, Pipeline::SmokeRender);
    assert_eq!(smoke[0].first.group2, Some(Binding::Lasers));
    assert_eq!(smoke[1].pipeline, Pipeline::Final);

    for s in [Scene::Black, Scene::Ocean(14), Scene::Smoke(4), Scene::CDs(1)] {
        let passes = render_passes(s);
        let last = passes.last().unwrap();
        assert_eq!(last.target, Target::Screen);
        assert_eq!(last.first.group0, snapshot_source(s));
        assert!(passes[..passes.len() - 1].iter().all(|p| p.target != Target::Screen));
    }
}

#[test]
fn demo_frames_follow_the_show() {
    let mut d = Demo::new(0);
    assert_eq!(d.grid.size, GRID_SIZE);
    let f = d.update(0, 0, 1_000);
    assert!(f.snapshots.is_empty());
    assert!(f.beat);
    assert!(f.clear_composite);
    assert_eq!(f.shader_code, 0);
    assert_eq!(f.transition_us, 1_000);
    assert_eq!(f.delta_us, 1_000);
    assert!(f.compute.is_none());
    assert_eq!(d.render().len(), 1);

    let f = d.update(0x02, 0x1b, 2_000_000);
    assert_eq!(f.snapshots.len(), 6);
    assert_eq!(d.show.scene, Scene::Slide(4));
    assert_eq!(f.shader_code, 1);
    assert_eq!(f.transition_us, 0);
    assert_eq!(f.progress, 0);
    assert!(!f.clear_composite);

    let f = d.update(0x02, 0x1b, 2_500_000);
    assert!(f.snapshots.is_empty());
    assert!(!f.beat);
    assert_eq!(f.progress, 500_000);
    assert_eq!(f.delta_us, 500_000);
    assert!(!f.beat_pulse);

    let f = d.update(0x04, 0x1c, 3_000_000);
    assert!(f.beat);
    assert!(f.beat_pulse);
    assert_eq!(f.beat_us, 0);
    assert_eq!(d.show.scene, Scene::CDs(8));
    assert_eq!(f.shader_code, 3);

    let f = d.update(0x04, 0x1d, 3_100_000);
    assert!(!f.beat);
    assert_eq!(f.beat_us, 100_000);
}

#[test]
fn demo_smoke_frames_dispatch_the_solver() {
    let mut d = Demo::new(0);
    let f = d.update(0x10, 0x08, 10);
    assert_eq!(d.show.scene, Scene::Smoke(1));
    let c = f.compute.unwrap();
    assert_eq!(c.stage, 1);
    assert_eq!(c.dispatches.len(), 6);
    assert_eq!(c.groups, (13, 13, 25));
    assert_eq!(c.params.len(), 8);
    assert_eq!(c.params[3].gate, 0);

    let f = d.update(0x14, 0x11, 20);
    assert_eq!(d.show.scene, Scene::Smoke(4));
    let c = f.compute.unwrap();
    assert_eq!(c.stage, 4);
    assert_eq!(c.dispatches.len(), 8);
    assert_eq!(c.dispatches[0].params_slot, 6);
    assert_eq!(c.params[0].gate, 1);

    assert!(d.resize_cube(16));
    let f = d.update(0x14, 0x20, 30);
    assert_eq!(f.compute.unwrap().groups, (2, 2, 4));
    assert!(!d.resize_cube(16));
    assert!(!d.resize_cube(0));
    assert_eq!(d.grid.generation, 1);
}

#[test]
fn beat_pulse_patterns() {
    assert!(!beat_pulse(0x03));
    assert!(beat_pulse(0x04));
    assert!(beat_pulse(0x0f));
    assert!(!beat_pulse(0x10));
    assert!(beat_pulse(0x19));
}

#[test]
fn surface_extent_caps_and_ignores_empty() {
    assert_eq!(surface_extent(800, 600), Some((800, 600)));
    assert_eq!(surface_extent(2560, 1440), Some((1920, 1080)));
    assert_eq!(surface_extent(1920, 1081), Some((1920, 1080)));
    assert_eq!(surface_extent(0, 600), None);
    assert_eq!(surface_extent(800, 0), None);
}

#[test]
fn frame_plan_ends_in_buffer_a() {
    for extra in [false, true] {
        let mut p = PingPong::new();
        for d in compute_plan(extra) {
            assert_eq!(d.binding, p.step());
        }
        assert_eq!(p.current(), Buffer::A);
    }
}
