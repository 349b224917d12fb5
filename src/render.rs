use vstd::prelude::*;
use crate::timeline::Scene;

verus! {

/// A resource bound to a render pass: a texture to sample or a uniform block.
#[derive(Clone, Copy, Debug, PartialEq, Eq, Structural)]
pub enum Binding {
    /// Slide texture with the given index.
    Slide(u32),
    /// Offscreen target holding the composed current frame.
    Composite,
    /// Offscreen target of the windowed foreground element.
    Window,
    /// Offscreen target of the star field, before blurring.
    Blur,
    /// Snapshot of the frame shown before the last cue change.
    Previous,
    /// Texture of the ocean scene.
    Ocean,
    /// Packed visualisation field of the smoke solver.
    SmokeField,
    /// Camera uniforms of 3D objects.
    Objects,
    /// Parameters of the final composite shader.
    FinalParams,
    /// Parameters of the smoke background shader.
    BackgroundParams,
    /// Laser transforms and colours.
    Lasers,
}

/// Texture holding what `scene` shows: its slide for a slide, the composite
/// target otherwise.
pub open spec fn spec_snapshot_source(scene: Scene) -> Binding {
    match scene {
        Scene::Slide(n) => Binding::Slide(n),
        _ => Binding::Composite,
    }
}

/// Texture copied into the previous-frame snapshot when `scene` is left.
pub fn snapshot_source(scene: Scene) -> (r: Binding)
    ensures
        r == spec_snapshot_source(scene),
{
    match scene {
        Scene::Slide(n) => Binding::Slide(n),
        _ => Binding::Composite,
    }
}

/// Where a pass draws.
#[derive(Clone, Copy, Debug, PartialEq, Eq, Structural)]
pub enum Target {
    /// The presentable surface.
    Screen,
    /// The composed current frame.
    Composite,
    /// The windowed foreground element.
    Window,
    /// The star field, before blurring.
    Blur,
}

#[derive(Clone, Copy, Debug, PartialEq, Eq, Structural)]
pub enum Pipeline {
    /// Final composite of current and previous frame.
    Final,
    /// Textured quads.
    Simple,
    CdRender,
    StarWarsModel,
    StarWarsBlur,
    Ocean,
    SmokeRender,
}

/// Vertex data a pass draws.
#[derive(Clone, Copy, Debug, PartialEq, Eq, Structural)]
pub enum Geometry {
    /// The full-screen quad, six indices.
    Quad,
    /// The laser bolt model.
    Model,
}

/// Instance buffer bound to a pass.
#[derive(Clone, Copy, Debug, PartialEq, Eq, Structural)]
pub enum Instances {
    /// Screen-space quads: background, CD window, laser window.
    Main,
    Cds,
    StarWars,
}

/// One draw call: bind groups 0 to 2 and an instance range.
#[derive(Clone, Copy, Debug, PartialEq, Eq, Structural)]
pub struct Draw {
    pub group0: Binding,
    pub group1: Option<Binding>,
    pub group2: Option<Binding>,
    pub first_instance: u32,
    pub end_instance: u32,
}

/// One render pass with its one or two draw calls.
#[derive(Clone, Copy, Debug, PartialEq, Eq, Structural)]
pub struct RenderPass {
    pub target: Target,
    /// Cleared first (true) or drawn over (false).
    pub clear: bool,
    /// Uses the depth buffer.
    pub depth: bool,
    pub pipeline: Pipeline,
    pub geometry: Geometry,
    pub instances: Instances,
    pub first: Draw,
    pub second: Option<Draw>,
}

/// Number of CD instances, the large one in front not counted.
pub const CD_COUNT: u32 = 300;

/// Number of laser bolt instances.
pub const BOLT_COUNT: u32 = 200;

/// Slide shown behind a window over slide `n`, never below slide 7.
pub open spec fn backdrop_slide(n: u32) -> u32 {
    if n - 1 >= 7 {
        (n - 1) as u32
    } else {
        7
    }
}

/// Slide indices of `scene` lie below `slide_count` (and a windowed scene's
/// backdrop too).
pub open spec fn scene_valid(scene: Scene, slide_count: u32) -> bool {
    match scene {
        Scene::Slide(n) => n < slide_count,
        Scene::CDs(n) => 1 <= n < slide_count && 7 < slide_count,
        Scene::StarWars(n) => 1 <= n < slide_count && 7 < slide_count,
        Scene::Ocean(n) => 1 <= n < slide_count && 7 < slide_count,
        _ => true,
    }
}

/// Windowed scenes index a backdrop slide below their own.
pub open spec fn has_backdrop(scene: Scene) -> bool {
    match scene {
        Scene::CDs(n) => n >= 1,
        Scene::StarWars(n) => n >= 1,
        Scene::Ocean(n) => n >= 1,
        _ => true,
    }
}

pub open spec fn spec_draw(group0: Binding, group1: Option<Binding>, group2: Option<Binding>, first: u32, end: u32) -> Draw {
    Draw { group0, group1, group2, first_instance: first, end_instance: end }
}

/// Full-screen quad with bind groups `a`, parameters and `b`, one instance.
pub open spec fn quad_draw(a: Binding, b: Binding, instance: u32) -> Draw {
    spec_draw(a, Some(Binding::FinalParams), Some(b), instance, (instance + 1) as u32)
}

/// The scene-independent last pass: `source` blended with the previous frame
/// onto the screen.
pub open spec fn final_pass(source: Binding) -> RenderPass {
    RenderPass {
        target: Target::Screen,
        clear: false,
        depth: false,
        pipeline: Pipeline::Final,
        geometry: Geometry::Quad,
        instances: Instances::Main,
        first: quad_draw(source, Binding::Previous, 0),
        second: None,
    }
}

/// Slide `n` with its backdrop, then the window quad at `window_instance`,
/// into the composite target.
pub open spec fn compose_pass(n: u32, window_instance: u32) -> RenderPass {
    RenderPass {
        target: Target::Composite,
        clear: true,
        depth: true,
        pipeline: Pipeline::Simple,
        geometry: Geometry::Quad,
        instances: Instances::Main,
        first: quad_draw(Binding::Slide(n), Binding::Slide(backdrop_slide(n)), 0),
        second: Some(quad_draw(Binding::Window, Binding::Window, window_instance)),
    }
}

/// A pass into `target` that clears it and uses depth.
pub open spec fn offscreen_pass(
    target: Target,
    pipeline: Pipeline,
    geometry: Geometry,
    instances: Instances,
    first: Draw,
) -> RenderPass {
    RenderPass { target, clear: true, depth: true, pipeline, geometry, instances, first, second: None }
}

/// The ordered passes that draw one frame of `scene`.
pub open spec fn scene_passes(scene: Scene) -> Seq<RenderPass> {
    match scene {
        Scene::Slide(n) => seq![final_pass(Binding::Slide(n))],
        Scene::Black => seq![final_pass(Binding::Composite)],
        Scene::CDs(n) => seq![
            offscreen_pass(Target::Window, Pipeline::CdRender, Geometry::Quad, Instances::Cds,
                spec_draw(Binding::Objects, None, None, 0, (CD_COUNT + 1) as u32)),
            compose_pass(n, 1),
            final_pass(Binding::Composite),
        ],
        Scene::StarWars(n) => seq![
            offscreen_pass(Target::Blur, Pipeline::StarWarsModel, Geometry::Model, Instances::StarWars,
                spec_draw(Binding::Objects, None, None, 0, BOLT_COUNT)),
            offscreen_pass(Target::Window, Pipeline::StarWarsBlur, Geometry::Quad, Instances::Main,
                quad_draw(Binding::Blur, Binding::Blur, 0)),
            compose_pass(n, 2),
            final_pass(Binding::Composite),
        ],
        Scene::Ocean(n) => seq![
            offscreen_pass(Target::Window, Pipeline::Ocean, Geometry::Quad, Instances::Main,
                quad_draw(Binding::Ocean, Binding::Ocean, 0)),
            compose_pass(n, 1),
            final_pass(Binding::Composite),
        ],
        Scene::Smoke(_) => seq![
            offscreen_pass(Target::Composite, Pipeline::SmokeRender, Geometry::Quad, Instances::Main,
                spec_draw(Binding::SmokeField, Some(Binding::BackgroundParams), Some(Binding::Lasers), 0, 1)),
            final_pass(Binding::Composite),
        ],
    }
}

fn draw(group0: Binding, group1: Option<Binding>, group2: Option<Binding>, first: u32, end: u32) -> (r: Draw)
    ensures
        r == spec_draw(group0, group1, group2, first, end),
{
    Draw { group0, group1, group2, first_instance: first, end_instance: end }
}

fn quad(a: Binding, b: Binding, instance: u32) -> (r: Draw)
    requires
        instance < u32::MAX,
    ensures
        r == quad_draw(a, b, instance),
{
    draw(a, Some(Binding::FinalParams), Some(b), instance, instance + 1)
}

fn final_composite(source: Binding) -> (r: RenderPass)
    ensures
        r == final_pass(source),
{
    RenderPass {
        target: Target::Screen,
        clear: false,
        depth: false,
        pipeline: Pipeline::Final,
        geometry: Geometry::Quad,
        instances: Instances::Main,
        first: quad(source, Binding::Previous, 0),
        second: None,
    }
}

fn compose(n: u32, window_instance: u32) -> (r: RenderPass)
    requires
        n >= 1,
        window_instance < u32::MAX,
    ensures
        r == compose_pass(n, window_instance),
{
    let backdrop: u32 = if n - 1 >= 7 { n - 1 } else { 7 };
    RenderPass {
        target: Target::Composite,
        clear: true,
        depth: true,
        pipeline: Pipeline::Simple,
        geometry: Geometry::Quad,
        instances: Instances::Main,
        first: quad(Binding::Slide(n), Binding::Slide(backdrop), 0),
        second: Some(quad(Binding::Window, Binding::Window, window_instance)),
    }
}

fn offscreen(target: Target, pipeline: Pipeline, geometry: Geometry, instances: Instances, first: Draw) -> (r: RenderPass)
    ensures
        r == offscreen_pass(target, pipeline, geometry, instances, first),
{
    RenderPass { target, clear: true, depth: true, pipeline, geometry, instances, first, second: None }
}

/// The passes that draw one frame of `scene`, in the order they must run.
pub fn render_passes(scene: Scene) -> (r: Vec<RenderPass>)
    requires
        has_backdrop(scene),
    ensures
        r@ == scene_passes(scene),
{
    let r = match scene {
        Scene::Slide(n) => vec![final_composite(Binding::Slide(n))],
        Scene::Black => vec![final_composite(Binding::Composite)],
        Scene::CDs(n) => vec![
            offscreen(Target::Window, Pipeline::CdRender, Geometry::Quad, Instances::Cds,
                draw(Binding::Objects, None, None, 0, CD_COUNT + 1)),
            compose(n, 1),
            final_composite(Binding::Composite),
        ],
        Scene::StarWars(n) => vec![
            offscreen(Target::Blur, Pipeline::StarWarsModel, Geometry::Model, Instances::StarWars,
                draw(Binding::Objects, None, None, 0, BOLT_COUNT)),
            offscreen(Target::Window, Pipeline::StarWarsBlur, Geometry::Quad, Instances::Main,
                quad(Binding::Blur, Binding::Blur, 0)),
            compose(n, 2),
            final_composite(Binding::Composite),
        ],
        Scene::Ocean(n) => vec![
            offscreen(Target::Window, Pipeline::Ocean, Geometry::Quad, Instances::Main,
                quad(Binding::Ocean, Binding::Ocean, 0)),
            compose(n, 1),
            final_composite(Binding::Composite),
        ],
        Scene::Smoke(_) => vec![
            offscreen(Target::Composite, Pipeline::SmokeRender, Geometry::Quad, Instances::Main,
                draw(Binding::SmokeField, Some(Binding::BackgroundParams), Some(Binding::Lasers), 0, 1)),
            final_composite(Binding::Composite),
        ],
    };
    assert(r@ =~= scene_passes(scene));
    r
}

/// Every frame ends with the same composite pass onto the screen, fed by the
/// texture that becomes the previous-frame snapshot when the scene is left.
pub proof fn lemma_final_pass_is_shared(scene: Scene)
    ensures
        scene_passes(scene).len() > 0,
        scene_passes(scene).last() == final_pass(spec_snapshot_source(scene)),
        forall|i: int| 0 <= i < scene_passes(scene).len() - 1 ==> (#[trigger] scene_passes(scene)[i]).target != Target::Screen,
{
}

} // verus!
