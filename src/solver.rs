use vstd::prelude::*;

verus! {

/// Number of workgroups needed along one axis: the ceiling of `extent / group`.
pub open spec fn ceil_div(extent: int, group: int) -> int
    recommends
        group > 0,
{
    (extent + group - 1) / group
}

/// Workgroup counts that cover a grid of `dims` cells with groups of `group` cells,
/// rounding up on each axis.
pub fn compute_work_group_count(dims: (u32, u32, u32), group: (u32, u32, u32)) -> (r: (u32, u32, u32))
    requires
        group.0 > 0,
        group.1 > 0,
        group.2 > 0,
    ensures
        r.0 as int == ceil_div(dims.0 as int, group.0 as int),
        r.1 as int == ceil_div(dims.1 as int, group.1 as int),
        r.2 as int == ceil_div(dims.2 as int, group.2 as int),
{
    (axis_count(dims.0, group.0), axis_count(dims.1, group.1), axis_count(dims.2, group.2))
}

fn axis_count(extent: u32, group: u32) -> (r: u32)
    requires
        group > 0,
    ensures
        r as int == ceil_div(extent as int, group as int),
{
    let q: u32 = extent / group;
    let rem: u32 = extent % group;
    proof {
        let e = extent as int;
        let g = group as int;
        assert(e == g * q + rem) by (nonlinear_arith)
            requires q == e / g, rem == e % g, g > 0;
        if rem == 0 {
            assert((e + g - 1) / g == q) by (nonlinear_arith)
                requires e == g * q, g > 0;
        } else {
            assert((e + g - 1) / g == q + 1) by (nonlinear_arith)
                requires e == g * q + rem, 0 < rem < g, g > 0;
            assert(q < 0xffff_ffff) by (nonlinear_arith)
                requires e == g * q + rem, 0 < rem, g > 0, q >= 0, e <= 0xffff_ffff;
        }
    }
    if rem == 0 {
        q
    } else {
        q + 1
    }
}

/// Linear position of cell `(x, y, z)` in an x-fastest grid of `size` cells,
/// before conversion to an index.
pub open spec fn linear(x: int, y: int, z: int, size: (usize, usize, usize)) -> int {
    z * size.0 * size.1 + y * size.0 + x
}

/// The products and sums of `linear` stay within `isize`.
pub open spec fn index_fits(x: isize, y: isize, z: isize, size: (usize, usize, usize)) -> bool {
    &&& size.0 <= isize::MAX
    &&& size.1 <= isize::MAX
    &&& isize::MIN <= z * size.0 <= isize::MAX
    &&& isize::MIN <= z * size.0 * size.1 <= isize::MAX
    &&& isize::MIN <= y * size.0 <= isize::MAX
    &&& isize::MIN <= z * size.0 * size.1 + y * size.0 <= isize::MAX
    &&& isize::MIN <= linear(x as int, y as int, z as int, size) <= isize::MAX
}

/// Index of cell `(x, y, z)`. A cell before the grid's start wraps to a huge
/// index, which a bounds-checked read treats as outside.
pub fn index(x: isize, y: isize, z: isize, size: (usize, usize, usize)) -> (r: usize)
    requires
        index_fits(x, y, z, size),
    ensures
        r == linear(x as int, y as int, z as int, size) as usize,
        0 <= linear(x as int, y as int, z as int, size) ==> r as int == linear(
            x as int,
            y as int,
            z as int,
            size,
        ),
{
    let sx = size.0 as isize;
    let sy = size.1 as isize;
    let plane: isize = z * sx * sy;
    let line: isize = y * sx;
    (plane + line + x) as usize
}

/// Solver steps dispatched every frame of the smoke scene.
pub const COMPUTE_PASSES: usize = 6;

/// Impulse steps that may lead a frame, with their own parameter slots.
pub const COMPUTE_EXTRAS: usize = 2;

/// Cells per workgroup along x, y and z.
pub const WORKGROUP: (u32, u32, u32) = (8, 8, 4);

/// One of the two grid buffers.
#[derive(Clone, Copy, Debug, PartialEq, Eq, Structural)]
pub enum Buffer {
    A,
    B,
}

/// Texture bind group of a solver step: the first reads A and writes B, the
/// second reads B and writes A.
#[derive(Clone, Copy, Debug, PartialEq, Eq, Structural)]
pub enum StepBinding {
    First,
    Second,
}

pub open spec fn reads(b: StepBinding) -> Buffer {
    match b {
        StepBinding::First => Buffer::A,
        StepBinding::Second => Buffer::B,
    }
}

pub open spec fn writes(b: StepBinding) -> Buffer {
    match b {
        StepBinding::First => Buffer::B,
        StepBinding::Second => Buffer::A,
    }
}

/// Buffer holding the current field after `n` steps from buffer A.
pub open spec fn buffer_after(n: nat) -> Buffer {
    if n % 2 == 0 {
        Buffer::A
    } else {
        Buffer::B
    }
}

/// Each step reads what the one before wrote, the first reads A.
pub open spec fn chained(steps: Seq<StepBinding>) -> bool {
    &&& steps.len() > 0 ==> reads(steps[0]) == Buffer::A
    &&& forall|i: int| 0 < i < steps.len() ==> #[trigger] reads(steps[i]) == writes(steps[i - 1])
}

/// Counts the steps run on the grid and hands out the bind group of the next.
#[derive(Clone, Copy, Debug, PartialEq, Eq, Structural)]
pub struct PingPong {
    pub steps: u64,
}

impl PingPong {
    pub fn new() -> (r: PingPong)
        ensures
            r.steps == 0,
    {
        PingPong { steps: 0 }
    }

    /// Buffer a reader must sample now.
    pub fn current(&self) -> (r: Buffer)
        ensures
            r == buffer_after(self.steps as nat),
    {
        if self.steps % 2 == 0 {
            Buffer::A
        } else {
            Buffer::B
        }
    }

    /// Takes one step: returns its bind group, which reads the current buffer
    /// and writes the other.
    pub fn step(&mut self) -> (r: StepBinding)
        requires
            old(self).steps < u64::MAX,
        ensures
            final(self).steps == old(self).steps + 1,
            reads(r) == buffer_after(old(self).steps as nat),
            writes(r) == buffer_after(final(self).steps as nat),
    {
        let r = if self.steps % 2 == 0 {
            StepBinding::First
        } else {
            StepBinding::Second
        };
        self.steps = self.steps + 1;
        r
    }
}

/// After a chain of `n` steps from buffer A, the last one wrote A when `n` is
/// even and B when it is odd.
pub proof fn lemma_parity(steps: Seq<StepBinding>)
    requires
        chained(steps),
        steps.len() > 0,
    ensures
        writes(steps.last()) == buffer_after(steps.len()),
    decreases steps.len(),
{
    let n = steps.len();
    if n > 1 {
        let shorter = steps.drop_last();
        assert forall|i: int| 0 < i < shorter.len() implies #[trigger] reads(shorter[i]) == writes(
            shorter[i - 1],
        ) by {
            assert(reads(steps[i]) == writes(steps[i - 1]));
        }
        lemma_parity(shorter);
        assert(reads(steps[n - 1]) == writes(steps[n - 2]));
        assert(n % 2 == 0 <==> (n - 1) as nat % 2 == 1);
    }
}

/// One compute dispatch: its texture bind group and parameter slot.
#[derive(Clone, Copy, Debug, PartialEq, Eq, Structural)]
pub struct Dispatch {
    pub binding: StepBinding,
    pub params_slot: usize,
}

/// Regular step `i` alternates bind groups, starting with the first.
pub open spec fn regular_step(i: int) -> Dispatch {
    Dispatch {
        binding: if i % 2 == 0 { StepBinding::First } else { StepBinding::Second },
        params_slot: i as usize,
    }
}

/// The dispatches of one frame, in order: the two impulse steps when `extra`,
/// then the regular steps.
pub open spec fn spec_compute_plan(extra: bool) -> Seq<Dispatch> {
    let lead = if extra {
        seq![
            Dispatch { binding: StepBinding::First, params_slot: COMPUTE_PASSES },
            Dispatch { binding: StepBinding::Second, params_slot: (COMPUTE_PASSES + 1) as usize },
        ]
    } else {
        Seq::empty()
    };
    lead + Seq::new(COMPUTE_PASSES as nat, |i: int| regular_step(i))
}

/// The frame's dispatches, to be issued in this order in one compute pass.
pub fn compute_plan(extra: bool) -> (r: Vec<Dispatch>)
    ensures
        r@ == spec_compute_plan(extra),
        chained(r@.map_values(|d: Dispatch| d.binding)),
        r.len() % 2 == 0,
{
    let mut r: Vec<Dispatch> = Vec::new();
    if extra {
        r.push(Dispatch { binding: StepBinding::First, params_slot: COMPUTE_PASSES });
        r.push(Dispatch { binding: StepBinding::Second, params_slot: COMPUTE_PASSES + 1 });
    }
    let ghost lead = r@;
    let mut i: usize = 0;
    while i < COMPUTE_PASSES
        invariant
            i <= COMPUTE_PASSES,
            lead == if extra {
                seq![
                    Dispatch { binding: StepBinding::First, params_slot: COMPUTE_PASSES },
                    Dispatch { binding: StepBinding::Second, params_slot: (COMPUTE_PASSES + 1) as usize },
                ]
            } else {
                Seq::<Dispatch>::empty()
            },
            r@ == lead + Seq::new(i as nat, |j: int| regular_step(j)),
        decreases COMPUTE_PASSES - i,
    {
        let binding = if i % 2 == 0 {
            StepBinding::First
        } else {
            StepBinding::Second
        };
        r.push(Dispatch { binding, params_slot: i });
        assert(r@ =~= lead + Seq::new((i + 1) as nat, |j: int| regular_step(j)));
        i = i + 1;
    }
    proof {
        let b = r@.map_values(|d: Dispatch| d.binding);
        assert forall|k: int| 0 < k < b.len() implies #[trigger] reads(b[k]) == writes(b[k - 1]) by {
            if k >= lead.len() + 1 {
                assert(r@[k] == regular_step(k - lead.len()));
                assert(r@[k - 1] == regular_step(k - 1 - lead.len()));
            }
        }
    }
    r
}

/// The impulse steps run in patterns 0x14 to 0x17, on the first three rows of
/// each 16-row phrase.
pub open spec fn spec_extra_steps_due(pattern: usize, row: usize) -> bool {
    0x14 <= pattern <= 0x17 && row % 16 <= 2
}

pub fn extra_steps_due(pattern: usize, row: usize) -> (r: bool)
    ensures
        r == spec_extra_steps_due(pattern, row),
{
    0x14 <= pattern && pattern <= 0x17 && row % 16 <= 2
}

/// Modulation handed to every step: 0 in even 16-row phrases, 1 in odd ones.
pub open spec fn spec_phrase_gate(row: usize) -> u32 {
    ((row / 16) % 2) as u32
}

/// Parameters of one solver step, times in microseconds.
#[derive(Clone, Copy, Debug, PartialEq, Eq, Structural)]
pub struct StepParams {
    pub step: u32,
    pub delta_us: u64,
    pub time_us: u64,
    pub gate: u32,
}

/// Parameters of every slot, regular and impulse, for one frame: slot `i` is
/// step `i`, all share the frame's times and phrase gate.
pub fn step_params(delta_us: u64, time_us: u64, row: usize) -> (r: Vec<StepParams>)
    ensures
        r.len() == COMPUTE_PASSES + COMPUTE_EXTRAS,
        forall|i: int| 0 <= i < r.len() ==> (#[trigger] r@[i]) == (StepParams {
            step: i as u32,
            delta_us,
            time_us,
            gate: spec_phrase_gate(row),
        }),
{
    let gate: u32 = ((row / 16) % 2) as u32;
    let mut r: Vec<StepParams> = Vec::new();
    let mut i: u32 = 0;
    while (i as usize) < COMPUTE_PASSES + COMPUTE_EXTRAS
        invariant
            i <= COMPUTE_PASSES + COMPUTE_EXTRAS,
            gate == spec_phrase_gate(row),
            r.len() == i,
            forall|k: int| 0 <= k < r.len() ==> (#[trigger] r@[k]) == (StepParams {
                step: k as u32,
                delta_us,
                time_us,
                gate: spec_phrase_gate(row),
            }),
        decreases COMPUTE_PASSES + COMPUTE_EXTRAS - i,
    {
        r.push(StepParams { step: i, delta_us, time_us, gate });
        i = i + 1;
    }
    r
}

/// The 3D textures of the solver.
#[derive(Clone, Copy, Debug, PartialEq, Eq, Structural)]
pub enum GridTexture {
    Smoke1,
    Smoke2,
    Poisson1,
    Poisson2,
    /// Visualisation field sampled by the renderer.
    Packed,
}

/// Bind groups that reference the solver's textures.
#[derive(Clone, Copy, Debug, PartialEq, Eq, Structural)]
pub enum GridBindGroup {
    /// Reads smoke 1 and poisson 1, writes smoke 2, poisson 2 and the packed field.
    Compute1,
    /// Reads smoke 2 and poisson 2, writes smoke 1, poisson 1 and the packed field.
    Compute2,
    /// Samples the packed field.
    Render,
}

/// A resource allocated for a cubic grid of `size` cells a side, in
/// allocation round `generation`.
#[derive(Clone, Copy, Debug, PartialEq, Eq, Structural)]
pub struct Allocation<K> {
    pub kind: K,
    pub size: u32,
    pub generation: u64,
}

pub open spec fn allocation<K>(kind: K, size: u32, generation: u64) -> Allocation<K> {
    Allocation { kind, size, generation }
}

pub open spec fn spec_grid_textures(size: u32, generation: u64) -> Seq<Allocation<GridTexture>> {
    seq![
        allocation(GridTexture::Smoke1, size, generation),
        allocation(GridTexture::Smoke2, size, generation),
        allocation(GridTexture::Packed, size, generation),
        allocation(GridTexture::Poisson1, size, generation),
        allocation(GridTexture::Poisson2, size, generation),
    ]
}

pub open spec fn spec_grid_bind_groups(size: u32, generation: u64) -> Seq<Allocation<GridBindGroup>> {
    seq![
        allocation(GridBindGroup::Compute1, size, generation),
        allocation(GridBindGroup::Compute2, size, generation),
        allocation(GridBindGroup::Render, size, generation),
    ]
}

/// Every resource that depends on the grid's resolution.
#[derive(Debug)]
pub struct GridResources {
    pub size: u32,
    pub generation: u64,
    pub textures: Vec<Allocation<GridTexture>>,
    pub bind_groups: Vec<Allocation<GridBindGroup>>,
}

impl GridResources {
    /// All textures and bind groups exist for the current size and round.
    pub open spec fn wf(&self) -> bool {
        &&& self.size > 0
        &&& self.textures@ == spec_grid_textures(self.size, self.generation)
        &&& self.bind_groups@ == spec_grid_bind_groups(self.size, self.generation)
    }

    fn allocate(size: u32, generation: u64) -> (r: GridResources)
        requires
            size > 0,
        ensures
            r.wf(),
            r.size == size,
            r.generation == generation,
    {
        let textures = vec![
            Allocation { kind: GridTexture::Smoke1, size, generation },
            Allocation { kind: GridTexture::Smoke2, size, generation },
            Allocation { kind: GridTexture::Packed, size, generation },
            Allocation { kind: GridTexture::Poisson1, size, generation },
            Allocation { kind: GridTexture::Poisson2, size, generation },
        ];
        let bind_groups = vec![
            Allocation { kind: GridBindGroup::Compute1, size, generation },
            Allocation { kind: GridBindGroup::Compute2, size, generation },
            Allocation { kind: GridBindGroup::Render, size, generation },
        ];
        assert(textures@ =~= spec_grid_textures(size, generation));
        assert(bind_groups@ =~= spec_grid_bind_groups(size, generation));
        GridResources { size, generation, textures, bind_groups }
    }

    /// Resources for a grid of `size` cells a side, first round.
    pub fn new(size: u32) -> (r: GridResources)
        requires
            size > 0,
        ensures
            r.wf(),
            r.size == size,
            r.generation == 0,
    {
        GridResources::allocate(size, 0)
    }

    /// Reallocates everything for `size` cells a side. A size of zero or the
    /// current size is ignored. Returns whether a reallocation took place.
    pub fn resize(&mut self, size: u32) -> (r: bool)
        requires
            old(self).wf(),
            old(self).generation < u64::MAX,
        ensures
            r == (size != old(self).size && size > 0),
            final(self).wf(),
            r ==> final(self).size == size && final(self).generation == old(self).generation + 1,
            r ==> forall|i: int| 0 <= i < final(self).textures.len() ==> (#[trigger] final(self).textures@[i]).size == size
                && final(self).textures@[i].generation != old(self).generation,
            r ==> forall|i: int| 0 <= i < final(self).bind_groups.len() ==> (#[trigger] final(self).bind_groups@[i]).size == size
                && final(self).bind_groups@[i].generation != old(self).generation,
            !r ==> *final(self) == *old(self),
    {
        if self.size != size && size > 0 {
            *self = GridResources::allocate(size, self.generation + 1);
            true
        } else {
            false
        }
    }
}

/// A frame's dispatches chain through the two buffers and come in an even
/// number, so the last one writes buffer A: the frame ends where it started.
pub proof fn lemma_frame_parity(extra: bool)
    ensures
        chained(spec_compute_plan(extra).map_values(|d: Dispatch| d.binding)),
        writes(spec_compute_plan(extra).map_values(|d: Dispatch| d.binding).last()) == Buffer::A,
{
    let plan = spec_compute_plan(extra);
    let b = plan.map_values(|d: Dispatch| d.binding);
    let lead = if extra { 2int } else { 0int };
    assert(plan.len() == lead + 6);
    assert forall|k: int| 0 < k < b.len() implies #[trigger] reads(b[k]) == writes(b[k - 1]) by {
        if k >= lead + 1 {
            assert(plan[k] == regular_step(k - lead));
            assert(plan[k - 1] == regular_step(k - 1 - lead));
        } else if k == 1 && extra {
            assert(plan[0].binding == StepBinding::First);
            assert(plan[1].binding == StepBinding::Second);
        } else if k == lead && extra {
            assert(plan[1].binding == StepBinding::Second);
        }
    }
    assert(b.len() > 0 ==> reads(b[0]) == Buffer::A) by {
        if !extra {
            assert(plan[0] == regular_step(0));
        }
    }
    lemma_parity(b);
}

} // verus!
