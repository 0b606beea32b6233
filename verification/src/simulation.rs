use vstd::prelude::*;
use vstd::wrapping::i32_specs;
use vstd::wrapping::u32_specs;
use crate::xorshift::Xorshift32;
use crate::xorshift::xorshift_step;

verus! {

/// One particle of the Brownian-motion simulation: its grid cell and its own
/// random generator.
#[derive(Clone, Copy)]
pub struct Particle {
    pub pos_x: u32,
    pub pos_y: u32,
    pub rng: Xorshift32,
    pub _padding: u32,
}

/// The parameters every shader invocation receives.
#[derive(Clone, Copy)]
pub struct PushConstants {
    pub grid_width: u32,
    pub grid_height: u32,
    pub num_particles: u32,
    pub max_density: u32,
}

/// The direction a particle draws from the new state of its generator: the
/// top two bits (0 up, 1 right, 2 down, anything else left).
pub open spec fn step_direction(state: u32) -> u32 {
    xorshift_step(state) >> 30u32
}

/// A coordinate after the move: x goes right on direction 1 and left on 3,
/// y goes up on direction 0 and down on 2; signed 32-bit arithmetic wraps,
/// as it does in the shader.
pub open spec fn moved_x(x: i32, dir: u32) -> i32 {
    if dir == 1 {
        i32_specs::wrapping_add(x, 1)
    } else if dir == 0 || dir == 2 {
        x
    } else {
        i32_specs::wrapping_sub(x, 1)
    }
}

pub open spec fn moved_y(y: i32, dir: u32) -> i32 {
    if dir == 0 {
        i32_specs::wrapping_sub(y, 1)
    } else if dir == 2 {
        i32_specs::wrapping_add(y, 1)
    } else {
        y
    }
}

/// The border rule: a coordinate below 0 becomes 1, and one above `max`
/// becomes `max - 1`.
pub open spec fn reflect(v: i32, max: i32) -> i32 {
    let v1 = if v < 0 {
        1i32
    } else {
        v
    };
    if v1 > max {
        i32_specs::wrapping_sub(max, 1)
    } else {
        v1
    }
}

/// The largest coordinate of an axis of `size` cells, as the shader computes
/// it: `size - 1` with 32-bit wrapping, read as a signed number.
pub open spec fn axis_max(size: u32) -> i32 {
    u32_specs::wrapping_sub(size, 1) as i32
}

/// A particle after one Brownian step: its generator advances once, it moves
/// one cell in the drawn direction and is reflected at the borders.
pub open spec fn stepped(p: Particle, c: PushConstants) -> Particle {
    let dir = step_direction(p.rng.state);
    Particle {
        pos_x: reflect(moved_x(p.pos_x as i32, dir), axis_max(c.grid_width)) as u32,
        pos_y: reflect(moved_y(p.pos_y as i32, dir), axis_max(c.grid_height)) as u32,
        rng: Xorshift32 { state: xorshift_step(p.rng.state) },
        _padding: p._padding,
    }
}

/// The density-grid cell of a particle: row-major, `y * width + x`, with
/// 32-bit wrapping.
pub open spec fn cell_index(p: Particle, c: PushConstants) -> u32 {
    u32_specs::wrapping_add(u32_specs::wrapping_mul(p.pos_y, c.grid_width), p.pos_x)
}

/// Whether invocation `id` of the clean pass clears a cell: when it is below
/// `width * height` (32-bit wrapping).
pub open spec fn clears_cell(id: u32, c: PushConstants) -> bool {
    id < u32_specs::wrapping_mul(c.grid_width, c.grid_height)
}

/// The particle the simulation starts particle `i` with: in the centre cell
/// of the grid, its generator seeded with `1337 + i`.
pub open spec fn spawned_particle(i: int, grid_width: u32, grid_height: u32) -> Particle {
    Particle {
        pos_x: grid_width / 2,
        pos_y: grid_height / 2,
        rng: Xorshift32 { state: (1337 + i) as u32 },
        _padding: 0,
    }
}

/// The initial particles of the simulation: `count` of them, all in the
/// centre cell, each with its own seed.
pub fn spawn_particles(count: u32, grid_width: u32, grid_height: u32) -> (r: Vec<Particle>)
    requires
        count as int + 1336 <= u32::MAX,
    ensures
        r@.len() == count,
        forall|i: int| 0 <= i < count ==> r@[i] == spawned_particle(i, grid_width, grid_height),
{
    let mut r: Vec<Particle> = Vec::new();
    let mut i: u32 = 0;
    while i < count
        invariant
            i <= count,
            count as int + 1336 <= u32::MAX,
            r@.len() == i,
            forall|k: int| 0 <= k < i ==> r@[k] == spawned_particle(k, grid_width, grid_height),
        decreases count - i,
    {
        r.push(
            Particle {
                pos_x: grid_width / 2,
                pos_y: grid_height / 2,
                rng: Xorshift32 { state: 1337 + i },
                _padding: 0,
            },
        );
        i = i + 1;
    }
    r
}

/// Particle `i` of a spawn starts in the centre cell, `(width / 2, height /
/// 2)`, with its generator seeded with `1337 + i`, for every index whose seed
/// fits a `u32`.
pub proof fn lemma_spawned_seed(i: int, grid_width: u32, grid_height: u32)
    requires
        0 <= i,
        1337 + i <= u32::MAX,
    ensures
        spawned_particle(i, grid_width, grid_height).rng.state == 1337 + i,
        spawned_particle(i, grid_width, grid_height).pos_x == grid_width / 2,
        spawned_particle(i, grid_width, grid_height).pos_y == grid_height / 2,
{
}

/// The seeds of a spawn count up by one from particle to particle.
pub proof fn lemma_spawned_seeds_consecutive(i: int, grid_width: u32, grid_height: u32)
    requires
        0 <= i,
        1338 + i <= u32::MAX,
    ensures
        spawned_particle(i + 1, grid_width, grid_height).rng.state == spawned_particle(
            i,
            grid_width,
            grid_height,
        ).rng.state + 1,
{
}

/// No two particles of a spawn share a seed, so no two walk the same path:
/// particles `i` and `k` of a spawn of `count` (whose seeds all fit a `u32`)
/// have different generator states whenever `i != k`.
pub proof fn lemma_spawned_seeds_distinct(
    i: int,
    k: int,
    count: u32,
    grid_width: u32,
    grid_height: u32,
)
    requires
        0 <= i < count,
        0 <= k < count,
        i != k,
        count as int + 1336 <= u32::MAX,
    ensures
        spawned_particle(i, grid_width, grid_height).rng.state != spawned_particle(
            k,
            grid_width,
            grid_height,
        ).rng.state,
{
    lemma_spawned_seed(i, grid_width, grid_height);
    lemma_spawned_seed(k, grid_width, grid_height);
}

/// The grid after the clean pass of invocation `id`: cell `id` zeroed when
/// the invocation clears a cell, the grid unchanged otherwise.
pub open spec fn cleaned(grid: Seq<u32>, id: u32, c: PushConstants) -> Seq<u32> {
    if clears_cell(id, c) {
        grid.update(id as int, 0u32)
    } else {
        grid
    }
}

/// The grid after the clean pass of invocations `0` to `n - 1`, in order.
pub open spec fn cleaned_upto(grid: Seq<u32>, n: nat, c: PushConstants) -> Seq<u32>
    decreases n,
{
    if n == 0 {
        grid
    } else {
        cleaned(cleaned_upto(grid, (n - 1) as nat, c), (n - 1) as u32, c)
    }
}

/// The clean pass for invocation `id`: it zeroes cell `id` of the density
/// grid when `id` lies inside the grid, and leaves the grid alone otherwise.
pub fn clean_buffer(id: u32, grid: &mut Vec<u32>, constants: &PushConstants)
    requires
        clears_cell(id, *constants) ==> id < old(grid).len(),
    ensures
        final(grid)@ == cleaned(old(grid)@, id, *constants),
{
    let idx = id as usize;
    if idx < constants.grid_width.wrapping_mul(constants.grid_height) as usize {
        grid.set(idx, 0);
    }
}

/// The simulation pass for invocation `id`: particle `id` (when it is one of
/// the first `num_particles`) takes one Brownian step, and the density of the
/// cell it lands on goes up by one (wrapping, as the atomic add does).
pub fn brownian_step(
    id: u32,
    particles: &mut Vec<Particle>,
    grid: &mut Vec<u32>,
    constants: &PushConstants,
)
    requires
        id < constants.num_particles ==> id < old(particles).len() && cell_index(
            stepped(old(particles)@[id as int], *constants),
            *constants,
        ) < old(grid).len(),
    ensures
        id >= constants.num_particles ==> final(particles)@ == old(particles)@ && final(grid)@
            == old(grid)@,
        id < constants.num_particles ==> ({
            let p = stepped(old(particles)@[id as int], *constants);
            let cell = cell_index(p, *constants) as int;
            &&& final(particles)@ == old(particles)@.update(id as int, p)
            &&& final(grid)@ == old(grid)@.update(
                cell,
                u32_specs::wrapping_add(old(grid)@[cell], 1),
            )
        }),
{
    let idx = id as usize;
    if idx >= constants.num_particles as usize {
        return ;
    }
    let mut p = particles[idx];

    let dir = p.rng.next() >> 30u32;

    let mut x = p.pos_x as i32;
    let mut y = p.pos_y as i32;

    if dir == 0 {
        y = y.wrapping_sub(1);
    } else if dir == 1 {
        x = x.wrapping_add(1);
    } else if dir == 2 {
        y = y.wrapping_add(1);
    } else {
        x = x.wrapping_sub(1);
    }

    let max_x = constants.grid_width.wrapping_sub(1) as i32;
    let max_y = constants.grid_height.wrapping_sub(1) as i32;

    if x < 0 {
        x = 1;
    }
    if x > max_x {
        x = max_x.wrapping_sub(1);
    }
    if y < 0 {
        y = 1;
    }
    if y > max_y {
        y = max_y.wrapping_sub(1);
    }

    p.pos_x = x as u32;
    p.pos_y = y as u32;
    particles.set(idx, p);

    let grid_idx = p.pos_y.wrapping_mul(constants.grid_width).wrapping_add(p.pos_x) as usize;
    let count = grid[grid_idx];
    grid.set(grid_idx, count.wrapping_add(1));
}

proof fn lemma_small_u32_as_i32(u: u32)
    requires
        u < 0x8000_0000,
    ensures
        (u as i32) as int == u as int,
{
    assert((u as i32) as int == u as int) by (bit_vector)
        requires
            u < 0x8000_0000u32,
    ;
}

proof fn lemma_nonneg_i32_as_u32(v: i32)
    requires
        v >= 0,
    ensures
        (v as u32) as int == v as int,
{
    assert((v as u32) as int == v as int) by (bit_vector)
        requires
            v >= 0i32,
    ;
}

/// A particle inside a grid of at least two cells per axis (and less than
/// 2^31 cells per axis) stays inside the grid after a step, and moves to a
/// neighbouring cell: exactly one coordinate changes, by exactly one.
pub proof fn lemma_step_stays_in_grid(p: Particle, c: PushConstants)
    requires
        2 <= c.grid_width < 0x8000_0000,
        2 <= c.grid_height < 0x8000_0000,
        p.pos_x < c.grid_width,
        p.pos_y < c.grid_height,
    ensures
        stepped(p, c).pos_x < c.grid_width,
        stepped(p, c).pos_y < c.grid_height,
        ({
            let q = stepped(p, c);
            let dx = q.pos_x - p.pos_x;
            let dy = q.pos_y - p.pos_y;
            (dx == 0 && (dy == 1 || dy == -1)) || (dy == 0 && (dx == 1 || dx == -1))
        }),
{
    let dir = step_direction(p.rng.state);
    lemma_small_u32_as_i32(p.pos_x);
    lemma_small_u32_as_i32(p.pos_y);
    lemma_small_u32_as_i32((c.grid_width - 1) as u32);
    lemma_small_u32_as_i32((c.grid_height - 1) as u32);
    let nx = reflect(moved_x(p.pos_x as i32, dir), axis_max(c.grid_width));
    let ny = reflect(moved_y(p.pos_y as i32, dir), axis_max(c.grid_height));
    assert(0 <= nx < c.grid_width);
    assert(0 <= ny < c.grid_height);
    lemma_nonneg_i32_as_u32(nx);
    lemma_nonneg_i32_as_u32(ny);
}

/// For a particle inside the grid, and a grid of at most 2^32 cells, the
/// density cell of the stepped particle is `y * width + x`, inside the grid.
pub proof fn lemma_step_cell_in_grid(p: Particle, c: PushConstants)
    requires
        2 <= c.grid_width < 0x8000_0000,
        2 <= c.grid_height < 0x8000_0000,
        c.grid_width * c.grid_height <= 0x1_0000_0000,
        p.pos_x < c.grid_width,
        p.pos_y < c.grid_height,
    ensures
        cell_index(stepped(p, c), c) == stepped(p, c).pos_y * c.grid_width + stepped(p, c).pos_x,
        cell_index(stepped(p, c), c) < c.grid_width * c.grid_height,
{
    lemma_step_stays_in_grid(p, c);
    let q = stepped(p, c);
    let w = c.grid_width as int;
    let h = c.grid_height as int;
    let x = q.pos_x as int;
    let y = q.pos_y as int;
    assert(y * w + x < w * h) by (nonlinear_arith)
        requires
            0 <= x < w,
            0 <= y < h,
    ;
    assert(0 <= y * w) by (nonlinear_arith)
        requires
            0 <= y,
            0 <= w,
    ;
    assert((y * w) % 0x1_0000_0000 == y * w) by {
        vstd::arithmetic::div_mod::lemma_small_mod((y * w) as nat, 0x1_0000_0000nat);
    }
}

/// Once the clean pass has run for every invocation below `n` (and `n`
/// covers the `width * height` cells of a grid at least that long), every
/// cell of the grid is zero; cells past it are left alone.
pub proof fn lemma_clean_pass_empties_grid(grid: Seq<u32>, n: nat, c: PushConstants)
    requires
        n <= u32::MAX as nat + 1,
        u32_specs::wrapping_mul(c.grid_width, c.grid_height) <= n,
        u32_specs::wrapping_mul(c.grid_width, c.grid_height) <= grid.len(),
    ensures
        cleaned_upto(grid, n, c).len() == grid.len(),
        forall|i: int|
            0 <= i < u32_specs::wrapping_mul(c.grid_width, c.grid_height) ==> #[trigger] cleaned_upto(
                grid,
                n,
                c,
            )[i] == 0,
        forall|i: int|
            u32_specs::wrapping_mul(c.grid_width, c.grid_height) <= i < grid.len()
                ==> #[trigger] cleaned_upto(grid, n, c)[i] == grid[i],
{
    lemma_clean_prefix(grid, n, c);
}

proof fn lemma_clean_prefix(grid: Seq<u32>, n: nat, c: PushConstants)
    requires
        n <= u32::MAX as nat + 1,
        u32_specs::wrapping_mul(c.grid_width, c.grid_height) <= grid.len(),
    ensures
        cleaned_upto(grid, n, c).len() == grid.len(),
        forall|i: int|
            0 <= i < n && i < u32_specs::wrapping_mul(c.grid_width, c.grid_height)
                ==> #[trigger] cleaned_upto(grid, n, c)[i] == 0,
        forall|i: int|
            0 <= i < grid.len() && !(i < n && i < u32_specs::wrapping_mul(
                c.grid_width,
                c.grid_height,
            )) ==> #[trigger] cleaned_upto(grid, n, c)[i] == grid[i],
    decreases n,
{
    if n > 0 {
        lemma_clean_prefix(grid, (n - 1) as nat, c);
    }
}

/// The sum of all cells of a density grid.
pub open spec fn density_total(grid: Seq<u32>) -> int
    decreases grid.len(),
{
    if grid.len() == 0 {
        0
    } else {
        density_total(grid.drop_last()) + grid.last()
    }
}

proof fn lemma_density_total_update(grid: Seq<u32>, i: int, v: u32)
    requires
        0 <= i < grid.len(),
    ensures
        density_total(grid.update(i, v)) == density_total(grid) - grid[i] + v,
    decreases grid.len(),
{
    if i < grid.len() - 1 {
        assert(grid.update(i, v).drop_last() =~= grid.drop_last().update(i, v));
        lemma_density_total_update(grid.drop_last(), i, v);
    } else {
        assert(grid.update(i, v).drop_last() =~= grid.drop_last());
    }
}

/// A simulation invocation for a live particle adds exactly one to the total
/// density, unless the cell it lands on was already at the 32-bit maximum.
pub proof fn lemma_step_adds_one_density(grid: Seq<u32>, cell: int)
    requires
        0 <= cell < grid.len(),
        grid[cell] < u32::MAX,
    ensures
        density_total(grid.update(cell, u32_specs::wrapping_add(grid[cell], 1))) == density_total(
            grid,
        ) + 1,
{
    lemma_density_total_update(grid, cell, u32_specs::wrapping_add(grid[cell], 1));
}

} // verus!
