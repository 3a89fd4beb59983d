//! Workgroup grids of the two compute kernels.
//!
//! Both kernels run in workgroups of 8 x 8 x 1 invocations. The diffusion
//! kernel gets one workgroup per 8 x 8 tile of the canvas. The agent kernel
//! needs one invocation per active agent, which is a one-dimensional demand;
//! it is folded into rows of 32 workgroups so that no axis of the grid grows
//! with the whole population.

use vstd::prelude::*;

verus! {

/// Invocations of one workgroup along x.
pub const WORKGROUP_SIZE_X: u32 = 8;

/// Invocations of one workgroup along y.
pub const WORKGROUP_SIZE_Y: u32 = 8;

/// Invocations of one workgroup along z.
pub const WORKGROUP_SIZE_Z: u32 = 1;

/// Invocations of one workgroup.
pub const THREADS_PER_WORKGROUP: u32 = 64;

/// Workgroups in one row of the agent kernel's grid.
pub const NUMBER_OF_WORKGROUPS_X: u32 = 32;

/// Active agents that one row of the agent kernel's grid serves.
pub const AGENTS_PER_ROW: u32 = 2048;

/// Quotient of `n` by `d`, rounded up.
pub open spec fn div_ceil(n: int, d: int) -> int
    recommends
        n >= 0,
        d > 0,
{
    if n % d == 0 {
        n / d
    } else {
        n / d + 1
    }
}

/// `div_ceil(n, d)` parts of size `d` hold `n`, and one part less does not.
pub proof fn lemma_div_ceil_covers(n: int, d: int)
    requires
        n >= 0,
        d > 0,
    ensures
        div_ceil(n, d) >= 0,
        div_ceil(n, d) * d >= n,
        n > 0 ==> (div_ceil(n, d) - 1) * d < n,
        n == 0 ==> div_ceil(n, d) == 0,
{
    let c = div_ceil(n, d);
    vstd::arithmetic::div_mod::lemma_fundamental_div_mod(n, d);
    vstd::arithmetic::div_mod::lemma_mod_bound(n, d);
    vstd::arithmetic::div_mod::lemma_div_pos_is_pos(n, d);
    assert(c * d >= n && (n > 0 ==> (c - 1) * d < n) && c >= 0 && (n == 0 ==> c == 0))
        by (nonlinear_arith)
        requires
            n == d * (n / d) + n % d,
            0 <= n % d < d,
            n / d >= 0,
            c == if n % d == 0 { n / d } else { n / d + 1 },
    ;
}

/// No count of parts below `div_ceil(n, d)` holds `n`.
pub proof fn lemma_div_ceil_is_least(n: int, d: int, q: int)
    requires
        n >= 0,
        d > 0,
        q * d >= n,
    ensures
        q >= div_ceil(n, d),
{
    let c = div_ceil(n, d);
    lemma_div_ceil_covers(n, d);
    if q < c {
        vstd::arithmetic::mul::lemma_mul_inequality(q, c - 1, d);
        if n == 0 {
            assert((c - 1) * d == -d) by (nonlinear_arith)
                requires
                    c == 0,
            ;
        }
    }
}

/// Divides `n` by `d` and rounds up. No intermediate sum is formed, so the
/// result is right up to `u32::MAX`.
pub fn ceil_div(n: u32, d: u32) -> (q: u32)
    requires
        d > 0,
    ensures
        q == div_ceil(n as int, d as int),
{
    let whole: u32 = n / d;
    let rest: u32 = n % d;
    if rest == 0 {
        whole
    } else {
        proof {
            vstd::arithmetic::div_mod::lemma_fundamental_div_mod(n as int, d as int);
            assert(whole < n) by (nonlinear_arith)
                requires
                    n == d * whole + rest,
                    rest > 0,
                    d >= 1,
            ;
        }
        whole + 1
    }
}

/// Counts of workgroups along the three axes of one dispatch.
#[derive(Debug, Clone, Copy, PartialEq, Eq, Structural)]
pub struct Grid {
    pub x: u32,
    pub y: u32,
    pub z: u32,
}

impl Grid {
    /// Workgroups in the grid.
    pub open spec fn workgroups(self) -> int {
        self.x * self.y * self.z
    }

    /// Kernel invocations that the grid starts.
    pub open spec fn invocations(self) -> int {
        self.workgroups() * THREADS_PER_WORKGROUP
    }

    /// The grid of the diffusion kernel on a canvas of the given size.
    pub open spec fn for_canvas(canvas_width: u32, canvas_height: u32) -> Grid {
        Grid {
            x: div_ceil(canvas_width as int, WORKGROUP_SIZE_X as int) as u32,
            y: div_ceil(canvas_height as int, WORKGROUP_SIZE_Y as int) as u32,
            z: 1,
        }
    }

    /// The grid of the agent kernel for the given count of active agents.
    pub open spec fn for_agents(active_agents: u32) -> Grid {
        Grid {
            x: NUMBER_OF_WORKGROUPS_X,
            y: div_ceil(
                div_ceil(active_agents as int, THREADS_PER_WORKGROUP as int),
                NUMBER_OF_WORKGROUPS_X as int,
            ) as u32,
            z: 1,
        }
    }

    /// Whether no axis of the grid is longer than `per_axis`.
    pub open spec fn within(self, per_axis: u32) -> bool {
        self.x <= per_axis && self.y <= per_axis && self.z <= per_axis
    }

    /// Tests whether a device that takes `per_axis` workgroups along each
    /// axis can run the grid.
    pub fn fits(&self, per_axis: u32) -> (r: bool)
        ensures
            r == self.within(per_axis),
    {
        self.x <= per_axis && self.y <= per_axis && self.z <= per_axis
    }
}

/// Grid of the diffusion kernel: one workgroup for each 8 x 8 tile of the
/// canvas, a tile that the canvas only partly fills included.
pub fn diffuse_and_decay_grid(canvas_width: u32, canvas_height: u32) -> (grid: Grid)
    ensures
        grid == Grid::for_canvas(canvas_width, canvas_height),
        grid.x * WORKGROUP_SIZE_X >= canvas_width,
        grid.y * WORKGROUP_SIZE_Y >= canvas_height,
{
    Grid {
        x: ceil_div(canvas_width, WORKGROUP_SIZE_X),
        y: ceil_div(canvas_height, WORKGROUP_SIZE_Y),
        z: 1,
    }
}

/// Grid of the agent kernel: as many workgroups of 64 invocations as the
/// active agents need, laid out in rows of 32. The last row may be partly
/// idle; the kernel drops every invocation whose flat index is not below the
/// active count.
pub fn agent_sense_move_deposit_grid(active_agents: u32) -> (grid: Grid)
    ensures
        grid == Grid::for_agents(active_agents),
        grid.invocations() >= active_agents,
{
    let workgroups_needed: u32 = ceil_div(active_agents, THREADS_PER_WORKGROUP);
    Grid {
        x: NUMBER_OF_WORKGROUPS_X,
        y: ceil_div(workgroups_needed, NUMBER_OF_WORKGROUPS_X),
        z: WORKGROUP_SIZE_Z,
    }
}

/// The folded grid never under-covers: whatever the population, every one of
/// its active agents has an invocation.
pub proof fn lemma_agent_grid_covers(population: u32, active_agents: u32)
    requires
        0 < active_agents <= population,
    ensures
        Grid::for_agents(active_agents).x * Grid::for_agents(active_agents).y
            * THREADS_PER_WORKGROUP >= active_agents,
{
}

/// The folded grid is the smallest of its width that covers: with one row
/// less, some active agent would be left without an invocation.
pub proof fn lemma_agent_grid_is_tight(active_agents: u32)
    requires
        active_agents > 0,
    ensures
        Grid::for_agents(active_agents).y >= 1,
        (Grid::for_agents(active_agents).y - 1) * AGENTS_PER_ROW < active_agents,
{
}

/// The folded grid has at most 32 rows exactly when there are no more than
/// 65536 active agents, the number that a square of 32 x 32 workgroups serves.
pub proof fn lemma_agent_grid_rows(population: u32, active_agents: u32)
    requires
        0 < active_agents <= population,
    ensures
        Grid::for_agents(active_agents).y <= 32 <==> active_agents <= 65536,
{
}

} // verus!
