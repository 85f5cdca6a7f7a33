//! The particle store and the stages around it: bulk initialization of the
//! records, the per-tick compute pass over every record, the projection
//! uniform the graphics stage draws with, and the draw call covering the
//! whole store.

use rand::Rng;
use vstd::prelude::*;

verus! {

use crate::fixed::{
    FX_ONE, abs_i, tdiv, mul_div, lemma_tdiv_bounds, lemma_mul_abs_range,
};
use crate::particle::{
    Particle, PushConstants, Vec2, mag2, pos_in_bounds, vel_admissible, push_constants_valid,
    spec_integrate, lemma_integrate_fits, sq, MAX_VEL_FX,
};
use crate::swapchain::Extent;
use vstd::arithmetic::div_mod::{lemma_div_is_ordered, lemma_div_by_multiple};

/// Smallest initial orbit radius (0.2 world units in fixed point).
pub const MIN_RADIUS_FX: i64 = 13107;

/// A 4x4 fixed-point matrix, row by row.
#[derive(Clone, Copy, Debug, PartialEq, Eq, Structural)]
pub struct Mat4 {
    pub m00: i64,
    pub m01: i64,
    pub m02: i64,
    pub m03: i64,
    pub m10: i64,
    pub m11: i64,
    pub m12: i64,
    pub m13: i64,
    pub m20: i64,
    pub m21: i64,
    pub m22: i64,
    pub m23: i64,
    pub m30: i64,
    pub m31: i64,
    pub m32: i64,
    pub m33: i64,
}

/// The projection uniform handed to the vertex stage.
#[derive(Clone, Copy, Debug, PartialEq, Eq, Structural)]
pub struct Transform {
    pub projection: Mat4,
}

/// The identity matrix.
pub open spec fn spec_identity() -> Mat4 {
    Mat4 {
        m00: FX_ONE,
        m01: 0,
        m02: 0,
        m03: 0,
        m10: 0,
        m11: FX_ONE,
        m12: 0,
        m13: 0,
        m20: 0,
        m21: 0,
        m22: FX_ONE,
        m23: 0,
        m30: 0,
        m31: 0,
        m32: 0,
        m33: FX_ONE,
    }
}

/// The orthographic projection for a surface of the given size: the world
/// box spans two units of height, widened by the aspect ratio, with the y
/// axis flipped. Only the x scale depends on the extent, and it equals
/// `height / width` in fixed point.
pub open spec fn spec_orthographic(extent: Extent) -> Mat4 {
    Mat4 {
        m00: (((extent.height as int) * FX_ONE) / (extent.width as int)) as i64,
        m01: 0,
        m02: 0,
        m03: 0,
        m10: 0,
        m11: ((-FX_ONE) as i64),
        m12: 0,
        m13: 0,
        m20: 0,
        m21: 0,
        m22: FX_ONE,
        m23: 0,
        m30: 0,
        m31: 0,
        m32: 0,
        m33: FX_ONE,
    }
}

/// Build the identity matrix.
pub fn identity() -> (m: Mat4)
    ensures
        m == spec_identity(),
{
    Mat4 {
        m00: FX_ONE,
        m01: 0,
        m02: 0,
        m03: 0,
        m10: 0,
        m11: FX_ONE,
        m12: 0,
        m13: 0,
        m20: 0,
        m21: 0,
        m22: FX_ONE,
        m23: 0,
        m30: 0,
        m31: 0,
        m32: 0,
        m33: FX_ONE,
    }
}

/// Build the orthographic projection for a surface of the given size.
pub fn orthographic(extent: Extent) -> (m: Mat4)
    requires
        extent.width >= 1,
        extent.height >= 1,
    ensures
        m == spec_orthographic(extent),
{
    let sx: i64 = ((extent.height as i64) * FX_ONE) / (extent.width as i64);
    Mat4 {
        m00: sx,
        m01: 0,
        m02: 0,
        m03: 0,
        m10: 0,
        m11: -FX_ONE,
        m12: 0,
        m13: 0,
        m20: 0,
        m21: 0,
        m22: FX_ONE,
        m23: 0,
        m30: 0,
        m31: 0,
        m32: 0,
        m33: FX_ONE,
    }
}

/// One point-list draw covering the whole store.
#[derive(Clone, Copy, Debug, PartialEq, Eq, Structural)]
pub struct DrawCall {
    pub vertex_count: usize,
    pub instance_count: usize,
}

/// A direction vector is a unit vector, so neither component exceeds one
/// world unit.
pub open spec fn dir_in_range(d: Vec2) -> bool {
    abs_i(d.x as int) <= FX_ONE && abs_i(d.y as int) <= FX_ONE
}

/// A freshly initialized record: at rest, on its direction ray, at a radius
/// within the initial orbit band.
pub open spec fn spec_initialized(rec: Particle, dir: Vec2) -> bool {
    &&& rec.vel == (Vec2 { x: 0, y: 0 })
    &&& exists|r: int|
        MIN_RADIUS_FX <= r < FX_ONE && rec.pos.x == #[trigger] tdiv(dir.x * r, FX_ONE as int)
            && rec.pos.y == tdiv(dir.y * r, FX_ONE as int)
}

/// Relies on rand's `thread_rng` and `Rng::gen_range`: a sample from
/// `low..high` lies in that half-open range, and the range here is never
/// empty. The sample is random, so nothing more is claimed of it.
#[verifier::external_body]
fn random_radius() -> (r: i64)
    ensures
        MIN_RADIUS_FX <= r < FX_ONE,
{
    rand::thread_rng().gen_range(MIN_RADIUS_FX..FX_ONE)
}

/// A record on its ray at a radius below one world unit stays inside the
/// simulation box, at rest.
proof fn lemma_initialized_in_box(rec: Particle, dir: Vec2)
    requires
        dir_in_range(dir),
        spec_initialized(rec, dir),
    ensures
        pos_in_bounds(rec.pos),
        vel_admissible(rec.vel),
{
    let r = choose|r: int|
        MIN_RADIUS_FX <= r < FX_ONE && rec.pos.x == #[trigger] tdiv(dir.x * r, FX_ONE as int)
            && rec.pos.y == tdiv(dir.y * r, FX_ONE as int);
    lemma_mul_abs_range(dir.x as int, r, FX_ONE as int, FX_ONE - 1);
    lemma_mul_abs_range(dir.y as int, r, FX_ONE as int, FX_ONE - 1);
    lemma_tdiv_bounds(dir.x * r, FX_ONE as int);
    lemma_tdiv_bounds(dir.y * r, FX_ONE as int);
    lemma_div_is_ordered(abs_i(dir.x * r), (FX_ONE as int) * (FX_ONE - 1), FX_ONE as int);
    lemma_div_is_ordered(abs_i(dir.y * r), (FX_ONE as int) * (FX_ONE - 1), FX_ONE as int);
    lemma_div_by_multiple(FX_ONE - 1, FX_ONE as int);
}

/// Generate one record per direction: a pseudo-random radius in the initial
/// orbit band along that direction, and zero velocity.
pub fn initialize_vertices(dirs: &Vec<Vec2>) -> (records: Vec<Particle>)
    requires
        forall|i: int| 0 <= i < dirs@.len() ==> dir_in_range(#[trigger] dirs@[i]),
    ensures
        records@.len() == dirs@.len(),
        forall|i: int| 0 <= i < records@.len() ==> spec_initialized(
            #[trigger] records@[i],
            dirs@[i],
        ),
        forall|i: int| 0 <= i < records@.len() ==> pos_in_bounds(#[trigger] records@[i].pos)
            && vel_admissible(records@[i].vel),
{
    let n: usize = dirs.len();
    let mut records: Vec<Particle> = Vec::new();
    let mut i: usize = 0;
    while i < n
        invariant
            n == dirs@.len(),
            0 <= i <= n,
            records@.len() == i,
            forall|k: int| 0 <= k < dirs@.len() ==> dir_in_range(#[trigger] dirs@[k]),
            forall|k: int| 0 <= k < i ==> spec_initialized(#[trigger] records@[k], dirs@[k]),
            forall|k: int| 0 <= k < i ==> pos_in_bounds(#[trigger] records@[k].pos)
                && vel_admissible(records@[k].vel),
        decreases n - i,
    {
        let dir: Vec2 = dirs[i];
        let radius: i64 = random_radius();
        proof {
            lemma_mul_abs_range(dir.x as int, radius as int, FX_ONE as int, FX_ONE - 1);
            lemma_mul_abs_range(dir.y as int, radius as int, FX_ONE as int, FX_ONE - 1);
        }
        let px: i64 = mul_div(dir.x, radius, FX_ONE);
        let py: i64 = mul_div(dir.y, radius, FX_ONE);
        let rec: Particle = Particle::at(Vec2 { x: px, y: py });
        records.push(rec);
        proof {
            let rr: int = radius as int;
            assert(spec_initialized(rec, dir)) by {
                assert(MIN_RADIUS_FX <= rr && rr < FX_ONE && rec.pos.x == tdiv(
                    dir.x * rr,
                    FX_ONE as int,
                ) && rec.pos.y == tdiv(dir.y * rr, FX_ONE as int));
            }
            lemma_initialized_in_box(rec, dir);
        }
        i = i + 1;
    }
    records
}

/// The particle store and the state of the stages that touch it: the
/// records themselves, the direction each record was seeded on, the extent
/// the pipeline was built for, and the projection uniform.
pub struct Particles {
    pub records: Vec<Particle>,
    pub dirs: Vec<Vec2>,
    pub extent: Extent,
    pub transform: Transform,
}

/// The store after its swapchain-dependent state is rebuilt for an extent:
/// only the extent and the projection change.
pub open spec fn spec_rebuilt(p: Particles, extent: Extent) -> Particles {
    Particles {
        records: p.records,
        dirs: p.dirs,
        extent,
        transform: Transform { projection: spec_orthographic(extent) },
    }
}

impl Particles {
    /// Every record is inside the box with an admissible velocity, every
    /// direction is a unit vector, there is one direction per record, and
    /// the surface extent is nonempty.
    pub open spec fn wf(self) -> bool {
        &&& forall|i: int| 0 <= i < self.records@.len() ==> pos_in_bounds(
            #[trigger] self.records@[i].pos,
        ) && vel_admissible(self.records@[i].vel)
        &&& forall|i: int| 0 <= i < self.dirs@.len() ==> dir_in_range(#[trigger] self.dirs@[i])
        &&& self.records@.len() == self.dirs@.len()
        &&& self.extent.width >= 1
        &&& self.extent.height >= 1
    }

    /// Create the store: one record per direction, freshly seeded, with the
    /// identity projection until the first rebuild.
    pub fn new(dirs: Vec<Vec2>, extent: Extent) -> (r: Particles)
        requires
            forall|i: int| 0 <= i < dirs@.len() ==> dir_in_range(#[trigger] dirs@[i]),
            extent.width >= 1,
            extent.height >= 1,
        ensures
            r.wf(),
            r.records@.len() == dirs@.len(),
            forall|i: int| 0 <= i < r.records@.len() ==> spec_initialized(
                #[trigger] r.records@[i],
                dirs@[i],
            ),
            r.dirs == dirs,
            r.extent == extent,
            r.transform == (Transform { projection: spec_identity() }),
    {
        let records: Vec<Particle> = initialize_vertices(&dirs);
        Particles { records, dirs, extent, transform: Transform { projection: identity() } }
    }

    /// Replace every record wholesale with a fresh seeding, and rebuild the
    /// swapchain-dependent state for the current extent. The caller rebinds
    /// whatever referenced the old records.
    pub fn reset_vertices(&mut self)
        requires
            old(self).wf(),
        ensures
            final(self).wf(),
            final(self).records@.len() == old(self).records@.len(),
            forall|i: int| 0 <= i < final(self).records@.len() ==> spec_initialized(
                #[trigger] final(self).records@[i],
                old(self).dirs@[i],
            ),
            final(self).dirs == old(self).dirs,
            final(self).extent == old(self).extent,
            final(self).transform == (Transform { projection: spec_orthographic(old(self).extent) }),
    {
        self.records = initialize_vertices(&self.dirs);
        self.transform = Transform { projection: orthographic(self.extent) };
    }

    /// Rebuild the swapchain-dependent state for a new extent: the records
    /// are untouched, the projection is recomputed for the extent.
    pub fn rebuild_swapchain_resources(&mut self, extent: Extent)
        requires
            old(self).wf(),
            extent.width >= 1,
            extent.height >= 1,
        ensures
            *final(self) == spec_rebuilt(*old(self), extent),
            final(self).wf(),
    {
        self.extent = extent;
        self.transform = Transform { projection: orthographic(extent) };
    }

    /// One simulation tick: advance every record in place, in parallel in
    /// spirit — no record's step reads another record.
    pub fn tick(&mut self, constants: &PushConstants)
        requires
            old(self).wf(),
            push_constants_valid(*constants),
        ensures
            final(self).wf(),
            final(self).records@.len() == old(self).records@.len(),
            forall|i: int| 0 <= i < final(self).records@.len() ==> final(self).records@[i]
                == spec_integrate(#[trigger] old(self).records@[i], *constants),
            forall|i: int| 0 <= i < final(self).records@.len() ==> mag2(
                #[trigger] final(self).records@[i].vel,
            ) <= sq(MAX_VEL_FX as int),
            forall|i: int| 0 <= i < final(self).records@.len() ==> pos_in_bounds(
                #[trigger] final(self).records@[i].pos,
            ),
            final(self).dirs == old(self).dirs,
            final(self).extent == old(self).extent,
            final(self).transform == old(self).transform,
    {
        let n: usize = self.records.len();
        let mut i: usize = 0;
        while i < n
            invariant
                n == self.records@.len(),
                self.records@.len() == old(self).records@.len(),
                0 <= i <= n,
                push_constants_valid(*constants),
                forall|k: int| i <= k < n ==> self.records@[k] == old(self).records@[k],
                forall|k: int| 0 <= k < i ==> self.records@[k] == spec_integrate(
                    #[trigger] old(self).records@[k],
                    *constants,
                ),
                forall|k: int| 0 <= k < n ==> pos_in_bounds(#[trigger] self.records@[k].pos)
                    && vel_admissible(self.records@[k].vel),
                self.dirs == old(self).dirs,
                self.extent == old(self).extent,
                self.transform == old(self).transform,
            decreases n - i,
        {
            let mut rec: Particle = self.records[i];
            rec.integrate(constants);
            proof {
                // the capped velocity is far inside the admissible range
                lemma_integrate_fits(old(self).records@[i as int], *constants);
            }
            self.records.set(i, rec);
            i = i + 1;
        }
        proof {
            assert forall|k: int|
                0 <= k < final(self).records@.len() implies mag2(
                #[trigger] final(self).records@[k].vel,
            ) <= sq(MAX_VEL_FX as int) && pos_in_bounds(final(self).records@[k].pos) by {
                lemma_integrate_fits(old(self).records@[k], *constants);
            }
        }
    }

    /// The draw covering the store: one point per record, one instance, no
    /// host-side vertex buffer.
    pub fn draw(&self) -> (d: DrawCall)
        ensures
            d.vertex_count == self.records@.len(),
            d.instance_count == 1,
    {
        DrawCall { vertex_count: self.records.len(), instance_count: 1 }
    }
}

/// Resizing away and back restores the projection exactly: after rebuilds
/// for `e1`, then `e2`, then `e1` again, the projection equals the one
/// computed directly for `e1` — no drift from the intermediate state.
pub proof fn lemma_projection_round_trip(p: Particles, e1: Extent, e2: Extent)
    ensures
        spec_rebuilt(spec_rebuilt(spec_rebuilt(p, e1), e2), e1).transform
            == spec_rebuilt(p, e1).transform,
        spec_rebuilt(spec_rebuilt(spec_rebuilt(p, e1), e2), e1).transform.projection
            == spec_orthographic(e1),
{
}

} // verus!
