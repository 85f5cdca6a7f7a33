//! Queue family selection: which of a physical device's queue families
//! serve graphics, presentation and compute, and how the created queues are
//! handed out to those three roles.

use vstd::prelude::*;

verus! {

/// What one queue family of a device can do. Presentation support is a
/// property of the family and the surface together; the caller queries it
/// and hands the answer in as a plain flag.
#[derive(Clone, Copy, Debug, PartialEq, Eq, Structural)]
pub struct QueueFamilyCaps {
    pub supports_graphics: bool,
    pub supports_present: bool,
    pub supports_compute: bool,
}

/// The selected family index for each role.
#[derive(Clone, Copy, Debug, PartialEq, Eq, Structural)]
pub struct QueueFamilyIndices {
    pub graphics_family: usize,
    pub present_family: usize,
    pub compute_family: usize,
}

/// Why a selection failed.
#[derive(Clone, Copy, Debug, PartialEq, Eq, Structural)]
pub enum QueueFamilyError {
    /// Some role has no supporting queue family at all.
    IncompleteFamilies,
    /// No queue was created, so there is none to serve graphics.
    MissingGraphicsQueue,
    /// Graphics and present need distinct queues but only one was created.
    MissingPresentQueue,
    /// No created queue is left for compute and neither the graphics nor
    /// the present family supports compute.
    MissingComputeQueue,
}

/// Some family supports graphics.
pub open spec fn spec_has_graphics(fams: Seq<QueueFamilyCaps>) -> bool {
    exists|j: int| 0 <= j < fams.len() && fams[j].supports_graphics
}

/// Some family can present to the surface.
pub open spec fn spec_has_present(fams: Seq<QueueFamilyCaps>) -> bool {
    exists|j: int| 0 <= j < fams.len() && fams[j].supports_present
}

/// Some family supports compute.
pub open spec fn spec_has_compute(fams: Seq<QueueFamilyCaps>) -> bool {
    exists|j: int| 0 <= j < fams.len() && fams[j].supports_compute
}

/// The selection walk: take each family in turn for every role it supports,
/// and stop as soon as all three roles are filled.
pub open spec fn spec_find_step(
    fams: Seq<QueueFamilyCaps>,
    i: int,
    g: Option<int>,
    p: Option<int>,
    c: Option<int>,
) -> (Option<int>, Option<int>, Option<int>)
    decreases fams.len() - i,
{
    if i >= fams.len() || (g is Some && p is Some && c is Some) {
        (g, p, c)
    } else {
        spec_find_step(
            fams,
            i + 1,
            if fams[i].supports_graphics {
                Option::Some(i)
            } else {
                g
            },
            if fams[i].supports_present {
                Option::Some(i)
            } else {
                p
            },
            if fams[i].supports_compute {
                Option::Some(i)
            } else {
                c
            },
        )
    }
}

/// The selection walk over the whole family list.
pub open spec fn spec_find(fams: Seq<QueueFamilyCaps>) -> (Option<int>, Option<int>, Option<int>) {
    spec_find_step(fams, 0, Option::None, Option::None, Option::None)
}

/// An accumulator is either empty or a valid pick for its role.
pub open spec fn graphics_pick_ok(fams: Seq<QueueFamilyCaps>, g: Option<int>) -> bool {
    match g {
        Option::Some(j) => 0 <= j < fams.len() && fams[j].supports_graphics,
        Option::None => true,
    }
}

pub open spec fn present_pick_ok(fams: Seq<QueueFamilyCaps>, p: Option<int>) -> bool {
    match p {
        Option::Some(j) => 0 <= j < fams.len() && fams[j].supports_present,
        Option::None => true,
    }
}

pub open spec fn compute_pick_ok(fams: Seq<QueueFamilyCaps>, c: Option<int>) -> bool {
    match c {
        Option::Some(j) => 0 <= j < fams.len() && fams[j].supports_compute,
        Option::None => true,
    }
}

/// The walk fills a role exactly when the role was already filled or some
/// family from the unscanned tail supports it; and it only ever picks valid
/// families.
pub proof fn lemma_find_step_complete(
    fams: Seq<QueueFamilyCaps>,
    i: int,
    g: Option<int>,
    p: Option<int>,
    c: Option<int>,
)
    requires
        0 <= i <= fams.len(),
        graphics_pick_ok(fams, g),
        present_pick_ok(fams, p),
        compute_pick_ok(fams, c),
    ensures
        graphics_pick_ok(fams, spec_find_step(fams, i, g, p, c).0),
        present_pick_ok(fams, spec_find_step(fams, i, g, p, c).1),
        compute_pick_ok(fams, spec_find_step(fams, i, g, p, c).2),
        (spec_find_step(fams, i, g, p, c).0 is Some) <==> (g is Some || exists|j: int|
            i <= j < fams.len() && fams[j].supports_graphics),
        (spec_find_step(fams, i, g, p, c).1 is Some) <==> (p is Some || exists|j: int|
            i <= j < fams.len() && fams[j].supports_present),
        (spec_find_step(fams, i, g, p, c).2 is Some) <==> (c is Some || exists|j: int|
            i <= j < fams.len() && fams[j].supports_compute),
    decreases fams.len() - i,
{
    if i >= fams.len() || (g is Some && p is Some && c is Some) {
        // the walk stopped: either nothing is left to scan, or every role
        // is already filled
    } else {
        let g2 = if fams[i].supports_graphics {
            Option::Some(i)
        } else {
            g
        };
        let p2 = if fams[i].supports_present {
            Option::Some(i)
        } else {
            p
        };
        let c2 = if fams[i].supports_compute {
            Option::Some(i)
        } else {
            c
        };
        lemma_find_step_complete(fams, i + 1, g2, p2, c2);
        assert forall|j: int| i <= j < fams.len() && fams[j].supports_graphics implies (
            g2 is Some || exists|k: int| i + 1 <= k < fams.len() && fams[k].supports_graphics
        ) by {
            if j > i {
                assert(i + 1 <= j < fams.len() && fams[j].supports_graphics);
            }
        }
        assert forall|j: int| i <= j < fams.len() && fams[j].supports_present implies (
            p2 is Some || exists|k: int| i + 1 <= k < fams.len() && fams[k].supports_present
        ) by {
            if j > i {
                assert(i + 1 <= j < fams.len() && fams[j].supports_present);
            }
        }
        assert forall|j: int| i <= j < fams.len() && fams[j].supports_compute implies (
            c2 is Some || exists|k: int| i + 1 <= k < fams.len() && fams[k].supports_compute
        ) by {
            if j > i {
                assert(i + 1 <= j < fams.len() && fams[j].supports_compute);
            }
        }
    }
}

/// The embedding of an executable pick into the walk's ghost state.
pub open spec fn opt_idx(o: Option<usize>) -> Option<int> {
    match o {
        Option::Some(v) => Option::Some(v as int),
        Option::None => Option::None,
    }
}

impl QueueFamilyIndices {
    /// Find the queue family indices for the given device: scan the
    /// families in order, remember the last supporting family for each
    /// role, and stop once all three roles are filled. Succeeds exactly
    /// when each role is supported by some family.
    pub fn find(families: &Vec<QueueFamilyCaps>) -> (r: Result<QueueFamilyIndices, QueueFamilyError>)
        ensures
            (r is Ok) <==> (spec_has_graphics(families@) && spec_has_present(families@)
                && spec_has_compute(families@)),
            r matches Ok(ind) ==> spec_find(families@) == (
                Option::Some(ind.graphics_family as int),
                Option::Some(ind.present_family as int),
                Option::Some(ind.compute_family as int),
            ),
            r matches Ok(ind) ==> ind.graphics_family < families@.len()
                && families@[ind.graphics_family as int].supports_graphics,
            r matches Ok(ind) ==> ind.present_family < families@.len()
                && families@[ind.present_family as int].supports_present,
            r matches Ok(ind) ==> ind.compute_family < families@.len()
                && families@[ind.compute_family as int].supports_compute,
            r matches Err(e) ==> e == QueueFamilyError::IncompleteFamilies,
    {
        let n: usize = families.len();
        let mut graphics: Option<usize> = Option::None;
        let mut present: Option<usize> = Option::None;
        let mut compute: Option<usize> = Option::None;
        let mut i: usize = 0;
        while i < n && !(graphics.is_some() && present.is_some() && compute.is_some())
            invariant
                n == families@.len(),
                0 <= i <= n,
                graphics_pick_ok(families@, opt_idx(graphics)),
                present_pick_ok(families@, opt_idx(present)),
                compute_pick_ok(families@, opt_idx(compute)),
                spec_find(families@) == spec_find_step(
                    families@,
                    i as int,
                    opt_idx(graphics),
                    opt_idx(present),
                    opt_idx(compute),
                ),
            decreases n - i,
        {
            let family: QueueFamilyCaps = families[i];
            if family.supports_graphics {
                graphics = Option::Some(i);
            }
            if family.supports_present {
                present = Option::Some(i);
            }
            if family.supports_compute {
                compute = Option::Some(i);
            }
            i = i + 1;
        }
        proof {
            // the walk stopped here, so the accumulators are its result
            assert(spec_find(families@) == (opt_idx(graphics), opt_idx(present), opt_idx(compute)));
            // and the whole walk fills a role exactly when some family
            // supports it
            lemma_find_step_complete(families@, 0, Option::None, Option::None, Option::None);
        }
        match (graphics, present, compute) {
            (Option::Some(graphics_family), Option::Some(present_family), Option::Some(
                compute_family,
            )) => Result::Ok(
                QueueFamilyIndices { graphics_family, present_family, compute_family },
            ),
            _ => Result::Err(QueueFamilyError::IncompleteFamilies),
        }
    }

    /// The set of distinct selected family indices: graphics first, then
    /// present and compute when they differ from what is already listed.
    pub open spec fn spec_unique_indices(self) -> Seq<usize> {
        let s = seq![self.graphics_family];
        let s2 = if self.present_family != self.graphics_family {
            s.push(self.present_family)
        } else {
            s
        };
        if self.compute_family != self.graphics_family && self.compute_family
            != self.present_family {
            s2.push(self.compute_family)
        } else {
            s2
        }
    }

    /// Return the distinct queue family indices, in selection order.
    pub fn unique_indices(&self) -> (r: Vec<usize>)
        ensures
            r@ == self.spec_unique_indices(),
            1 <= r@.len() <= 3,
            r@[0] == self.graphics_family,
    {
        let mut indices: Vec<usize> = Vec::new();
        indices.push(self.graphics_family);
        if self.present_family != self.graphics_family {
            indices.push(self.present_family);
        }
        if self.compute_family != self.graphics_family && self.compute_family
            != self.present_family {
            indices.push(self.compute_family);
        }
        proof {
            assert(indices@ =~= self.spec_unique_indices());
        }
        indices
    }

    /// Graphics and presentation share one queue family.
    pub fn is_same_queue(&self) -> (r: bool)
        ensures
            r == (self.graphics_family == self.present_family),
    {
        self.graphics_family == self.present_family
    }

    /// Where each role's queue sits in the created-queue list; see
    /// `take_queues`.
    pub open spec fn spec_take_queues(
        self,
        queue_count: usize,
        fams: Seq<QueueFamilyCaps>,
    ) -> Result<(usize, usize, usize), QueueFamilyError> {
        if queue_count < 1 {
            Result::Err(QueueFamilyError::MissingGraphicsQueue)
        } else if self.graphics_family == self.present_family {
            if 1 < queue_count {
                Result::Ok((0usize, 0usize, 1usize))
            } else {
                self.spec_compute_fallback(0, fams)
            }
        } else if queue_count < 2 {
            Result::Err(QueueFamilyError::MissingPresentQueue)
        } else if 2 < queue_count {
            Result::Ok((0usize, 1usize, 2usize))
        } else {
            self.spec_compute_fallback(1, fams)
        }
    }

    /// When no created queue is left for compute, fall back to the graphics
    /// queue, then the present queue, if its family supports compute.
    pub open spec fn spec_compute_fallback(
        self,
        present_pos: usize,
        fams: Seq<QueueFamilyCaps>,
    ) -> Result<(usize, usize, usize), QueueFamilyError> {
        if fams[self.graphics_family as int].supports_compute {
            Result::Ok((0usize, present_pos, 0usize))
        } else if fams[self.present_family as int].supports_compute {
            Result::Ok((0usize, present_pos, present_pos))
        } else {
            Result::Err(QueueFamilyError::MissingComputeQueue)
        }
    }

    /// Assign the created queues to the three roles. The device hands back
    /// one queue per entry of `unique_indices`, in order, as a list of
    /// `queue_count` queues; the result names each role's position in that
    /// list. The graphics queue is the first; present reuses it when both
    /// roles share a family; compute takes the next unused queue, else
    /// falls back to a queue whose family supports compute.
    pub fn take_queues(
        &self,
        queue_count: usize,
        families: &Vec<QueueFamilyCaps>,
    ) -> (r: Result<(usize, usize, usize), QueueFamilyError>)
        requires
            self.graphics_family < families@.len(),
            self.present_family < families@.len(),
        ensures
            r == self.spec_take_queues(queue_count, families@),
            r matches Ok(t) ==> t.0 < queue_count && t.1 < queue_count && t.2 < queue_count,
    {
        if queue_count < 1 {
            return Result::Err(QueueFamilyError::MissingGraphicsQueue);
        }
        if self.graphics_family == self.present_family {
            if 1 < queue_count {
                Result::Ok((0, 0, 1))
            } else {
                self.compute_fallback(0, queue_count, families)
            }
        } else if queue_count < 2 {
            Result::Err(QueueFamilyError::MissingPresentQueue)
        } else if 2 < queue_count {
            Result::Ok((0, 1, 2))
        } else {
            self.compute_fallback(1, queue_count, families)
        }
    }

    /// The compute fallback path of `take_queues`.
    fn compute_fallback(
        &self,
        present_pos: usize,
        queue_count: usize,
        families: &Vec<QueueFamilyCaps>,
    ) -> (r: Result<(usize, usize, usize), QueueFamilyError>)
        requires
            self.graphics_family < families@.len(),
            self.present_family < families@.len(),
            present_pos < queue_count,
        ensures
            r == self.spec_compute_fallback(present_pos, families@),
            r matches Ok(t) ==> t.0 < queue_count && t.1 < queue_count && t.2 < queue_count,
    {
        if families[self.graphics_family].supports_compute {
            Result::Ok((0, present_pos, 0))
        } else if families[self.present_family].supports_compute {
            Result::Ok((0, present_pos, present_pos))
        } else {
            Result::Err(QueueFamilyError::MissingComputeQueue)
        }
    }
}

} // verus!
