//! Accumulating line strips batch by batch.
use vstd::prelude::*;
use crate::types::{Color32, Mat4, Scalar, Size, Vec3, ONE_BITS, identity_mat4};
use crate::draw_data::BuildError;

verus! {

/// The strip's first segment ends in a round cap.
pub const CAP_START_ROUND: u8 = 0b0000_0001;
/// The strip's last segment ends in a round cap.
pub const CAP_END_ROUND: u8 = 0b0000_0010;
/// The strip starts with a triangle cap, as the tail of an arrow.
pub const CAP_START_TRIANGLE: u8 = 0b0000_0100;
/// The strip ends with a triangle cap, as the head of an arrow.
pub const CAP_END_TRIANGLE: u8 = 0b0000_1000;
/// The strip's start is extended outwards by its radius.
pub const CAP_START_EXTEND_OUTWARDS: u8 = 0b0001_0000;
/// The strip's end is extended outwards by its radius.
pub const CAP_END_EXTEND_OUTWARDS: u8 = 0b0010_0000;
/// The strip is drawn without color interpolation between its vertices.
pub const NO_COLOR_GRADIENT: u8 = 0b0100_0000;

/// A batch of strips: a label and the transform shared by its strips.
pub struct LineBatchInfo {
    pub label: String,
    pub world_from_obj: Mat4,
}

/// One strip: the batch it belongs to, the range of the vertex buffer it spans, and
/// its styling.
#[derive(Clone, Copy, Debug, PartialEq, Eq, Structural)]
pub struct LineStripInfo {
    pub batch: usize,
    pub first_vertex: usize,
    pub vertex_count: usize,
    pub color: Color32,
    pub radius: Size,
    pub flags: u8,
}

pub open spec fn default_strip(batch: int, first_vertex: int, vertex_count: int) -> LineStripInfo {
    LineStripInfo {
        batch: batch as usize,
        first_vertex: first_vertex as usize,
        vertex_count: vertex_count as usize,
        color: Color32 { r: 255, g: 255, b: 255, a: 255 },
        radius: Size::Points(Scalar { bits: ONE_BITS }),
        flags: 0,
    }
}

pub open spec fn strips_well_placed(strips: Seq<LineStripInfo>, n_batches: int, n_vertices: int) -> bool {
    forall|i: int| 0 <= i < strips.len() ==> {
        &&& #[trigger] strips[i].batch < n_batches
        &&& strips[i].first_vertex + strips[i].vertex_count <= n_vertices
    }
}

pub open spec fn batch_has_strip(strips: Seq<LineStripInfo>, b: int) -> bool {
    exists|i: int| 0 <= i < strips.len() && #[trigger] strips[i].batch == b
}

pub open spec fn some_batch_without_strip(strips: Seq<LineStripInfo>, n_batches: int) -> bool {
    exists|b: int| 0 <= b < n_batches && !batch_has_strip(strips, b)
}

/// The frozen contents of a line strip builder: every batch holds at least one strip.
pub struct LineDrawData {
    pub batches: Vec<LineBatchInfo>,
    pub vertices: Vec<Vec3>,
    pub strips: Vec<LineStripInfo>,
}

impl LineDrawData {
    pub open spec fn wf(&self) -> bool {
        &&& strips_well_placed(self.strips@, self.batches@.len() as int, self.vertices@.len() as int)
        &&& !some_batch_without_strip(self.strips@, self.batches@.len() as int)
    }

    pub fn vertex_count(&self) -> (n: usize)
        ensures
            n == self.vertices@.len(),
    {
        self.vertices.len()
    }
}

/// Host-side buffers of line strips under construction.
pub struct LineStripSeriesBuilder {
    pub batches: Vec<LineBatchInfo>,
    pub vertices: Vec<Vec3>,
    pub strips: Vec<LineStripInfo>,
}

impl LineStripSeriesBuilder {
    pub open spec fn wf(&self) -> bool {
        strips_well_placed(self.strips@, self.batches@.len() as int, self.vertices@.len() as int)
    }

    pub fn new() -> (b: LineStripSeriesBuilder)
        ensures
            b.wf(),
            b.batches@.len() == 0,
            b.vertices@.len() == 0,
            b.strips@.len() == 0,
    {
        LineStripSeriesBuilder { batches: Vec::new(), vertices: Vec::new(), strips: Vec::new() }
    }

    /// Opens a new batch under the identity transform; the strips added next belong to it.
    pub fn batch(&mut self, label: String)
        requires
            old(self).wf(),
        ensures
            final(self).wf(),
            final(self).batches@.len() == old(self).batches@.len() + 1,
            final(self).batches@.drop_last() == old(self).batches@,
            final(self).batches@.last().label@ == label@,
            final(self).batches@.last().world_from_obj == identity_mat4(),
            final(self).vertices@ == old(self).vertices@,
            final(self).strips@ == old(self).strips@,
    {
        self.batches.push(LineBatchInfo { label, world_from_obj: Mat4::identity() });
        proof {
            assert(self.batches@.drop_last() =~= old(self).batches@);
        }
    }

    /// Sets the transform of the open batch.
    pub fn world_from_obj(&mut self, world_from_obj: Mat4)
        requires
            old(self).wf(),
            old(self).batches@.len() > 0,
        ensures
            final(self).wf(),
            final(self).batches@.len() == old(self).batches@.len(),
            final(self).batches@.drop_last() == old(self).batches@.drop_last(),
            final(self).batches@.last().label == old(self).batches@.last().label,
            final(self).batches@.last().world_from_obj == world_from_obj,
            final(self).vertices@ == old(self).vertices@,
            final(self).strips@ == old(self).strips@,
    {
        let mut info = self.batches.pop().unwrap();
        info.world_from_obj = world_from_obj;
        self.batches.push(info);
        proof {
            assert(self.batches@.drop_last() =~= old(self).batches@.drop_last());
        }
    }

    /// Adds a strip through `points` to the open batch, white, one point wide and
    /// without flags until styled.
    pub fn add_strip(&mut self, points: &Vec<Vec3>)
        requires
            old(self).wf(),
            old(self).batches@.len() > 0,
        ensures
            final(self).wf(),
            final(self).batches@ == old(self).batches@,
            final(self).vertices@ == old(self).vertices@ + points@,
            final(self).strips@ == old(self).strips@.push(
                default_strip(old(self).batches@.len() - 1, old(self).vertices@.len() as int, points@.len() as int),
            ),
    {
        let first_vertex = self.vertices.len();
        let mut i: usize = 0;
        while i < points.len()
            invariant
                i <= points@.len(),
                self.vertices@ == old(self).vertices@ + points@.subrange(0, i as int),
                self.batches@ == old(self).batches@,
                self.strips@ == old(self).strips@,
                first_vertex == old(self).vertices@.len(),
            decreases points@.len() - i,
        {
            self.vertices.push(points[i]);
            i = i + 1;
            proof {
                assert(points@.subrange(0, i as int) =~= points@.subrange(0, i - 1).push(points@[i - 1]));
            }
        }
        proof {
            assert(points@.subrange(0, i as int) =~= points@);
        }
        let strip = LineStripInfo {
            batch: self.batches.len() - 1,
            first_vertex,
            vertex_count: points.len(),
            color: Color32::white(),
            radius: Size::new_points(Scalar::one()),
            flags: 0,
        };
        self.strips.push(strip);
        proof {
            assert forall|j: int| 0 <= j < self.strips@.len() implies {
                &&& #[trigger] self.strips@[j].batch < self.batches@.len()
                &&& self.strips@[j].first_vertex + self.strips@[j].vertex_count <= self.vertices@.len()
            } by {
                if j < old(self).strips@.len() {
                    assert(self.strips@[j] == old(self).strips@[j]);
                    assert(old(self).strips@[j].batch < old(self).batches@.len());
                }
            }
        }
    }

    /// Sets the color of the most recently added strip.
    pub fn color(&mut self, color: Color32)
        requires
            old(self).wf(),
            old(self).strips@.len() > 0,
        ensures
            final(self).wf(),
            final(self).batches@ == old(self).batches@,
            final(self).vertices@ == old(self).vertices@,
            final(self).strips@ == old(self).strips@.update(
                old(self).strips@.len() - 1,
                LineStripInfo { color, ..old(self).strips@.last() },
            ),
    {
        let mut strip = self.strips.pop().unwrap();
        strip.color = color;
        self.strips.push(strip);
        proof {
            assert(self.strips@.drop_last() =~= old(self).strips@.drop_last());
            self.lemma_restyled_last_wf(*old(self));
            assert(self.strips@ =~= old(self).strips@.update(old(self).strips@.len() - 1, strip));
        }
    }

    /// Sets the radius of the most recently added strip.
    pub fn radius(&mut self, radius: Size)
        requires
            old(self).wf(),
            old(self).strips@.len() > 0,
        ensures
            final(self).wf(),
            final(self).batches@ == old(self).batches@,
            final(self).vertices@ == old(self).vertices@,
            final(self).strips@ == old(self).strips@.update(
                old(self).strips@.len() - 1,
                LineStripInfo { radius, ..old(self).strips@.last() },
            ),
    {
        let mut strip = self.strips.pop().unwrap();
        strip.radius = radius;
        self.strips.push(strip);
        proof {
            assert(self.strips@.drop_last() =~= old(self).strips@.drop_last());
            self.lemma_restyled_last_wf(*old(self));
            assert(self.strips@ =~= old(self).strips@.update(old(self).strips@.len() - 1, strip));
        }
    }

    /// Sets the flags of the most recently added strip.
    pub fn flags(&mut self, flags: u8)
        requires
            old(self).wf(),
            old(self).strips@.len() > 0,
        ensures
            final(self).wf(),
            final(self).batches@ == old(self).batches@,
            final(self).vertices@ == old(self).vertices@,
            final(self).strips@ == old(self).strips@.update(
                old(self).strips@.len() - 1,
                LineStripInfo { flags, ..old(self).strips@.last() },
            ),
    {
        let mut strip = self.strips.pop().unwrap();
        strip.flags = flags;
        self.strips.push(strip);
        proof {
            assert(self.strips@.drop_last() =~= old(self).strips@.drop_last());
            self.lemma_restyled_last_wf(*old(self));
            assert(self.strips@ =~= old(self).strips@.update(old(self).strips@.len() - 1, strip));
        }
    }

    /// Freezes all batches into one immutable package. Fails with `EmptyBatch`
    /// when some batch holds no strip.
    pub fn to_draw_data(self) -> (r: Result<LineDrawData, BuildError>)
        requires
            self.wf(),
        ensures
            r is Err <==> some_batch_without_strip(self.strips@, self.batches@.len() as int),
            r is Err ==> r->Err_0 == BuildError::EmptyBatch,
            r is Ok ==> {
                &&& r->Ok_0.wf()
                &&& r->Ok_0.batches@ == self.batches@
                &&& r->Ok_0.vertices@ == self.vertices@
                &&& r->Ok_0.strips@ == self.strips@
            },
    {
        let n = self.batches.len();
        let mut seen: Vec<bool> = Vec::new();
        let mut b: usize = 0;
        while b < n
            invariant
                n == self.batches@.len(),
                b <= n,
                seen@.len() == b,
                forall|k: int| 0 <= k < b ==> !(#[trigger] seen@[k]),
            decreases n - b,
        {
            seen.push(false);
            b = b + 1;
        }
        let mut i: usize = 0;
        while i < self.strips.len()
            invariant
                self.wf(),
                n == self.batches@.len(),
                i <= self.strips@.len(),
                seen@.len() == n,
                forall|k: int| 0 <= k < n ==> #[trigger] seen@[k] == batch_has_strip(self.strips@.subrange(0, i as int), k),
            decreases self.strips@.len() - i,
        {
            let batch = self.strips[i].batch;
            proof {
                assert(self.strips@[i as int].batch < n);
            }
            seen.set(batch, true);
            proof {
                let pre = self.strips@.subrange(0, i as int);
                let post = self.strips@.subrange(0, i + 1);
                assert forall|k: int| 0 <= k < n implies #[trigger] seen@[k] == batch_has_strip(post, k) by {
                    assert(post[i as int] == self.strips@[i as int]);
                    if batch_has_strip(pre, k) {
                        let j = choose|j: int| 0 <= j < pre.len() && #[trigger] pre[j].batch == k;
                        assert(post[j] == pre[j]);
                    }
                    if batch_has_strip(post, k) && k != batch {
                        let j = choose|j: int| 0 <= j < post.len() && #[trigger] post[j].batch == k;
                        assert(pre[j] == post[j]);
                    }
                }
            }
            i = i + 1;
        }
        proof {
            assert(self.strips@.subrange(0, i as int) =~= self.strips@);
        }
        let mut all_seen = true;
        let mut k: usize = 0;
        while k < n
            invariant
                n == self.batches@.len(),
                seen@.len() == n,
                k <= n,
                forall|c: int| 0 <= c < n ==> #[trigger] seen@[c] == batch_has_strip(self.strips@, c),
                all_seen == (forall|c: int| 0 <= c < k ==> batch_has_strip(self.strips@, c)),
            decreases n - k,
        {
            all_seen = all_seen && seen[k];
            k = k + 1;
        }
        if all_seen {
            Ok(LineDrawData { batches: self.batches, vertices: self.vertices, strips: self.strips })
        } else {
            Err(BuildError::EmptyBatch)
        }
    }

    proof fn lemma_restyled_last_wf(&self, before: LineStripSeriesBuilder)
        requires
            before.wf(),
            before.strips@.len() > 0,
            self.batches@ == before.batches@,
            self.vertices@ == before.vertices@,
            self.strips@.len() == before.strips@.len(),
            self.strips@.drop_last() == before.strips@.drop_last(),
            self.strips@.last().batch == before.strips@.last().batch,
            self.strips@.last().first_vertex == before.strips@.last().first_vertex,
            self.strips@.last().vertex_count == before.strips@.last().vertex_count,
        ensures
            self.wf(),
    {
        assert forall|j: int| 0 <= j < self.strips@.len() implies {
            &&& #[trigger] self.strips@[j].batch < self.batches@.len()
            &&& self.strips@[j].first_vertex + self.strips@[j].vertex_count <= self.vertices@.len()
        } by {
            if j < self.strips@.len() - 1 {
                assert(self.strips@[j] == self.strips@.drop_last()[j]);
                assert(before.strips@[j] == before.strips@.drop_last()[j]);
            }
        }
    }
}

} // verus!
