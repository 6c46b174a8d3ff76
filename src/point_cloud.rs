//! Accumulating point clouds batch by batch.
use vstd::prelude::*;
use crate::types::{Color32, Mat4, Size, Vec3, identity_mat4};
use crate::draw_data::BuildError;

verus! {

/// One batch of points: a label, the transform shared by its points, and how many
/// entries it has put into each attribute channel.
pub struct PointBatchInfo {
    pub label: String,
    pub world_from_obj: Mat4,
    pub point_count: usize,
    pub radius_count: usize,
    pub color_count: usize,
}

pub open spec fn total_points(batches: Seq<PointBatchInfo>) -> nat
    decreases batches.len(),
{
    if batches.len() == 0 {
        0
    } else {
        total_points(batches.drop_last()) + batches.last().point_count as nat
    }
}

pub open spec fn total_radii(batches: Seq<PointBatchInfo>) -> nat
    decreases batches.len(),
{
    if batches.len() == 0 {
        0
    } else {
        total_radii(batches.drop_last()) + batches.last().radius_count as nat
    }
}

pub open spec fn total_colors(batches: Seq<PointBatchInfo>) -> nat
    decreases batches.len(),
{
    if batches.len() == 0 {
        0
    } else {
        total_colors(batches.drop_last()) + batches.last().color_count as nat
    }
}

/// A batch whose three attribute channels hold the same number of entries.
pub open spec fn batch_lengths_agree(b: PointBatchInfo) -> bool {
    b.radius_count == b.point_count && b.color_count == b.point_count
}

pub open spec fn all_lengths_agree(batches: Seq<PointBatchInfo>) -> bool {
    forall|i: int| 0 <= i < batches.len() ==> batch_lengths_agree(#[trigger] batches[i])
}

pub open spec fn some_batch_empty(batches: Seq<PointBatchInfo>) -> bool {
    exists|i: int| 0 <= i < batches.len() && #[trigger] batches[i].point_count == 0
}

proof fn lemma_agreeing_totals(batches: Seq<PointBatchInfo>)
    requires
        all_lengths_agree(batches),
    ensures
        total_radii(batches) == total_points(batches),
        total_colors(batches) == total_points(batches),
    decreases batches.len(),
{
    if batches.len() > 0 {
        let rest = batches.drop_last();
        assert(batch_lengths_agree(batches[batches.len() - 1]));
        assert forall|i: int| 0 <= i < rest.len() implies batch_lengths_agree(#[trigger] rest[i]) by {
            assert(rest[i] == batches[i]);
        }
        lemma_agreeing_totals(rest);
    }
}

proof fn lemma_totals_push(batches: Seq<PointBatchInfo>, b: PointBatchInfo)
    ensures
        total_points(batches.push(b)) == total_points(batches) + b.point_count,
        total_radii(batches.push(b)) == total_radii(batches) + b.radius_count,
        total_colors(batches.push(b)) == total_colors(batches) + b.color_count,
{
    assert(batches.push(b).drop_last() =~= batches);
}

/// The frozen contents of a point cloud builder: every batch holds as many radii and
/// colors as positions, and no batch is empty.
pub struct PointCloudDrawData {
    pub batches: Vec<PointBatchInfo>,
    pub positions: Vec<Vec3>,
    pub radii: Vec<Size>,
    pub colors: Vec<Color32>,
}

impl PointCloudDrawData {
    pub open spec fn wf(&self) -> bool {
        &&& forall|i: int| 0 <= i < self.batches@.len() ==> batch_lengths_agree(#[trigger] self.batches@[i])
        &&& forall|i: int| 0 <= i < self.batches@.len() ==> #[trigger] self.batches@[i].point_count > 0
        &&& self.positions@.len() == total_points(self.batches@)
        &&& self.radii@.len() == self.positions@.len()
        &&& self.colors@.len() == self.positions@.len()
    }

    pub fn point_count(&self) -> (n: usize)
        ensures
            n == self.positions@.len(),
    {
        self.positions.len()
    }
}

/// Host-side buffers of a point cloud under construction, one per attribute channel.
pub struct PointCloudBuilder {
    pub batches: Vec<PointBatchInfo>,
    pub positions: Vec<Vec3>,
    pub radii: Vec<Size>,
    pub colors: Vec<Color32>,
}

impl PointCloudBuilder {
    pub open spec fn wf(&self) -> bool {
        &&& self.positions@.len() == total_points(self.batches@)
        &&& self.radii@.len() == total_radii(self.batches@)
        &&& self.colors@.len() == total_colors(self.batches@)
    }

    pub fn new() -> (b: PointCloudBuilder)
        ensures
            b.wf(),
            b.batches@.len() == 0,
            b.positions@.len() == 0,
    {
        PointCloudBuilder { batches: Vec::new(), positions: Vec::new(), radii: Vec::new(), colors: Vec::new() }
    }

    /// Opens a new, empty batch under the identity transform; the calls that follow
    /// add to it.
    pub fn batch(&mut self, label: String)
        requires
            old(self).wf(),
        ensures
            final(self).wf(),
            final(self).batches@.len() == old(self).batches@.len() + 1,
            final(self).batches@.drop_last() == old(self).batches@,
            final(self).batches@.last().label@ == label@,
            final(self).batches@.last().world_from_obj == identity_mat4(),
            final(self).batches@.last().point_count == 0,
            final(self).batches@.last().radius_count == 0,
            final(self).batches@.last().color_count == 0,
            final(self).positions@ == old(self).positions@,
            final(self).radii@ == old(self).radii@,
            final(self).colors@ == old(self).colors@,
    {
        let info = PointBatchInfo {
            label,
            world_from_obj: Mat4::identity(),
            point_count: 0,
            radius_count: 0,
            color_count: 0,
        };
        proof {
            lemma_totals_push(self.batches@, info);
        }
        self.batches.push(info);
        proof {
            assert(self.batches@.drop_last() =~= old(self).batches@);
        }
    }

    /// Sets the transform of the open batch.
    pub fn world_from_obj(&mut self, world_from_obj: Mat4)
        requires
            old(self).wf(),
            old(self).batches@.len() > 0,
        ensures
            final(self).wf(),
            final(self).batches@.len() == old(self).batches@.len(),
            final(self).batches@.drop_last() == old(self).batches@.drop_last(),
            final(self).batches@.last().world_from_obj == world_from_obj,
            final(self).batches@.last().label == old(self).batches@.last().label,
            final(self).batches@.last().point_count == old(self).batches@.last().point_count,
            final(self).batches@.last().radius_count == old(self).batches@.last().radius_count,
            final(self).batches@.last().color_count == old(self).batches@.last().color_count,
            final(self).positions@ == old(self).positions@,
            final(self).radii@ == old(self).radii@,
            final(self).colors@ == old(self).colors@,
    {
        let mut info = self.batches.pop().unwrap();
        proof {
            assert(self.batches@ =~= old(self).batches@.drop_last());
            lemma_totals_push(self.batches@, info);
            assert(old(self).batches@ =~= self.batches@.push(info));
        }
        info.world_from_obj = world_from_obj;
        proof {
            lemma_totals_push(self.batches@, info);
        }
        self.batches.push(info);
        proof {
            assert(self.batches@.drop_last() =~= old(self).batches@.drop_last());
        }
    }

    /// Appends positions to the open batch.
    pub fn add_points(&mut self, positions: &Vec<Vec3>)
        requires
            old(self).wf(),
            old(self).batches@.len() > 0,
        ensures
            final(self).wf(),
            final(self).batches@.len() == old(self).batches@.len(),
            final(self).batches@.drop_last() == old(self).batches@.drop_last(),
            final(self).batches@.last().point_count == old(self).batches@.last().point_count + positions@.len(),
            final(self).batches@.last().radius_count == old(self).batches@.last().radius_count,
            final(self).batches@.last().color_count == old(self).batches@.last().color_count,
            final(self).batches@.last().label == old(self).batches@.last().label,
            final(self).batches@.last().world_from_obj == old(self).batches@.last().world_from_obj,
            final(self).positions@ == old(self).positions@ + positions@,
            final(self).radii@ == old(self).radii@,
            final(self).colors@ == old(self).colors@,
    {
        let mut info = self.batches.pop().unwrap();
        proof {
            assert(self.batches@ =~= old(self).batches@.drop_last());
            lemma_totals_push(self.batches@, info);
        }
        let mut i: usize = 0;
        while i < positions.len()
            invariant
                i <= positions@.len(),
                self.positions@ == old(self).positions@ + positions@.subrange(0, i as int),
                self.batches@ == old(self).batches@.drop_last(),
                self.radii@ == old(self).radii@,
                self.colors@ == old(self).colors@,
            decreases positions@.len() - i,
        {
            self.positions.push(positions[i]);
            i = i + 1;
            proof {
                assert(positions@.subrange(0, i as int) =~= positions@.subrange(0, i - 1).push(positions@[i - 1]));
            }
        }
        proof {
            assert(positions@.subrange(0, i as int) =~= positions@);
        }
        // The grown channel is no longer than a `usize` can count, and the new
        // count of the open batch is part of it.
        let channel_len = self.positions.len();
        proof {
            assert(info.point_count + positions@.len() <= channel_len);
        }
        info.point_count = info.point_count + positions.len();
        proof {
            lemma_totals_push(self.batches@, info);
        }
        self.batches.push(info);
        proof {
            assert(self.batches@.drop_last() =~= old(self).batches@.drop_last());
        }
    }

    /// Appends radii to the open batch, one for each of its points.
    pub fn radii(&mut self, items: &Vec<Size>)
        requires
            old(self).wf(),
            old(self).batches@.len() > 0,
        ensures
            final(self).wf(),
            final(self).batches@.len() == old(self).batches@.len(),
            final(self).batches@.drop_last() == old(self).batches@.drop_last(),
            final(self).batches@.last().radius_count == old(self).batches@.last().radius_count + items@.len(),
            final(self).batches@.last().point_count == old(self).batches@.last().point_count,
            final(self).batches@.last().color_count == old(self).batches@.last().color_count,
            final(self).batches@.last().label == old(self).batches@.last().label,
            final(self).batches@.last().world_from_obj == old(self).batches@.last().world_from_obj,
            final(self).radii@ == old(self).radii@ + items@,
            final(self).positions@ == old(self).positions@,
            final(self).colors@ == old(self).colors@,
    {
        let mut info = self.batches.pop().unwrap();
        proof {
            assert(self.batches@ =~= old(self).batches@.drop_last());
            lemma_totals_push(self.batches@, info);
        }
        let mut i: usize = 0;
        while i < items.len()
            invariant
                i <= items@.len(),
                self.radii@ == old(self).radii@ + items@.subrange(0, i as int),
                self.batches@ == old(self).batches@.drop_last(),
                self.positions@ == old(self).positions@,
                self.colors@ == old(self).colors@,
            decreases items@.len() - i,
        {
            self.radii.push(items[i]);
            i = i + 1;
            proof {
                assert(items@.subrange(0, i as int) =~= items@.subrange(0, i - 1).push(items@[i - 1]));
            }
        }
        proof {
            assert(items@.subrange(0, i as int) =~= items@);
        }
        // The grown channel is no longer than a `usize` can count, and the new
        // count of the open batch is part of it.
        let channel_len = self.radii.len();
        proof {
            assert(info.radius_count + items@.len() <= channel_len);
        }
        info.radius_count = info.radius_count + items.len();
        proof {
            lemma_totals_push(self.batches@, info);
        }
        self.batches.push(info);
        proof {
            assert(self.batches@.drop_last() =~= old(self).batches@.drop_last());
        }
    }

    /// Appends colors to the open batch, one for each of its points.
    pub fn colors(&mut self, items: &Vec<Color32>)
        requires
            old(self).wf(),
            old(self).batches@.len() > 0,
        ensures
            final(self).wf(),
            final(self).batches@.len() == old(self).batches@.len(),
            final(self).batches@.drop_last() == old(self).batches@.drop_last(),
            final(self).batches@.last().color_count == old(self).batches@.last().color_count + items@.len(),
            final(self).batches@.last().radius_count == old(self).batches@.last().radius_count,
            final(self).batches@.last().point_count == old(self).batches@.last().point_count,
            final(self).batches@.last().label == old(self).batches@.last().label,
            final(self).batches@.last().world_from_obj == old(self).batches@.last().world_from_obj,
            final(self).colors@ == old(self).colors@ + items@,
            final(self).positions@ == old(self).positions@,
            final(self).radii@ == old(self).radii@,
    {
        let mut info = self.batches.pop().unwrap();
        proof {
            assert(self.batches@ =~= old(self).batches@.drop_last());
            lemma_totals_push(self.batches@, info);
        }
        let mut i: usize = 0;
        while i < items.len()
            invariant
                i <= items@.len(),
                self.colors@ == old(self).colors@ + items@.subrange(0, i as int),
                self.batches@ == old(self).batches@.drop_last(),
                self.radii@ == old(self).radii@,
                self.positions@ == old(self).positions@,
            decreases items@.len() - i,
        {
            self.colors.push(items[i]);
            i = i + 1;
            proof {
                assert(items@.subrange(0, i as int) =~= items@.subrange(0, i - 1).push(items@[i - 1]));
            }
        }
        proof {
            assert(items@.subrange(0, i as int) =~= items@);
        }
        // The grown channel is no longer than a `usize` can count, and the new
        // count of the open batch is part of it.
        let channel_len = self.colors.len();
        proof {
            assert(info.color_count + items@.len() <= channel_len);
        }
        info.color_count = info.color_count + items.len();
        proof {
            lemma_totals_push(self.batches@, info);
        }
        self.batches.push(info);
        proof {
            assert(self.batches@.drop_last() =~= old(self).batches@.drop_last());
        }
    }

    /// Freezes all batches into one immutable package. Fails with
    /// `InconsistentLengths` when some batch holds different numbers of positions,
    /// radii and colors; otherwise with `EmptyBatch` when some batch holds no point.
    pub fn to_draw_data(self) -> (r: Result<PointCloudDrawData, BuildError>)
        requires
            self.wf(),
        ensures
            (r == Err::<PointCloudDrawData, BuildError>(BuildError::InconsistentLengths))
                <==> !all_lengths_agree(self.batches@),
            (r == Err::<PointCloudDrawData, BuildError>(BuildError::EmptyBatch))
                <==> (all_lengths_agree(self.batches@) && some_batch_empty(self.batches@)),
            r is Ok <==> (all_lengths_agree(self.batches@) && !some_batch_empty(self.batches@)),
            r is Ok ==> {
                &&& r->Ok_0.wf()
                &&& r->Ok_0.batches@ == self.batches@
                &&& r->Ok_0.positions@ == self.positions@
                &&& r->Ok_0.radii@ == self.radii@
                &&& r->Ok_0.colors@ == self.colors@
            },
    {
        let mut agree = true;
        let mut empty = false;
        let mut i: usize = 0;
        while i < self.batches.len()
            invariant
                i <= self.batches@.len(),
                agree == all_lengths_agree(self.batches@.subrange(0, i as int)),
                empty == some_batch_empty(self.batches@.subrange(0, i as int)),
            decreases self.batches@.len() - i,
        {
            let b = &self.batches[i];
            let ok = b.radius_count == b.point_count && b.color_count == b.point_count;
            let none = b.point_count == 0;
            proof {
                let pre = self.batches@.subrange(0, i as int);
                let post = self.batches@.subrange(0, i + 1);
                assert(post =~= pre.push(self.batches@[i as int]));
                if agree && ok {
                    assert forall|j: int| 0 <= j < post.len() implies batch_lengths_agree(#[trigger] post[j]) by {
                        if j < pre.len() {
                            assert(post[j] == pre[j]);
                        }
                    }
                }
                if !agree {
                    let j = choose|j: int| 0 <= j < pre.len() && !batch_lengths_agree(#[trigger] pre[j]);
                    assert(post[j] == pre[j]);
                }
                if !ok {
                    assert(!batch_lengths_agree(post[i as int]));
                }
                if empty {
                    let j = choose|j: int| 0 <= j < pre.len() && #[trigger] pre[j].point_count == 0;
                    assert(post[j] == pre[j]);
                }
                if none {
                    assert(post[i as int].point_count == 0);
                }
                if !empty && !none {
                    assert forall|j: int| 0 <= j < post.len() implies #[trigger] post[j].point_count != 0 by {
                        if j < pre.len() {
                            assert(post[j] == pre[j]);
                        }
                    }
                }
            }
            agree = agree && ok;
            empty = empty || none;
            i = i + 1;
        }
        proof {
            assert(self.batches@.subrange(0, i as int) =~= self.batches@);
        }
        if !agree {
            Err(BuildError::InconsistentLengths)
        } else if empty {
            Err(BuildError::EmptyBatch)
        } else {
            proof {
                lemma_agreeing_totals(self.batches@);
            }
            Ok(PointCloudDrawData {
                batches: self.batches,
                positions: self.positions,
                radii: self.radii,
                colors: self.colors,
            })
        }
    }
}

} // verus!
