//! The plain decisions of the 3D-box visualizer of the surrounding viewer.
//!
//! The visualizer itself runs inside the viewer's query and render pipeline,
//! which is an external collaborator of this crate; what stands here is only
//! the arithmetic it decides with: how many boxes a query yielded, how much
//! line capacity a wireframe pass must reserve for them, and whether labels
//! are shown.

use vstd::prelude::*;
use vstd::string::StringExecFns;

verus! {

/// The 3D-box visualizer.  Each box it draws as a wireframe costs four line
/// strips of four vertices each; those counts drive the capacity it
/// reserves.
#[derive(Clone, Copy, Debug, PartialEq, Eq, Structural)]
pub struct Boxes3DVisualizer;

/// Line strips reserved per wireframe box.
pub const STRIPS_PER_BOX: usize = 4;

/// Line vertices reserved per wireframe box, over all four strips.
pub const VERTICES_PER_BOX: usize = 16;

/// The number of boxes over all chunks of a query: the sum of the chunk
/// sizes.
pub open spec fn spec_box_count(chunk_sizes: Seq<usize>) -> int
    decreases chunk_sizes.len(),
{
    if chunk_sizes.len() == 0 {
        0
    } else {
        spec_box_count(chunk_sizes.drop_last()) + chunk_sizes.last()
    }
}

impl Boxes3DVisualizer {
    /// The identifier the viewer knows this visualizer by.
    pub fn identifier() -> (s: String)
        ensures
            s@ == "Boxes3D"@,
    {
        String::from_str("Boxes3D")
    }

    /// Sums the chunk sizes of one query: how many boxes there are to draw.
    /// `None` exactly when the total does not fit a `usize`.
    pub fn box_count(chunk_sizes: &Vec<usize>) -> (r: Option<usize>)
        ensures
            r matches Some(n) ==> n == spec_box_count(chunk_sizes@),
            r is None <==> spec_box_count(chunk_sizes@) > usize::MAX,
    {
        let mut total: usize = 0;
        let mut i: usize = 0;
        while i < chunk_sizes.len()
            invariant
                i <= chunk_sizes@.len(),
                total == spec_box_count(chunk_sizes@.subrange(0, i as int)),
            decreases chunk_sizes@.len() - i,
        {
            proof {
                assert(chunk_sizes@.subrange(0, i + 1).drop_last() =~= chunk_sizes@.subrange(
                    0,
                    i as int,
                ));
                lemma_box_count_monotonic(chunk_sizes@, i + 1);
            }
            total = match total.checked_add(chunk_sizes[i]) {
                Some(t) => t,
                None => {
                    return None;
                },
            };
            i = i + 1;
        }
        proof {
            assert(chunk_sizes@.subrange(0, chunk_sizes@.len() as int) =~= chunk_sizes@);
        }
        Some(total)
    }

    /// The line capacity a wireframe pass reserves for `num_boxes` boxes:
    /// four strips and sixteen vertices per box.  `None` exactly when either
    /// count does not fit a `usize`.
    pub fn wireframe_reservations(num_boxes: usize) -> (r: Option<(usize, usize)>)
        ensures
            r matches Some(counts) ==> counts.0 == STRIPS_PER_BOX * num_boxes && counts.1
                == VERTICES_PER_BOX * num_boxes,
            r is None <==> VERTICES_PER_BOX * num_boxes > usize::MAX,
    {
        let strips = match num_boxes.checked_mul(STRIPS_PER_BOX) {
            Some(s) => s,
            None => {
                return None;
            },
        };
        let vertices = match num_boxes.checked_mul(VERTICES_PER_BOX) {
            Some(v) => v,
            None => {
                return None;
            },
        };
        Some((strips, vertices))
    }

    /// Whether labels are shown, from the queried flags: the first flag when
    /// there is one, hidden otherwise.
    pub fn show_first_label(flags: &Vec<bool>) -> (b: bool)
        ensures
            b == (flags@.len() > 0 && flags@[0]),
    {
        flags.len() > 0 && flags[0]
    }
}

impl Default for Boxes3DVisualizer {
    /// A visualizer that has drawn nothing yet.
    fn default() -> (r: Self)
        ensures
            r == Boxes3DVisualizer,
    {
        Boxes3DVisualizer
    }
}

/// Box counts only grow as chunks are appended.
proof fn lemma_box_count_monotonic(chunk_sizes: Seq<usize>, i: int)
    requires
        0 < i <= chunk_sizes.len(),
    ensures
        spec_box_count(chunk_sizes.subrange(0, i)) <= spec_box_count(chunk_sizes),
    decreases chunk_sizes.len() - i,
{
    if i == chunk_sizes.len() {
        assert(chunk_sizes.subrange(0, i) =~= chunk_sizes);
    } else {
        assert(chunk_sizes.subrange(0, i + 1).drop_last() =~= chunk_sizes.subrange(0, i));
        lemma_box_count_monotonic(chunk_sizes, i + 1);
    }
}

} // verus!
