//! Whole-document planning: consumes an ordered sequence of raw image
//! buffers and emits one placement per image, aborting on the first
//! buffer that does not normalize, so a broken deck never yields a
//! partial document.

use vstd::prelude::*;
use crate::config::LayoutConfig;
use crate::image_info::ImageDescriptor;
use crate::image_info::ImageError;
use crate::image_info::normalize;
use crate::image_info::spec_normalize;
use crate::layout::LayoutEngine;
use crate::layout::Placement;
use crate::layout::lemma_grid_position;
use crate::layout::lemma_pages_needed_is_ceil;
use crate::layout::lemma_pages_needed_step;
use crate::layout::spec_pages_needed;
use crate::layout::spec_placement_is;

verus! {

/// The placement instructions of one whole document: one placement per
/// input image, in input order, and the number of pages they occupy.
#[derive(Debug)]
pub struct DocumentPlan {
    pub placements: Vec<Placement>,
    pub pages: usize,
}

/// The `k`th image normalized successfully and `p` is exactly the
/// placement the engine owes position `k` for its decoded dimensions.
pub open spec fn spec_planned_at(cfg: LayoutConfig, bytes: Seq<u8>, k: int, p: Placement) -> bool {
    spec_normalize(bytes, cfg.dpi) matches Ok(d)
        && spec_placement_is(cfg, k, d.width_px, d.height_px, p)
}

/// Plans a whole document: normalizes each buffer in order and places
/// it on the grid. Succeeds exactly when every buffer normalizes; the
/// plan then holds one exact placement per image and `ceil(n / 9)`
/// pages. Fails with the error of the first buffer that does not
/// normalize, leaving no partial output.
pub fn plan_document(cfg: &LayoutConfig, images: &Vec<Vec<u8>>) -> (r: Result<
    DocumentPlan,
    ImageError,
>)
    requires
        cfg.wf(),
    ensures
        r matches Ok(plan) ==> {
            &&& plan.placements@.len() == images@.len()
            &&& plan.pages == spec_pages_needed(images@.len() as int)
            &&& forall|k: int|
                0 <= k < images@.len() ==> #[trigger] spec_planned_at(
                    *cfg,
                    images@[k]@,
                    k,
                    plan.placements@[k],
                )
            &&& images@.len() > 0 ==> plan.placements@[images@.len() - 1].page + 1 == plan.pages
        },
        r matches Err(e) ==> exists|k: int|
            {
                &&& 0 <= k < images@.len()
                &&& #[trigger] spec_normalize(images@[k]@, cfg.dpi) == Err::<
                    ImageDescriptor,
                    ImageError,
                >(e)
                &&& forall|j: int|
                    0 <= j < k ==> (#[trigger] spec_normalize(images@[j]@, cfg.dpi)) is Ok
            },
{
    let n = images.len();
    let mut engine = LayoutEngine::new(*cfg);
    let mut placements: Vec<Placement> = Vec::new();
    let mut pages: usize = 0;
    let mut i: usize = 0;
    while i < n
        invariant
            n == images@.len(),
            i <= n,
            engine.wf(),
            engine.config == *cfg,
            engine.placed == i,
            placements@.len() == i,
            pages == spec_pages_needed(i as int),
            forall|k: int|
                0 <= k < i ==> #[trigger] spec_planned_at(*cfg, images@[k]@, k, placements@[k]),
            forall|j: int| 0 <= j < i ==> (#[trigger] spec_normalize(images@[j]@, cfg.dpi)) is Ok,
        decreases n - i,
    {
        let desc = match normalize(&images[i], cfg.dpi) {
            Ok(d) => d,
            Err(e) => {
                return Err(e);
            },
        };
        let p = engine.place_next(&desc);
        proof {
            lemma_grid_position(i as int);
            lemma_pages_needed_step(i as int);
            assert(pages <= i);
        }
        if p.starts_new_page() {
            pages = pages + 1;
        }
        placements.push(p);
        i = i + 1;
    }
    proof {
        if n > 0 {
            lemma_pages_needed_is_ceil(n as int);
            assert(spec_planned_at(*cfg, images@[n - 1]@, n - 1, placements@[n - 1]));
        }
    }
    Ok(DocumentPlan { placements, pages })
}

} // verus!
