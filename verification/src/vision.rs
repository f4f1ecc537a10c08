//! The vision frame processor: from a raw camera buffer to the detections
//! that may enter the flight control loop.
//!
//! The processor does the two steps that surround the marker detector. Before
//! it, the luma plane is cut out of the frame and binarised. After it, the
//! detections below the minimum confidence are dropped.

use vstd::prelude::*;
use crate::error::TaskError;
use crate::messages::Detection;
use crate::threshold::{adaptive_threshold, table_fits, thresholded};

verus! {

/// Width of the reference camera's frames, in pixels.
pub const FRAME_WIDTH: usize = 1920;

/// Height of the reference camera's frames, in pixels.
pub const FRAME_HEIGHT: usize = 1080;

/// Side of the window that the reference tuning thresholds over, in pixels.
pub const NEIGHBORHOOD: usize = 107;

/// The minimum confidence of the reference tuning: 200, in millionths.
pub const MIN_CONFIDENCE: i64 = 200_000_000;

/// What the marker detector made of a binarised image.
#[derive(Clone, Debug)]
pub enum DetectorOutcome {
    /// The markers it found, in the order it found them.
    Detections(Vec<Detection>),
    /// It failed.
    Failed,
}

/// The detections of `detections` whose confidence is at least `min`, in
/// their order.
pub open spec fn confident(detections: Seq<Detection>, min: i64) -> Seq<Detection>
    decreases detections.len(),
{
    if detections.len() == 0 {
        Seq::empty()
    } else if detections.last().confidence >= min {
        confident(detections.drop_last(), min).push(detections.last())
    } else {
        confident(detections.drop_last(), min)
    }
}

/// Whatever is kept has at least the minimum confidence and was among the
/// detections.
pub proof fn lemma_confident_sound(detections: Seq<Detection>, min: i64)
    ensures
        confident(detections, min).len() <= detections.len(),
        forall|i: int|
            0 <= i < confident(detections, min).len() ==> {
                &&& (#[trigger] confident(detections, min)[i]).confidence >= min
                &&& detections.contains(confident(detections, min)[i])
            },
    decreases detections.len(),
{
    if detections.len() > 0 {
        let front = detections.drop_last();
        lemma_confident_sound(front, min);
        assert forall|i: int| 0 <= i < confident(detections, min).len() implies {
            &&& (#[trigger] confident(detections, min)[i]).confidence >= min
            &&& detections.contains(confident(detections, min)[i])
        } by {
            if i < confident(front, min).len() {
                let d = confident(front, min)[i];
                assert(front.contains(d));
                let j = choose|j: int| 0 <= j < front.len() && front[j] == d;
                assert(detections[j] == d);
            } else {
                assert(detections[detections.len() - 1] == detections.last());
            }
        }
    }
}

/// Every detection with at least the minimum confidence is kept.
pub proof fn lemma_confident_complete(detections: Seq<Detection>, min: i64, k: int)
    requires
        0 <= k < detections.len(),
        detections[k].confidence >= min,
    ensures
        confident(detections, min).contains(detections[k]),
    decreases detections.len(),
{
    let front = detections.drop_last();
    let kept = confident(detections, min);
    if k == detections.len() - 1 {
        assert(kept[kept.len() - 1] == detections[k]);
    } else {
        lemma_confident_complete(front, min, k);
        let j = choose|j: int|
            0 <= j < confident(front, min).len() && confident(front, min)[j] == front[k];
        assert(kept[j] == detections[k]);
    }
}

/// Cuts the luma plane, the first `width * height` bytes, out of a frame.
///
/// Fails with `InvalidFrame` exactly when the frame is shorter than that.
pub fn extract_luma(frame: &Vec<u8>, width: usize, height: usize) -> (r: Result<Vec<u8>, TaskError>)
    ensures
        r is Ok <==> frame.len() >= width * height,
        r is Ok ==> r->Ok_0.len() == width * height,
        r is Ok ==> r->Ok_0@ == frame@.take(width * height),
        r is Err ==> r->Err_0 == TaskError::InvalidFrame,
{
    let needed: usize = match width.checked_mul(height) {
        Some(n) => n,
        None => {
            return Err(TaskError::InvalidFrame);
        },
    };
    if frame.len() < needed {
        return Err(TaskError::InvalidFrame);
    }
    let mut luma: Vec<u8> = Vec::new();
    let mut i: usize = 0;
    while i < needed
        invariant
            i <= needed <= frame.len(),
            luma@ == frame@.take(i as int),
        decreases needed - i,
    {
        luma.push(frame[i]);
        assert(luma@ =~= frame@.take(i as int + 1));
        i += 1;
    }
    Ok(luma)
}

/// Drops the detections whose confidence is below `min`.
pub fn keep_confident(detections: &Vec<Detection>, min: i64) -> (kept: Vec<Detection>)
    ensures
        kept@ == confident(detections@, min),
        forall|i: int| 0 <= i < kept.len() ==> kept[i].confidence >= min,
{
    let mut kept: Vec<Detection> = Vec::new();
    let mut i: usize = 0;
    assert(detections@.take(0) =~= Seq::empty());
    while i < detections.len()
        invariant
            i <= detections.len(),
            kept@ == confident(detections@.take(i as int), min),
        decreases detections.len() - i,
    {
        assert(detections@.take(i as int + 1).drop_last() =~= detections@.take(i as int));
        if detections[i].confidence >= min {
            kept.push(detections[i]);
        }
        i += 1;
    }
    assert(detections@.take(i as int) =~= detections@);
    proof {
        lemma_confident_sound(detections@, min);
    }
    kept
}

/// The vision frame processor for one camera resolution.
#[derive(Clone, Copy, Debug)]
pub struct VisionProcessor {
    width: usize,
    height: usize,
    radius: usize,
    min_confidence: i64,
}

impl VisionProcessor {
    /// Width of the frames, in pixels.
    pub closed spec fn width(&self) -> usize {
        self.width
    }

    /// Height of the frames, in pixels.
    pub closed spec fn height(&self) -> usize {
        self.height
    }

    /// Reach of the thresholding window to each side, in pixels.
    pub closed spec fn radius(&self) -> usize {
        self.radius
    }

    /// The minimum confidence, in millionths.
    pub closed spec fn min_confidence(&self) -> i64 {
        self.min_confidence
    }

    /// The resolution is one that the thresholding can index.
    pub open spec fn wf(&self) -> bool {
        table_fits(self.width() as int, self.height() as int)
    }

    /// A processor for frames of `width` by `height` pixels, or `None` when
    /// the resolution is beyond what the thresholding can index.
    pub fn new(width: usize, height: usize, radius: usize, min_confidence: i64) -> (r: Option<
        VisionProcessor,
    >)
        ensures
            r is Some <==> table_fits(width as int, height as int),
            r is Some ==> {
                &&& r->0.wf()
                &&& r->0.width() == width
                &&& r->0.height() == height
                &&& r->0.radius() == radius
                &&& r->0.min_confidence() == min_confidence
            },
    {
        if width >= 0xffff_ffff || height >= 0xffff_ffff {
            assert((width + 1) * (height + 1) > u32::MAX) by (nonlinear_arith)
                requires
                    width >= 0xffff_ffff || height >= 0xffff_ffff,
                    width >= 0,
                    height >= 0,
            ;
            return None;
        }
        let columns: u64 = width as u64 + 1;
        let rows: u64 = height as u64 + 1;
        assert(columns * rows <= 0xffff_ffff * 0xffff_ffff) by (nonlinear_arith)
            requires
                0 <= columns <= 0xffff_ffff,
                0 <= rows <= 0xffff_ffff,
        ;
        if columns * rows > 0xffff_ffff {
            return None;
        }
        Some(VisionProcessor { width, height, radius, min_confidence })
    }

    /// The processor of the reference tuning: frames of 1920 by 1080 pixels,
    /// a window of 107 pixels, a minimum confidence of 200.
    pub fn reference() -> (r: VisionProcessor)
        ensures
            r.wf(),
            r.width() == FRAME_WIDTH,
            r.height() == FRAME_HEIGHT,
            r.radius() == NEIGHBORHOOD / 2,
            r.min_confidence() == MIN_CONFIDENCE,
    {
        assert((FRAME_WIDTH + 1) * (FRAME_HEIGHT + 1) == 2_076_601) by (nonlinear_arith)
            requires
                FRAME_WIDTH == 1920,
                FRAME_HEIGHT == 1080,
        ;
        VisionProcessor {
            width: FRAME_WIDTH,
            height: FRAME_HEIGHT,
            radius: NEIGHBORHOOD / 2,
            min_confidence: MIN_CONFIDENCE,
        }
    }

    /// Reads the frame width.
    pub fn get_width(&self) -> (r: usize)
        ensures
            r == self.width(),
    {
        self.width
    }

    /// Reads the frame height.
    pub fn get_height(&self) -> (r: usize)
        ensures
            r == self.height(),
    {
        self.height
    }

    /// Reads the window's reach.
    pub fn get_radius(&self) -> (r: usize)
        ensures
            r == self.radius(),
    {
        self.radius
    }

    /// Reads the minimum confidence.
    pub fn get_min_confidence(&self) -> (r: i64)
        ensures
            r == self.min_confidence(),
    {
        self.min_confidence
    }

    /// Turns a frame into the binary image for the marker detector.
    ///
    /// Fails with `InvalidFrame` exactly when the frame is shorter than the
    /// resolution requires. Otherwise the image has the frame's resolution
    /// and is the thresholded luma plane.
    pub fn binarize(&self, frame: &Vec<u8>) -> (r: Result<Vec<u8>, TaskError>)
        requires
            self.wf(),
        ensures
            r is Ok <==> frame.len() >= self.width() * self.height(),
            r is Err ==> r->Err_0 == TaskError::InvalidFrame,
            r is Ok ==> r->Ok_0.len() == self.width() * self.height(),
            r is Ok ==> r->Ok_0@ == thresholded(
                frame@.take(self.width() * self.height()),
                self.width() as int,
                self.height() as int,
                self.radius() as int,
            ),
    {
        match extract_luma(frame, self.width, self.height) {
            Err(e) => Err(e),
            Ok(luma) => Ok(adaptive_threshold(&luma, self.width, self.height, self.radius)),
        }
    }

    /// Takes in what the detector returned.
    ///
    /// A failed detector gives `DetectorFailure`. Otherwise the result holds
    /// the detections with at least the minimum confidence, in their order; it may
    /// be empty, when no target is visible.
    pub fn accept(&self, outcome: &DetectorOutcome) -> (r: Result<Vec<Detection>, TaskError>)
        ensures
            r is Err <==> outcome is Failed,
            r is Err ==> r->Err_0 == TaskError::DetectorFailure,
            r is Ok ==> r->Ok_0@ == confident(outcome->Detections_0@, self.min_confidence()),
            r is Ok ==> forall|i: int|
                0 <= i < r->Ok_0.len() ==> r->Ok_0[i].confidence >= self.min_confidence(),
    {
        match outcome {
            DetectorOutcome::Failed => Err(TaskError::DetectorFailure),
            DetectorOutcome::Detections(found) => Ok(keep_confident(found, self.min_confidence)),
        }
    }
}

} // verus!
