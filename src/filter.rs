use vstd::prelude::*;

use crate::config::Target;

verus! {

/// Samples at or above this value become white under `threshold`; below it, black.
pub const THRESHOLD_CUTOFF: u8 = 128;

/// A single-channel 8-bit image, row by row.
pub struct LumaImage {
    pub width: u32,
    pub height: u32,
    pub samples: Vec<u8>,
}

impl LumaImage {
    /// One sample per pixel.
    pub open spec fn wf(&self) -> bool {
        self.samples@.len() == self.width as int * self.height as int
    }
}

/// The smallest sample; 0 for no samples.
pub open spec fn seq_min(s: Seq<u8>) -> u8
    decreases s.len(),
{
    if s.len() == 0 {
        0
    } else if s.len() == 1 {
        s[0]
    } else {
        let m = seq_min(s.drop_last());
        if s.last() < m {
            s.last()
        } else {
            m
        }
    }
}

/// The largest sample; 0 for no samples.
pub open spec fn seq_max(s: Seq<u8>) -> u8
    decreases s.len(),
{
    if s.len() == 0 {
        0
    } else if s.len() == 1 {
        s[0]
    } else {
        let m = seq_max(s.drop_last());
        if s.last() > m {
            s.last()
        } else {
            m
        }
    }
}

/// `v` stretched linearly so that `lo` becomes 0 and `hi` becomes 255, truncated;
/// every sample becomes 0 when `lo == hi`.
pub open spec fn normalized_sample(v: u8, lo: u8, hi: u8) -> u8 {
    if hi <= lo {
        0
    } else {
        (((v - lo) * 255) / ((hi - lo) as int)) as u8
    }
}

/// Every sample stretched between the image's own minimum and maximum.
pub open spec fn normalize_spec(s: Seq<u8>) -> Seq<u8> {
    s.map_values(|v: u8| normalized_sample(v, seq_min(s), seq_max(s)))
}

/// 0 below the cutoff, 255 from it on.
pub open spec fn threshold_sample(v: u8) -> u8 {
    if v < THRESHOLD_CUTOFF {
        0
    } else {
        255
    }
}

pub open spec fn threshold_spec(s: Seq<u8>) -> Seq<u8> {
    s.map_values(|v: u8| threshold_sample(v))
}

/// Normalize then threshold, each only when asked for.
pub open spec fn filters_spec(s: Seq<u8>, normalize: bool, threshold: bool) -> Seq<u8> {
    let a = if normalize { normalize_spec(s) } else { s };
    if threshold { threshold_spec(a) } else { a }
}

proof fn lemma_min_max_bounds(s: Seq<u8>)
    ensures
        forall|i: int| 0 <= i < s.len() ==> seq_min(s) <= #[trigger] s[i] <= seq_max(s),
        s.len() > 0 ==> exists|i: int| 0 <= i < s.len() && s[i] == seq_min(s),
        s.len() > 0 ==> exists|i: int| 0 <= i < s.len() && s[i] == seq_max(s),
    decreases s.len(),
{
    if s.len() > 1 {
        let t = s.drop_last();
        lemma_min_max_bounds(t);
        assert forall|i: int| 0 <= i < s.len() implies seq_min(s) <= #[trigger] s[i] <= seq_max(s) by {
            if i < s.len() - 1 {
                assert(s[i] == t[i]);
            }
        }
        if seq_min(s) != s.last() {
            let j = choose|j: int| 0 <= j < t.len() && t[j] == seq_min(t);
            assert(s[j] == seq_min(s));
        } else {
            assert(s[s.len() - 1] == seq_min(s));
        }
        if seq_max(s) != s.last() {
            let j = choose|j: int| 0 <= j < t.len() && t[j] == seq_max(t);
            assert(s[j] == seq_max(s));
        } else {
            assert(s[s.len() - 1] == seq_max(s));
        }
    } else if s.len() == 1 {
        assert(s[0] == seq_min(s));
    }
}

proof fn lemma_min_max_unique(s: Seq<u8>, lo: u8, hi: u8)
    requires
        s.len() > 0,
        forall|i: int| 0 <= i < s.len() ==> lo <= #[trigger] s[i] <= hi,
        exists|i: int| 0 <= i < s.len() && s[i] == lo,
        exists|i: int| 0 <= i < s.len() && s[i] == hi,
    ensures
        seq_min(s) == lo,
        seq_max(s) == hi,
{
    lemma_min_max_bounds(s);
    let a = choose|i: int| 0 <= i < s.len() && s[i] == lo;
    let b = choose|i: int| 0 <= i < s.len() && s[i] == hi;
    let c = choose|i: int| 0 <= i < s.len() && s[i] == seq_min(s);
    let d = choose|i: int| 0 <= i < s.len() && s[i] == seq_max(s);
    assert(s[a] >= seq_min(s) && s[c] >= lo);
    assert(s[b] <= seq_max(s) && s[d] <= hi);
}

/// Normalizing sends the smallest sample to 0 and the largest to 255 when they
/// differ, keeps every sample within them, and sends all samples to 0 when they
/// are all equal.
pub proof fn lemma_normalize_extremes(s: Seq<u8>)
    ensures
        normalize_spec(s).len() == s.len(),
        forall|i: int| 0 <= i < s.len() && #[trigger] s[i] == seq_min(s) && seq_min(s) < seq_max(s)
            ==> normalize_spec(s)[i] == 0,
        forall|i: int| 0 <= i < s.len() && #[trigger] s[i] == seq_max(s) && seq_min(s) < seq_max(s)
            ==> normalize_spec(s)[i] == 255,
        seq_min(s) == seq_max(s) ==> forall|i: int| 0 <= i < s.len() ==> #[trigger] normalize_spec(s)[i] == 0,
{
    let lo = seq_min(s);
    let hi = seq_max(s);
    assert forall|i: int| 0 <= i < s.len() && #[trigger] s[i] == hi && lo < hi implies normalize_spec(s)[i] == 255 by {
        let d = (hi - lo) as int;
        assert((d * 255) / d == 255) by (nonlinear_arith)
            requires
                d > 0,
        ;
    }
}

/// Normalizing an image a second time changes nothing.
pub proof fn lemma_normalize_idempotent(s: Seq<u8>)
    ensures
        normalize_spec(normalize_spec(s)) == normalize_spec(s),
{
    let t = normalize_spec(s);
    let lo = seq_min(s);
    let hi = seq_max(s);
    if s.len() == 0 {
        assert(normalize_spec(t) =~= t);
        return;
    }
    lemma_min_max_bounds(s);
    lemma_normalize_extremes(s);
    if lo == hi {
        assert forall|i: int| 0 <= i < t.len() implies 0 <= #[trigger] t[i] <= 0 by {}
        assert(t[0] == 0);
        lemma_min_max_unique(t, 0, 0);
        assert(normalize_spec(t) =~= t);
    } else {
        assert forall|i: int| 0 <= i < t.len() implies 0 <= #[trigger] t[i] <= 255 by {
            assert(lo <= s[i] <= hi);
        }
        let a = choose|i: int| 0 <= i < s.len() && s[i] == lo;
        let b = choose|i: int| 0 <= i < s.len() && s[i] == hi;
        assert(t[a] == 0);
        assert(t[b] == 255);
        lemma_min_max_unique(t, 0, 255);
        assert forall|i: int| 0 <= i < t.len() implies normalize_spec(t)[i] == t[i] by {
            let v = t[i] as int;
            assert((v * 255) / 255 == v) by (nonlinear_arith);
        }
        assert(normalize_spec(t) =~= t);
    }
}

/// Thresholding an image a second time changes nothing, and every sample of a
/// thresholded image is 0 or 255.
pub proof fn lemma_threshold_idempotent(s: Seq<u8>)
    ensures
        threshold_spec(threshold_spec(s)) == threshold_spec(s),
        forall|i: int| 0 <= i < s.len() ==> #[trigger] threshold_spec(s)[i] == 0 || threshold_spec(s)[i] == 255,
{
    assert(threshold_spec(threshold_spec(s)) =~= threshold_spec(s));
}

/// Stretches the samples so that the smallest becomes 0 and the largest 255;
/// all become 0 when they are all equal.
pub fn normalize(samples: &mut Vec<u8>)
    ensures
        final(samples)@ == normalize_spec(old(samples)@),
{
    let n = samples.len();
    if n == 0 {
        assert(samples@ =~= normalize_spec(samples@));
        return;
    }
    let ghost orig = samples@;
    let mut lo: u8 = samples[0];
    let mut hi: u8 = samples[0];
    let mut i: usize = 1;
    assert(orig.subrange(0, 1) =~= seq![orig[0]]);
    while i < n
        invariant
            samples@ == orig,
            n == orig.len(),
            1 <= i <= n,
            lo == seq_min(orig.subrange(0, i as int)),
            hi == seq_max(orig.subrange(0, i as int)),
        decreases n - i,
    {
        let v = samples[i];
        assert(orig.subrange(0, i as int + 1).drop_last() =~= orig.subrange(0, i as int));
        if v < lo {
            lo = v;
        }
        if v > hi {
            hi = v;
        }
        i = i + 1;
    }
    assert(orig.subrange(0, n as int) =~= orig);
    proof {
        lemma_min_max_bounds(orig);
    }
    let mut j: usize = 0;
    while j < n
        invariant
            n == orig.len(),
            samples@.len() == n,
            lo == seq_min(orig),
            hi == seq_max(orig),
            forall|k: int| 0 <= k < n ==> lo <= #[trigger] orig[k] <= hi,
            forall|k: int| 0 <= k < j ==> samples@[k] == normalized_sample(#[trigger] orig[k], lo, hi),
            forall|k: int| j <= k < n ==> samples@[k] == orig[k],
        decreases n - j,
    {
        let v = samples[j];
        assert(v == orig[j as int] && lo <= orig[j as int] <= hi);
        let out: u8 = if hi <= lo {
            0
        } else {
            let num: u32 = ((v - lo) as u32) * 255;
            let q: u32 = num / ((hi - lo) as u32);
            proof {
                assert(q <= 255) by (nonlinear_arith)
                    requires
                        q == num / ((hi - lo) as u32),
                        num == (v - lo) * 255,
                        v - lo <= hi - lo,
                        hi - lo > 0,
                ;
            }
            q as u8
        };
        samples.set(j, out);
        j = j + 1;
    }
    assert(samples@ =~= normalize_spec(orig));
}

/// Turns each sample black below the cutoff and white from it on.
pub fn threshold(samples: &mut Vec<u8>)
    ensures
        final(samples)@ == threshold_spec(old(samples)@),
{
    let ghost orig = samples@;
    let n = samples.len();
    let mut j: usize = 0;
    while j < n
        invariant
            n == orig.len(),
            samples@.len() == n,
            forall|k: int| 0 <= k < j ==> samples@[k] == threshold_sample(#[trigger] orig[k]),
            forall|k: int| j <= k < n ==> samples@[k] == orig[k],
        decreases n - j,
    {
        let v = samples[j];
        let out: u8 = if v < THRESHOLD_CUTOFF { 0 } else { 255 };
        samples.set(j, out);
        j = j + 1;
    }
    assert(samples@ =~= threshold_spec(orig));
}

/// Applies the filters the policy asks for, normalize first, then threshold.
pub fn apply_filters(image: &mut LumaImage, target: &Target)
    ensures
        final(image).width == old(image).width,
        final(image).height == old(image).height,
        final(image).samples@ == filters_spec(
            old(image).samples@,
            target.normalize_image_spec(),
            target.threshold_image_spec(),
        ),
{
    if target.normalize_image() {
        normalize(&mut image.samples);
    }
    if target.threshold_image() {
        threshold(&mut image.samples);
    }
}

/// Applies the filters to every image of a window, in index order.
pub fn apply_filters_multiply(images: &mut Vec<LumaImage>, target: &Target)
    ensures
        final(images)@.len() == old(images)@.len(),
        forall|k: int| 0 <= k < old(images)@.len() ==> {
            &&& (#[trigger] final(images)@[k]).width == old(images)@[k].width
            &&& final(images)@[k].height == old(images)@[k].height
            &&& final(images)@[k].samples@ == filters_spec(
                old(images)@[k].samples@,
                target.normalize_image_spec(),
                target.threshold_image_spec(),
            )
        },
{
    let ghost orig = images@;
    let n = images.len();
    let mut j: usize = 0;
    while j < n
        invariant
            n == orig.len(),
            images@.len() == n,
            forall|k: int| 0 <= k < j ==> {
                &&& (#[trigger] images@[k]).width == orig[k].width
                &&& images@[k].height == orig[k].height
                &&& images@[k].samples@ == filters_spec(
                    orig[k].samples@,
                    target.normalize_image_spec(),
                    target.threshold_image_spec(),
                )
            },
            forall|k: int| j <= k < n ==> images@[k] == orig[k],
        decreases n - j,
    {
        let mut image = images.remove(j);
        apply_filters(&mut image, target);
        images.insert(j, image);
        j = j + 1;
    }
}

} // verus!
