use vstd::prelude::*;

verus! {

/// A size in pixels: width and height.
#[derive(Debug, Copy, Clone, PartialEq, Eq, Structural)]
pub struct Resolution {
    pub width: u32,
    pub height: u32,
}

impl Resolution {
    pub fn new(width: u32, height: u32) -> (r: Resolution)
        ensures
            r.width == width,
            r.height == height,
    {
        Resolution { width, height }
    }

    pub fn width(&self) -> (r: u32)
        ensures
            r == self.width,
    {
        self.width
    }

    pub fn height(&self) -> (r: u32)
        ensures
            r == self.height,
    {
        self.height
    }
}

/// Common display resolutions for the aspect ratios 4:3, 5:4, 16:9, 16:10,
/// 21:9, 43:18, 24:10, 32:9 and 32:10.
#[allow(non_camel_case_types)]
#[derive(Debug, Copy, Clone, PartialEq, Eq, Structural)]
pub enum StdResolution {
    /// 4:3 1024x768p
    _1024x768p,
    /// 4:3 1600x1200p
    _1600x1200p,
    /// 5:4 1280x1024p
    _1280x1024p,
    /// 16:9 1280x720p
    _1280x720p,
    /// 16:9 1366x768p
    _1366x768p,
    /// 16:9 1600x900p
    _1600x900p,
    /// 16:9 1920x1080p
    _1920x1080p,
    /// 16:9 2560x1440p
    _2560x1440p,
    /// 16:9 3840x2160p
    _3840x2160p,
    /// 16:9 5120x2880p
    _5120x2880p,
    /// 16:10 1280x800p
    _1280x800p,
    /// 16:10 1440x900p
    _1440x900p,
    /// 16:10 1680x1050p
    _1680x1050p,
    /// 16:10 1920x1200p
    _1920x1200p,
    /// 16:10 2240x1400p
    _2240x1400p,
    /// 16:10 2560x1600p
    _2560x1600p,
    /// 21:9 2560x1080p
    _2560x1080p,
    /// 21:9 5120x2160p
    _5120x2160p,
    /// 43:18 2580x1080p
    _2580x1080p,
    /// 43:18 3440x1440p
    _3440x1440p,
    /// 24:10 3840x1600p
    _3840x1600p,
    /// 32:9 3840x1080p
    _3840x1080p,
    /// 32:9 5120x1440p
    _5120x1440p,
    /// 32:10 3840x1200p
    _3840x1200p,
}

/// The pixel size of each standard resolution.
pub open spec fn resolution_of(res: StdResolution) -> Resolution {
    match res {
        StdResolution::_1024x768p => Resolution { width: 1024, height: 768 },
        StdResolution::_1600x1200p => Resolution { width: 1600, height: 1200 },
        StdResolution::_1280x1024p => Resolution { width: 1280, height: 1024 },
        StdResolution::_1280x720p => Resolution { width: 1280, height: 720 },
        StdResolution::_1366x768p => Resolution { width: 1366, height: 768 },
        StdResolution::_1600x900p => Resolution { width: 1600, height: 900 },
        StdResolution::_1920x1080p => Resolution { width: 1920, height: 1080 },
        StdResolution::_2560x1440p => Resolution { width: 2560, height: 1440 },
        StdResolution::_3840x2160p => Resolution { width: 3840, height: 2160 },
        StdResolution::_5120x2880p => Resolution { width: 5120, height: 2880 },
        StdResolution::_1280x800p => Resolution { width: 1280, height: 800 },
        StdResolution::_1440x900p => Resolution { width: 1440, height: 900 },
        StdResolution::_1680x1050p => Resolution { width: 1680, height: 1050 },
        StdResolution::_1920x1200p => Resolution { width: 1920, height: 1200 },
        StdResolution::_2240x1400p => Resolution { width: 2240, height: 1400 },
        StdResolution::_2560x1600p => Resolution { width: 2560, height: 1600 },
        StdResolution::_2560x1080p => Resolution { width: 2560, height: 1080 },
        StdResolution::_5120x2160p => Resolution { width: 5120, height: 2160 },
        StdResolution::_2580x1080p => Resolution { width: 2580, height: 1080 },
        StdResolution::_3440x1440p => Resolution { width: 3440, height: 1440 },
        StdResolution::_3840x1600p => Resolution { width: 3840, height: 1600 },
        StdResolution::_3840x1080p => Resolution { width: 3840, height: 1080 },
        StdResolution::_5120x1440p => Resolution { width: 5120, height: 1440 },
        StdResolution::_3840x1200p => Resolution { width: 3840, height: 1200 },
    }
}

impl From<StdResolution> for Resolution {
    fn from(res: StdResolution) -> (r: Resolution)
        ensures
            r == resolution_of(res),
    {
        match res {
            StdResolution::_1024x768p => Resolution { width: 1024, height: 768 },
            StdResolution::_1600x1200p => Resolution { width: 1600, height: 1200 },
            StdResolution::_1280x1024p => Resolution { width: 1280, height: 1024 },
            StdResolution::_1280x720p => Resolution { width: 1280, height: 720 },
            StdResolution::_1366x768p => Resolution { width: 1366, height: 768 },
            StdResolution::_1600x900p => Resolution { width: 1600, height: 900 },
            StdResolution::_1920x1080p => Resolution { width: 1920, height: 1080 },
            StdResolution::_2560x1440p => Resolution { width: 2560, height: 1440 },
            StdResolution::_3840x2160p => Resolution { width: 3840, height: 2160 },
            StdResolution::_5120x2880p => Resolution { width: 5120, height: 2880 },
            StdResolution::_1280x800p => Resolution { width: 1280, height: 800 },
            StdResolution::_1440x900p => Resolution { width: 1440, height: 900 },
            StdResolution::_1680x1050p => Resolution { width: 1680, height: 1050 },
            StdResolution::_1920x1200p => Resolution { width: 1920, height: 1200 },
            StdResolution::_2240x1400p => Resolution { width: 2240, height: 1400 },
            StdResolution::_2560x1600p => Resolution { width: 2560, height: 1600 },
            StdResolution::_2560x1080p => Resolution { width: 2560, height: 1080 },
            StdResolution::_5120x2160p => Resolution { width: 5120, height: 2160 },
            StdResolution::_2580x1080p => Resolution { width: 2580, height: 1080 },
            StdResolution::_3440x1440p => Resolution { width: 3440, height: 1440 },
            StdResolution::_3840x1600p => Resolution { width: 3840, height: 1600 },
            StdResolution::_3840x1080p => Resolution { width: 3840, height: 1080 },
            StdResolution::_5120x1440p => Resolution { width: 5120, height: 1440 },
            StdResolution::_3840x1200p => Resolution { width: 3840, height: 1200 },
        }
    }
}

impl vstd::std_specs::convert::FromSpecImpl<StdResolution> for Resolution {
    open spec fn obeys_from_spec() -> bool {
        true
    }

    open spec fn from_spec(res: StdResolution) -> Resolution {
        resolution_of(res)
    }
}

/// How far the aspect ratio `n:d` lies from the aspect ratio `w:h`, measured
/// as the numerator of `|n/d - w/h|` over the common denominator `d * h`.
/// Comparing two candidates against the same window therefore needs the
/// cross products of this gap with the other candidate's `d`.
pub open spec fn aspect_gap(w: u32, h: u32, n: u32, d: u32) -> int {
    let diff = n * h - w * d;
    if diff < 0 {
        -diff
    } else {
        diff
    }
}

/// Of a current choice and a challenger (each a resolution with its aspect
/// ratio `n:d`), the one whose aspect ratio lies strictly closer to `w:h`;
/// the current choice wins ties.
pub open spec fn spec_challenge(
    w: u32,
    h: u32,
    cur: (StdResolution, u32, u32),
    cand: (StdResolution, u32, u32),
) -> (StdResolution, u32, u32) {
    if aspect_gap(w, h, cand.1, cand.2) * cur.2 < aspect_gap(w, h, cur.1, cur.2) * cand.2 {
        cand
    } else {
        cur
    }
}

/// The chosen table entry — the resolution with its aspect ratio — whose
/// ratio lies closest to `w:h`, one candidate per supported aspect ratio;
/// the earlier entry wins exact ties. A window with height 0 has no aspect
/// ratio, every comparison ties, and the first entry stays.
pub open spec fn spec_closest_entry(w: u32, h: u32) -> (StdResolution, u32, u32) {
    spec_challenge(w, h,
        spec_challenge(w, h,
            spec_challenge(w, h,
                spec_challenge(w, h,
                    spec_challenge(w, h,
                        spec_challenge(w, h,
                            spec_challenge(w, h,
                                spec_challenge(w, h,
                                    (StdResolution::_1600x1200p, 4u32, 3u32),
                                    (StdResolution::_1280x1024p, 5u32, 4u32)),
                                (StdResolution::_1920x1080p, 16u32, 9u32)),
                            (StdResolution::_1920x1200p, 16u32, 10u32)),
                        (StdResolution::_2560x1080p, 21u32, 9u32)),
                    (StdResolution::_2580x1080p, 43u32, 18u32)),
                (StdResolution::_3840x1600p, 24u32, 10u32)),
            (StdResolution::_3840x1080p, 32u32, 9u32)),
        (StdResolution::_3840x1200p, 32u32, 10u32))
}

/// The default resolution whose aspect ratio lies closest to `w:h`.
pub open spec fn spec_closest(w: u32, h: u32) -> StdResolution {
    spec_closest_entry(w, h).0
}

/// The numerator of the aspect-ratio gap, as a machine word.
fn gap(w: u32, h: u32, n: u32, d: u32) -> (g: u64)
    ensures
        g as int == aspect_gap(w, h, n, d),
{
    proof {
        assert((n as int) * (h as int) <= 0xFFFF_FFFF * 0xFFFF_FFFF) by (nonlinear_arith)
            requires
                n <= 0xFFFF_FFFFu32,
                h <= 0xFFFF_FFFFu32,
        ;
        assert((w as int) * (d as int) <= 0xFFFF_FFFF * 0xFFFF_FFFF) by (nonlinear_arith)
            requires
                w <= 0xFFFF_FFFFu32,
                d <= 0xFFFF_FFFFu32,
        ;
    }
    let a = (n as u64) * (h as u64);
    let b = (w as u64) * (d as u64);
    if a >= b {
        a - b
    } else {
        b - a
    }
}

/// One round of the tournament behind `closest_std_resolution`. The small
/// bounds on the table's aspect ratios keep the cross products inside u64.
fn challenge(
    w: u32,
    h: u32,
    cur: (StdResolution, u32, u32),
    cand: (StdResolution, u32, u32),
) -> (r: (StdResolution, u32, u32))
    requires
        cur.1 <= 43 && 1 <= cur.2 <= 18,
        cand.1 <= 43 && 1 <= cand.2 <= 18,
    ensures
        r == spec_challenge(w, h, cur, cand),
        r.1 <= 43 && 1 <= r.2 <= 18,
{
    let gc = gap(w, h, cand.1, cand.2);
    let gb = gap(w, h, cur.1, cur.2);
    proof {
        assert(gc as int <= 43 * 0xFFFF_FFFF && gb as int <= 43 * 0xFFFF_FFFF) by (nonlinear_arith)
            requires
                gc as int == aspect_gap(w, h, cand.1, cand.2),
                gb as int == aspect_gap(w, h, cur.1, cur.2),
                cand.1 <= 43 && 1 <= cand.2 <= 18,
                cur.1 <= 43 && 1 <= cur.2 <= 18,
                w <= 0xFFFF_FFFFu32 && h <= 0xFFFF_FFFFu32,
        ;
        assert((gc as int) * (cur.2 as int) <= 43 * 0xFFFF_FFFF * 18 && (gb as int) * (cand.2 as int)
            <= 43 * 0xFFFF_FFFF * 18) by (nonlinear_arith)
            requires
                gc as int <= 43 * 0xFFFF_FFFF,
                gb as int <= 43 * 0xFFFF_FFFF,
                1 <= cur.2 <= 18,
                1 <= cand.2 <= 18,
        ;
    }
    if gc * (cur.2 as u64) < gb * (cand.2 as u64) {
        cand
    } else {
        cur
    }
}

impl StdResolution {
    /// The standard resolution whose aspect ratio is most similar to the
    /// given window size, one candidate per supported aspect ratio.
    pub fn closest_std_resolution(window_size: &Resolution) -> (r: StdResolution)
        ensures
            r == spec_closest(window_size.width, window_size.height),
    {
        let w = window_size.width;
        let h = window_size.height;
        let mut best: (StdResolution, u32, u32) = (StdResolution::_1600x1200p, 4, 3);
        best = challenge(w, h, best, (StdResolution::_1280x1024p, 5, 4));
        best = challenge(w, h, best, (StdResolution::_1920x1080p, 16, 9));
        best = challenge(w, h, best, (StdResolution::_1920x1200p, 16, 10));
        best = challenge(w, h, best, (StdResolution::_2560x1080p, 21, 9));
        best = challenge(w, h, best, (StdResolution::_2580x1080p, 43, 18));
        best = challenge(w, h, best, (StdResolution::_3840x1600p, 24, 10));
        best = challenge(w, h, best, (StdResolution::_3840x1080p, 32, 9));
        best = challenge(w, h, best, (StdResolution::_3840x1200p, 32, 10));
        best.0
    }
}

/// Whether `a`'s aspect ratio lies no farther from `w:h` than `b`'s does,
/// by cross products of the gaps with the other candidate's denominator.
pub open spec fn spec_gap_le(
    w: u32,
    h: u32,
    a: (StdResolution, u32, u32),
    b: (StdResolution, u32, u32),
) -> bool {
    aspect_gap(w, h, a.1, a.2) * b.2 <= aspect_gap(w, h, b.1, b.2) * a.2
}

/// The gap order carries over a strictly closer challenger: with `cur` no
/// farther than `prev` and `cand` strictly closer than `cur`, `cand` is no
/// farther than `prev`.
proof fn lemma_gap_le_trans(gp: int, dp: int, gc: int, dc: int, ga: int, da: int)
    requires
        dp >= 1,
        dc >= 1,
        da >= 1,
        gc * dp <= gp * dc,
        ga * dc < gc * da,
    ensures
        ga * dp <= gp * da,
{
    assert(ga * dp <= gp * da) by (nonlinear_arith)
        requires
            dp >= 1,
            dc >= 1,
            da >= 1,
            gc * dp <= gp * dc,
            ga * dc < gc * da,
    ;
}

/// A challenge round never worsens the choice: the winner is no farther
/// from `w:h` than either contestant.
proof fn lemma_challenge_bests_both(
    w: u32,
    h: u32,
    cur: (StdResolution, u32, u32),
    cand: (StdResolution, u32, u32),
)
    ensures
        spec_gap_le(w, h, spec_challenge(w, h, cur, cand), cur),
        spec_gap_le(w, h, spec_challenge(w, h, cur, cand), cand),
{
}

/// A challenge round keeps what the current choice already achieved: the
/// winner is no farther from `w:h` than anything the current choice beat.
proof fn lemma_challenge_carries(
    w: u32,
    h: u32,
    cur: (StdResolution, u32, u32),
    cand: (StdResolution, u32, u32),
    prev: (StdResolution, u32, u32),
)
    requires
        1 <= cur.2,
        1 <= cand.2,
        1 <= prev.2,
        spec_gap_le(w, h, cur, prev),
    ensures
        spec_gap_le(w, h, spec_challenge(w, h, cur, cand), prev),
{
    if aspect_gap(w, h, cand.1, cand.2) * cur.2 < aspect_gap(w, h, cur.1, cur.2) * cand.2 {
        lemma_gap_le_trans(
            aspect_gap(w, h, prev.1, prev.2),
            prev.2 as int,
            aspect_gap(w, h, cur.1, cur.2),
            cur.2 as int,
            aspect_gap(w, h, cand.1, cand.2),
            cand.2 as int,
        );
    }
}

/// The chosen resolution really is closest: it is one of the table's nine
/// entries, and no entry's aspect ratio lies strictly closer to `w:h` than
/// the chosen entry's.
pub proof fn lemma_closest_minimal(w: u32, h: u32)
    ensures
        (spec_closest_entry(w, h) == (StdResolution::_1600x1200p, 4u32, 3u32)
            || spec_closest_entry(w, h) == (StdResolution::_1280x1024p, 5u32, 4u32)
            || spec_closest_entry(w, h) == (StdResolution::_1920x1080p, 16u32, 9u32)
            || spec_closest_entry(w, h) == (StdResolution::_1920x1200p, 16u32, 10u32)
            || spec_closest_entry(w, h) == (StdResolution::_2560x1080p, 21u32, 9u32)
            || spec_closest_entry(w, h) == (StdResolution::_2580x1080p, 43u32, 18u32)
            || spec_closest_entry(w, h) == (StdResolution::_3840x1600p, 24u32, 10u32)
            || spec_closest_entry(w, h) == (StdResolution::_3840x1080p, 32u32, 9u32)
            || spec_closest_entry(w, h) == (StdResolution::_3840x1200p, 32u32, 10u32)),
        spec_gap_le(w, h, spec_closest_entry(w, h), (StdResolution::_1600x1200p, 4u32, 3u32)),
        spec_gap_le(w, h, spec_closest_entry(w, h), (StdResolution::_1280x1024p, 5u32, 4u32)),
        spec_gap_le(w, h, spec_closest_entry(w, h), (StdResolution::_1920x1080p, 16u32, 9u32)),
        spec_gap_le(w, h, spec_closest_entry(w, h), (StdResolution::_1920x1200p, 16u32, 10u32)),
        spec_gap_le(w, h, spec_closest_entry(w, h), (StdResolution::_2560x1080p, 21u32, 9u32)),
        spec_gap_le(w, h, spec_closest_entry(w, h), (StdResolution::_2580x1080p, 43u32, 18u32)),
        spec_gap_le(w, h, spec_closest_entry(w, h), (StdResolution::_3840x1600p, 24u32, 10u32)),
        spec_gap_le(w, h, spec_closest_entry(w, h), (StdResolution::_3840x1080p, 32u32, 9u32)),
        spec_gap_le(w, h, spec_closest_entry(w, h), (StdResolution::_3840x1200p, 32u32, 10u32)),
{
    let e0 = (StdResolution::_1600x1200p, 4u32, 3u32);
    let e1 = (StdResolution::_1280x1024p, 5u32, 4u32);
    let e2 = (StdResolution::_1920x1080p, 16u32, 9u32);
    let e3 = (StdResolution::_1920x1200p, 16u32, 10u32);
    let e4 = (StdResolution::_2560x1080p, 21u32, 9u32);
    let e5 = (StdResolution::_2580x1080p, 43u32, 18u32);
    let e6 = (StdResolution::_3840x1600p, 24u32, 10u32);
    let e7 = (StdResolution::_3840x1080p, 32u32, 9u32);
    let e8 = (StdResolution::_3840x1200p, 32u32, 10u32);
    let c1 = spec_challenge(w, h, e0, e1);
    let c2 = spec_challenge(w, h, c1, e2);
    let c3 = spec_challenge(w, h, c2, e3);
    let c4 = spec_challenge(w, h, c3, e4);
    let c5 = spec_challenge(w, h, c4, e5);
    let c6 = spec_challenge(w, h, c5, e6);
    let c7 = spec_challenge(w, h, c6, e7);
    let c8 = spec_challenge(w, h, c7, e8);
    lemma_challenge_bests_both(w, h, e0, e1);
    lemma_challenge_bests_both(w, h, c1, e2);
    lemma_challenge_carries(w, h, c1, e2, e0);
    lemma_challenge_carries(w, h, c1, e2, e1);
    lemma_challenge_bests_both(w, h, c2, e3);
    lemma_challenge_carries(w, h, c2, e3, e0);
    lemma_challenge_carries(w, h, c2, e3, e1);
    lemma_challenge_carries(w, h, c2, e3, e2);
    lemma_challenge_bests_both(w, h, c3, e4);
    lemma_challenge_carries(w, h, c3, e4, e0);
    lemma_challenge_carries(w, h, c3, e4, e1);
    lemma_challenge_carries(w, h, c3, e4, e2);
    lemma_challenge_carries(w, h, c3, e4, e3);
    lemma_challenge_bests_both(w, h, c4, e5);
    lemma_challenge_carries(w, h, c4, e5, e0);
    lemma_challenge_carries(w, h, c4, e5, e1);
    lemma_challenge_carries(w, h, c4, e5, e2);
    lemma_challenge_carries(w, h, c4, e5, e3);
    lemma_challenge_carries(w, h, c4, e5, e4);
    lemma_challenge_bests_both(w, h, c5, e6);
    lemma_challenge_carries(w, h, c5, e6, e0);
    lemma_challenge_carries(w, h, c5, e6, e1);
    lemma_challenge_carries(w, h, c5, e6, e2);
    lemma_challenge_carries(w, h, c5, e6, e3);
    lemma_challenge_carries(w, h, c5, e6, e4);
    lemma_challenge_carries(w, h, c5, e6, e5);
    lemma_challenge_bests_both(w, h, c6, e7);
    lemma_challenge_carries(w, h, c6, e7, e0);
    lemma_challenge_carries(w, h, c6, e7, e1);
    lemma_challenge_carries(w, h, c6, e7, e2);
    lemma_challenge_carries(w, h, c6, e7, e3);
    lemma_challenge_carries(w, h, c6, e7, e4);
    lemma_challenge_carries(w, h, c6, e7, e5);
    lemma_challenge_carries(w, h, c6, e7, e6);
    lemma_challenge_bests_both(w, h, c7, e8);
    lemma_challenge_carries(w, h, c7, e8, e0);
    lemma_challenge_carries(w, h, c7, e8, e1);
    lemma_challenge_carries(w, h, c7, e8, e2);
    lemma_challenge_carries(w, h, c7, e8, e3);
    lemma_challenge_carries(w, h, c7, e8, e4);
    lemma_challenge_carries(w, h, c7, e8, e5);
    lemma_challenge_carries(w, h, c7, e8, e6);
    lemma_challenge_carries(w, h, c7, e8, e7);
    assert(spec_closest_entry(w, h) == c8);
}

} // verus!
