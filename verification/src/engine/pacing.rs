use vstd::arithmetic::div_mod::lemma_div_is_ordered_by_denominator;
use vstd::prelude::*;

verus! {

/// The microseconds of every frame that are left to the loop itself.
pub const PACING_MARGIN: u64 = 500;

/// The microseconds in a second.
pub const MICROS_PER_SECOND: u64 = 1_000_000;

/// The time in microseconds that a frame has to last at `framerate` frames
/// per second: the whole microseconds of one frame, less the margin.
///
/// At more than 2000 frames per second a frame is shorter than the margin and
/// the interval is zero. At zero frames per second a frame never ends: the
/// interval is the longest that can be counted, less the margin.
pub open spec fn spec_frame_interval(framerate: u64) -> u64 {
    if framerate == 0 {
        (u64::MAX - PACING_MARGIN) as u64
    } else if MICROS_PER_SECOND / framerate >= PACING_MARGIN {
        (MICROS_PER_SECOND / framerate - PACING_MARGIN) as u64
    } else {
        0
    }
}

/// Returns the time in microseconds that a frame has to last at `framerate`
/// frames per second.
pub fn frame_interval(framerate: u64) -> (micros: u64)
    ensures
        micros == spec_frame_interval(framerate),
{
    if framerate == 0 {
        u64::MAX - PACING_MARGIN
    } else {
        let frame: u64 = MICROS_PER_SECOND / framerate;
        if frame >= PACING_MARGIN {
            frame - PACING_MARGIN
        } else {
            0
        }
    }
}

/// `rate` is the lowest framerate that any window asks for.
pub open spec fn is_min_framerate(framerates: Seq<Option<u64>>, rate: Option<u64>) -> bool {
    match rate {
        None => forall|i: int| 0 <= i < framerates.len() ==> framerates[i] is None,
        Some(min) => {
            &&& exists|i: int| 0 <= i < framerates.len() && framerates[i] == Some(min)
            &&& forall|i: int|
                0 <= i < framerates.len() && framerates[i] is Some ==> min
                    <= framerates[i].unwrap()
        },
    }
}

/// Returns the lowest framerate that any window asks for, or `None` where no
/// window asks for one.
pub fn min_framerate(framerates: &Vec<Option<u64>>) -> (rate: Option<u64>)
    ensures
        is_min_framerate(framerates@, rate),
{
    let mut rate: Option<u64> = None;
    let mut i: usize = 0;
    while i < framerates.len()
        invariant
            i <= framerates.len(),
            is_min_framerate(framerates@.take(i as int), rate),
        decreases framerates.len() - i,
    {
        let ghost before = framerates@.take(i as int);
        let ghost after = framerates@.take(i + 1);
        proof {
            assert(forall|j: int| 0 <= j < i ==> after[j] == before[j]);
            assert(after[i as int] == framerates@[i as int]);
            if rate is Some {
                let k = choose|k: int| 0 <= k < before.len() && before[k] == rate;
                assert(after[k] == rate);
            }
        }
        match framerates[i] {
            Some(f) => {
                let lower = match rate {
                    Some(min) => f < min,
                    None => true,
                };
                if lower {
                    rate = Some(f);
                }
            },
            None => {},
        }
        i = i + 1;
    }
    assert(framerates@.take(i as int) =~= framerates@);
    rate
}

/// Returns the interval in microseconds at which the windows are redrawn:
/// the frame interval of the window with the lowest framerate, or `None`
/// where no window asks for a framerate and redraws are not held back.
pub fn pacing_interval(framerates: &Vec<Option<u64>>) -> (micros: Option<u64>)
    ensures
        exists|rate: Option<u64>| #[trigger]
            is_min_framerate(framerates@, rate) && micros == match rate {
                Some(min) => Some(spec_frame_interval(min)),
                None => None,
            },
{
    let rate = min_framerate(framerates);
    match rate {
        Some(min) => Some(frame_interval(min)),
        None => None,
    }
}

/// The lowest framerate that windows ask for is uniquely determined.
pub proof fn lemma_min_framerate_is_unique(
    framerates: Seq<Option<u64>>,
    a: Option<u64>,
    b: Option<u64>,
)
    requires
        is_min_framerate(framerates, a),
        is_min_framerate(framerates, b),
    ensures
        a == b,
{
}

/// A window that asks for fewer frames per second asks for a frame interval
/// at least as long: the window with the lowest framerate sets the pace.
pub proof fn lemma_slower_window_paces(slow: u64, fast: u64)
    requires
        slow <= fast,
    ensures
        spec_frame_interval(slow) >= spec_frame_interval(fast),
{
    if slow >= 1 {
        lemma_div_is_ordered_by_denominator(MICROS_PER_SECOND as int, slow as int, fast as int);
    }
}

} // verus!
