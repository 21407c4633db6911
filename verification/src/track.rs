//! Timing information of the track being played, and the progress shown for it.
use vstd::prelude::*;

verus! {

/// The whole seconds that symphonia's `TimeBase::calc_time` gives for `ts`:
/// `ts * numer / denom`, wrapping at 2^64 as its documentation says.
pub open spec fn whole_seconds(numer: nat, denom: nat, ts: nat) -> u64 {
    ((ts * numer / denom) % 0x1_0000_0000_0000_0000) as u64
}

/// Calls `symphonia::core::units::TimeBase::calc_time` and keeps the whole seconds.
/// The contract claims that these seconds are `ts * numer / denom` rounded down, wrapping at 2^64:
/// below 2^52 the source divides in `f64` and truncates (exact there, since the quotient is
/// never within one ulp below the next integer); above it, it divides in `u128` and casts.
/// The fractional part, a float, is not kept.
#[verifier::external_body]
fn calc_whole_seconds(numer: u32, denom: u32, ts: u64) -> (seconds: u64)
    requires
        numer > 0,
        denom > 0,
    ensures
        seconds == whole_seconds(numer as nat, denom as nat, ts as nat),
{
    symphonia::core::units::TimeBase { numer, denom }.calc_time(ts).seconds
}

/// The time base of a track: a timestamp `ts` stands for `ts * numer / denom` seconds.
#[derive(Debug, Clone, Copy, PartialEq, Eq)]
pub struct TimeBase {
    numer: u32,
    denom: u32,
}

impl TimeBase {
    #[verifier::type_invariant]
    spec fn positive(self) -> bool {
        self.numer > 0 && self.denom > 0
    }

    pub closed spec fn numer_spec(self) -> nat {
        self.numer as nat
    }

    pub closed spec fn denom_spec(self) -> nat {
        self.denom as nat
    }

    /// A time base; both parts must be positive, as for symphonia's `TimeBase::new`.
    pub fn new(numer: u32, denom: u32) -> (tb: TimeBase)
        requires
            numer > 0,
            denom > 0,
        ensures
            tb.numer_spec() == numer,
            tb.denom_spec() == denom,
    {
        TimeBase { numer, denom }
    }

    pub fn numer(&self) -> (n: u32)
        ensures
            n == self.numer_spec(),
            n > 0,
    {
        proof {
            use_type_invariant(self);
        }
        self.numer
    }

    pub fn denom(&self) -> (d: u32)
        ensures
            d == self.denom_spec(),
            d > 0,
    {
        proof {
            use_type_invariant(self);
        }
        self.denom
    }

    /// The whole seconds at timestamp `ts`.
    pub open spec fn seconds_at(self, ts: u64) -> u64 {
        whole_seconds(self.numer_spec(), self.denom_spec(), ts as nat)
    }

    pub fn calc_seconds(&self, ts: u64) -> (s: u64)
        ensures
            s == self.seconds_at(ts),
    {
        proof {
            use_type_invariant(self);
        }
        calc_whole_seconds(self.numer, self.denom, ts)
    }
}

/// The progress shown for a track, in whole seconds.
#[derive(Debug, Clone, Copy, PartialEq, Eq, Structural)]
pub struct ProgressTimes {
    pub elapsed: u64,
    pub remaining: u64,
    pub total: u64,
}

impl ProgressTimes {
    /// All zero: shown when the track has no timing information.
    pub open spec fn zero() -> ProgressTimes {
        ProgressTimes { elapsed: 0, remaining: 0, total: 0 }
    }

    pub fn zero_times() -> (p: ProgressTimes)
        ensures
            p == ProgressTimes::zero(),
    {
        ProgressTimes { elapsed: 0, remaining: 0, total: 0 }
    }
}

/// `a - b`, or zero when `b > a`.
pub open spec fn saturating_sub(a: u64, b: u64) -> u64 {
    if a >= b {
        (a - b) as u64
    } else {
        0
    }
}

/// What the player needs to know of the track it plays.
#[derive(Debug, Clone, Copy, PartialEq, Eq)]
pub struct TrackInfo {
    pub id: u32,
    pub time_base: Option<TimeBase>,
    /// The timestamp at which the track ends.
    pub duration: Option<u64>,
}

impl TrackInfo {
    /// The progress at timestamp `ts`; none when the time base or the duration is missing.
    pub open spec fn progress_at(self, ts: u64) -> Option<ProgressTimes> {
        match (self.time_base, self.duration) {
            (Some(tb), Some(duration)) => Some(
                ProgressTimes {
                    elapsed: tb.seconds_at(ts),
                    remaining: tb.seconds_at(saturating_sub(duration, ts)),
                    total: tb.seconds_at(duration),
                },
            ),
            _ => None,
        }
    }

    /// Given a packet timestamp, returns the progress times to display for the track.
    /// None = either time base or duration is missing from the track info.
    pub fn progress_times(&self, timestamp: u64) -> (p: Option<ProgressTimes>)
        ensures
            p == self.progress_at(timestamp),
    {
        match (self.time_base, self.duration) {
            (Some(time_base), Some(duration)) => {
                let left = if duration >= timestamp {
                    duration - timestamp
                } else {
                    0
                };
                Some(
                    ProgressTimes {
                        elapsed: time_base.calc_seconds(timestamp),
                        remaining: time_base.calc_seconds(left),
                        total: time_base.calc_seconds(duration),
                    },
                )
            },
            _ => None,
        }
    }

    /// The track info of a track from its codec parameters: the duration is the start
    /// timestamp plus the number of frames, when the number of frames is known.
    pub fn from_codec_params(
        id: u32,
        time_base: Option<TimeBase>,
        n_frames: Option<u64>,
        start_ts: u64,
    ) -> (t: TrackInfo)
        requires
            n_frames matches Some(frames) ==> start_ts + frames <= u64::MAX,
        ensures
            t.id == id,
            t.time_base == time_base,
            t.duration == (match n_frames {
                Some(frames) => Some((start_ts + frames) as u64),
                None => None,
            }),
    {
        let duration = match n_frames {
            Some(frames) => Some(start_ts + frames),
            None => None,
        };
        TrackInfo { id, time_base, duration }
    }
}

/// The position of the first track that has a codec, given for each track of a file whether
/// it has one: the track that is decoded and played. None when no track has one.
pub fn first_playable(has_codec: &Vec<bool>) -> (r: Option<usize>)
    ensures
        match r {
            Some(i) => i < has_codec@.len() && has_codec@[i as int] && forall|j: int|
                0 <= j < i ==> !has_codec@[j],
            None => forall|j: int| 0 <= j < has_codec@.len() ==> !has_codec@[j],
        },
{
    let mut i: usize = 0;
    while i < has_codec.len()
        invariant
            i <= has_codec@.len(),
            forall|j: int| 0 <= j < i ==> !has_codec@[j],
        decreases has_codec@.len() - i,
    {
        if has_codec[i] {
            return Some(i);
        }
        i = i + 1;
    }
    None
}

} // verus!
