//! Hardware-parameter negotiation.
//!
//! A [`HwParams`] starts as the device's full capability envelope and is
//! narrowed one constraint at a time; committing it to a stream is the
//! stream's own `hw_params` operation. Rates may be requested with
//! nearest-match semantics: the device substitutes the closest rate it
//! supports, and the value actually placed in effect must be read back
//! rather than assumed equal to the request.

use vstd::prelude::*;

use crate::device::{AudioContext, DeviceCaps};
use crate::stream::PcmStream;

verus! {

/// Sample format. This system fixes 16-bit signed samples.
#[derive(Clone, Copy, PartialEq, Eq, Structural, Debug)]
pub enum Format {
    S16,
}

/// Memory access layout. This system fixes interleaved access, which for
/// mono degenerates to a plain sequence of samples.
#[derive(Clone, Copy, PartialEq, Eq, Structural, Debug)]
pub enum Access {
    RwInterleaved,
}

/// How a requested rate is matched against the envelope: exactly, or by
/// substituting the nearest supported value.
#[derive(Clone, Copy, PartialEq, Eq, Structural, Debug)]
pub enum RateMatch {
    Exact,
    Nearest,
}

/// The negotiation step that failed.
#[derive(Clone, Copy, PartialEq, Eq, Structural, Debug)]
pub enum ParamError {
    /// The stream rejected capability enumeration.
    Enumerate,
    /// The requested channel count is outside the envelope.
    Channels,
    /// The requested rate is outside the envelope (exact matching only).
    Rate,
    /// The requested sample format is unsupported.
    Format,
    /// The requested access layout is unsupported.
    Access,
    /// The constrained set could not be committed to the stream.
    Apply,
}

/// Distance between a supported rate and the requested one.
pub open spec fn rate_dist(a: u32, b: u32) -> int {
    if a >= b {
        a - b
    } else {
        b - a
    }
}

/// The rate the device substitutes for `req` under nearest matching: the
/// element of `rates` closest to `req`, the earliest listed on a tie.
pub open spec fn nearest_rate(rates: Seq<u32>, req: u32) -> u32
    recommends
        rates.len() > 0,
    decreases rates.len(),
{
    if rates.len() <= 1 {
        rates[0]
    } else {
        let best_rest = nearest_rate(rates.drop_first(), req);
        if rate_dist(rates[0], req) <= rate_dist(best_rest, req) {
            rates[0]
        } else {
            best_rest
        }
    }
}

/// The substituted rate is one the device supports.
pub proof fn lemma_nearest_rate_in(rates: Seq<u32>, req: u32)
    requires
        rates.len() > 0,
    ensures
        rates.contains(nearest_rate(rates, req)),
    decreases rates.len(),
{
    if rates.len() <= 1 {
        assert(rates[0] == nearest_rate(rates, req));
    } else {
        lemma_nearest_rate_in(rates.drop_first(), req);
        if nearest_rate(rates, req) == rates[0] {
            assert(rates.contains(rates[0]));
        } else {
            let rest = rates.drop_first();
            let i = choose|i: int| 0 <= i < rest.len() && rest[i] == nearest_rate(rates, req);
            assert(rates[i + 1] == nearest_rate(rates, req));
        }
    }
}

/// No supported rate lies closer to the request than the substituted one.
pub proof fn lemma_nearest_rate_minimal(rates: Seq<u32>, req: u32)
    requires
        rates.len() > 0,
    ensures
        forall|i: int|
            0 <= i < rates.len() ==> rate_dist(nearest_rate(rates, req), req) <= rate_dist(
                rates[i],
                req,
            ),
    decreases rates.len(),
{
    if rates.len() > 1 {
        lemma_nearest_rate_minimal(rates.drop_first(), req);
        assert forall|i: int| 0 <= i < rates.len() implies rate_dist(
            nearest_rate(rates, req),
            req,
        ) <= rate_dist(rates[i], req) by {
            if i >= 1 {
                assert(rates.drop_first()[i - 1] == rates[i]);
            }
        }
    }
}

/// A rate the device supports is matched exactly, never substituted.
pub proof fn lemma_nearest_rate_exact(rates: Seq<u32>, req: u32)
    requires
        rates.contains(req),
    ensures
        nearest_rate(rates, req) == req,
{
    lemma_nearest_rate_minimal(rates, req);
    let i = choose|i: int| 0 <= i < rates.len() && rates[i] == req;
    assert(rate_dist(nearest_rate(rates, req), req) <= rate_dist(rates[i], req));
}

/// Extending the candidate list by one rate keeps the earlier nearest match
/// unless the new rate is strictly closer.
proof fn lemma_nearest_rate_push(rates: Seq<u32>, req: u32, x: u32)
    requires
        rates.len() > 0,
    ensures
        nearest_rate(rates.push(x), req) == if rate_dist(nearest_rate(rates, req), req)
            <= rate_dist(x, req) {
            nearest_rate(rates, req)
        } else {
            x
        },
    decreases rates.len(),
{
    let s = rates.push(x);
    assert(s[0] == rates[0]);
    if rates.len() == 1 {
        assert(s.drop_first() =~= seq![x]);
        assert(nearest_rate(s.drop_first(), req) == x);
        assert(nearest_rate(rates, req) == rates[0]);
    } else {
        lemma_nearest_rate_push(rates.drop_first(), req, x);
        assert(s.drop_first() =~= rates.drop_first().push(x));
        assert(nearest_rate(s, req) == if rate_dist(s[0], req) <= rate_dist(
            nearest_rate(s.drop_first(), req),
            req,
        ) {
            s[0]
        } else {
            nearest_rate(s.drop_first(), req)
        });
        assert(nearest_rate(rates, req) == if rate_dist(rates[0], req) <= rate_dist(
            nearest_rate(rates.drop_first(), req),
            req,
        ) {
            rates[0]
        } else {
            nearest_rate(rates.drop_first(), req)
        });
    }
}

/// Picks the supported rate nearest to `req` (earliest on a tie).
fn nearest_supported_rate(rates: &Vec<u32>, req: u32) -> (r: u32)
    requires
        rates@.len() > 0,
    ensures
        r == nearest_rate(rates@, req),
{
    let mut best: u32 = rates[0];
    let mut i: usize = 1;
    proof {
        assert(rates@.take(1) =~= seq![rates@[0]]);
    }
    while i < rates.len()
        invariant
            1 <= i <= rates@.len(),
            best == nearest_rate(rates@.take(i as int), req),
        decreases rates@.len() - i,
    {
        let cand = rates[i];
        let best_dist = if best >= req {
            best - req
        } else {
            req - best
        };
        let cand_dist = if cand >= req {
            cand - req
        } else {
            req - cand
        };
        proof {
            lemma_nearest_rate_push(rates@.take(i as int), req, rates@[i as int]);
            assert(rates@.take(i as int).push(rates@[i as int]) =~= rates@.take(i as int + 1));
        }
        if cand_dist < best_dist {
            best = cand;
        }
        i = i + 1;
    }
    proof {
        assert(rates@.take(rates@.len() as int) =~= rates@);
    }
    best
}

/// Whether a search of `rates` finds `hz`.
pub(crate) fn rates_contain(rates: &Vec<u32>, hz: u32) -> (b: bool)
    ensures
        b == rates@.contains(hz),
{
    let mut i: usize = 0;
    while i < rates.len()
        invariant
            0 <= i <= rates@.len(),
            forall|j: int| 0 <= j < i ==> rates@[j] != hz,
        decreases rates@.len() - i,
    {
        if rates[i] == hz {
            return true;
        }
        i = i + 1;
    }
    false
}

/// A negotiation in progress: the constraints placed so far on one stream's
/// configuration. Committing and disposal are explicit; dropping the value
/// by ownership is what releases it, so release happens exactly once on
/// every exit path.
pub struct HwParams {
    pub channels: Option<u32>,
    pub rate: Option<u32>,
    pub format: Option<Format>,
    pub access: Option<Access>,
}

impl HwParams {
    /// Every parameter has been constrained; only then can the set be
    /// committed.
    pub open spec fn complete(self) -> bool {
        &&& self.channels is Some
        &&& self.rate is Some
        &&& self.format is Some
        &&& self.access is Some
    }

    /// Every constraint placed so far lies within `caps`.
    pub open spec fn within(self, caps: DeviceCaps) -> bool {
        &&& match self.channels {
            Some(n) => caps.min_channels <= n <= caps.max_channels,
            None => true,
        }
        &&& match self.rate {
            Some(r) => caps.rates@.contains(r),
            None => true,
        }
        &&& match self.format {
            Some(f) => caps.supports_s16,
            None => true,
        }
        &&& match self.access {
            Some(a) => caps.supports_interleaved,
            None => true,
        }
    }

    /// Enumerates the full capability envelope for `pcm`'s direction: the
    /// unconstrained starting point of a negotiation. Fails if the stream
    /// rejects enumeration (it has already failed).
    pub fn any(ctx: &AudioContext, pcm: &PcmStream) -> (r: Result<HwParams, ParamError>)
        requires
            ctx.wf(),
        ensures
            r is Ok <==> pcm.enumerable(),
            r matches Ok(hwp) ==> hwp == (HwParams {
                channels: None,
                rate: None,
                format: None,
                access: None,
            }),
            r is Err ==> r == Err::<HwParams, ParamError>(ParamError::Enumerate),
    {
        if pcm.can_enumerate() {
            Ok(HwParams { channels: None, rate: None, format: None, access: None })
        } else {
            Err(ParamError::Enumerate)
        }
    }

    /// Constrains the channel count; fails iff `n` is outside the envelope.
    pub fn set_channels(&mut self, ctx: &AudioContext, caps: &DeviceCaps, n: u32) -> (r: Result<
        (),
        ParamError,
    >)
        requires
            ctx.wf(),
        ensures
            r is Ok <==> caps.min_channels <= n <= caps.max_channels,
            r is Ok ==> *final(self) == (HwParams { channels: Some(n), ..*old(self) }),
            r is Err ==> *final(self) == *old(self) && r == Err::<(), ParamError>(
                ParamError::Channels,
            ),
    {
        if caps.min_channels <= n && n <= caps.max_channels {
            self.channels = Some(n);
            Ok(())
        } else {
            Err(ParamError::Channels)
        }
    }

    /// Constrains the sample rate. Under `RateMatch::Exact` the request must
    /// be supported as given; under `RateMatch::Nearest` the device
    /// substitutes the closest supported rate, so the call always succeeds
    /// against a usable envelope.
    pub fn set_rate(&mut self, ctx: &AudioContext, caps: &DeviceCaps, hz: u32, m: RateMatch) -> (r:
        Result<(), ParamError>)
        requires
            ctx.wf(),
            caps.wf(),
        ensures
            r is Ok <==> (m is Exact ==> caps.rates@.contains(hz)),
            r is Ok && m is Exact ==> *final(self) == (HwParams { rate: Some(hz), ..*old(self) }),
            r is Ok && m is Nearest ==> *final(self) == (HwParams {
                rate: Some(nearest_rate(caps.rates@, hz)),
                ..*old(self)
            }),
            r is Err ==> *final(self) == *old(self) && r == Err::<(), ParamError>(ParamError::Rate),
    {
        match m {
            RateMatch::Exact => {
                if rates_contain(&caps.rates, hz) {
                    self.rate = Some(hz);
                    Ok(())
                } else {
                    Err(ParamError::Rate)
                }
            },
            RateMatch::Nearest => {
                self.rate = Some(nearest_supported_rate(&caps.rates, hz));
                Ok(())
            },
        }
    }

    /// Constrains the sample format; fails iff the device does not support
    /// it.
    pub fn set_format(&mut self, ctx: &AudioContext, caps: &DeviceCaps, f: Format) -> (r: Result<
        (),
        ParamError,
    >)
        requires
            ctx.wf(),
        ensures
            r is Ok <==> caps.supports_s16,
            r is Ok ==> *final(self) == (HwParams { format: Some(f), ..*old(self) }),
            r is Err ==> *final(self) == *old(self) && r == Err::<(), ParamError>(
                ParamError::Format,
            ),
    {
        match f {
            Format::S16 => {
                if caps.supports_s16 {
                    self.format = Some(f);
                    Ok(())
                } else {
                    Err(ParamError::Format)
                }
            },
        }
    }

    /// Constrains the access layout; fails iff the device does not support
    /// it.
    pub fn set_access(&mut self, ctx: &AudioContext, caps: &DeviceCaps, a: Access) -> (r: Result<
        (),
        ParamError,
    >)
        requires
            ctx.wf(),
        ensures
            r is Ok <==> caps.supports_interleaved,
            r is Ok ==> *final(self) == (HwParams { access: Some(a), ..*old(self) }),
            r is Err ==> *final(self) == *old(self) && r == Err::<(), ParamError>(
                ParamError::Access,
            ),
    {
        match a {
            Access::RwInterleaved => {
                if caps.supports_interleaved {
                    self.access = Some(a);
                    Ok(())
                } else {
                    Err(ParamError::Access)
                }
            },
        }
    }

    /// Disposes of the negotiation object. Taking it by value makes the
    /// release deterministic and unrepeatable: a released set cannot be
    /// committed, and holding one open cannot block a later negotiation.
    pub fn release(self, ctx: &AudioContext)
        requires
            ctx.wf(),
    {
    }
}

/// The configuration a stream actually placed in effect, re-read from the
/// device after committing: the negotiated values (which may differ from
/// the request) together with the buffer and period sizes chosen by the
/// device.
#[derive(Clone, Copy, PartialEq, Eq, Structural, Debug)]
pub struct AppliedConfig {
    pub channels: u32,
    pub rate: u32,
    pub format: Format,
    pub access: Access,
    pub buffer_size: u64,
    pub period_size: u64,
}

impl AppliedConfig {
    pub fn get_channels(&self) -> (n: u32)
        ensures
            n == self.channels,
    {
        self.channels
    }

    pub fn get_rate(&self) -> (r: u32)
        ensures
            r == self.rate,
    {
        self.rate
    }

    pub fn get_buffer_size(&self) -> (n: u64)
        ensures
            n == self.buffer_size,
    {
        self.buffer_size
    }

    pub fn get_period_size(&self) -> (n: u64)
        ensures
            n == self.period_size,
    {
        self.period_size
    }
}

} // verus!
