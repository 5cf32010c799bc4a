//! The facade: zero, one, or two streams behind `push`/`pull`.
//!
//! Construction performs the full setup sequence for each enabled
//! direction and either comes up fully configured or not at all; there is
//! no partial-success mode and no fallback device. Thereafter `push`
//! services the playback stream under the xrun-recovery protocol and
//! `pull` services the capture stream under the silent-degradation policy.
//! Unrecoverable conditions surface as error values at this boundary; the
//! caller decides whether they terminate the process.

use vstd::prelude::*;

use crate::device::{AudioContext, DeviceCaps, DeviceModel, DirDevice};
use crate::hwparams::{
    nearest_rate, lemma_nearest_rate_in, Access, AppliedConfig, Format, HwParams, ParamError,
    RateMatch,
};
use crate::recovery::{
    captured_frames, classify_recover, classify_retry, classify_write, PushError, PushStep,
    TransferOutcome,
};
use crate::stream::{Direction, PcmStream, StreamState};

verus! {

/// The channel count this system always requests: mono.
pub const REQUESTED_CHANNELS: u32 = 1;

/// The sample rate this system always requests, under nearest matching:
/// the device may substitute the closest rate it supports.
pub const REQUESTED_RATE: u32 = 48000;

/// The error value recovery is invoked with on an xrun.
pub const XRUN_ERR: i32 = 32;

/// The setup step that failed. Every variant is terminal: the manager is
/// never left partially constructed.
#[derive(Clone, Copy, PartialEq, Eq, Structural, Debug)]
pub enum SetupError {
    /// The native audio subsystem could not be initialized.
    Context,
    /// The named device could not be opened for this direction.
    Open(Direction),
    /// Parameter negotiation or commitment failed for this direction.
    Params(Direction),
    /// The playback device vanished between configuration and prepare.
    Prepare,
}

/// Which streams to bring up, and under which device name each.
pub struct ManagerConfig {
    /// Open a playback stream under this name, if present.
    pub speaker: Option<String>,
    /// Open a capture stream under this name, if present.
    pub microphone: Option<String>,
}

/// Whether the fixed requested configuration (mono, 16-bit signed,
/// interleaved, nearest-matched rate) lies within `caps`. The rate never
/// disqualifies an envelope: nearest matching always finds one.
pub open spec fn settings_feasible(caps: DeviceCaps) -> bool {
    &&& caps.min_channels <= REQUESTED_CHANNELS <= caps.max_channels
    &&& caps.supports_s16
    &&& caps.supports_interleaved
}

/// The configuration the device places in effect for the fixed request:
/// the requested values, except that the rate is the nearest one the
/// device supports, and the buffer and period sizes are the device's own.
pub open spec fn negotiated_config(caps: DeviceCaps) -> AppliedConfig {
    AppliedConfig {
        channels: REQUESTED_CHANNELS,
        rate: nearest_rate(caps.rates@, REQUESTED_RATE),
        format: Format::S16,
        access: Access::RwInterleaved,
        buffer_size: caps.buffer_size,
        period_size: caps.period_size,
    }
}

/// The step at which negotiating the fixed request against `caps` fails
/// for a stream in state `st`, if any: the first failing step of
/// enumerate, constrain (channels, then format, then access — a
/// nearest-matched rate cannot fail), commit.
pub open spec fn settings_error(caps: DeviceCaps, st: StreamState) -> Option<ParamError> {
    if !(st is Opened || st is Configured || st is Prepared || st is Running) {
        Some(ParamError::Enumerate)
    } else if !(caps.min_channels <= REQUESTED_CHANNELS <= caps.max_channels) {
        Some(ParamError::Channels)
    } else if !caps.supports_s16 {
        Some(ParamError::Format)
    } else if !caps.supports_interleaved {
        Some(ParamError::Access)
    } else if !(st is Opened) {
        Some(ParamError::Apply)
    } else {
        None
    }
}

/// Negotiates and commits the fixed configuration on `pcm`: enumerate the
/// envelope, constrain to mono / nearest-matched rate / 16-bit signed /
/// interleaved, commit, and release the negotiation object on every exit
/// path. On success the stream is `Configured` with the negotiated
/// configuration; on failure it is left exactly as it was.
pub fn set_settings(ctx: &AudioContext, dev: &DirDevice, pcm: &mut PcmStream) -> (r: Result<
    (),
    ParamError,
>)
    requires
        ctx.wf(),
        dev.wf(),
        old(pcm).wf(),
    ensures
        final(pcm).wf(),
        r is Ok <==> settings_error(dev.caps, old(pcm).state) is None,
        r is Ok ==> *final(pcm) == (PcmStream {
            state: StreamState::Configured,
            config: Some(negotiated_config(dev.caps)),
            ..*old(pcm)
        }),
        r matches Err(e) ==> Some(e) == settings_error(dev.caps, old(pcm).state) && *final(pcm)
            == *old(pcm),
{
    let mut hwp = match HwParams::any(ctx, pcm) {
        Ok(h) => h,
        Err(e) => {
            return Err(e);
        },
    };
    match hwp.set_channels(ctx, &dev.caps, REQUESTED_CHANNELS) {
        Ok(()) => {},
        Err(e) => {
            hwp.release(ctx);
            return Err(e);
        },
    }
    match hwp.set_rate(ctx, &dev.caps, REQUESTED_RATE, RateMatch::Nearest) {
        Ok(()) => {},
        Err(e) => {
            hwp.release(ctx);
            return Err(e);
        },
    }
    match hwp.set_format(ctx, &dev.caps, Format::S16) {
        Ok(()) => {},
        Err(e) => {
            hwp.release(ctx);
            return Err(e);
        },
    }
    match hwp.set_access(ctx, &dev.caps, Access::RwInterleaved) {
        Ok(()) => {},
        Err(e) => {
            hwp.release(ctx);
            return Err(e);
        },
    }
    proof {
        lemma_nearest_rate_in(dev.caps.rates@, REQUESTED_RATE);
    }
    let committed = pcm.hw_params(ctx, dev, &hwp);
    hwp.release(ctx);
    match committed {
        Ok(()) => Ok(()),
        Err(e) => Err(e),
    }
}

/// Whether `name` opens this device: it is the device's name and no other
/// process holds the device exclusively.
pub open spec fn openable(d: DirDevice, name: Seq<char>) -> bool {
    d.name@ == name && !d.busy
}

/// The step at which constructing a manager over `dev` under `cfg` fails,
/// if any, in setup order: subsystem, then the playback stream's open and
/// negotiation, then the capture stream's, then readying playback.
pub open spec fn setup_error(dev: DeviceModel, cfg: ManagerConfig) -> Option<SetupError> {
    if !dev.subsystem_ok {
        Some(SetupError::Context)
    } else if match cfg.speaker {
        Some(n) => !openable(dev.playback, n@),
        None => false,
    } {
        Some(SetupError::Open(Direction::Playback))
    } else if cfg.speaker is Some && !settings_feasible(dev.playback.caps) {
        Some(SetupError::Params(Direction::Playback))
    } else if match cfg.microphone {
        Some(n) => !openable(dev.capture, n@),
        None => false,
    } {
        Some(SetupError::Open(Direction::Capture))
    } else if cfg.microphone is Some && !settings_feasible(dev.capture.caps) {
        Some(SetupError::Params(Direction::Capture))
    } else if cfg.speaker is Some && dev.playback.disconnected {
        Some(SetupError::Prepare)
    } else {
        None
    }
}

/// Where the device's script stands after `k` more transfers: advanced by
/// one per transfer, capped at the script's end.
pub open spec fn scripted_advance(d: DirDevice, k: nat) -> nat {
    if d.next_reply + k <= d.replies@.len() {
        (d.next_reply + k) as nat
    } else {
        d.replies@.len()
    }
}

/// What one `push` call returns, as a function of the playback device's
/// pending script: a full first write is a clean return; otherwise exactly
/// one recovery is attempted, and the call ends fatally if re-priming
/// fails or the single retry falls short again, and cleanly — reporting
/// the one recovered underrun — if the retry completes.
pub open spec fn push_spec(d: DirDevice, req: nat) -> Result<bool, PushError> {
    if !d.short_at(0, req) {
        Result::Ok(false)
    } else if !d.recover_ok {
        Result::Err(PushError::RecoverFailed)
    } else if !d.short_at(1, req) {
        Result::Ok(true)
    } else {
        Result::Err(PushError::DoubleUnderrun)
    }
}

/// How many transfers one `push` call makes: one, plus the single retry
/// when the first falls short and re-priming succeeds.
pub open spec fn push_transfers(d: DirDevice, req: nat) -> nat {
    if !d.short_at(0, req) {
        1
    } else if !d.recover_ok {
        1
    } else {
        2
    }
}

/// How many times one `push` call invokes the native recovery primitive:
/// exactly once per original shortfall, never more.
pub open spec fn push_recoveries(d: DirDevice, req: nat) -> nat {
    if d.short_at(0, req) {
        1
    } else {
        0
    }
}

/// Negotiating the fixed request against any usable envelope places in
/// effect a configuration within the device's tolerance: channels, format
/// and access exactly as requested, and a supported rate that no other
/// supported rate lies closer to the request than — the request itself
/// whenever the device supports it. This is what a caller reading the
/// configuration back after `set_settings` observes.
pub proof fn lemma_negotiation_within_tolerance(caps: DeviceCaps)
    requires
        caps.wf(),
    ensures
        negotiated_config(caps).channels == REQUESTED_CHANNELS,
        negotiated_config(caps).format == Format::S16,
        negotiated_config(caps).access == Access::RwInterleaved,
        caps.rates@.contains(negotiated_config(caps).rate),
        forall|i: int|
            0 <= i < caps.rates@.len() ==> crate::hwparams::rate_dist(
                negotiated_config(caps).rate,
                REQUESTED_RATE,
            ) <= crate::hwparams::rate_dist(caps.rates@[i], REQUESTED_RATE),
        caps.rates@.contains(REQUESTED_RATE) ==> negotiated_config(caps).rate == REQUESTED_RATE,
{
    lemma_nearest_rate_in(caps.rates@, REQUESTED_RATE);
    crate::hwparams::lemma_nearest_rate_minimal(caps.rates@, REQUESTED_RATE);
    if caps.rates@.contains(REQUESTED_RATE) {
        crate::hwparams::lemma_nearest_rate_exact(caps.rates@, REQUESTED_RATE);
    }
}

/// A single shortfall followed by a retry that completes in full makes
/// `push` return normally, reporting the recovery diagnostic exactly once,
/// with exactly one invocation of the native recovery primitive.
pub proof fn lemma_single_underrun_recovers(d: DirDevice, req: nat)
    requires
        d.short_at(0, req),
        d.recover_ok,
        !d.short_at(1, req),
    ensures
        push_spec(d, req) == Result::<bool, PushError>::Ok(true),
        push_recoveries(d, req) == 1,
{
}

/// Two consecutive shortfalls on the same `push` call are fatal — a double
/// underrun — and still invoke the native recovery primitive only once.
pub proof fn lemma_double_underrun_fatal(d: DirDevice, req: nat)
    requires
        d.short_at(0, req),
        d.recover_ok,
        d.short_at(1, req),
    ensures
        push_spec(d, req) == Result::<bool, PushError>::Err(PushError::DoubleUnderrun),
        push_recoveries(d, req) == 1,
{
}

/// An unopenable device name for an enabled direction makes some setup
/// step fail, so construction returns that error and no manager — hence no
/// stream that could reach `Running` — is ever handed out.
pub proof fn lemma_unopenable_terminates_setup(dev: DeviceModel, cfg: ManagerConfig)
    requires
        (cfg.speaker matches Some(n) && !openable(dev.playback, n@)) || (cfg.microphone
            matches Some(n) && !openable(dev.capture, n@)),
    ensures
        setup_error(dev, cfg) is Some,
{
}

/// Zero, one, or two directional streams behind a single facade. The
/// context outlives the streams; each stream's native resource is owned
/// exclusively here.
#[derive(Debug)]
pub struct AudioManager {
    pub context: AudioContext,
    pub speaker: Option<PcmStream>,
    pub microphone: Option<PcmStream>,
}

impl AudioManager {
    /// A live context, and each present stream well-formed and pointed the
    /// right way.
    pub open spec fn wf(self) -> bool {
        &&& self.context.wf()
        &&& match self.speaker {
            Some(s) => s.wf() && s.direction is Playback,
            None => true,
        }
        &&& match self.microphone {
            Some(m) => m.wf() && m.direction is Capture,
            None => true,
        }
    }

    /// Performs the full setup sequence over `dev`: acquire the subsystem,
    /// then for each enabled direction open the stream, negotiate and
    /// commit the fixed configuration, and re-read the applied values;
    /// finally ready playback (`Prepared`) and start capture (`Running`).
    /// Any failure terminates setup at that step with its error — before
    /// any later stream is opened or started — and yields no manager at
    /// all.
    pub fn new(dev: &DeviceModel, cfg: &ManagerConfig) -> (r: Result<AudioManager, SetupError>)
        requires
            dev.wf(),
        ensures
            r is Ok <==> setup_error(*dev, *cfg) is None,
            r matches Err(e) ==> Some(e) == setup_error(*dev, *cfg),
            r matches Ok(am) ==> {
                &&& am.wf()
                &&& (am.speaker is Some <==> cfg.speaker is Some)
                &&& (am.microphone is Some <==> cfg.microphone is Some)
                &&& match am.speaker {
                    Some(s) => s.state is Prepared && s.config == Some(
                        negotiated_config(dev.playback.caps),
                    ),
                    None => true,
                }
                &&& match am.microphone {
                    Some(m) => m.state is Running && m.config == Some(
                        negotiated_config(dev.capture.caps),
                    ),
                    None => true,
                }
            },
    {
        let context = match AudioContext::new(dev) {
            Ok(c) => c,
            Err(()) => {
                return Err(SetupError::Context);
            },
        };
        let mut speaker: Option<PcmStream> = None;
        match &cfg.speaker {
            Some(name) => {
                let mut pcm = match PcmStream::new(
                    &context,
                    &dev.playback,
                    name,
                    Direction::Playback,
                ) {
                    Ok(p) => p,
                    Err(_) => {
                        return Err(SetupError::Open(Direction::Playback));
                    },
                };
                match set_settings(&context, &dev.playback, &mut pcm) {
                    Ok(()) => {},
                    Err(_) => {
                        return Err(SetupError::Params(Direction::Playback));
                    },
                }
                // Trust the read-back values, not the request.
                let _applied = match pcm.hw_params_current(&context) {
                    Ok(c) => c,
                    Err(_) => {
                        return Err(SetupError::Params(Direction::Playback));
                    },
                };
                speaker = Some(pcm);
            },
            None => {},
        }
        let mut microphone: Option<PcmStream> = None;
        match &cfg.microphone {
            Some(name) => {
                let mut pcm = match PcmStream::new(
                    &context,
                    &dev.capture,
                    name,
                    Direction::Capture,
                ) {
                    Ok(p) => p,
                    Err(_) => {
                        return Err(SetupError::Open(Direction::Capture));
                    },
                };
                match set_settings(&context, &dev.capture, &mut pcm) {
                    Ok(()) => {},
                    Err(_) => {
                        return Err(SetupError::Params(Direction::Capture));
                    },
                }
                let _applied = match pcm.hw_params_current(&context) {
                    Ok(c) => c,
                    Err(_) => {
                        return Err(SetupError::Params(Direction::Capture));
                    },
                };
                microphone = Some(pcm);
            },
            None => {},
        }
        match &mut speaker {
            Some(pcm) => {
                match pcm.prepare(&context, &dev.playback) {
                    Ok(()) => {},
                    Err(_) => {
                        return Err(SetupError::Prepare);
                    },
                }
            },
            None => {},
        }
        match &mut microphone {
            Some(pcm) => {
                pcm.start(&context);
            },
            None => {},
        }
        Ok(AudioManager { context, speaker, microphone })
    }

    /// Writes `samples` to the playback stream under the xrun-recovery
    /// protocol. A prepared stream is brought to `Running` by its first
    /// write. The result is exactly [`push_spec`] of the device's pending
    /// script: `Ok(true)` reports the single recovered underrun (to be
    /// logged once by the caller), the error variants are the two fatal
    /// outcomes, and the native recovery primitive runs exactly
    /// [`push_recoveries`] times — never more than once.
    pub fn push(&mut self, dev: &mut DeviceModel, samples: &Vec<i16>) -> (r: Result<
        bool,
        PushError,
    >)
        requires
            old(self).wf(),
            old(self).speaker matches Some(s) && (s.state is Prepared || s.state is Running),
            old(dev).wf(),
            old(dev).playback.recover_calls < u64::MAX,
        ensures
            final(self).wf(),
            final(dev).wf(),
            r == push_spec(old(dev).playback, samples@.len()),
            final(dev).subsystem_ok == old(dev).subsystem_ok,
            final(dev).capture == old(dev).capture,
            final(dev).playback == (DirDevice {
                next_reply: scripted_advance(
                    old(dev).playback,
                    push_transfers(old(dev).playback, samples@.len()),
                ) as usize,
                recover_calls: (old(dev).playback.recover_calls + push_recoveries(
                    old(dev).playback,
                    samples@.len(),
                )) as u64,
                ..old(dev).playback
            }),
            final(self).context == old(self).context,
            final(self).microphone == old(self).microphone,
            final(self).speaker == Some(
                PcmStream {
                    state: if r is Ok {
                        StreamState::Running
                    } else {
                        StreamState::Failed
                    },
                    ..old(self).speaker->0
                },
            ),
    {
        let req = samples.len();
        match &mut self.speaker {
            Some(pcm) => {
                if matches!(pcm.state, StreamState::Prepared) {
                    pcm.start(&self.context);
                }
                let first = pcm.writei(&self.context, &mut dev.playback, samples);
                let o1 = match first {
                    Ok(n) => TransferOutcome::Wrote(n),
                    Err(_) => TransferOutcome::Failed,
                };
                match classify_write(req, o1) {
                    PushStep::Done(b) => Ok(b),
                    PushStep::Recover => {
                        let recovered = match pcm.recover(
                            &self.context,
                            &mut dev.playback,
                            XRUN_ERR,
                            true,
                        ) {
                            Ok(()) => true,
                            Err(_) => false,
                        };
                        match classify_recover(recovered) {
                            PushStep::Retry => {
                                let second = pcm.writei(&self.context, &mut dev.playback, samples);
                                let o2 = match second {
                                    Ok(n) => TransferOutcome::Wrote(n),
                                    Err(_) => TransferOutcome::Failed,
                                };
                                match classify_retry(req, o2) {
                                    PushStep::Done(b) => Ok(b),
                                    PushStep::Fatal(e) => {
                                        pcm.state = StreamState::Failed;
                                        Err(e)
                                    },
                                    _ => Err(PushError::DoubleUnderrun),
                                }
                            },
                            PushStep::Fatal(e) => Err(e),
                            _ => Err(PushError::RecoverFailed),
                        }
                    },
                    _ => Err(PushError::RecoverFailed),
                }
            },
            None => Err(PushError::RecoverFailed),
        }
    }

    /// Reads into `buffer` from the capture stream. Returns the frame
    /// count actually read — the first `n` elements of `buffer` are
    /// overwritten, the rest untouched — and `0` on any read error, which
    /// is silently degraded, never fatal: the manager, its streams, and
    /// the buffer are left exactly as they were.
    pub fn pull(&mut self, dev: &mut DeviceModel, buffer: &mut Vec<i16>) -> (n: usize)
        requires
            old(self).wf(),
            old(self).microphone matches Some(m) && m.state is Running,
            old(dev).wf(),
        ensures
            *final(self) == *old(self),
            final(dev).wf(),
            final(dev).subsystem_ok == old(dev).subsystem_ok,
            final(dev).playback == old(dev).playback,
            final(dev).capture == (DirDevice {
                next_reply: scripted_advance(old(dev).capture, 1) as usize,
                ..old(dev).capture
            }),
            n == old(dev).capture.frames_at(0, old(buffer)@.len()),
            old(dev).capture.errors_at(0) ==> n == 0 && final(buffer)@ == old(buffer)@,
            final(buffer)@.len() == old(buffer)@.len(),
            forall|j: int| 0 <= j < n ==> final(buffer)@[j] == old(dev).capture.capture_sample,
            forall|j: int|
                n <= j < old(buffer)@.len() ==> final(buffer)@[j] == old(buffer)@[j],
    {
        match &mut self.microphone {
            Some(pcm) => {
                let res = pcm.readi(&self.context, &mut dev.capture, buffer);
                let o = match res {
                    Ok(k) => TransferOutcome::Wrote(k),
                    Err(_) => TransferOutcome::Failed,
                };
                captured_frames(o)
            },
            None => 0,
        }
    }
}

} // verus!

