//! One directional PCM connection to a device: lifecycle state machine and
//! blocking sample transfer.
//!
//! States move `Unopened -> Opened -> Configured -> Prepared -> Running`,
//! with `Failed` terminal. Opening produces an `Opened` stream, so a stream
//! value is never observed `Unopened`. Transfers are strictly sequential
//! and valid only while `Running`; a transfer that moves fewer frames than
//! requested signals an xrun and is the recovery protocol's concern, not
//! this module's.

use vstd::prelude::*;

use crate::device::{AudioContext, DirDevice, TransferReply};
use crate::hwparams::{AppliedConfig, HwParams};

verus! {

/// Which way samples flow.
#[derive(Clone, Copy, PartialEq, Eq, Structural, Debug)]
pub enum Direction {
    Playback,
    Capture,
}

/// Lifecycle state of one stream.
#[derive(Clone, Copy, PartialEq, Eq, Structural, Debug)]
pub enum StreamState {
    Unopened,
    Opened,
    Configured,
    Prepared,
    Running,
    Failed,
}

/// The device could not be opened: the name resolves to no device, or the
/// device is exclusively held by another process.
#[derive(Clone, Copy, PartialEq, Eq, Structural, Debug)]
pub struct OpenError;

/// A transfer failed outright (not an xrun shortfall).
#[derive(Clone, Copy, PartialEq, Eq, Structural, Debug)]
pub struct TransferError;

/// One directional connection to a device. The native handle underneath is
/// a unique resource: the stream is neither copyable nor shared.
#[derive(Debug)]
pub struct PcmStream {
    pub direction: Direction,
    pub state: StreamState,
    pub config: Option<AppliedConfig>,
}

impl PcmStream {
    /// A stream carries a configuration exactly from `Configured` onwards.
    pub open spec fn wf(self) -> bool {
        &&& self.state is Unopened ==> self.config is None
        &&& self.state is Opened ==> self.config is None
        &&& (self.state is Configured || self.state is Prepared || self.state is Running)
            ==> self.config is Some
    }

    /// Whether the stream answers capability enumeration: any live state.
    pub open spec fn enumerable(self) -> bool {
        ||| self.state is Opened
        ||| self.state is Configured
        ||| self.state is Prepared
        ||| self.state is Running
    }

    /// Exec twin of [`Self::enumerable`].
    pub fn can_enumerate(&self) -> (b: bool)
        ensures
            b == self.enumerable(),
    {
        match self.state {
            StreamState::Opened => true,
            StreamState::Configured => true,
            StreamState::Prepared => true,
            StreamState::Running => true,
            _ => false,
        }
    }

    /// Opens the device `name` for `direction`. Succeeds iff the name
    /// resolves to this device and no other process holds it; the new
    /// stream is `Opened` and unconfigured. Failure is terminal for setup:
    /// no fallback device is attempted.
    pub fn new(ctx: &AudioContext, dev: &DirDevice, name: &String, direction: Direction) -> (r:
        Result<PcmStream, OpenError>)
        requires
            ctx.wf(),
        ensures
            r is Ok <==> (name@ == dev.name@ && !dev.busy),
            r matches Ok(pcm) ==> pcm == (PcmStream {
                direction,
                state: StreamState::Opened,
                config: None::<AppliedConfig>,
            }),
    {
        if *name == dev.name && !dev.busy {
            Ok(PcmStream { direction, state: StreamState::Opened, config: None })
        } else {
            Err(OpenError)
        }
    }

    /// Commits a fully constrained parameter set: `Opened -> Configured`.
    /// Fails iff the stream is not freshly opened, the set is incomplete,
    /// or the combination falls outside the envelope; the stream is then
    /// left as it was. On success the stream records the configuration the
    /// device placed in effect, including its buffer and period sizes.
    pub fn hw_params(&mut self, ctx: &AudioContext, dev: &DirDevice, hwp: &HwParams) -> (r: Result<
        (),
        crate::hwparams::ParamError,
    >)
        requires
            ctx.wf(),
            old(self).wf(),
        ensures
            final(self).wf(),
            r is Ok <==> (old(self).state is Opened && hwp.complete() && hwp.within(dev.caps)),
            r is Ok ==> *final(self) == (PcmStream {
                state: StreamState::Configured,
                config: Some(
                    AppliedConfig {
                        channels: hwp.channels->0,
                        rate: hwp.rate->0,
                        format: hwp.format->0,
                        access: hwp.access->0,
                        buffer_size: dev.caps.buffer_size,
                        period_size: dev.caps.period_size,
                    },
                ),
                ..*old(self)
            }),
            r is Err ==> *final(self) == *old(self) && r == Err::<(), crate::hwparams::ParamError>(
                crate::hwparams::ParamError::Apply,
            ),
    {
        if !(matches!(self.state, StreamState::Opened)) {
            return Err(crate::hwparams::ParamError::Apply);
        }
        let (channels, rate, format, access) = match (hwp.channels, hwp.rate, hwp.format,
        hwp.access) {
            (Some(c), Some(r), Some(f), Some(a)) => (c, r, f, a),
            _ => {
                return Err(crate::hwparams::ParamError::Apply);
            },
        };
        if !(dev.caps.min_channels <= channels && channels <= dev.caps.max_channels) {
            return Err(crate::hwparams::ParamError::Apply);
        }
        if !crate::hwparams::rates_contain(&dev.caps.rates, rate) {
            return Err(crate::hwparams::ParamError::Apply);
        }
        if !dev.caps.supports_s16 || !dev.caps.supports_interleaved {
            return Err(crate::hwparams::ParamError::Apply);
        }
        self.state = StreamState::Configured;
        self.config = Some(
            AppliedConfig {
                channels,
                rate,
                format,
                access,
                buffer_size: dev.caps.buffer_size,
                period_size: dev.caps.period_size,
            },
        );
        Ok(())
    }

    /// Re-reads the configuration the device actually placed in effect.
    /// Succeeds iff the stream has been configured; the values may differ
    /// from what was requested (notably a nearest-matched rate) and are the
    /// ones a caller must trust.
    pub fn hw_params_current(&self, ctx: &AudioContext) -> (r: Result<AppliedConfig, OpenError>)
        requires
            ctx.wf(),
            self.wf(),
        ensures
            r is Ok <==> (self.state is Configured || self.state is Prepared
                || self.state is Running),
            r matches Ok(c) ==> Some(c) == self.config,
    {
        match self.state {
            StreamState::Configured | StreamState::Prepared | StreamState::Running => {
                match &self.config {
                    Some(c) => Ok(*c),
                    None => Err(OpenError),
                }
            },
            _ => Err(OpenError),
        }
    }

    /// Readies a configured playback stream for its first write:
    /// `Configured -> Prepared`. Fails iff the device was disconnected
    /// between configuration and now, or the stream is not configured; a
    /// disconnected device leaves the stream `Failed`.
    pub fn prepare(&mut self, ctx: &AudioContext, dev: &DirDevice) -> (r: Result<(), OpenError>)
        requires
            ctx.wf(),
            old(self).wf(),
            old(self).direction is Playback,
        ensures
            final(self).wf(),
            r is Ok <==> (old(self).state is Configured && !dev.disconnected),
            r is Ok ==> *final(self) == (PcmStream { state: StreamState::Prepared, ..*old(self) }),
            r is Err && old(self).state is Configured ==> *final(self) == (PcmStream {
                state: StreamState::Failed,
                ..*old(self)
            }),
            r is Err && !(old(self).state is Configured) ==> *final(self) == *old(self),
    {
        match self.state {
            StreamState::Configured => {
                if dev.disconnected {
                    self.state = StreamState::Failed;
                    Err(OpenError)
                } else {
                    self.state = StreamState::Prepared;
                    Ok(())
                }
            },
            _ => Err(OpenError),
        }
    }

    /// Starts the stream: `Prepared | Configured -> Running`. For capture
    /// this is invoked straight after configuration, so the input buffer
    /// begins filling before samples are pulled.
    pub fn start(&mut self, ctx: &AudioContext)
        requires
            ctx.wf(),
            old(self).wf(),
            old(self).state is Prepared || old(self).state is Configured,
        ensures
            final(self).wf(),
            *final(self) == (PcmStream { state: StreamState::Running, ..*old(self) }),
    {
        self.state = StreamState::Running;
    }

    /// Writes interleaved samples to a running playback stream, blocking
    /// until the device has taken what it will. Returns the frame count the
    /// device accepted: fewer than requested is an xrun. An outright error
    /// consumes the device's scripted outcome like any transfer but moves
    /// no frames; the stream itself is left `Running` either way — fatality
    /// is the recovery protocol's decision, not this call's.
    pub fn writei(&mut self, ctx: &AudioContext, dev: &mut DirDevice, buffer: &Vec<i16>) -> (r:
        Result<usize, TransferError>)
        requires
            ctx.wf(),
            old(self).wf(),
            old(self).state is Running,
            old(dev).wf(),
        ensures
            *final(self) == *old(self),
            final(dev).wf(),
            *final(dev) == (DirDevice { next_reply: final(dev).next_reply, ..*old(dev) }),
            final(dev).next_reply == if old(dev).next_reply < old(dev).replies@.len() {
                old(dev).next_reply + 1
            } else {
                old(dev).next_reply as int
            },
            r is Ok <==> !old(dev).errors_at(0),
            r matches Ok(n) ==> n == old(dev).frames_at(0, buffer@.len()),
    {
        self.take_reply(dev, buffer.len())
    }

    /// Reads interleaved samples from a running capture stream, blocking
    /// until the device has produced what it will. On success the first
    /// `n` returned frames overwrite the front of `buffer` and the rest of
    /// the buffer is untouched; on an outright error the buffer is
    /// untouched. As with writes, the stream stays `Running`.
    pub fn readi(&mut self, ctx: &AudioContext, dev: &mut DirDevice, buffer: &mut Vec<i16>) -> (r:
        Result<usize, TransferError>)
        requires
            ctx.wf(),
            old(self).wf(),
            old(self).state is Running,
            old(dev).wf(),
        ensures
            *final(self) == *old(self),
            final(dev).wf(),
            *final(dev) == (DirDevice { next_reply: final(dev).next_reply, ..*old(dev) }),
            final(dev).next_reply == if old(dev).next_reply < old(dev).replies@.len() {
                old(dev).next_reply + 1
            } else {
                old(dev).next_reply as int
            },
            r is Ok <==> !old(dev).errors_at(0),
            final(buffer)@.len() == old(buffer)@.len(),
            r matches Ok(n) ==> {
                &&& n == old(dev).frames_at(0, old(buffer)@.len())
                &&& forall|j: int|
                    0 <= j < n ==> final(buffer)@[j] == old(dev).capture_sample
                &&& forall|j: int|
                    n <= j < old(buffer)@.len() ==> final(buffer)@[j] == old(buffer)@[j]
            },
            r is Err ==> final(buffer)@ == old(buffer)@,
    {
        let req = buffer.len();
        let outcome = self.take_reply(dev, req);
        match outcome {
            Ok(n) => {
                let mut j: usize = 0;
                while j < n
                    invariant
                        j <= n <= buffer@.len(),
                        buffer@.len() == old(buffer)@.len(),
                        forall|k: int| 0 <= k < j ==> buffer@[k] == dev.capture_sample,
                        forall|k: int| j <= k < buffer@.len() ==> buffer@[k] == old(buffer)@[k],
                        dev.capture_sample == old(dev).capture_sample,
                    decreases n - j,
                {
                    let s = dev.capture_sample;
                    buffer[j] = s;
                    j = j + 1;
                }
                Ok(n)
            },
            Err(e) => Err(e),
        }
    }

    /// Consumes the device's next scripted outcome for one transfer of
    /// `req` frames. An exhausted script is a healthy device: the full
    /// request is accepted.
    fn take_reply(&self, dev: &mut DirDevice, req: usize) -> (r: Result<usize, TransferError>)
        requires
            old(dev).wf(),
        ensures
            final(dev).wf(),
            *final(dev) == (DirDevice { next_reply: final(dev).next_reply, ..*old(dev) }),
            final(dev).next_reply == if old(dev).next_reply < old(dev).replies@.len() {
                old(dev).next_reply + 1
            } else {
                old(dev).next_reply as int
            },
            r is Ok <==> !old(dev).errors_at(0),
            r matches Ok(n) ==> n == old(dev).frames_at(0, req as nat),
    {
        if dev.next_reply < dev.replies.len() {
            let reply = dev.replies[dev.next_reply];
            dev.next_reply = dev.next_reply + 1;
            match reply {
                TransferReply::Accept(n) => {
                    if n <= req {
                        Ok(n)
                    } else {
                        Ok(req)
                    }
                },
                TransferReply::Error => Err(TransferError),
            }
        } else {
            Ok(req)
        }
    }

    /// Recovers from an xrun by re-priming the device buffer, emitting no
    /// further diagnostics when `silent`. `err` is the error value being
    /// recovered from, as the device reported it. Succeeds iff the device's
    /// recovery primitive does; failure leaves the stream `Failed` (there
    /// is no further fallback). Counts one invocation of the native
    /// primitive either way.
    pub fn recover(&mut self, ctx: &AudioContext, dev: &mut DirDevice, err: i32, silent: bool) -> (
    r: Result<(), TransferError>)
        requires
            ctx.wf(),
            old(self).wf(),
            old(self).state is Running,
            old(dev).wf(),
            old(dev).recover_calls < u64::MAX,
        ensures
            final(self).wf(),
            final(dev).wf(),
            *final(dev) == (DirDevice {
                recover_calls: (old(dev).recover_calls + 1) as u64,
                ..*old(dev)
            }),
            r is Ok <==> old(dev).recover_ok,
            r is Ok ==> *final(self) == *old(self),
            r is Err ==> *final(self) == (PcmStream { state: StreamState::Failed, ..*old(self) }),
    {
        dev.recover_calls = dev.recover_calls + 1;
        if dev.recover_ok {
            Ok(())
        } else {
            self.state = StreamState::Failed;
            Err(TransferError)
        }
    }
}

} // verus!
