//! The device model: a plain-data stand-in for the native audio subsystem.
//!
//! Each direction (playback, capture) is one [`DirDevice`]: an openable name,
//! a capability envelope, and a script of transfer outcomes. A host binding
//! mirrors a real driver into this shape; tests build the devices directly.

use vstd::prelude::*;

verus! {

/// One outcome the device produces for a single transfer request.
///
/// `Accept(n)` means the device moved `min(n, requested)` frames before the
/// period deadline hit (a value below the request is an xrun); `Error` is any
/// other transfer failure.
#[derive(Clone, Copy, PartialEq, Eq, Structural)]
pub enum TransferReply {
    Accept(usize),
    Error,
}

/// The capability envelope one direction of the device reports.
pub struct DeviceCaps {
    /// Smallest channel count the device supports.
    pub min_channels: u32,
    /// Largest channel count the device supports.
    pub max_channels: u32,
    /// Every sample rate (Hz) the device supports, in no particular order.
    pub rates: Vec<u32>,
    /// Whether 16-bit signed samples are supported.
    pub supports_s16: bool,
    /// Whether interleaved access is supported.
    pub supports_interleaved: bool,
    /// Buffer size (frames) the device places in effect on apply.
    pub buffer_size: u64,
    /// Period size (frames) the device places in effect on apply.
    pub period_size: u64,
}

impl DeviceCaps {
    /// A usable envelope: at least one channel count and one rate.
    pub open spec fn wf(self) -> bool {
        &&& 1 <= self.min_channels <= self.max_channels
        &&& self.rates@.len() > 0
    }
}

/// One direction of the simulated device.
pub struct DirDevice {
    /// The name under which this device can be opened.
    pub name: String,
    /// Exclusively held by another process: opening fails.
    pub busy: bool,
    /// Unplugged after configuration: prepare fails.
    pub disconnected: bool,
    /// The capability envelope this direction reports.
    pub caps: DeviceCaps,
    /// Scripted outcomes, consumed one per transfer; once exhausted the
    /// device behaves healthily and accepts every request in full.
    pub replies: Vec<TransferReply>,
    /// Index of the next scripted outcome to consume.
    pub next_reply: usize,
    /// Whether re-priming the device buffer succeeds.
    pub recover_ok: bool,
    /// How many times the recover primitive has been invoked.
    pub recover_calls: u64,
    /// The sample value this device produces on capture.
    pub capture_sample: i16,
}

impl DirDevice {
    pub open spec fn wf(self) -> bool {
        &&& self.caps.wf()
        &&& self.next_reply <= self.replies@.len()
    }

    /// The scripted reply `i` transfers from now, if the script reaches it.
    pub open spec fn reply_at(self, i: int) -> Option<TransferReply> {
        if self.next_reply + i < self.replies@.len() {
            Some(self.replies@[self.next_reply + i])
        } else {
            None
        }
    }

    /// Frames the device moves for the transfer `i` requests from now, when
    /// `req` frames are requested: an error moves none, an exhausted script
    /// accepts everything, and an acceptance is capped by the request.
    pub open spec fn frames_at(self, i: int, req: nat) -> nat {
        match self.reply_at(i) {
            Some(TransferReply::Accept(n)) => if n <= req {
                n as nat
            } else {
                req
            },
            Some(TransferReply::Error) => 0,
            None => req,
        }
    }

    /// Whether the transfer `i` requests from now fails outright.
    pub open spec fn errors_at(self, i: int) -> bool {
        self.reply_at(i) == Some(TransferReply::Error)
    }

    /// Whether the transfer `i` requests from now falls short of `req`
    /// frames: an xrun (or an error, which the playback path treats the
    /// same, as zero frames moved).
    pub open spec fn short_at(self, i: int, req: nat) -> bool {
        self.frames_at(i, req) < req
    }
}

/// The whole simulated subsystem: one device per direction, plus whether the
/// subsystem itself can be initialized.
pub struct DeviceModel {
    /// The subsystem handle can be acquired at all.
    pub subsystem_ok: bool,
    /// The playback-side device.
    pub playback: DirDevice,
    /// The capture-side device.
    pub capture: DirDevice,
}

impl DeviceModel {
    pub open spec fn wf(self) -> bool {
        &&& self.playback.wf()
        &&& self.capture.wf()
    }
}

/// The process-wide handle to the native audio subsystem. Every other
/// operation takes it by reference; it is acquired once per manager.
#[derive(Debug)]
pub struct AudioContext {
    ok: bool,
}

impl AudioContext {
    pub closed spec fn wf(self) -> bool {
        self.ok
    }

    /// Acquires the subsystem handle. There is no recoverable path: a
    /// subsystem that cannot be initialized fails construction outright.
    pub fn new(dev: &DeviceModel) -> (r: Result<AudioContext, ()>)
        ensures
            r is Ok <==> dev.subsystem_ok,
            r is Ok ==> r->Ok_0.wf(),
    {
        if dev.subsystem_ok {
            Ok(AudioContext { ok: true })
        } else {
            Err(())
        }
    }
}

} // verus!
