//! State bookkeeping for an audio playback adapter.
//!
//! The player keeps a volume level and records whether it currently owns a
//! playback sink together with the output stream that drives the device.
//! Decoding, mixing and device output belong to the host's audio stack; the
//! host reports the outcome of each of those steps (whether a device and a
//! sink could be acquired, whether the sink's queue is drained), and this
//! type decides, from its own state and that report, what the answer is and
//! which handles are kept.

use vstd::prelude::*;

verus! {

/// The state of the playback adapter.
///
/// `volume` carries the bit pattern of the normalized volume (an `f32` in
/// the host), so that the level is kept exactly without any floating-point
/// arithmetic here.
pub struct Player {
    volume: u32,
    has_sink: bool,
    has_stream: bool,
}

impl Player {
    /// The sink owns the playback queue and the output stream owns the
    /// device handle; they are acquired and released together, so one is
    /// never held without the other.
    #[verifier::type_invariant]
    spec fn handles_paired(self) -> bool {
        self.has_sink == self.has_stream
    }

    /// Whether a sink (and hence an output stream) is currently held.
    pub closed spec fn is_active(self) -> bool {
        self.has_sink && self.has_stream
    }

    /// The bit pattern of the volume last stored.
    pub closed spec fn volume_bits(self) -> u32 {
        self.volume
    }

    /// What `empty` reports: a player with no sink is empty; otherwise the
    /// state of the sink's queue decides.
    pub open spec fn reports_empty(self, queue_drained: bool) -> bool {
        !self.is_active() || queue_drained
    }

    /// What `play` decides: playback resumes exactly when a sink is held
    /// and its queue still has something to play.
    pub open spec fn may_resume(self, queue_drained: bool) -> bool {
        self.is_active() && !queue_drained
    }

    /// A player starts with no handles and with volume zero.
    pub fn new() -> (p: Player)
        ensures
            !p.is_active(),
            p.volume_bits() == 0,
    {
        Player { volume: 0, has_sink: false, has_stream: false }
    }

    /// Replace whatever was loaded before. `acquired` is the host's report
    /// of whether an output device and a sink on it could be obtained (and
    /// the decoded buffer queued): on success the player holds the new
    /// handles, on failure it is left empty, and the report is passed on as
    /// the result. The stored volume — which the host applies to the new
    /// sink — is kept either way.
    pub fn load(&mut self, acquired: bool) -> (r: bool)
        ensures
            final(self).is_active() == acquired,
            final(self).volume_bits() == old(self).volume_bits(),
            r == acquired,
    {
        let level = self.volume;
        *self = Player { volume: level, has_sink: acquired, has_stream: acquired };
        acquired
    }

    /// Decide whether playback resumes, given the host's report of whether
    /// the sink's queue is drained. The result is true exactly when a sink
    /// is held and its queue is not drained; only then does the host resume
    /// the sink. With no sink, or with a drained queue, the player reports
    /// failure and nothing is resumed. The state does not change.
    pub fn play(&mut self, queue_drained: bool) -> (resumed: bool)
        ensures
            *final(self) == *old(self),
            resumed == old(self).may_resume(queue_drained),
    {
        proof {
            use_type_invariant(&*self);
        }
        if self.has_sink {
            !queue_drained
        } else {
            false
        }
    }

    /// Decide whether a pause is forwarded to a sink: it is exactly when a
    /// sink is held, and it is a no-op otherwise. The state does not change.
    pub fn pause(&mut self) -> (forward: bool)
        ensures
            *final(self) == *old(self),
            forward == old(self).is_active(),
    {
        proof {
            use_type_invariant(&*self);
        }
        self.has_sink
    }

    /// Release both handles. The result says whether a sink was held, so
    /// that the host stops it and drops its handles too; with no sink this
    /// is a no-op. Afterwards the player is empty; the volume is kept.
    pub fn stop(&mut self) -> (released: bool)
        ensures
            !final(self).is_active(),
            final(self).volume_bits() == old(self).volume_bits(),
            released == old(self).is_active(),
            !old(self).is_active() ==> *final(self) == *old(self),
    {
        proof {
            use_type_invariant(&*self);
        }
        if self.has_sink {
            let level = self.volume;
            *self = Player { volume: level, has_sink: false, has_stream: false };
            true
        } else {
            false
        }
    }

    /// Store a new volume level (the bit pattern of the normalized value)
    /// and say whether the host applies it to a sink. With no sink this is
    /// a no-op: nothing is stored and nothing is applied.
    pub fn set_volume(&mut self, level_bits: u32) -> (applied: bool)
        ensures
            final(self).is_active() == old(self).is_active(),
            applied == old(self).is_active(),
            old(self).is_active() ==> final(self).volume_bits() == level_bits,
            !old(self).is_active() ==> *final(self) == *old(self),
    {
        proof {
            use_type_invariant(&*self);
        }
        if self.has_sink {
            let keep_sink = self.has_sink;
            let keep_stream = self.has_stream;
            *self = Player { volume: level_bits, has_sink: keep_sink, has_stream: keep_stream };
            true
        } else {
            false
        }
    }

    /// Report emptiness, given the host's report of whether the sink's
    /// queue is drained: true when no sink is held or the queue is drained.
    pub fn empty(&self, queue_drained: bool) -> (r: bool)
        ensures
            r == self.reports_empty(queue_drained),
    {
        proof {
            use_type_invariant(self);
        }
        if self.has_sink {
            queue_drained
        } else {
            true
        }
    }

    /// The stored volume, as the bit pattern of the normalized value; the
    /// host reads it to set the level on a freshly acquired sink.
    pub fn current_volume(&self) -> (bits: u32)
        ensures
            bits == self.volume_bits(),
    {
        self.volume
    }
}

/// A player that holds no sink reports empty whatever the host says of a
/// queue. Stopping releases the handles, so after a stop `empty` reports
/// true, whatever state the device was left in.
pub proof fn lemma_inactive_reports_empty(p: Player, queue_drained: bool)
    requires
        !p.is_active(),
    ensures
        p.reports_empty(queue_drained),
{
}

/// A player whose load succeeded — the handles acquired and the decoded
/// buffer just queued, so the queue is not drained — is playable: it does
/// not report empty, and `play` resumes it.
pub proof fn lemma_loaded_is_playable(p: Player)
    requires
        p.is_active(),
    ensures
        !p.reports_empty(false),
        p.may_resume(false),
{
}

} // verus!
