//! The multiplexed sensor array: the one-time bring-up sequence and the
//! per-cycle polling with calibration refresh, each as a state machine.
//!
//! Only the surrounding program can touch the bus, so it performs each step
//! and reports the outcome; every decision — which channel comes next, what a
//! failure means, what gets recorded — is made and proved here.

use crate::codec::Quaternion;
use vstd::prelude::*;

verus! {

/// Milliseconds the array settles after the bus is claimed, before any
/// channel is touched. One sequential wait, not one per channel.
pub const WARMUP_MS: u16 = 500;

/// The next outside step of the bring-up sequence.
pub enum BringUpAction {
    /// One-time settle wait after the bus is claimed.
    Wait(u16),
    /// Initialize the sensor on this channel.
    InitChannel(usize),
    /// Put the sensor on this channel into full-fusion mode.
    SetChannelMode(usize),
    /// Every channel is up; the listener may start.
    Ready,
}

#[derive(Clone, Copy, PartialEq, Eq, Structural, Debug)]
pub enum BringUpPhase {
    Warmup,
    Init,
    SetMode,
    Complete,
}

/// Why bring-up failed: the step and the channel index it failed on. Any
/// bring-up failure is fatal to the whole process.
#[derive(Clone, Copy, PartialEq, Eq, Structural, Debug)]
pub enum BringUpError {
    InitFailed(usize),
    SetModeFailed(usize),
}

impl BringUpError {
    /// The index of the channel whose bring-up step failed; the fatal
    /// message must name it.
    pub fn channel_index(&self) -> (i: usize)
        ensures
            match *self {
                BringUpError::InitFailed(at) => i == at,
                BringUpError::SetModeFailed(at) => i == at,
            },
    {
        match *self {
            BringUpError::InitFailed(at) => at,
            BringUpError::SetModeFailed(at) => at,
        }
    }
}

/// Bring-up: one settle wait, then, channel by channel in index order,
/// initialize and set full-fusion mode. The first failure aborts the whole
/// sequence.
pub struct BringUp {
    pub channel_count: usize,
    pub current: usize,
    pub phase: BringUpPhase,
}

impl BringUp {
    pub open spec fn wf(self) -> bool {
        match self.phase {
            BringUpPhase::Warmup => self.current == 0,
            BringUpPhase::Init => self.current < self.channel_count,
            BringUpPhase::SetMode => self.current < self.channel_count,
            BringUpPhase::Complete => self.current == self.channel_count,
        }
    }

    pub open spec fn done(self) -> bool {
        self.phase is Complete
    }

    pub fn new(channel_count: usize) -> (m: BringUp)
        ensures
            m.wf(),
            m.channel_count == channel_count,
            m.phase is Warmup,
    {
        BringUp { channel_count, current: 0, phase: BringUpPhase::Warmup }
    }

    /// The next step the program must perform.
    pub fn next_action(&self) -> (a: BringUpAction)
        requires
            self.wf(),
        ensures
            match self.phase {
                BringUpPhase::Warmup => a matches BringUpAction::Wait(ms) && ms == WARMUP_MS,
                BringUpPhase::Init => a matches BringUpAction::InitChannel(i) && i == self.current,
                BringUpPhase::SetMode => a matches BringUpAction::SetChannelMode(i) && i
                    == self.current,
                BringUpPhase::Complete => a matches BringUpAction::Ready,
            },
    {
        match self.phase {
            BringUpPhase::Warmup => BringUpAction::Wait(WARMUP_MS),
            BringUpPhase::Init => BringUpAction::InitChannel(self.current),
            BringUpPhase::SetMode => BringUpAction::SetChannelMode(self.current),
            BringUpPhase::Complete => BringUpAction::Ready,
        }
    }

    /// Records that the current step succeeded: the wait is followed by
    /// channel 0's init, a channel's init by its mode set, and a mode set by
    /// the next channel's init, until every channel is up.
    pub fn on_step_done(&mut self)
        requires
            old(self).wf(),
            !old(self).done(),
        ensures
            final(self).wf(),
            final(self).channel_count == old(self).channel_count,
            match old(self).phase {
                BringUpPhase::Warmup => if old(self).channel_count == 0 {
                    final(self).done()
                } else {
                    final(self).phase is Init && final(self).current == 0
                },
                BringUpPhase::Init => final(self).phase is SetMode && final(self).current == old(self).current,
                BringUpPhase::SetMode => if old(self).current + 1 == old(self).channel_count {
                    final(self).done()
                } else {
                    final(self).phase is Init && final(self).current == old(self).current + 1
                },
                BringUpPhase::Complete => false,
            },
    {
        match self.phase {
            BringUpPhase::Warmup => {
                if self.channel_count == 0 {
                    self.phase = BringUpPhase::Complete;
                } else {
                    self.phase = BringUpPhase::Init;
                }
            },
            BringUpPhase::Init => {
                self.phase = BringUpPhase::SetMode;
            },
            BringUpPhase::SetMode => {
                self.current = self.current + 1;
                if self.current == self.channel_count {
                    self.phase = BringUpPhase::Complete;
                } else {
                    self.phase = BringUpPhase::Init;
                }
            },
            BringUpPhase::Complete => {},
        }
    }

    /// What failure of the current step means: the fatal error to terminate
    /// with, naming the failing channel. The wait cannot fail, and nothing
    /// is left to fail once bring-up is complete.
    pub fn failure(&self) -> (e: Option<BringUpError>)
        ensures
            match self.phase {
                BringUpPhase::Init => e == Some(BringUpError::InitFailed(self.current)),
                BringUpPhase::SetMode => e == Some(BringUpError::SetModeFailed(self.current)),
                _ => e is None,
            },
    {
        match self.phase {
            BringUpPhase::Init => Some(BringUpError::InitFailed(self.current)),
            BringUpPhase::SetMode => Some(BringUpError::SetModeFailed(self.current)),
            _ => None,
        }
    }
}

/// Where a poll cycle stands within the current channel.
pub enum PollStage {
    /// The channel's quaternion has not been read yet this cycle.
    ReadPending,
    /// The read succeeded; the calibration-complete status is to be queried.
    CalibrationPending,
    /// The channel reports fully calibrated; its profile is to be read.
    ProfilePending,
    /// The profile was read; it is to be written straight back.
    WriteBackPending(Vec<u8>),
}

/// The next outside step of a poll cycle.
pub enum PollAction {
    ReadQuaternion(usize),
    QueryCalibration(usize),
    ReadProfile(usize),
    /// Write the held profile back to this channel's sensor (best effort).
    WriteProfile(usize),
    /// Every channel was handled; the readings are complete.
    Finished,
}

/// One poll cycle over the array: channels strictly in index order, exactly
/// one reading recorded per channel, calibration refreshed after each
/// successful read. A failed step only ends that channel's part of the
/// cycle; it never crosses into another channel's result.
pub struct PollCycle {
    pub channel_count: usize,
    pub current: usize,
    pub stage: PollStage,
    pub readings: Vec<Option<Quaternion>>,
}

impl PollCycle {
    pub open spec fn wf(self) -> bool {
        &&& self.current <= self.channel_count
        &&& match self.stage {
            PollStage::ReadPending => self.readings@.len() == self.current,
            _ => self.current < self.channel_count && self.readings@.len() == self.current + 1
                && self.readings@[self.current as int] is Some,
        }
    }

    /// All channels handled this cycle.
    pub open spec fn done(self) -> bool {
        self.current == self.channel_count
    }

    pub fn new(channel_count: usize) -> (c: PollCycle)
        ensures
            c.wf(),
            c.channel_count == channel_count,
            c.current == 0,
            c.readings@ == Seq::<Option<Quaternion>>::empty(),
            c.stage is ReadPending,
    {
        PollCycle { channel_count, current: 0, stage: PollStage::ReadPending, readings: Vec::new() }
    }

    /// The next step the program must perform on the bus.
    pub fn next_action(&self) -> (a: PollAction)
        requires
            self.wf(),
        ensures
            self.done() ==> (a matches PollAction::Finished),
            !self.done() ==> match self.stage {
                PollStage::ReadPending => a matches PollAction::ReadQuaternion(i) && i
                    == self.current,
                PollStage::CalibrationPending => a matches PollAction::QueryCalibration(i) && i
                    == self.current,
                PollStage::ProfilePending => a matches PollAction::ReadProfile(i) && i
                    == self.current,
                PollStage::WriteBackPending(_) => a matches PollAction::WriteProfile(i) && i
                    == self.current,
            },
    {
        if self.current == self.channel_count {
            PollAction::Finished
        } else {
            match &self.stage {
                PollStage::ReadPending => PollAction::ReadQuaternion(self.current),
                PollStage::CalibrationPending => PollAction::QueryCalibration(self.current),
                PollStage::ProfilePending => PollAction::ReadProfile(self.current),
                PollStage::WriteBackPending(_) => PollAction::WriteProfile(self.current),
            }
        }
    }

    /// Records the outcome of reading the current channel's quaternion.
    /// Success records the reading and moves on to the calibration query;
    /// failure records nothing — the reply will carry a zero block at
    /// exactly this index — and the cycle moves to the next channel.
    pub fn on_read(&mut self, reading: Option<Quaternion>)
        requires
            old(self).wf(),
            !old(self).done(),
            old(self).stage is ReadPending,
        ensures
            final(self).wf(),
            final(self).channel_count == old(self).channel_count,
            final(self).readings@ == old(self).readings@.push(reading),
            match reading {
                Some(_) => final(self).current == old(self).current && final(self).stage is CalibrationPending,
                None => final(self).current == old(self).current + 1 && final(self).stage is ReadPending,
            },
    {
        self.readings.push(reading);
        match reading {
            Some(_) => {
                self.stage = PollStage::CalibrationPending;
            },
            None => {
                self.current = self.current + 1;
            },
        }
    }

    /// Records the calibration-status answer. Only a definite "fully
    /// calibrated" leads on to the profile read; "not calibrated" and a
    /// failed query both end this channel's part of the cycle.
    pub fn on_calibration(&mut self, calibrated: Option<bool>)
        requires
            old(self).wf(),
            old(self).stage is CalibrationPending,
        ensures
            final(self).wf(),
            final(self).channel_count == old(self).channel_count,
            final(self).readings@ == old(self).readings@,
            calibrated == Some(true) ==> final(self).current == old(self).current && final(self).stage is ProfilePending,
            calibrated != Some(true) ==> final(self).current == old(self).current + 1 && final(self).stage is ReadPending,
    {
        match calibrated {
            Some(true) => {
                self.stage = PollStage::ProfilePending;
            },
            _ => {
                self.stage = PollStage::ReadPending;
                self.current = self.current + 1;
            },
        }
    }

    /// Records the profile read. A profile in hand is held to be written
    /// straight back; a failed read skips the refresh silently and ends this
    /// channel's part of the cycle.
    pub fn on_profile(&mut self, profile: Option<Vec<u8>>)
        requires
            old(self).wf(),
            old(self).stage is ProfilePending,
        ensures
            final(self).wf(),
            final(self).channel_count == old(self).channel_count,
            final(self).readings@ == old(self).readings@,
            match profile {
                Some(p) => final(self).current == old(self).current && (final(self).stage
                    matches PollStage::WriteBackPending(held) && held == p),
                None => final(self).current == old(self).current + 1 && final(self).stage is ReadPending,
            },
    {
        match profile {
            Some(p) => {
                self.stage = PollStage::WriteBackPending(p);
            },
            None => {
                self.stage = PollStage::ReadPending;
                self.current = self.current + 1;
            },
        }
    }

    /// The profile held for write-back, if the cycle stands at that step:
    /// what is written back is exactly what was read.
    pub fn profile_to_write(&self) -> (p: Option<&Vec<u8>>)
        ensures
            match self.stage {
                PollStage::WriteBackPending(held) => p matches Some(q) && *q == held,
                _ => p is None,
            },
    {
        match &self.stage {
            PollStage::WriteBackPending(held) => Some(held),
            _ => None,
        }
    }

    /// Records the write-back outcome and ends this channel's part of the
    /// cycle. A failure is the program's to log as a warning naming the
    /// channel; the cycle continues either way.
    pub fn on_write_back(&mut self, write_succeeded: bool)
        requires
            old(self).wf(),
            old(self).stage matches PollStage::WriteBackPending(_),
        ensures
            final(self).wf(),
            final(self).channel_count == old(self).channel_count,
            final(self).readings@ == old(self).readings@,
            final(self).current == old(self).current + 1,
            final(self).stage is ReadPending,
    {
        self.stage = PollStage::ReadPending;
        self.current = self.current + 1;
    }

    /// Hands the finished cycle's readings out: exactly one per channel, in
    /// index order.
    pub fn into_readings(self) -> (r: Vec<Option<Quaternion>>)
        requires
            self.wf(),
            self.done(),
        ensures
            r@ == self.readings@,
            r@.len() == self.channel_count,
    {
        self.readings
    }
}

} // verus!
