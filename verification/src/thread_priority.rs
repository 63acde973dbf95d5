use vstd::prelude::*;
use audio_thread_priority::{RtPriorityHandle, AudioThreadPriorityError};

verus! {

#[verifier::external_type_specification]
#[verifier::external_body]
pub struct ExRtPriorityHandle(RtPriorityHandle);

#[verifier::external_type_specification]
#[verifier::external_body]
pub struct ExAudioThreadPriorityError(AudioThreadPriorityError);

/// Sample rate passed when promoting a callback thread.
pub const CALLBACK_SAMPLE_RATE: u32 = 48000;

/// The real-time priority state of one thread: the token that undoes the
/// promotion while the thread is promoted.
pub struct PriorityState<H> {
    slot: Option<H>,
}

impl<H> PriorityState<H> {
    pub closed spec fn token(&self) -> Option<H> {
        self.slot
    }

    pub fn new() -> (s: PriorityState<H>)
        ensures
            s.token() is None,
    {
        PriorityState { slot: None }
    }

    pub fn is_promoted(&self) -> (r: bool)
        ensures
            r == self.token() is Some,
    {
        self.slot.is_some()
    }

    /// Records the outcome of a promotion attempt made while not promoted: a
    /// token is kept, a failure leaves the thread as it was.
    pub fn record_promotion<E>(&mut self, outcome: Result<H, E>)
        requires
            old(self).token() is None,
        ensures
            final(self).token() == match outcome {
                Ok(h) => Some(h),
                Err(_) => None,
            },
    {
        match outcome {
            Ok(handle) => {
                self.slot = Some(handle);
            },
            Err(_) => {},
        }
    }

    /// Gives up the token to undo the promotion, if the thread is promoted.
    pub fn take(&mut self) -> (h: Option<H>)
        ensures
            h == old(self).token(),
            final(self).token() is None,
    {
        self.slot.take()
    }
}

/// `audio_thread_priority::promote_current_thread_to_real_time`: raises the
/// calling thread to real-time priority.  It fails for a zero sample rate;
/// otherwise the outcome depends on the operating system, so nothing more is
/// claimed of it.
#[verifier::external_body]
fn os_promote_current_thread(
    audio_buffer_frames: u32,
    audio_samplerate_hz: u32,
) -> (r: Result<RtPriorityHandle, AudioThreadPriorityError>)
    ensures
        audio_samplerate_hz == 0 ==> r is Err,
{
    audio_thread_priority::promote_current_thread_to_real_time(audio_buffer_frames, audio_samplerate_hz)
}

/// `audio_thread_priority::demote_current_thread_from_real_time`: restores the
/// calling thread's priority from the token.  The outcome depends on the
/// operating system, so nothing is claimed of it.
#[verifier::external_body]
fn os_demote_current_thread(handle: RtPriorityHandle) -> Result<(), AudioThreadPriorityError> {
    audio_thread_priority::demote_current_thread_from_real_time(handle)
}

/// The arguments of a callback thread's promotion: no fixed buffer size
/// (the backend picks a sensible default) and the callback sample rate.
pub fn promotion_request() -> (r: (u32, u32))
    ensures
        r == (0u32, CALLBACK_SAMPLE_RATE),
{
    (0, CALLBACK_SAMPLE_RATE)
}

impl PriorityState<RtPriorityHandle> {
    /// Promotes the calling thread to real-time audio priority.  A thread that
    /// is already promoted stays as it is.
    pub fn promote(&mut self)
        ensures
            old(self).token() is Some ==> final(self).token() == old(self).token(),
    {
        if self.is_promoted() {
            return;
        }
        let (audio_buffer_frames, audio_samplerate_hz) = promotion_request();
        let outcome = os_promote_current_thread(audio_buffer_frames, audio_samplerate_hz);
        self.record_promotion(outcome);
    }

    /// Demotes the calling thread from real-time audio priority.  A thread
    /// that is not promoted stays as it is.
    pub fn demote(&mut self)
        ensures
            final(self).token() is None,
    {
        if let Some(handle) = self.take() {
            let _ = os_demote_current_thread(handle);
        }
    }
}

} // verus!
