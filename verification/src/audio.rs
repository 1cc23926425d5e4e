//! The short tones that announce a change of mode.

use vstd::prelude::*;

verus! {

/// How long each cue sounds, in milliseconds.
pub const CUE_DURATION_MS: u32 = 55;
/// Pitch of the cue announcing pointer control, in hertz.
pub const NUMFLOW_ON_HZ: u32 = 880;
/// Pitch of the cue announcing number entry, in hertz.
pub const NUMFLOW_OFF_HZ: u32 = 520;
/// How many cues may wait to be played.
pub const AUDIO_QUEUE_CAPACITY: usize = 4;

/// A mode cue.
#[derive(Debug, Clone, Copy, PartialEq, Eq, Structural)]
pub enum AudioCue {
    NumFlowOn,
    NumFlowOff,
}

/// Why audio feedback could not start.
#[derive(Debug, Clone, PartialEq, Eq)]
pub enum AudioFeedbackError {
    ThreadSpawn(String),
}

/// The pitch and duration of a cue.
pub open spec fn tone_of(cue: AudioCue) -> (u32, u32) {
    match cue {
        AudioCue::NumFlowOn => (NUMFLOW_ON_HZ, CUE_DURATION_MS),
        AudioCue::NumFlowOff => (NUMFLOW_OFF_HZ, CUE_DURATION_MS),
    }
}

/// Returns the pitch and duration of a cue.
pub fn cue_tone(cue: AudioCue) -> (tone: (u32, u32))
    ensures
        tone == tone_of(cue),
{
    match cue {
        AudioCue::NumFlowOn => (NUMFLOW_ON_HZ, CUE_DURATION_MS),
        AudioCue::NumFlowOff => (NUMFLOW_OFF_HZ, CUE_DURATION_MS),
    }
}

/// Returns the cue for a Num Lock change: Num Lock on hands the keypad back to number entry.
pub fn cue_for_num_lock(num_lock_on: bool) -> (cue: AudioCue)
    ensures
        cue == if num_lock_on {
            AudioCue::NumFlowOff
        } else {
            AudioCue::NumFlowOn
        },
{
    if num_lock_on {
        AudioCue::NumFlowOff
    } else {
        AudioCue::NumFlowOn
    }
}

/// Whether a cue is played: only while feedback is enabled.
pub fn should_play(enabled: bool, cue: AudioCue) -> (play: Option<(u32, u32)>)
    ensures
        enabled ==> play == Some(tone_of(cue)),
        !enabled ==> play is None,
{
    if enabled {
        Some(cue_tone(cue))
    } else {
        None
    }
}

/// The two cues are told apart by pitch and are equally short.
pub proof fn lemma_cues_short_and_distinct()
    ensures
        tone_of(AudioCue::NumFlowOn).0 != tone_of(AudioCue::NumFlowOff).0,
        tone_of(AudioCue::NumFlowOn).1 == tone_of(AudioCue::NumFlowOff).1,
        tone_of(AudioCue::NumFlowOn).1 == CUE_DURATION_MS,
{
}

} // verus!
