use vstd::prelude::*;

use crate::errors::ScanError;

verus! {

/// What the scan reads of one container track: its identifier, whether its
/// codec is a real audio codec rather than the null placeholder, and the
/// declared channel count and sample rate (either may be absent).
#[derive(Clone, Copy, Debug)]
pub struct TrackSummary {
    pub id: u32,
    pub has_audio_codec: bool,
    pub channels: Option<u32>,
    pub sample_rate: Option<u32>,
}

/// Pick the track to analyze: the first one, in container-declared order,
/// whose codec is a real audio codec. Fails with `NoAudioTrack` exactly when
/// no track qualifies (in particular when the list is empty).
pub fn select_track(tracks: &Vec<TrackSummary>) -> (r: Result<usize, ScanError>)
    ensures
        match r {
            Ok(i) => {
                &&& i < tracks@.len()
                &&& tracks@[i as int].has_audio_codec
                &&& forall|j: int| 0 <= j < i ==> !tracks@[j].has_audio_codec
            },
            Err(e) => {
                &&& e == ScanError::NoAudioTrack
                &&& forall|j: int| 0 <= j < tracks@.len() ==> !tracks@[j].has_audio_codec
            },
        },
{
    let mut i: usize = 0;
    while i < tracks.len()
        invariant
            i <= tracks@.len(),
            forall|j: int| 0 <= j < i ==> !tracks@[j].has_audio_codec,
        decreases tracks@.len() - i,
    {
        if tracks[i].has_audio_codec {
            return Ok(i);
        }
        i = i + 1;
    }
    Err(ScanError::NoAudioTrack)
}

/// Read the audio parameters the loudness accumulator is sized from. Fails
/// with `InvalidAudioParameters` exactly when the channel count or the
/// sample rate is absent or zero.
pub fn audio_params(track: &TrackSummary) -> (r: Result<(u32, u32), ScanError>)
    ensures
        match r {
            Ok(p) => {
                &&& track.channels == Some(p.0)
                &&& track.sample_rate == Some(p.1)
                &&& p.0 > 0
                &&& p.1 > 0
            },
            Err(e) => {
                &&& e == ScanError::InvalidAudioParameters
                &&& (track.channels is None || track.channels == Some(0u32)
                    || track.sample_rate is None || track.sample_rate == Some(0u32))
            },
        },
{
    match (track.channels, track.sample_rate) {
        (Some(c), Some(s)) => {
            if c > 0 && s > 0 {
                Ok((c, s))
            } else {
                Err(ScanError::InvalidAudioParameters)
            }
        },
        _ => Err(ScanError::InvalidAudioParameters),
    }
}

} // verus!
