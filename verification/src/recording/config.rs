//! Recording configuration and its defaults.

use vstd::prelude::*;
use vstd::string::*;

verus! {

/// Recording config
pub struct Config {
    pub video: VideoConfig,
    pub audio: AudioConfig,
}

impl Config {
    /// The video settings used where the configuration file names none.
    pub fn default_video_config() -> (r: VideoConfig)
        ensures
            r.encoder@ == "h264_nvenc"@,
    {
        VideoConfig { encoder: ("h264_nvenc").to_owned() }
    }

    /// The audio settings used where the configuration file names none.
    pub fn default_audio_config() -> (r: AudioConfig)
        ensures
            r.encoder@ == "aac"@,
            r.samplerate == 48000,
            r.sampledepth == 24,
    {
        AudioConfig { encoder: ("aac").to_owned(), samplerate: 48000, sampledepth: 24 }
    }
}

pub struct VideoConfig {
    /// Encoder used in both recording and saving clips,
    /// hardware acceleration highly recommended
    pub encoder: String,
}

pub struct AudioConfig {
    /// Encoder used when saving clips
    /// (audio is recorded live as lossless pcm to avoid CPU overhead)
    pub encoder: String,
    /// Sample rate used for recording
    pub samplerate: u32,
    /// Sample depth used for recording
    pub sampledepth: u8,
}

} // verus!
