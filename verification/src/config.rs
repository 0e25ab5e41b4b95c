//! What a run is configured with: the audio format and encoder settings,
//! the capture buffering, and where the relay is.

use vstd::prelude::*;
use vstd::string::StringExecFns;

verus! {

/// How the encoder treats the signal.
#[derive(Clone, Copy, Debug, PartialEq, Eq, Structural)]
pub enum AudioType {
    /// Tuned for speech.
    Voice,
    /// No assumption on the signal.
    Generic,
}

/// Audio format and encoder settings.
#[derive(Debug, PartialEq, Eq)]
pub struct AudioConfig {
    pub sample_rate: u32,
    pub channels: u32,
    pub bitrate: u32,
    pub application: String,
    pub complexity: u32,
    pub frame_size: u32,
}

/// Settings of the capture pipeline.
#[derive(Debug, PartialEq, Eq)]
pub struct PipelineConfig {
    pub audio: AudioConfig,
    pub buffer_time: u32,
    pub latency_time: u32,
    pub sink_name: Option<String>,
}

/// Where to publish.
#[derive(Debug, PartialEq, Eq)]
pub struct MoqConfig {
    pub relay_url: String,
    pub broadcast_path: String,
    pub track_name: String,
}

impl AudioConfig {
    /// 48 kHz stereo at 96 kbit/s, generic signal, complexity 5, frames
    /// of 20 ms.
    pub open spec fn is_default(self) -> bool {
        &&& self.sample_rate == 48000
        &&& self.channels == 2
        &&& self.bitrate == 96000
        &&& self.application@ == "generic"@
        &&& self.complexity == 5
        &&& self.frame_size == 20
    }

    /// The encoder's treatment that the `application` setting asks for:
    /// speech for the word `voice`, generic for anything else.
    pub open spec fn audio_type_spec(self) -> AudioType {
        if self.application@ == "voice"@ {
            AudioType::Voice
        } else {
            AudioType::Generic
        }
    }

    /// The encoder's treatment that the `application` setting asks for.
    pub fn audio_type(&self) -> (kind: AudioType)
        ensures
            kind == self.audio_type_spec(),
    {
        let voice = String::from_str("voice");
        if self.application == voice {
            AudioType::Voice
        } else {
            AudioType::Generic
        }
    }
}

impl Clone for AudioConfig {
    fn clone(&self) -> (copy: AudioConfig)
        ensures
            copy == *self,
    {
        AudioConfig {
            sample_rate: self.sample_rate,
            channels: self.channels,
            bitrate: self.bitrate,
            application: self.application.clone(),
            complexity: self.complexity,
            frame_size: self.frame_size,
        }
    }
}

impl Clone for PipelineConfig {
    fn clone(&self) -> (copy: PipelineConfig)
        ensures
            copy == *self,
    {
        let sink_name = match &self.sink_name {
            Some(name) => Some(name.clone()),
            None => None,
        };
        PipelineConfig {
            audio: self.audio.clone(),
            buffer_time: self.buffer_time,
            latency_time: self.latency_time,
            sink_name,
        }
    }
}

impl Clone for MoqConfig {
    fn clone(&self) -> (copy: MoqConfig)
        ensures
            copy == *self,
    {
        MoqConfig {
            relay_url: self.relay_url.clone(),
            broadcast_path: self.broadcast_path.clone(),
            track_name: self.track_name.clone(),
        }
    }
}

impl Default for AudioConfig {
    fn default() -> (config: AudioConfig)
        ensures
            config.is_default(),
    {
        AudioConfig {
            sample_rate: 48000,
            channels: 2,
            bitrate: 96000,
            application: String::from_str("generic"),
            complexity: 5,
            frame_size: 20,
        }
    }
}

impl Default for PipelineConfig {
    fn default() -> (config: PipelineConfig)
        ensures
            config.audio.is_default(),
            config.buffer_time == 20000,
            config.latency_time == 10000,
            config.sink_name is None,
    {
        PipelineConfig {
            audio: AudioConfig::default(),
            buffer_time: 20000,
            latency_time: 10000,
            sink_name: None,
        }
    }
}

impl Default for MoqConfig {
    fn default() -> (config: MoqConfig)
        ensures
            config.relay_url@ == DEFAULT_RELAY_URL@,
            config.broadcast_path@ == "/live/audio"@,
            config.track_name@ == DEFAULT_TRACK_NAME@,
    {
        MoqConfig {
            relay_url: String::from_str(DEFAULT_RELAY_URL),
            broadcast_path: String::from_str("/live/audio"),
            track_name: String::from_str(DEFAULT_TRACK_NAME),
        }
    }
}

/// The relay that is published to where none is named.
pub const DEFAULT_RELAY_URL: &'static str = "https://localhost:4443/anon";

/// The broadcast path of a run for which neither the command line nor the
/// configuration file names one.
pub const FALLBACK_BROADCAST_PATH: &'static str = "/live/audio.hang";

/// The track name where none is given.
pub const DEFAULT_TRACK_NAME: &'static str = "audio";

/// The `application` setting of a run whose configuration file gives none.
pub const FALLBACK_APPLICATION: &'static str = "voip";

/// What the command line may set. `None` is a flag that was not given.
#[derive(Debug, PartialEq, Eq)]
pub struct CliOverrides {
    pub relay_url: Option<String>,
    pub broadcast_path: Option<String>,
    pub track_name: Option<String>,
    pub sink_name: Option<String>,
    pub bitrate: Option<u32>,
    pub sample_rate: Option<u32>,
    pub channels: Option<u32>,
    pub complexity: Option<u32>,
    pub frame_size: Option<u32>,
}

/// What the configuration file and the environment gave. In the three
/// relay texts the empty text stands for a setting that is not there.
#[derive(Debug, PartialEq, Eq)]
pub struct FileSettings {
    pub relay_url: String,
    pub broadcast_path: String,
    pub track_name: String,
    pub sample_rate: Option<u32>,
    pub channels: Option<u32>,
    pub bitrate: Option<u32>,
    pub application: Option<String>,
    pub complexity: Option<u32>,
    pub frame_size: Option<u32>,
    pub buffer_time: Option<u32>,
    pub latency_time: Option<u32>,
    pub sink_name: Option<String>,
}

/// The command line's number if it gave one, else the file's, else the
/// fallback.
pub open spec fn chosen_number(cli: Option<u32>, file: Option<u32>, fallback: u32) -> u32 {
    match cli {
        Some(n) => n,
        None => match file {
            Some(n) => n,
            None => fallback,
        },
    }
}

/// The command line's text if it gave one, else the file's unless that is
/// empty, else the fallback.
pub open spec fn chosen_text(cli: Option<String>, file: String, fallback: Seq<char>) -> Seq<
    char,
> {
    match cli {
        Some(text) => text@,
        None => if file@.len() > 0 {
            file@
        } else {
            fallback
        },
    }
}

/// The first of two optional texts.
pub open spec fn chosen_name(cli: Option<String>, file: Option<String>) -> Option<Seq<char>> {
    match cli {
        Some(text) => Some(text@),
        None => match file {
            Some(text) => Some(text@),
            None => None,
        },
    }
}

/// The text of an optional setting, or the fallback.
pub open spec fn text_or(setting: Option<String>, fallback: Seq<char>) -> Seq<char> {
    match setting {
        Some(text) => text@,
        None => fallback,
    }
}

/// The command line's number if it gave one, else the file's, else the
/// fallback.
pub fn choose_number(cli: Option<u32>, file: Option<u32>, fallback: u32) -> (n: u32)
    ensures
        n == chosen_number(cli, file, fallback),
{
    match cli {
        Some(n) => n,
        None => match file {
            Some(n) => n,
            None => fallback,
        },
    }
}

/// The command line's text if it gave one, else the file's unless that is
/// empty, else the fallback.
pub fn choose_text(cli: Option<String>, file: String, fallback: &str) -> (text: String)
    ensures
        text@ == chosen_text(cli, file, fallback@),
{
    match cli {
        Some(text) => text,
        None => if file.as_str().is_empty() {
            String::from_str(fallback)
        } else {
            file
        },
    }
}

/// The settings of a run: for each one the command line's value, else the
/// file's, else the fallback. The `application` setting and the two
/// buffering times have no flag.
pub fn merge_settings(cli: CliOverrides, file: FileSettings) -> (merged: (
    PipelineConfig,
    MoqConfig,
))
    ensures
        merged.1.relay_url@ == chosen_text(cli.relay_url, file.relay_url, DEFAULT_RELAY_URL@),
        merged.1.broadcast_path@ == chosen_text(
            cli.broadcast_path,
            file.broadcast_path,
            FALLBACK_BROADCAST_PATH@,
        ),
        merged.1.track_name@ == chosen_text(cli.track_name, file.track_name, DEFAULT_TRACK_NAME@),
        merged.0.audio.sample_rate == chosen_number(cli.sample_rate, file.sample_rate, 48000),
        merged.0.audio.channels == chosen_number(cli.channels, file.channels, 2),
        merged.0.audio.bitrate == chosen_number(cli.bitrate, file.bitrate, 96000),
        merged.0.audio.application@ == text_or(file.application, FALLBACK_APPLICATION@),
        merged.0.audio.complexity == chosen_number(cli.complexity, file.complexity, 5),
        merged.0.audio.frame_size == chosen_number(cli.frame_size, file.frame_size, 20),
        merged.0.buffer_time == chosen_number(None, file.buffer_time, 20000),
        merged.0.latency_time == chosen_number(None, file.latency_time, 10000),
        match merged.0.sink_name {
            Some(name) => chosen_name(cli.sink_name, file.sink_name) == Some(name@),
            None => chosen_name(cli.sink_name, file.sink_name) is None,
        },
{
    let application = match file.application {
        Some(text) => text,
        None => String::from_str(FALLBACK_APPLICATION),
    };
    let sink_name = match cli.sink_name {
        Some(name) => Some(name),
        None => file.sink_name,
    };
    let audio = AudioConfig {
        sample_rate: choose_number(cli.sample_rate, file.sample_rate, 48000),
        channels: choose_number(cli.channels, file.channels, 2),
        bitrate: choose_number(cli.bitrate, file.bitrate, 96000),
        application,
        complexity: choose_number(cli.complexity, file.complexity, 5),
        frame_size: choose_number(cli.frame_size, file.frame_size, 20),
    };
    let pipeline = PipelineConfig {
        audio,
        buffer_time: choose_number(None, file.buffer_time, 20000),
        latency_time: choose_number(None, file.latency_time, 10000),
        sink_name,
    };
    let moq = MoqConfig {
        relay_url: choose_text(cli.relay_url, file.relay_url, DEFAULT_RELAY_URL),
        broadcast_path: choose_text(
            cli.broadcast_path,
            file.broadcast_path,
            FALLBACK_BROADCAST_PATH,
        ),
        track_name: choose_text(cli.track_name, file.track_name, DEFAULT_TRACK_NAME),
    };
    (pipeline, moq)
}

} // verus!
