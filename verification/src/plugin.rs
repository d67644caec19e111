//! The stream-filter plugin's choice of output format, from its `PLUGIN_OPT_*` options:
//! a named preset overrides everything; otherwise an audio-only format of the chosen
//! codec (mp3 when unset or unknown) in that codec's usual container.

use vstd::prelude::*;
use crate::codec::AudioCodec;
use crate::container::Container;
use crate::format::{audio_only_view, AudioSettings, MediaFormat, MediaFormatView};
use crate::operation::{bitrate_fits, bitrate_in_range, bitrate_value, parse_bitrate};
use crate::preset::{preset_named, Preset};
use crate::text::{chars_of, parse_u64_max, parse_unsigned, push_str, string_of, lowered};

verus! {

/// The container an audio codec is usually stored in.
pub open spec fn usual_container(codec: AudioCodec) -> Container {
    match codec {
        AudioCodec::Mp3 => Container::Mp3,
        AudioCodec::Aac => Container::M4a,
        AudioCodec::Flac => Container::Flac,
        AudioCodec::Vorbis | AudioCodec::Opus => Container::Ogg,
        AudioCodec::Wav | AudioCodec::Pcm16Le | AudioCodec::Pcm24Le | AudioCodec::PcmF32Le =>
            Container::Wav,
        AudioCodec::Alac => Container::M4a,
        AudioCodec::Wma => Container::Mkv,
        AudioCodec::Ac3 => Container::Ts,
    }
}

/// The usual container of every audio codec accepts that codec, so the plugin never pairs
/// a codec with a container that cannot hold it; AAC goes in M4A.
pub proof fn lemma_usual_container_accepts(codec: AudioCodec)
    ensures
        usual_container(codec).accepts_audio(codec),
        usual_container(AudioCodec::Aac) == Container::M4a,
{
}

/// The container an audio codec is usually stored in.
pub fn default_container_for_codec(codec: AudioCodec) -> (r: Container)
    ensures
        r == usual_container(codec),
{
    match codec {
        AudioCodec::Mp3 => Container::Mp3,
        AudioCodec::Aac => Container::M4a,
        AudioCodec::Flac => Container::Flac,
        AudioCodec::Vorbis | AudioCodec::Opus => Container::Ogg,
        AudioCodec::Wav | AudioCodec::Pcm16Le | AudioCodec::Pcm24Le | AudioCodec::PcmF32Le =>
            Container::Wav,
        AudioCodec::Alac => Container::M4a,
        AudioCodec::Wma => Container::Mkv,
        AudioCodec::Ac3 => Container::Ts,
    }
}

/// The plugin's options, as found in its environment (each `None` when unset).
pub struct PluginOptions {
    pub preset: Option<String>,
    pub codec: Option<String>,
    pub bitrate: Option<String>,
    pub sample_rate: Option<String>,
    pub channels: Option<String>,
}

/// The codec the options name: the codec option (mp3 when unset), or mp3 when it names
/// none.
pub open spec fn chosen_codec(o: PluginOptions) -> AudioCodec {
    let name = match o.codec {
        Some(c) => c@,
        None => "mp3"@,
    };
    match AudioCodec::named(lowered(name)) {
        Some(c) => c,
        None => AudioCodec::Mp3,
    }
}

/// The audio-only format the options describe when no known preset is named.
pub open spec fn options_format(o: PluginOptions) -> MediaFormatView {
    let codec = chosen_codec(o);
    let bitrate = match o.bitrate {
        Some(b) => if b@.len() > 0 {
            match bitrate_value(b@) {
                Some(v) => Some(v as u32),
                None => None,
            }
        } else {
            None
        },
        None => None,
    };
    let sample_rate = match o.sample_rate {
        Some(s) => match parse_unsigned(s@, u32::MAX as nat) {
            Some(v) => Some(v as u32),
            None => None,
        },
        None => None,
    };
    let channels = match o.channels {
        Some(s) => match parse_unsigned(s@, u16::MAX as nat) {
            Some(v) => Some(v as u16),
            None => None,
        },
        None => None,
    };
    audio_only_view(usual_container(codec), AudioSettings { codec, bitrate, sample_rate, channels })
}

/// The format the plugin converts to: the named preset's format when the preset option
/// is set, non-empty and names a preset; otherwise the audio-only format of the options.
pub open spec fn plugin_format_spec(o: PluginOptions) -> MediaFormatView {
    match o.preset {
        Some(p) => if p@.len() > 0 && preset_named(p@) is Some {
            preset_named(p@)->0.format
        } else {
            options_format(o)
        },
        None => options_format(o),
    }
}

/// The warning given for an unknown preset option.
pub open spec fn unknown_preset_warning(p: Seq<char>) -> Seq<char> {
    "unknown preset '"@ + p + "', falling back to defaults"@
}

/// The warning given for an unknown codec option.
pub open spec fn unknown_codec_warning(c: Seq<char>) -> Seq<char> {
    "unknown codec '"@ + c + "', using mp3"@
}

/// The warnings printed for the options: an unknown preset, then an unknown codec
/// (none when a known preset is used).
pub open spec fn plugin_warnings(o: PluginOptions) -> Seq<Seq<char>> {
    let name = match o.codec {
        Some(c) => c@,
        None => "mp3"@,
    };
    let codec_warning = if AudioCodec::named(lowered(name)) is None {
        seq![unknown_codec_warning(name)]
    } else {
        Seq::empty()
    };
    match o.preset {
        Some(p) => if p@.len() > 0 && preset_named(p@) is Some {
            Seq::empty()
        } else if p@.len() > 0 {
            seq![unknown_preset_warning(p@)] + codec_warning
        } else {
            codec_warning
        },
        None => codec_warning,
    }
}

/// Whether the bitrate option, when it is read, fits in a `u32`.
pub open spec fn plugin_bitrate_fits(o: PluginOptions) -> bool {
    let preset_wins = match o.preset {
        Some(p) => p@.len() > 0 && preset_named(p@) is Some,
        None => false,
    };
    match o.bitrate {
        Some(b) => !preset_wins && b@.len() > 0 ==> bitrate_in_range(b@),
        None => true,
    }
}

fn parse_small(v: &Option<String>, max: u64) -> (r: Option<u64>)
    ensures
        match v {
            Some(s) => match parse_unsigned(s@, max as nat) {
                Some(n) => r == Some(n as u64),
                None => r is None,
            },
            None => r is None,
        },
{
    match v {
        Some(s) => parse_u64_max(&chars_of(s.as_str()), max),
        None => None,
    }
}

/// Whether the bitrate option, when the plugin reads it, fits in a `u32` (the condition
/// [`plugin_format`] requires).
pub fn plugin_bitrate_ok(o: &PluginOptions) -> (r: bool)
    ensures
        r == plugin_bitrate_fits(*o),
{
    let preset_wins = match &o.preset {
        Some(p) => chars_of(p.as_str()).len() > 0 && Preset::by_name(p.as_str()).is_some(),
        None => false,
    };
    match &o.bitrate {
        Some(b) => preset_wins || chars_of(b.as_str()).len() == 0 || bitrate_fits(b.as_str()),
        None => true,
    }
}

/// The format the plugin converts to, and the warnings to print about options it could
/// not honour.
pub fn plugin_format(o: &PluginOptions) -> (r: (MediaFormat, Vec<String>))
    requires
        plugin_bitrate_fits(*o),
    ensures
        r.0@ == plugin_format_spec(*o),
        crate::text::strings_view(r.1@) == plugin_warnings(*o),
{
    let mut warnings: Vec<String> = Vec::new();
    if let Some(name) = &o.preset {
        if chars_of(name.as_str()).len() > 0 {
            match Preset::by_name(name.as_str()) {
                Some(p) => {
                    assert(crate::text::strings_view(warnings@) =~= Seq::<Seq<char>>::empty());
                    return (p.format, warnings);
                },
                None => {
                    let mut m = chars_of("unknown preset '");
                    push_str(&mut m, name.as_str());
                    push_str(&mut m, "', falling back to defaults");
                    warnings.push(string_of(&m));
                },
            }
        }
    }
    let codec_name = match &o.codec {
        Some(c) => c.clone(),
        None => "mp3".to_owned(),
    };
    let codec = match AudioCodec::from_name(codec_name.as_str()) {
        Some(c) => c,
        None => {
            let mut m = chars_of("unknown codec '");
            push_str(&mut m, codec_name.as_str());
            push_str(&mut m, "', using mp3");
            warnings.push(string_of(&m));
            AudioCodec::Mp3
        },
    };
    let container = default_container_for_codec(codec);
    let mut settings = AudioSettings::new(codec);
    if let Some(br) = &o.bitrate {
        if chars_of(br.as_str()).len() > 0 {
            if let Ok(bps) = parse_bitrate(br.as_str()) {
                settings = settings.with_bitrate(bps);
            }
        }
    }
    if let Some(rate) = parse_small(&o.sample_rate, u32::MAX as u64) {
        settings = settings.with_sample_rate(rate as u32);
    }
    if let Some(ch) = parse_small(&o.channels, u16::MAX as u64) {
        settings = settings.with_channels(ch as u16);
    }
    assert(crate::text::strings_view(warnings@) =~= plugin_warnings(*o));
    (MediaFormat::audio_only(container, settings), warnings)
}

/// An unknown codec option falls back to mp3 in an mp3 container; with no preset
/// named, the plugin always produces audio only, in the usual container of its codec.
pub proof fn lemma_plugin_codec_fallback(o: PluginOptions)
    requires
        o.preset is None,
    ensures
        plugin_format_spec(o).no_video,
        plugin_format_spec(o).audio is Some,
        plugin_format_spec(o).container == usual_container(plugin_format_spec(o).audio->0.codec),
        o.codec matches Some(c) && AudioCodec::named(lowered(c@)) is None
            ==> plugin_format_spec(o).audio->0.codec == AudioCodec::Mp3
            && plugin_format_spec(o).container == Container::Mp3,
{
}

} // verus!
