//! Choosing the capture device and negotiating the stream configuration.

use vstd::prelude::*;
use crate::error::VoiceError;

verus! {

/// Which device a capture session opens.
#[derive(Clone, Copy, Debug, PartialEq, Eq)]
pub enum DeviceChoice {
    /// The enumerated device at this index, whose name matched the selection.
    Named(usize),
    /// The system default device. `fell_back` is set when a device was selected
    /// by name but none of that name was found, which deserves a warning.
    Default { fell_back: bool },
}

/// Whether `i` is the first index of `devices` whose name is `name`.
pub open spec fn first_match(devices: Seq<String>, name: Seq<char>, i: int) -> bool {
    0 <= i < devices.len() && devices[i]@ == name
        && forall|j: int| 0 <= j < i ==> devices[j]@ != name
}

/// Resolves the device selection against the enumerated device names.
///
/// A selected name that is present picks its first occurrence; one that is absent
/// falls back to the default device; no selection uses the default device. With no
/// default device, the fallback fails with `NoInputDevice`.
pub fn get_input_device(selected: &Option<String>, devices: &Vec<String>, has_default: bool)
    -> (r: Result<DeviceChoice, VoiceError>)
    ensures
        match selected {
            Some(name) => {
                if exists|i: int| 0 <= i < devices@.len() && devices@[i]@ == name@ {
                    match r {
                        Ok(DeviceChoice::Named(i)) => first_match(devices@, name@, i as int),
                        _ => false,
                    }
                } else if has_default {
                    r == Ok::<DeviceChoice, VoiceError>(DeviceChoice::Default { fell_back: true })
                } else {
                    r == Err::<DeviceChoice, VoiceError>(VoiceError::NoInputDevice)
                }
            },
            None => if has_default {
                r == Ok::<DeviceChoice, VoiceError>(DeviceChoice::Default { fell_back: false })
            } else {
                r == Err::<DeviceChoice, VoiceError>(VoiceError::NoInputDevice)
            },
        },
{
    if selected.is_some() {
        let name: &String = selected.as_ref().unwrap();
        let mut i: usize = 0;
        while i < devices.len()
            invariant
                0 <= i <= devices@.len(),
                forall|j: int| 0 <= j < i ==> devices@[j]@ != name@,
                selected is Some && name@ == selected->Some_0@,
            decreases devices@.len() - i,
        {
            if devices[i] == *name {
                assert(devices@[i as int]@ == name@);
                return Ok(DeviceChoice::Named(i));
            }
            i = i + 1;
        }
    }
    if has_default {
        Ok(DeviceChoice::Default { fell_back: selected.is_some() })
    } else {
        Err(VoiceError::NoInputDevice)
    }
}

/// One supported input configuration range of a device.
#[derive(Clone, Copy, Debug, PartialEq, Eq)]
pub struct SupportedConfig {
    pub channels: u16,
    pub min_sample_rate: u32,
    pub max_sample_rate: u32,
}

/// The configuration a stream is opened with: which supported range, and at
/// what rate.
#[derive(Clone, Copy, Debug, PartialEq, Eq)]
pub struct StreamChoice {
    pub index: usize,
    pub channels: u16,
    pub sample_rate: u32,
}

/// Whether `i` is the mono configuration with the highest maximum rate; among
/// equal maxima the last one wins.
pub open spec fn best_mono(cs: Seq<SupportedConfig>, i: int) -> bool {
    0 <= i < cs.len() && cs[i].channels == 1
        && (forall|j: int| 0 <= j < cs.len() && cs[j].channels == 1
            ==> cs[j].max_sample_rate <= cs[i].max_sample_rate)
        && (forall|j: int| i < j < cs.len() && cs[j].channels == 1
            ==> cs[j].max_sample_rate < cs[i].max_sample_rate)
}

pub open spec fn has_mono(cs: Seq<SupportedConfig>) -> bool {
    exists|j: int| 0 <= j < cs.len() && cs[j].channels == 1
}

/// The rate to run a range at: 16000 Hz if in range, else 44100, else 48000,
/// else the range's maximum.
pub open spec fn preferred_rate(min: u32, max: u32) -> u32 {
    if min <= 16000 && 16000 <= max {
        16000
    } else if min <= 44100 && 44100 <= max {
        44100
    } else if min <= 48000 && 48000 <= max {
        48000
    } else {
        max
    }
}

/// The sample rate to request from a device whose range is `[min_rate, max_rate]`.
pub fn target_sample_rate(min_rate: u32, max_rate: u32) -> (r: u32)
    ensures
        r == preferred_rate(min_rate, max_rate),
{
    if min_rate <= 16000 && 16000 <= max_rate {
        16000
    } else if min_rate <= 44100 && 44100 <= max_rate {
        44100
    } else if min_rate <= 48000 && 48000 <= max_rate {
        48000
    } else {
        max_rate
    }
}

/// Negotiates the stream configuration: the mono range with the highest maximum
/// rate, or the first range when none is mono (the frames are then downmixed), run
/// at its preferred rate. No range at all is `UnsupportedStreamConfig`.
pub fn choose_stream_config(configs: &Vec<SupportedConfig>) -> (r: Result<StreamChoice, VoiceError>)
    ensures
        configs@.len() == 0 ==> r == Err::<StreamChoice, VoiceError>(VoiceError::UnsupportedStreamConfig),
        configs@.len() > 0 ==> match r {
            Ok(c) => {
                &&& (if has_mono(configs@) { best_mono(configs@, c.index as int) } else { c.index == 0 })
                &&& c.index < configs@.len()
                &&& c.channels == configs@[c.index as int].channels
                &&& c.sample_rate == preferred_rate(
                    configs@[c.index as int].min_sample_rate,
                    configs@[c.index as int].max_sample_rate,
                )
            },
            Err(_) => false,
        },
{
    if configs.len() == 0 {
        return Err(VoiceError::UnsupportedStreamConfig);
    }
    let mut best: Option<usize> = None;
    let mut i: usize = 0;
    while i < configs.len()
        invariant
            0 <= i <= configs@.len(),
            match best {
                None => forall|j: int| 0 <= j < i ==> configs@[j].channels != 1,
                Some(b) => {
                    &&& b < i
                    &&& configs@[b as int].channels == 1
                    &&& forall|j: int| 0 <= j < i && configs@[j].channels == 1
                        ==> configs@[j].max_sample_rate <= configs@[b as int].max_sample_rate
                    &&& forall|j: int| b < j < i && configs@[j].channels == 1
                        ==> configs@[j].max_sample_rate < configs@[b as int].max_sample_rate
                },
            },
        decreases configs@.len() - i,
    {
        if configs[i].channels == 1 {
            match best {
                None => {
                    best = Some(i);
                },
                Some(b) => {
                    if configs[i].max_sample_rate >= configs[b].max_sample_rate {
                        best = Some(i);
                    }
                },
            }
        }
        i = i + 1;
    }
    let index: usize = match best {
        Some(b) => b,
        None => 0,
    };
    let chosen = configs[index];
    Ok(StreamChoice {
        index,
        channels: chosen.channels,
        sample_rate: target_sample_rate(chosen.min_sample_rate, chosen.max_sample_rate),
    })
}

} // verus!
