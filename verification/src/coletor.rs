//! The capture side: negotiating the format from what the device reports,
//! sizing the sample ring, taking in what the capture callback delivers, and
//! deciding what to do with the stream on start, stop and resume. The
//! device and its stream live with the caller.

use crate::erro::DeviceError;
use crate::recent::keep_last;
use crate::sample_ring::SampleRing;
use vstd::prelude::*;

verus! {

/// The format fixed at capture start. It has at least one channel.
#[derive(Clone, Copy, Debug)]
pub struct CaptureFormat {
    sample_rate: usize,
    channel_count: u16,
}

impl CaptureFormat {
    #[verifier::type_invariant]
    spec fn inv(self) -> bool {
        self.channel_count > 0
    }

    /// Samples per second and channel.
    pub closed spec fn rate(&self) -> usize {
        self.sample_rate
    }

    /// Interleaved channels per frame.
    pub closed spec fn channels(&self) -> u16 {
        self.channel_count
    }

    /// The format with the given rate and channel count; none without a
    /// channel.
    pub fn new(sample_rate: usize, channel_count: u16) -> (format: Option<Self>)
        ensures
            format is Some <==> channel_count > 0,
            format matches Some(f) ==> f.rate() == sample_rate && f.channels() == channel_count,
    {
        if channel_count == 0 {
            None
        } else {
            Some(CaptureFormat { sample_rate, channel_count })
        }
    }

    /// Samples per second and channel.
    pub fn sample_rate(&self) -> (sample_rate: usize)
        ensures
            sample_rate == self.rate(),
    {
        self.sample_rate
    }

    /// Interleaved channels per frame: at least one.
    pub fn channel_count(&self) -> (channel_count: u16)
        ensures
            channel_count == self.channels(),
            channel_count > 0,
    {
        proof {
            use_type_invariant(self);
        }
        self.channel_count
    }
}

/// One supported output configuration, as the device reports it.
#[derive(Clone, Copy, Debug, PartialEq, Eq, Structural)]
pub struct ConfigRange {
    pub channels: u16,
    pub min_sample_rate: u32,
    pub max_sample_rate: u32,
}

/// What asking the platform for the default output device came to.
pub enum DeviceProbe {
    /// There is no default output device.
    NoDevice,
    /// The device could not be asked for its configurations.
    QueryFailed,
    /// The supported configurations, in the order reported.
    Configs(Vec<ConfigRange>),
}

/// What the caller has to do with the capture stream.
#[derive(Clone, Copy, Debug, PartialEq, Eq, Structural)]
pub enum StreamAction {
    /// Leave everything as it is.
    Nothing,
    /// Open the stream on the negotiated format and start it.
    Open,
    /// Pause the open stream.
    Pause,
    /// Let the open stream play again.
    Play,
}

/// The sample rate and channel count that a probe leads to: those of the
/// first reported configuration at its maximum sample rate, or the reason
/// why there is none.
pub open spec fn negotiated(probe: DeviceProbe) -> Result<(usize, u16), DeviceError> {
    match probe {
        DeviceProbe::NoDevice => Err(DeviceError::NoOutputDevice),
        DeviceProbe::QueryFailed => Err(DeviceError::NoSupportedConfig),
        DeviceProbe::Configs(configs) => if configs@.len() == 0 {
            Err(DeviceError::NoSupportedConfig)
        } else if configs@[0].channels == 0 {
            Err(DeviceError::NoChannels)
        } else {
            Ok((configs@[0].max_sample_rate as usize, configs@[0].channels))
        },
    }
}

/// The number of samples that `millis` milliseconds of capture come to:
/// sample rate times duration times channels, rounded down.
pub open spec fn buffer_samples(sample_rate: usize, channel_count: u16, millis: nat) -> nat {
    (sample_rate * millis * channel_count / 1000) as nat
}

/// Whether a ring of `capacity` samples can be created at all.
pub open spec fn ring_fits(capacity: nat) -> bool {
    0 < capacity && 2 * capacity <= isize::MAX
}

/// Negotiates the capture format from what the device reports.
pub fn negotiate(probe: &DeviceProbe) -> (result: Result<CaptureFormat, DeviceError>)
    ensures
        match result {
            Ok(format) => negotiated(*probe) == Ok::<(usize, u16), DeviceError>(
                (format.rate(), format.channels()),
            ),
            Err(e) => negotiated(*probe) == Err::<(usize, u16), DeviceError>(e),
        },
{
    match probe {
        DeviceProbe::NoDevice => Err(DeviceError::NoOutputDevice),
        DeviceProbe::QueryFailed => Err(DeviceError::NoSupportedConfig),
        DeviceProbe::Configs(configs) => {
            if configs.len() == 0 {
                Err(DeviceError::NoSupportedConfig)
            } else {
                match CaptureFormat::new(configs[0].max_sample_rate as usize, configs[0].channels) {
                    Some(format) => Ok(format),
                    None => Err(DeviceError::NoChannels),
                }
            }
        },
    }
}

/// The number of samples that `millis` milliseconds of capture in `format`
/// come to.
fn samples_for(format: CaptureFormat, millis: u32) -> (samples: u128)
    ensures
        samples == buffer_samples(format.rate(), format.channels(), millis as nat),
{
    let rate = format.sample_rate() as u128;
    let channels = format.channel_count() as u128;
    assert(rate * (millis as u128) <= 0xffff_ffff_ffff_ffff * 0xffff_ffff) by (nonlinear_arith)
        requires
            0 <= rate <= 0xffff_ffff_ffff_ffff,
            0 <= millis <= 0xffff_ffff,
    ;
    let per_channel: u128 = rate * (millis as u128);
    assert(per_channel * channels <= 0xffff_ffff_ffff_ffff * 0xffff_ffff * 0xffff) by (
        nonlinear_arith)
        requires
            0 <= per_channel <= 0xffff_ffff_ffff_ffff * 0xffff_ffff,
            0 <= channels <= 0xffff,
    ;
    per_channel * channels / 1000
}

/// The ring capacity for `millis` milliseconds of capture in `format`, or
/// `None` where no ring of that size can be created.
pub fn buffer_capacity(format: CaptureFormat, millis: u32) -> (capacity: Option<usize>)
    ensures
        capacity is Some <==> ring_fits(
            buffer_samples(format.rate(), format.channels(), millis as nat),
        ),
        capacity matches Some(c) ==> c == buffer_samples(
            format.rate(),
            format.channels(),
            millis as nat,
        ),
{
    let samples = samples_for(format, millis);
    if samples == 0 || samples > (isize::MAX as u128) / 2 {
        None
    } else {
        Some(samples as usize)
    }
}

/// The capture session: the negotiated format, the ring that the capture
/// callback fills, and whether the stream has been opened.
pub struct ColetorSaida {
    buffer: SampleRing,
    formato: CaptureFormat,
    rodando: bool,
}

impl ColetorSaida {
    /// The samples waiting in the ring, oldest first.
    pub closed spec fn buffered(&self) -> Seq<i16> {
        self.buffer@
    }

    /// The capacity of the ring, in samples.
    pub closed spec fn capacity(&self) -> nat {
        self.buffer.capacity()
    }

    /// Whether the stream has been opened.
    pub closed spec fn running(&self) -> bool {
        self.rodando
    }

    /// The negotiated format.
    pub closed spec fn format(&self) -> CaptureFormat {
        self.formato
    }

    /// Opens a capture session on what the device reports, with an empty
    /// ring for `tam_buffer_ms` milliseconds of audio. Nothing runs yet.
    pub fn new(probe: &DeviceProbe, tam_buffer_ms: u32) -> (result: Result<Self, DeviceError>)
        requires
            negotiated(*probe) matches Ok(format) ==> ring_fits(
                buffer_samples(format.0, format.1, tam_buffer_ms as nat),
            ),
        ensures
            match result {
                Ok(coletor) => {
                    &&& negotiated(*probe) == Ok::<(usize, u16), DeviceError>(
                        (coletor.format().rate(), coletor.format().channels()),
                    )
                    &&& coletor.capacity() == buffer_samples(
                        coletor.format().rate(),
                        coletor.format().channels(),
                        tam_buffer_ms as nat,
                    )
                    &&& coletor.buffered() == Seq::<i16>::empty()
                    &&& !coletor.running()
                },
                Err(e) => negotiated(*probe) == Err::<(usize, u16), DeviceError>(e),
            },
    {
        match negotiate(probe) {
            Ok(formato) => {
                let capacity = samples_for(formato, tam_buffer_ms) as usize;
                Ok(ColetorSaida { buffer: SampleRing::new(capacity), formato, rodando: false })
            },
            Err(e) => Err(e),
        }
    }

    /// The negotiated format.
    pub fn formato(&self) -> (format: CaptureFormat)
        ensures
            format == self.format(),
    {
        self.formato
    }

    /// Channels per frame: at least one.
    pub fn canais(&self) -> (canais: u16)
        ensures
            canais == self.format().channels(),
            canais > 0,
    {
        self.formato.channel_count()
    }

    /// Samples per second and channel.
    pub fn samplerate(&self) -> (samplerate: usize)
        ensures
            samplerate == self.format().rate(),
    {
        self.formato.sample_rate()
    }

    /// Whether the stream has been opened.
    pub fn rodando(&self) -> (rodando: bool)
        ensures
            rodando == self.running(),
    {
        self.rodando
    }

    /// The ring, for the consumer to drain. Whatever the consumer does to
    /// it, the rest of the session stays as it is.
    pub fn pegar_buffer(&mut self) -> (ring: &mut SampleRing)
        ensures
            ring@ == old(self).buffered(),
            ring.capacity() == old(self).capacity(),
            final(self).buffered() == final(ring)@,
            final(self).capacity() == final(ring).capacity(),
            final(self).format() == old(self).format(),
            final(self).running() == old(self).running(),
    {
        &mut self.buffer
    }

    /// Takes in what one capture callback delivers: every sample, in order,
    /// the oldest making room once the ring is full.
    pub fn receber(&mut self, data: &[i16])
        ensures
            final(self).buffered() == keep_last(old(self).buffered() + data@, old(self).capacity()),
            final(self).capacity() == old(self).capacity(),
            final(self).format() == old(self).format(),
            final(self).running() == old(self).running(),
    {
        self.buffer.push_all(data);
    }

    /// Start of capture: the stream is to be opened unless the session
    /// already runs, in which case nothing is to be done.
    pub fn coletar(&self) -> (action: StreamAction)
        ensures
            action == if self.running() {
                StreamAction::Nothing
            } else {
                StreamAction::Open
            },
    {
        if self.rodando {
            StreamAction::Nothing
        } else {
            StreamAction::Open
        }
    }

    /// Takes note that the stream was opened and plays.
    pub fn iniciado(&mut self)
        ensures
            final(self).running(),
            final(self).buffered() == old(self).buffered(),
            final(self).capacity() == old(self).capacity(),
            final(self).format() == old(self).format(),
    {
        self.rodando = true;
    }

    /// Stop: an open stream is to be paused. Format and ring stay as they
    /// are.
    pub fn parar(&self) -> (action: StreamAction)
        ensures
            action == if self.running() {
                StreamAction::Pause
            } else {
                StreamAction::Nothing
            },
    {
        if self.rodando {
            StreamAction::Pause
        } else {
            StreamAction::Nothing
        }
    }

    /// Resume: an open stream is to play again. Format and ring stay as
    /// they are.
    pub fn retomar(&self) -> (action: StreamAction)
        ensures
            action == if self.running() {
                StreamAction::Play
            } else {
                StreamAction::Nothing
            },
    {
        if self.rodando {
            StreamAction::Play
        } else {
            StreamAction::Nothing
        }
    }
}

} // verus!
