//! The audio container: 16-bit PCM samples in a RIFF/WAVE byte stream,
//! written by `hound`.

use vstd::prelude::*;
use vstd::string::*;
use crate::error::{Failure, SttError};

verus! {

/// Channels of the audio that is sent.
pub const CHANNELS: u16 = 1;

/// Samples per second of the audio that is sent.
pub const SAMPLE_RATE: u32 = 16000;

/// Bits of one sample.
pub const BITS_PER_SAMPLE: u16 = 16;

/// The most samples a container can hold: its 32-bit size fields count the
/// bytes of the samples and 36 bytes of header.
pub const MAX_SAMPLES: usize = 2147483629;

/// What is reported for audio beyond `MAX_SAMPLES`.
pub open spec fn too_long_detail() -> Seq<char> {
    "more samples than a WAVE container can hold"@
}

/// The two bytes of `x`, low byte first.
pub open spec fn le16(x: int) -> Seq<u8> {
    seq![(x % 256) as u8, ((x / 256) % 256) as u8]
}

/// The four bytes of `x`, lowest byte first.
pub open spec fn le32(x: int) -> Seq<u8> {
    seq![
        (x % 256) as u8,
        ((x / 256) % 256) as u8,
        ((x / 65536) % 256) as u8,
        ((x / 16777216) % 256) as u8,
    ]
}

/// A sample as an unsigned 16-bit number, in two's complement.
pub open spec fn sample_word(sample: i16) -> int {
    if sample >= 0 {
        sample as int
    } else {
        sample + 65536
    }
}

/// The samples as bytes: two for each, low byte first.
pub open spec fn pcm_data(samples: Seq<i16>) -> Seq<u8> {
    Seq::new(
        2 * samples.len(),
        |i: int|
            if i % 2 == 0 {
                (sample_word(samples[i / 2]) % 256) as u8
            } else {
                (sample_word(samples[i / 2]) / 256) as u8
            },
    )
}

/// The 44 bytes in front of the samples: the RIFF chunk with its size, the
/// `fmt ` chunk of integer PCM, and the head of the `data` chunk.
pub open spec fn wav_header(channels: u16, sample_rate: u32, data_len: int) -> Seq<u8> {
    seq![0x52u8, 0x49u8, 0x46u8, 0x46u8] + le32(36 + data_len) + seq![
        0x57u8,
        0x41u8,
        0x56u8,
        0x45u8,
    ] + seq![0x66u8, 0x6du8, 0x74u8, 0x20u8] + le32(16) + le16(1) + le16(channels as int) + le32(
        sample_rate as int,
    ) + le32(sample_rate * 2 * channels) + le16(2 * channels) + le16(16) + seq![
        0x64u8,
        0x61u8,
        0x74u8,
        0x61u8,
    ] + le32(data_len)
}

/// A complete container of 16-bit samples.
pub open spec fn wav_container(channels: u16, sample_rate: u32, samples: Seq<i16>) -> Seq<u8> {
    wav_header(channels, sample_rate, 2 * (samples.len() as int)) + pcm_data(samples)
}

/// The container of the audio that is sent: mono, 16 kHz.
pub open spec fn encoded_audio(samples: Seq<i16>) -> Seq<u8> {
    wav_container(CHANNELS, SAMPLE_RATE, samples)
}

/// The number that two bytes at `at` hold, low byte first.
pub open spec fn read_le16(bytes: Seq<u8>, at: int) -> int {
    bytes[at] + 256 * bytes[at + 1]
}

/// The number that four bytes at `at` hold, lowest byte first.
pub open spec fn read_le32(bytes: Seq<u8>, at: int) -> int {
    bytes[at] + 256 * bytes[at + 1] + 65536 * bytes[at + 2] + 16777216 * bytes[at + 3]
}

/// The format tag a container declares; 1 is integer PCM.
pub open spec fn declared_format(wav: Seq<u8>) -> int {
    read_le16(wav, 20)
}

/// The number of channels a container declares.
pub open spec fn declared_channels(wav: Seq<u8>) -> int {
    read_le16(wav, 22)
}

/// The sample rate a container declares.
pub open spec fn declared_sample_rate(wav: Seq<u8>) -> int {
    read_le32(wav, 24)
}

/// The bits per sample a container declares.
pub open spec fn declared_bits(wav: Seq<u8>) -> int {
    read_le16(wav, 34)
}

/// The number of samples a container declares: the bytes of its data chunk
/// over the bytes of one sample.
pub open spec fn declared_sample_count(wav: Seq<u8>) -> int {
    read_le32(wav, 40) / (declared_bits(wav) / 8)
}

/// The sample at position `i` of a 16-bit container.
pub open spec fn stored_sample(wav: Seq<u8>, i: int) -> int {
    let word = read_le16(wav, 44 + 2 * i);
    if word < 32768 {
        word
    } else {
        word - 65536
    }
}

#[verifier::external_type_specification]
#[verifier::external_body]
pub struct ExHoundError(hound::Error);

/// The text that a `hound::Error` displays.
pub uninterp spec fn hound_error_message(error: hound::Error) -> Seq<char>;

/// Writes integer samples with `hound::WavWriter` into memory: `new` with the
/// given format, `write_sample` for each sample in order, `finalize`. The
/// writer borrows the buffer from `new` to `finalize` and hands nothing out
/// in between, so the three calls are made here in one place.
/// Trusted: the writer succeeds whenever the samples fill every channel
/// evenly, since a buffer in memory takes every write; what comes back on
/// success is the header that `hound` writes for integer PCM of at most two
/// channels and 16 bits, its two size fields filled in, followed by the
/// samples. The inputs on which `hound`'s 32-bit arithmetic would overflow
/// or divide by zero are left out.
#[verifier::external_body]
fn write_pcm16(channels: u16, sample_rate: u32, bits_per_sample: u16, samples: &[i16]) -> (r:
    Result<Vec<u8>, hound::Error>)
    requires
        1 <= channels <= 2,
        bits_per_sample == 16,
        0 < sample_rate,
        sample_rate * 2 * channels <= u32::MAX,
        2 * samples@.len() + 36 <= u32::MAX,
    ensures
        samples@.len() % (channels as nat) == 0 ==> r is Ok,
        r matches Ok(bytes) ==> bytes@ == wav_container(channels, sample_rate, samples@),
{
    let sample_format = hound::SampleFormat::Int;
    let spec = hound::WavSpec { channels, sample_rate, bits_per_sample, sample_format };
    let mut buffer = std::io::Cursor::new(Vec::new());
    let mut writer = hound::WavWriter::new(&mut buffer, spec)?;
    for sample in samples.iter() {
        writer.write_sample(*sample)?;
    }
    writer.finalize()?;
    Ok(buffer.into_inner())
}

/// Renders a `hound::Error` through its `Display` impl. Trusted: the result
/// is the text the error displays.
#[verifier::external_body]
fn hound_error_text(error: &hound::Error) -> (r: String)
    ensures
        r@ == hound_error_message(*error),
{
    format!("{}", error)
}

/// Turns what the writer handed back into the library's outcome: the bytes
/// as they are, or an encoding failure with the writer's text.
pub fn encoding_outcome(written: Result<Vec<u8>, hound::Error>) -> (r: Result<Vec<u8>, SttError>)
    ensures
        match written {
            Ok(bytes) => r == Ok::<Vec<u8>, SttError>(bytes),
            Err(error) => r matches Err(e) && e@ == (Failure::Encoding {
                detail: hound_error_message(error),
            }),
        },
{
    match written {
        Ok(bytes) => Ok(bytes),
        Err(error) => Err(SttError::Encoding { detail: hound_error_text(&error) }),
    }
}

/// Encodes samples as a mono, 16 kHz, 16-bit PCM container. Audio of more
/// than `MAX_SAMPLES` samples is refused; any other audio is encoded, and
/// the bytes are the complete container.
pub fn encode_wav_bytes(samples: &[i16]) -> (r: Result<Vec<u8>, SttError>)
    ensures
        samples@.len() > MAX_SAMPLES ==> (r matches Err(e) && e@ == (Failure::Encoding {
            detail: too_long_detail(),
        })),
        samples@.len() <= MAX_SAMPLES ==> (r matches Ok(bytes) && bytes@ == encoded_audio(
            samples@,
        )),
{
    if samples.len() > MAX_SAMPLES {
        return Err(
            SttError::Encoding {
                detail: String::from_str("more samples than a WAVE container can hold"),
            },
        );
    }
    encoding_outcome(write_pcm16(CHANNELS, SAMPLE_RATE, BITS_PER_SAMPLE, samples))
}

/// A container of up to `MAX_SAMPLES` samples is 44 bytes longer than its
/// samples, declares integer PCM, one channel, 16000 Hz and 16 bits, counts
/// as many samples as went in, and holds each of them unchanged.
pub proof fn lemma_container_declares_what_it_holds(samples: Seq<i16>)
    requires
        samples.len() <= MAX_SAMPLES,
    ensures
        encoded_audio(samples).len() == 44 + 2 * samples.len(),
        read_le32(encoded_audio(samples), 4) == encoded_audio(samples).len() - 8,
        declared_format(encoded_audio(samples)) == 1,
        declared_channels(encoded_audio(samples)) == 1,
        declared_sample_rate(encoded_audio(samples)) == 16000,
        declared_bits(encoded_audio(samples)) == 16,
        declared_sample_count(encoded_audio(samples)) == samples.len(),
        forall|i: int|
            0 <= i < samples.len() ==> #[trigger] stored_sample(encoded_audio(samples), i)
                == samples[i],
{
    let n = samples.len() as int;
    let header = wav_header(CHANNELS, SAMPLE_RATE, 2 * n);
    let wav = encoded_audio(samples);
    assert(header.len() == 44);
    assert(wav.len() == 44 + 2 * n);
    assert forall|k: int| 0 <= k < 44 implies wav[k] == header[k] by {}
    assert(read_le32(wav, 4) == 36 + 2 * n) by {
        lemma_le32_reads_back(36 + 2 * n);
        assert(header.subrange(4, 8) =~= le32(36 + 2 * n));
    }
    assert(read_le32(wav, 40) == 2 * n) by {
        lemma_le32_reads_back(2 * n);
        assert(header.subrange(40, 44) =~= le32(2 * n));
    }
    assert(read_le32(wav, 24) == 16000) by {
        lemma_le32_reads_back(16000);
        assert(header.subrange(24, 28) =~= le32(16000));
    }
    assert(declared_format(wav) == 1) by {
        assert(header.subrange(20, 22) =~= le16(1));
    }
    assert(declared_channels(wav) == 1) by {
        assert(header.subrange(22, 24) =~= le16(1));
    }
    assert(declared_bits(wav) == 16) by {
        assert(header.subrange(34, 36) =~= le16(16));
    }
    assert(declared_sample_count(wav) == n) by {
        assert(declared_bits(wav) / 8 == 2);
        assert((2 * n) / 2 == n);
    }
    assert forall|i: int| 0 <= i < n implies #[trigger] stored_sample(wav, i) == samples[i] by {
        let data = pcm_data(samples);
        assert(wav[44 + 2 * i] == data[2 * i]);
        assert(wav[44 + 2 * i + 1] == data[2 * i + 1]);
        let w = sample_word(samples[i]);
        assert(0 <= w < 65536);
        assert(w % 256 + 256 * (w / 256) == w);
    }
}

/// Four little-endian bytes of a number below 2^32 read back as that number.
proof fn lemma_le32_reads_back(x: int)
    requires
        0 <= x <= u32::MAX,
    ensures
        read_le32(le32(x), 0) == x,
{
}

} // verus!
