use vstd::prelude::*;

verus! {

/// The signed 16-bit value whose little-endian bytes are `lo`, `hi`.
pub open spec fn le_i16(lo: u8, hi: u8) -> int {
    let v = lo as int + 256 * hi as int;
    if v >= 32768 {
        v - 65536
    } else {
        v
    }
}

/// The samples of raw 16-bit little-endian PCM: one per pair of bytes, a
/// trailing odd byte dropped.
pub open spec fn decoded(bytes: Seq<u8>) -> Seq<i16> {
    Seq::new(bytes.len() / 2, |i: int| le_i16(bytes[2 * i], bytes[2 * i + 1]) as i16)
}

/// The low byte of the two's-complement form of `v`.
pub open spec fn low_byte(v: i16) -> u8 {
    (if v < 0 {
        v + 65536
    } else {
        v as int
    } % 256) as u8
}

/// The high byte of the two's-complement form of `v`.
pub open spec fn high_byte(v: i16) -> u8 {
    (if v < 0 {
        v + 65536
    } else {
        v as int
    } / 256) as u8
}

/// Samples written as 16-bit little-endian PCM.
pub open spec fn encoded(samples: Seq<i16>) -> Seq<u8> {
    Seq::new(
        2 * samples.len(),
        |j: int|
            if j % 2 == 0 {
                low_byte(samples[j / 2])
            } else {
                high_byte(samples[j / 2])
            },
    )
}

/// Decoding undoes encoding: samples written as 16-bit little-endian PCM
/// read back as the same samples.
pub proof fn lemma_pcm_round_trip(samples: Seq<i16>)
    ensures
        decoded(encoded(samples)) == samples,
{
    let e = encoded(samples);
    assert forall|i: int| 0 <= i < samples.len() implies decoded(e)[i] == samples[i] by {
        assert((2 * i) % 2 == 0);
        assert((2 * i + 1) % 2 == 1);
        assert((2 * i) / 2 == i);
        assert((2 * i + 1) / 2 == i);
    }
    assert(decoded(e) =~= samples);
}

/// Splits raw 16-bit little-endian PCM into samples, pairing consecutive
/// bytes; a trailing odd byte is dropped.
pub fn decode_pcm16le(bytes: &Vec<u8>) -> (r: Vec<i16>)
    ensures
        r@ == decoded(bytes@),
{
    let n = bytes.len() / 2;
    let mut out: Vec<i16> = Vec::with_capacity(n);
    let mut i: usize = 0;
    while i < n
        invariant
            n == bytes@.len() / 2,
            bytes@.len() <= usize::MAX,
            i <= n,
            out@.len() == i,
            forall|k: int| 0 <= k < i ==> out@[k] == decoded(bytes@)[k],
        decreases n - i,
    {
        let lo = bytes[2 * i];
        let hi = bytes[2 * i + 1];
        let v: i32 = lo as i32 + 256 * (hi as i32);
        let s: i16 = if v >= 32768 {
            (v - 65536) as i16
        } else {
            v as i16
        };
        out.push(s);
        i = i + 1;
    }
    assert(out@ =~= decoded(bytes@));
    out
}

/// The frame count and sample rate that `hound` reads from the header of a
/// WAV file, or none where it refuses the header.
pub uninterp spec fn wav_header(bytes: Seq<u8>) -> Option<(u32, u32)>;

/// Relies on `hound::WavReader::new`, `WavReader::duration` and
/// `WavReader::spec`: the number of frames and the sample rate of the WAV
/// data in `bytes`; the reader reads the header only.
#[verifier::external_body]
fn read_wav_header(bytes: &Vec<u8>) -> (r: Option<(u32, u32)>)
    ensures
        r == wav_header(bytes@),
{
    match hound::WavReader::new(std::io::Cursor::new(bytes.as_slice())) {
        Ok(reader) => Some((reader.duration(), reader.spec().sample_rate)),
        Err(_) => None,
    }
}

/// Hundredths of a second in `frames` frames at `rate` frames per second,
/// rounded to the nearest hundredth, halves up.
pub open spec fn duration_centis(frames: nat, rate: nat) -> nat
    recommends
        rate > 0,
{
    (frames * 200 + rate) / (2 * rate)
}

/// Why an audio duration is not known.
#[derive(Clone, Copy, Debug, PartialEq, Eq, Structural)]
pub enum DurationError {
    /// The bytes do not hold a WAV header.
    NotWav,
    /// The header gives a sample rate of zero.
    ZeroRate,
}

/// The duration, in hundredths of a second, of a WAV file with `frames`
/// frames at `rate` frames per second.
pub fn centis_of_frames(frames: u32, rate: u32) -> (r: Result<u64, DurationError>)
    ensures
        rate == 0 ==> r == Err::<u64, DurationError>(DurationError::ZeroRate),
        rate > 0 ==> r == Ok::<u64, DurationError>(
            duration_centis(frames as nat, rate as nat) as u64,
        ),
{
    if rate == 0 {
        Err(DurationError::ZeroRate)
    } else {
        let num: u64 = frames as u64 * 200 + rate as u64;
        let den: u64 = 2 * rate as u64;
        Ok(num / den)
    }
}

/// The duration, in hundredths of a second, of the WAV file in `bytes`.
pub fn wav_duration_centis(bytes: &Vec<u8>) -> (r: Result<u64, DurationError>)
    ensures
        wav_header(bytes@).is_none() ==> r == Err::<u64, DurationError>(DurationError::NotWav),
        wav_header(bytes@) matches Some((frames, rate)) ==> {
            &&& rate == 0 ==> r == Err::<u64, DurationError>(DurationError::ZeroRate)
            &&& rate > 0 ==> r == Ok::<u64, DurationError>(
                duration_centis(frames as nat, rate as nat) as u64,
            )
        },
{
    match read_wav_header(bytes) {
        Some((frames, rate)) => centis_of_frames(frames, rate),
        None => Err(DurationError::NotWav),
    }
}

} // verus!
