//! Sound in WAV files: sixteen bits a sample.

use vstd::prelude::*;

verus! {

/// The sample rate of a file that does not name one.
pub const DEFAULT_SAMPLE_RATE: u32 = 8000;

/// A byte of a number, counted from the lowest.
pub open spec fn byte_of(n: nat, k: nat) -> u8 {
    if k == 0 {
        (n % 256) as u8
    } else if k == 1 {
        (n / 256 % 256) as u8
    } else if k == 2 {
        (n / 65536 % 256) as u8
    } else {
        (n / 16777216 % 256) as u8
    }
}

/// The number in two bytes, the lower one first.
pub open spec fn number16(bytes: Seq<u8>, at: int) -> int {
    bytes[at] + 256 * bytes[at + 1]
}

/// The number in four bytes, the lowest one first.
pub open spec fn number32(bytes: Seq<u8>, at: int) -> int {
    bytes[at] + 256 * bytes[at + 1] + 65536 * bytes[at + 2] + 16777216 * bytes[at + 3]
}

/// A sample as sixteen bits.
pub open spec fn sample_bits(sample: i16) -> nat {
    if sample >= 0 {
        sample as nat
    } else {
        (sample + 65536) as nat
    }
}

/// The sample that sixteen bits stand for.
pub open spec fn sample_of(bits: int) -> i16 {
    if bits < 32768 {
        bits as i16
    } else {
        (bits - 65536) as i16
    }
}

/// The bytes of samples.
pub open spec fn sample_bytes(samples: Seq<i16>) -> Seq<u8> {
    Seq::new(
        2 * samples.len(),
        |i: int| byte_of(sample_bits(samples[i / 2]), (i % 2) as nat),
    )
}

/// The samples in bytes; an odd byte at the end is left out.
pub open spec fn samples_in(data: Seq<u8>) -> Seq<i16> {
    Seq::new(data.len() / 2, |i: int| sample_of(number16(data, 2 * i)))
}

/// What a file starts with that holds this many bytes of one channel at this rate.
pub open spec fn wav_header(data_len: nat, rate: nat) -> Seq<u8> {
    let whole = 36 + data_len;
    let byte_rate = 2 * rate;
    seq![
        0x52u8, 0x49u8, 0x46u8, 0x46u8,
        byte_of(whole, 0), byte_of(whole, 1), byte_of(whole, 2), byte_of(whole, 3),
        0x57u8, 0x41u8, 0x56u8, 0x45u8,
        0x66u8, 0x6du8, 0x74u8, 0x20u8,
        16u8, 0u8, 0u8, 0u8,
        1u8, 0u8,
        1u8, 0u8,
        byte_of(rate, 0), byte_of(rate, 1), byte_of(rate, 2), byte_of(rate, 3),
        byte_of(byte_rate, 0), byte_of(byte_rate, 1), byte_of(byte_rate, 2), byte_of(byte_rate, 3),
        2u8, 0u8,
        16u8, 0u8,
        0x64u8, 0x61u8, 0x74u8, 0x61u8,
        byte_of(data_len, 0), byte_of(data_len, 1), byte_of(data_len, 2), byte_of(data_len, 3),
    ]
}

/// The file of one channel.
pub open spec fn wav_file(samples: Seq<i16>, rate: nat) -> Seq<u8> {
    wav_header(2 * samples.len(), rate) + sample_bytes(samples)
}

fn push32(out: &mut Vec<u8>, n: u32)
    ensures
        final(out)@ == old(out)@ + seq![
            byte_of(n as nat, 0),
            byte_of(n as nat, 1),
            byte_of(n as nat, 2),
            byte_of(n as nat, 3),
        ],
{
    out.push((n % 256) as u8);
    out.push((n / 256 % 256) as u8);
    out.push((n / 65536 % 256) as u8);
    out.push((n / 16777216 % 256) as u8);
}

fn push4(out: &mut Vec<u8>, a: u8, b: u8, c: u8, d: u8)
    ensures
        final(out)@ == old(out)@ + seq![a, b, c, d],
{
    out.push(a);
    out.push(b);
    out.push(c);
    out.push(d);
}

/// Writes samples of one channel as a file. The sizes that a file tells are numbers of
/// thirty-two bits.
pub fn write_wav(samples: &Vec<i16>, rate: u32) -> (r: Vec<u8>)
    requires
        36 + 2 * samples@.len() <= u32::MAX,
        2 * rate <= u32::MAX,
    ensures
        r@ == wav_file(samples@, rate as nat),
{
    let data_len: u32 = 2 * samples.len() as u32;
    let mut out: Vec<u8> = Vec::new();
    push4(&mut out, 0x52, 0x49, 0x46, 0x46);
    push32(&mut out, 36 + data_len);
    push4(&mut out, 0x57, 0x41, 0x56, 0x45);
    push4(&mut out, 0x66, 0x6d, 0x74, 0x20);
    push4(&mut out, 16, 0, 0, 0);
    push4(&mut out, 1, 0, 1, 0);
    push32(&mut out, rate);
    push32(&mut out, 2 * rate);
    push4(&mut out, 2, 0, 16, 0);
    push4(&mut out, 0x64, 0x61, 0x74, 0x61);
    push32(&mut out, data_len);
    let ghost header = wav_header(2 * samples@.len(), rate as nat);
    assert(out@ =~= header);
    let mut i: usize = 0;
    assert(out@ =~= header + sample_bytes(samples@).subrange(0, 0));
    while i < samples.len()
        invariant
            i <= samples@.len(),
            out@ == header + sample_bytes(samples@).subrange(0, 2 * i),
        decreases samples@.len() - i,
    {
        let sample: i16 = samples[i];
        let bits: u16 = if sample >= 0 {
            sample as u16
        } else {
            (sample as i32 + 65536) as u16
        };
        assert(bits == sample_bits(sample));
        out.push((bits % 256) as u8);
        out.push((bits / 256) as u8);
        proof {
            let all = sample_bytes(samples@);
            assert((2 * i) / 2 == i && (2 * i) % 2 == 0);
            assert((2 * i + 1) / 2 == i && (2 * i + 1) % 2 == 1);
            assert(all[2 * i] == byte_of(bits as nat, 0));
            assert(all[2 * i + 1] == byte_of(bits as nat, 1));
            assert(all.subrange(0, 2 * (i + 1)) =~= all.subrange(0, 2 * i).push(all[2 * i]).push(
                all[2 * i + 1],
            ));
            assert(out@ =~= header + all.subrange(0, 2 * (i + 1)));
        }
        i += 1;
    }
    assert(sample_bytes(samples@).subrange(0, 2 * samples@.len() as int) =~= sample_bytes(samples@));
    out
}

/// The sound of a file: its channels, one sample of each after another.
pub struct Wav {
    pub channels: u16,
    pub sample_rate: u32,
    pub samples: Vec<i16>,
}

/// The sound of a file.
pub struct WavView {
    pub channels: u16,
    pub sample_rate: u32,
    pub samples: Seq<i16>,
}

impl View for Wav {
    type V = WavView;

    open spec fn view(&self) -> WavView {
        WavView {
            channels: self.channels,
            sample_rate: self.sample_rate,
            samples: self.samples@,
        }
    }
}

/// A chunk has this name.
pub open spec fn is_named(bytes: Seq<u8>, at: int, a: u8, b: u8, c: u8, d: u8) -> bool {
    bytes[at] == a && bytes[at + 1] == b && bytes[at + 2] == c && bytes[at + 3] == d
}

/// Where the contents of a chunk end: after its size, or with the file.
pub open spec fn chunk_end(bytes: Seq<u8>, at: int) -> int {
    let end = at + 8 + number32(bytes, at + 4);
    if end < bytes.len() {
        end
    } else {
        bytes.len() as int
    }
}

/// Where the next chunk starts: at an even distance.
pub open spec fn next_chunk(bytes: Seq<u8>, at: int) -> int {
    let end = chunk_end(bytes, at);
    if number32(bytes, at + 4) % 2 == 1 && end < bytes.len() {
        end + 1
    } else {
        end
    }
}

/// The sound from a chunk on: that of the first chunk of data, in the last format before it.
pub open spec fn sound_from(bytes: Seq<u8>, at: int, channels: u16, rate: u32) -> Option<WavView>
    decreases bytes.len() - at,
{
    if at < 0 || at + 8 > bytes.len() {
        None
    } else if is_named(bytes, at, 0x64, 0x61, 0x74, 0x61) {
        Some(
            WavView {
                channels,
                sample_rate: rate,
                samples: samples_in(bytes.subrange(at + 8, chunk_end(bytes, at))),
            },
        )
    } else if is_named(bytes, at, 0x66, 0x6d, 0x74, 0x20) && chunk_end(bytes, at) >= at + 16 {
        sound_from(
            bytes,
            next_chunk(bytes, at),
            number16(bytes, at + 10) as u16,
            number32(bytes, at + 12) as u32,
        )
    } else {
        sound_from(bytes, next_chunk(bytes, at), channels, rate)
    }
}

/// The sound of a file, where it holds any.
pub open spec fn sound_of(bytes: Seq<u8>) -> Option<WavView> {
    if bytes.len() >= 12 && is_named(bytes, 0, 0x52, 0x49, 0x46, 0x46) && is_named(
        bytes,
        8,
        0x57,
        0x41,
        0x56,
        0x45,
    ) {
        sound_from(bytes, 12, 1, DEFAULT_SAMPLE_RATE)
    } else {
        None
    }
}

fn has_name(bytes: &[u8], at: usize, a: u8, b: u8, c: u8, d: u8) -> (r: bool)
    requires
        at + 4 <= bytes@.len(),
    ensures
        r == is_named(bytes@, at as int, a, b, c, d),
{
    bytes[at] == a && bytes[at + 1] == b && bytes[at + 2] == c && bytes[at + 3] == d
}

fn read32(bytes: &[u8], at: usize) -> (r: u32)
    requires
        at + 4 <= bytes@.len(),
    ensures
        r == number32(bytes@, at as int),
{
    bytes[at] as u32 + 256 * bytes[at + 1] as u32 + 65536 * bytes[at + 2] as u32 + 16777216
        * bytes[at + 3] as u32
}

fn read16(bytes: &[u8], at: usize) -> (r: u16)
    requires
        at + 2 <= bytes@.len(),
    ensures
        r == number16(bytes@, at as int),
{
    bytes[at] as u16 + 256 * bytes[at + 1] as u16
}

fn read_samples(bytes: &[u8], start: usize, end: usize) -> (r: Vec<i16>)
    requires
        start <= end <= bytes@.len(),
    ensures
        r@ == samples_in(bytes@.subrange(start as int, end as int)),
{
    let ghost data = bytes@.subrange(start as int, end as int);
    let count: usize = (end - start) / 2;
    let mut r: Vec<i16> = Vec::new();
    let mut i: usize = 0;
    while i < count
        invariant
            i <= count,
            count == (end - start) / 2,
            start <= end <= bytes@.len(),
            data == bytes@.subrange(start as int, end as int),
            r@ == samples_in(data).subrange(0, i as int),
        decreases count - i,
    {
        let bits: u16 = read16(bytes, start + 2 * i);
        let sample: i16 = if bits < 32768 {
            bits as i16
        } else {
            (bits as i32 - 65536) as i16
        };
        r.push(sample);
        proof {
            assert(number16(data, 2 * i) == bits);
            assert(samples_in(data)[i as int] == sample);
            assert(samples_in(data).subrange(0, i + 1) =~= samples_in(data).subrange(
                0,
                i as int,
            ).push(sample));
        }
        i += 1;
    }
    assert(samples_in(data).subrange(0, count as int) =~= samples_in(data));
    r
}

/// Reads the sound of a file.
pub fn read_wav(bytes: &[u8]) -> (r: Option<Wav>)
    ensures
        match sound_of(bytes@) {
            Some(sound) => r matches Some(wav) && wav@ == sound,
            None => r is None,
        },
{
    let total: usize = bytes.len();
    if total < 12 || !has_name(bytes, 0, 0x52, 0x49, 0x46, 0x46) || !has_name(
        bytes,
        8,
        0x57,
        0x41,
        0x56,
        0x45,
    ) {
        return None;
    }
    let mut channels: u16 = 1;
    let mut sample_rate: u32 = DEFAULT_SAMPLE_RATE;
    let mut at: usize = 12;
    while total - at >= 8
        invariant
            total == bytes@.len(),
            at <= total,
            sound_of(bytes@) == sound_from(bytes@, at as int, channels, sample_rate),
        decreases total - at,
    {
        let size: u32 = read32(bytes, at + 4);
        let start: usize = at + 8;
        let end: usize = if (size as u64) < (total - start) as u64 {
            start + size as usize
        } else {
            total
        };
        assert(end == chunk_end(bytes@, at as int));
        if has_name(bytes, at, 0x64, 0x61, 0x74, 0x61) {
            let samples = read_samples(bytes, start, end);
            return Some(Wav { channels, sample_rate, samples });
        }
        if has_name(bytes, at, 0x66, 0x6d, 0x74, 0x20) && end - start >= 8 {
            channels = read16(bytes, start + 2);
            sample_rate = read32(bytes, start + 4);
        }
        at = if size % 2 == 1 && end < total {
            end + 1
        } else {
            end
        };
    }
    None
}

proof fn bytes_make_the_number(n: nat)
    ensures
        n <= u32::MAX ==> byte_of(n, 0) + 256 * byte_of(n, 1) + 65536 * byte_of(n, 2) + 16777216
            * byte_of(n, 3) == n,
        n <= u16::MAX ==> byte_of(n, 0) + 256 * byte_of(n, 1) == n,
{
}

proof fn sample_comes_back(sample: i16)
    ensures
        sample_of(
            byte_of(sample_bits(sample), 0) + 256 * byte_of(sample_bits(sample), 1),
        ) == sample,
{
    bytes_make_the_number(sample_bits(sample));
}

proof fn samples_come_back(samples: Seq<i16>)
    ensures
        samples_in(sample_bytes(samples)) == samples,
{
    let data = sample_bytes(samples);
    assert forall|i: int| 0 <= i < samples.len() implies #[trigger] samples_in(data)[i]
        == samples[i] by {
        assert((2 * i) / 2 == i && (2 * i) % 2 == 0);
        assert((2 * i + 1) / 2 == i && (2 * i + 1) % 2 == 1);
        sample_comes_back(samples[i]);
    }
    assert(samples_in(data) =~= samples);
}

/// What is written is read back: one channel, its rate and its samples.
pub proof fn written_sound_is_read_back(samples: Seq<i16>, rate: u32)
    requires
        36 + 2 * samples.len() <= u32::MAX,
        2 * rate <= u32::MAX,
    ensures
        sound_of(wav_file(samples, rate as nat)) == Some(
            (WavView { channels: 1, sample_rate: rate, samples }),
        ),
{
    let file = wav_file(samples, rate as nat);
    let header = wav_header(2 * samples.len(), rate as nat);
    assert(header.len() == 44);
    assert(forall|i: int| 0 <= i < 44 ==> #[trigger] file[i] == header[i]);
    assert(number32(file, 16) == 16);
    assert(number16(file, 22) == 1);
    bytes_make_the_number(rate as nat);
    assert(number32(file, 24) == rate);
    bytes_make_the_number(2 * samples.len());
    assert(number32(file, 40) == 2 * samples.len());
    assert(is_named(file, 12, 0x66, 0x6d, 0x74, 0x20));
    assert(!is_named(file, 12, 0x64, 0x61, 0x74, 0x61));
    assert(is_named(file, 36, 0x64, 0x61, 0x74, 0x61));
    assert(next_chunk(file, 12) == 36);
    assert(chunk_end(file, 36) == file.len());
    assert(file.subrange(44, file.len() as int) =~= sample_bytes(samples));
    samples_come_back(samples);
    assert(sound_of(file) == sound_from(file, 12, 1, DEFAULT_SAMPLE_RATE));
    assert(sound_from(file, 12, 1, DEFAULT_SAMPLE_RATE) == sound_from(file, 36, 1, rate));
}

/// A file is what players expect: the marks of the format, the sizes that follow them,
/// one channel of sixteen bits at the rate, and the sound at the end.
pub proof fn file_has_the_form_of_wav(samples: Seq<i16>, rate: u32)
    requires
        36 + 2 * samples.len() <= u32::MAX,
        2 * rate <= u32::MAX,
    ensures
        ({
            let file = wav_file(samples, rate as nat);
            &&& file.len() == 44 + 2 * samples.len()
            &&& is_named(file, 0, 0x52, 0x49, 0x46, 0x46)
            &&& is_named(file, 8, 0x57, 0x41, 0x56, 0x45)
            &&& is_named(file, 12, 0x66, 0x6d, 0x74, 0x20)
            &&& is_named(file, 36, 0x64, 0x61, 0x74, 0x61)
            &&& number32(file, 4) == file.len() - 8
            &&& number32(file, 16) == 16
            &&& number16(file, 20) == 1
            &&& number16(file, 22) == 1
            &&& number32(file, 24) == rate
            &&& number32(file, 28) == 2 * rate
            &&& number16(file, 32) == 2
            &&& number16(file, 34) == 16
            &&& number32(file, 40) == 2 * samples.len()
        }),
{
    let file = wav_file(samples, rate as nat);
    let header = wav_header(2 * samples.len(), rate as nat);
    assert(header.len() == 44);
    assert(forall|i: int| 0 <= i < 44 ==> #[trigger] file[i] == header[i]);
    assert(is_named(file, 0, 0x52, 0x49, 0x46, 0x46));
    assert(is_named(file, 8, 0x57, 0x41, 0x56, 0x45));
    assert(is_named(file, 12, 0x66, 0x6d, 0x74, 0x20));
    assert(is_named(file, 36, 0x64, 0x61, 0x74, 0x61));
    assert(number32(file, 16) == 16);
    assert(number16(file, 20) == 1);
    assert(number16(file, 22) == 1);
    assert(number16(file, 32) == 2);
    assert(number16(file, 34) == 16);
    assert(number32(file, 4) == file.len() - 8) by {
        bytes_make_the_number(36 + 2 * samples.len());
    }
    assert(number32(file, 24) == rate) by {
        bytes_make_the_number(rate as nat);
    }
    assert(number32(file, 28) == 2 * rate) by {
        bytes_make_the_number(2 * (rate as nat));
    }
    assert(number32(file, 40) == 2 * samples.len()) by {
        bytes_make_the_number(2 * samples.len());
    }
}

/// Samples are written in order, two bytes each, the lower first; negative ones as what
/// they lack to a whole turn.
pub proof fn samples_are_written_low_byte_first(samples: Seq<i16>, i: int)
    requires
        0 <= i < samples.len(),
    ensures
        sample_bytes(samples).len() == 2 * samples.len(),
        samples[i] >= 0 ==> number16(sample_bytes(samples), 2 * i) == samples[i],
        samples[i] < 0 ==> number16(sample_bytes(samples), 2 * i) == samples[i] + 65536,
{
    let bits = sample_bits(samples[i]);
    bytes_make_the_number(bits);
    assert((2 * i) / 2 == i && (2 * i + 1) / 2 == i);
    assert((2 * i) % 2 == 0 && (2 * i + 1) % 2 == 1);
    assert(sample_bytes(samples)[2 * i] == byte_of(bits, 0));
    assert(sample_bytes(samples)[2 * i + 1] == byte_of(bits, 1));
}

/// What does not begin with the marks of the format holds no sound.
pub proof fn other_files_hold_no_sound(bytes: Seq<u8>)
    ensures
        bytes.len() < 12 ==> sound_of(bytes) is None,
        bytes.len() >= 12 && !is_named(bytes, 0, 0x52, 0x49, 0x46, 0x46) ==> sound_of(bytes) is None,
        bytes.len() >= 12 && !is_named(bytes, 8, 0x57, 0x41, 0x56, 0x45) ==> sound_of(bytes) is None,
        bytes.len() < 20 ==> sound_of(bytes) is None,
{
}

/// The contents of a chunk end where its size says, or with the file; the next chunk
/// starts there, at an even distance.
pub proof fn chunks_follow_each_other(bytes: Seq<u8>, at: int)
    requires
        0 <= at,
        at + 8 <= bytes.len(),
    ensures
        at + 8 <= chunk_end(bytes, at) <= bytes.len(),
        at + 8 + number32(bytes, at + 4) <= bytes.len() ==> chunk_end(bytes, at) == at + 8 + number32(
            bytes,
            at + 4,
        ),
        chunk_end(bytes, at) <= next_chunk(bytes, at) <= chunk_end(bytes, at) + 1,
        number32(bytes, at + 4) % 2 == 0 ==> next_chunk(bytes, at) == chunk_end(bytes, at),
        number32(bytes, at + 4) % 2 == 1 && chunk_end(bytes, at) < bytes.len() ==> next_chunk(bytes, at)
            == chunk_end(bytes, at) + 1,
{
}

/// A chunk has one name: its four bytes in their order.
pub proof fn chunk_has_one_name(bytes: Seq<u8>, at: int, a: u8, b: u8, c: u8, d: u8)
    ensures
        is_named(bytes, at, bytes[at], bytes[at + 1], bytes[at + 2], bytes[at + 3]),
        is_named(bytes, at, a, b, c, d) ==> seq![a, b, c, d] == seq![
            bytes[at],
            bytes[at + 1],
            bytes[at + 2],
            bytes[at + 3],
        ],
{
}

} // verus!
