//! 16-bit PCM audio in WAV containers.

use vstd::prelude::*;

verus! {

/// A 16-bit number, low byte first.
pub open spec fn le2(n: int) -> Seq<u8> {
    seq![(n % 256) as u8, ((n / 256) % 256) as u8]
}

/// A 32-bit number, low byte first.
pub open spec fn le4(n: int) -> Seq<u8> {
    seq![
        (n % 256) as u8,
        ((n / 256) % 256) as u8,
        ((n / 65536) % 256) as u8,
        ((n / 16777216) % 256) as u8,
    ]
}

/// The number that a sample is stored as: its 16-bit two's complement.
pub open spec fn sample_word(s: i16) -> int {
    if s >= 0 {
        s as int
    } else {
        s + 65536
    }
}

/// The samples, two bytes each.
pub open spec fn sample_bytes(samples: Seq<i16>) -> Seq<u8>
    decreases samples.len(),
{
    if samples.len() == 0 {
        Seq::empty()
    } else {
        sample_bytes(samples.drop_last()) + le2(sample_word(samples.last()))
    }
}

/// The 44 bytes before the samples: chunk sizes and sample format.
pub open spec fn wav_header(data_len: int, rate: int, channels: int) -> Seq<u8> {
    seq![0x52u8, 0x49u8, 0x46u8, 0x46u8] + le4(data_len + 36) + seq![
        0x57u8,
        0x41u8,
        0x56u8,
        0x45u8,
        0x66u8,
        0x6du8,
        0x74u8,
        0x20u8,
    ] + le4(16) + le2(1) + le2(channels) + le4(rate) + le4(rate * channels * 2) + le2(channels * 2)
        + le2(16) + seq![0x64u8, 0x61u8, 0x74u8, 0x61u8] + le4(data_len)
}

/// The length field of a sample count: the number of sample bytes, as far as 32 bits hold it.
pub open spec fn data_size(samples: int) -> int {
    (2 * samples) % 0x1_0000_0000
}

/// A whole file: header and samples.
pub open spec fn wav_bytes(samples: Seq<i16>, rate: int, channels: int) -> Seq<u8> {
    wav_header(data_size(samples.len() as int), rate, channels) + sample_bytes(samples)
}

fn push_le2(out: &mut Vec<u8>, n: u16)
    ensures
        final(out)@ == old(out)@ + le2(n as int),
{
    out.push((n % 256) as u8);
    out.push(((n / 256) % 256) as u8);
    assert(out@ =~= old(out)@ + le2(n as int));
}

fn push_le4(out: &mut Vec<u8>, n: u32)
    ensures
        final(out)@ == old(out)@ + le4(n as int),
{
    out.push((n % 256) as u8);
    out.push(((n / 256) % 256) as u8);
    out.push(((n / 65536) % 256) as u8);
    out.push(((n / 16777216) % 256) as u8);
    assert(out@ =~= old(out)@ + le4(n as int));
}

fn push4(out: &mut Vec<u8>, a: u8, b: u8, c: u8, d: u8)
    ensures
        final(out)@ == old(out)@ + seq![a, b, c, d],
{
    out.push(a);
    out.push(b);
    out.push(c);
    out.push(d);
    assert(out@ =~= old(out)@ + seq![a, b, c, d]);
}

/// Header and samples, one after the other.
fn framed(samples: &[i16], rate: u32, channels: u16) -> (r: Vec<u8>)
    requires
        2 * samples@.len() <= usize::MAX,
        data_size(samples@.len() as int) + 36 <= u32::MAX,
        rate * channels <= u32::MAX,
        rate * channels * 2 <= u32::MAX,
        channels * 2 <= u16::MAX,
    ensures
        r@ == wav_bytes(samples@, rate as int, channels as int),
{
    let size: u32 = ((2 * samples.len()) as u64 % 0x1_0000_0000u64) as u32;
    let mut out: Vec<u8> = Vec::new();
    push4(&mut out, 0x52, 0x49, 0x46, 0x46);
    push_le4(&mut out, size + 36);
    push4(&mut out, 0x57, 0x41, 0x56, 0x45);
    push4(&mut out, 0x66, 0x6d, 0x74, 0x20);
    push_le4(&mut out, 16);
    push_le2(&mut out, 1);
    push_le2(&mut out, channels);
    push_le4(&mut out, rate);
    push_le4(&mut out, rate * (channels as u32) * 2);
    push_le2(&mut out, channels * 2);
    push_le2(&mut out, 16);
    push4(&mut out, 0x64, 0x61, 0x74, 0x61);
    push_le4(&mut out, size);
    let ghost header = out@;
    assert(header =~= wav_header(
        data_size(samples@.len() as int),
        rate as int,
        channels as int,
    ));
    let mut i: usize = 0;
    assert(samples@.take(0) =~= Seq::empty());
    assert(out@ =~= header + sample_bytes(samples@.take(0)));
    while i < samples.len()
        invariant
            0 <= i <= samples@.len(),
            out@ == header + sample_bytes(samples@.take(i as int)),
        decreases samples@.len() - i,
    {
        let s: i16 = samples[i];
        let word: u16 = if s >= 0 {
            s as u16
        } else {
            ((s as i32) + 65536) as u16
        };
        push_le2(&mut out, word);
        i += 1;
        assert(samples@.take(i as int).drop_last() =~= samples@.take(i - 1));
        assert(out@ =~= header + sample_bytes(samples@.take(i as int)));
    }
    assert(samples@.take(samples@.len() as int) =~= samples@);
    out
}

/// The bytes of a WAV file with the given samples.
///
/// The length field holds 32 bits; of a longer sample list it keeps the low ones.
pub fn wav_file(samples: &[i16], rate: u32, channels: u16) -> (r: Vec<u8>)
    requires
        2 * samples@.len() <= usize::MAX,
        data_size(samples@.len() as int) + 44 <= u32::MAX,
        rate * channels * 2 <= u32::MAX,
        channels * 2 <= u16::MAX,
    ensures
        r@ == wav_bytes(samples@, rate as int, channels as int),
{
    assert(rate * channels <= u32::MAX);
    framed(samples, rate, channels)
}

/// Whether the size of so many samples can be written in a WAV file.
pub open spec fn wav16_fits(count: nat) -> bool {
    2 * count <= u32::MAX
}

/// Whether, where the size of so many samples can be written, that of the file can be too.
pub open spec fn wav16_defined(count: nat) -> bool {
    wav16_fits(count) ==> 2 * count <= u32::MAX - 36
}

/// 16 kHz mono samples as a WAV file.
pub open spec fn wav16_bytes(samples: Seq<i16>) -> Seq<u8> {
    wav_header((2 * samples.len()) as int, 16000, 1) + sample_bytes(samples)
}

/// 16 kHz mono samples as a WAV file, or an error where they are too many for one.
pub fn wav16(samples: &[i16]) -> (r: Result<Vec<u8>, String>)
    requires
        wav16_defined(samples@.len()),
    ensures
        match r {
            Ok(bytes) => wav16_fits(samples@.len()) && bytes@ == wav16_bytes(samples@),
            Err(e) => !wav16_fits(samples@.len()) && e@ == "Audio is too long"@,
        },
        r is Err <==> samples@.len() > 0x7fff_ffff,
{
    if samples.len() > 0x7fff_ffff {
        return Err("Audio is too long".to_owned());
    }
    proof {
        let size: nat = 2 * samples@.len();
        vstd::arithmetic::div_mod::lemma_small_mod(size, 0x1_0000_0000);
        assert(data_size(samples@.len() as int) == size);
    }
    Ok(framed(samples, 16000, 1))
}

/// The number that two bytes hold, low byte first.
pub open spec fn from_le2(b: Seq<u8>) -> int {
    b[0] + 256 * b[1]
}

/// The number that four bytes hold, low byte first.
pub open spec fn from_le4(b: Seq<u8>) -> int {
    b[0] + 256 * b[1] + 65536 * b[2] + 16777216 * b[3]
}

proof fn le4_reads_back(n: int)
    requires
        0 <= n <= u32::MAX,
    ensures
        from_le4(le4(n)) == n,
{
    assert(n == (n % 256) + 256 * ((n / 256) % 256) + 65536 * ((n / 65536) % 256) + 16777216 * ((n
        / 16777216) % 256)) by (nonlinear_arith)
        requires
            0 <= n <= u32::MAX,
    ;
}

proof fn le2_reads_back(n: int)
    requires
        0 <= n < 65536,
    ensures
        from_le2(le2(n)) == n,
{
}

proof fn sample_positions(samples: Seq<i16>, i: int)
    requires
        0 <= i < samples.len(),
    ensures
        sample_bytes(samples).len() == 2 * samples.len(),
        sample_bytes(samples).subrange(2 * i, 2 * i + 2) == le2(sample_word(samples[i])),
    decreases samples.len(),
{
    let front = samples.drop_last();
    sample_len(front);
    if i < front.len() {
        sample_positions(front, i);
        assert(sample_bytes(samples).subrange(2 * i, 2 * i + 2) =~= sample_bytes(front).subrange(
            2 * i,
            2 * i + 2,
        ));
        assert(front[i] == samples[i]);
    } else {
        assert(sample_bytes(samples).subrange(2 * i, 2 * i + 2) =~= le2(
            sample_word(samples.last()),
        ));
    }
}

proof fn sample_len(samples: Seq<i16>)
    ensures
        sample_bytes(samples).len() == 2 * samples.len(),
    decreases samples.len(),
{
    if samples.len() > 0 {
        sample_len(samples.drop_last());
    }
}

proof fn header_fields(data_len: int, rate: int, channels: int)
    ensures
        wav_header(data_len, rate, channels).len() == 44,
        wav_header(data_len, rate, channels).subrange(40, 44) == le4(data_len),
        wav_header(data_len, rate, channels).subrange(4, 8) == le4(data_len + 36),
        wav_header(data_len, rate, channels).subrange(24, 28) == le4(rate),
{
    let start = seq![0x52u8, 0x49u8, 0x46u8, 0x46u8] + le4(data_len + 36);
    let format = seq![0x57u8, 0x41u8, 0x56u8, 0x45u8, 0x66u8, 0x6du8, 0x74u8, 0x20u8] + le4(16)
        + le2(1) + le2(channels);
    let speed = le4(rate) + le4(rate * channels * 2) + le2(channels * 2) + le2(16);
    let rest = seq![0x64u8, 0x61u8, 0x74u8, 0x61u8] + le4(data_len);
    let h = wav_header(data_len, rate, channels);
    assert(h =~= start + format + speed + rest);
    assert(start.len() == 8 && format.len() == 16 && speed.len() == 12 && rest.len() == 8);
    assert(h.subrange(4, 8) =~= le4(data_len + 36));
    assert(h.subrange(24, 28) =~= le4(rate));
    assert(h.subrange(40, 44) =~= le4(data_len));
}

/// A file says how long it is: its size and length fields hold the actual number of bytes, and
/// each sample can be read back from its place. This holds of 16 kHz mono files too, which are
/// written in the same way.
pub proof fn wav_files_read_back(samples: Seq<i16>, rate: int, channels: int)
    requires
        2 * samples.len() + 36 <= u32::MAX,
        0 <= rate <= u32::MAX,
        0 <= channels <= u16::MAX,
    ensures
        wav_bytes(samples, rate, channels).len() == 44 + 2 * samples.len(),
        from_le4(wav_bytes(samples, rate, channels).subrange(40, 44)) == 2 * samples.len(),
        from_le4(wav_bytes(samples, rate, channels).subrange(4, 8)) == wav_bytes(
            samples,
            rate,
            channels,
        ).len() - 8,
        from_le4(wav_bytes(samples, rate, channels).subrange(24, 28)) == rate,
        forall|i: int|
            0 <= i < samples.len() ==> from_le2(
                #[trigger] wav_bytes(samples, rate, channels).subrange(44 + 2 * i, 46 + 2 * i),
            ) == sample_word(samples[i]),
        wav16_bytes(samples) == wav_bytes(samples, 16000, 1),
{
    let all = wav_bytes(samples, rate, channels);
    let n = (2 * samples.len()) as int;
    sample_len(samples);
    assert(data_size(samples.len() as int) == n);
    let h = wav_header(n, rate, channels);
    header_fields(n, rate, channels);
    assert(all == h + sample_bytes(samples));
    assert(all.subrange(40, 44) =~= h.subrange(40, 44));
    assert(all.subrange(4, 8) =~= h.subrange(4, 8));
    assert(all.subrange(24, 28) =~= h.subrange(24, 28));
    le4_reads_back(n);
    le4_reads_back(n + 36);
    le4_reads_back(rate);
    assert forall|i: int| 0 <= i < samples.len() implies from_le2(
        #[trigger] all.subrange(44 + 2 * i, 46 + 2 * i),
    ) == sample_word(samples[i]) by {
        sample_positions(samples, i);
        assert(all.subrange(44 + 2 * i, 46 + 2 * i) =~= sample_bytes(samples).subrange(
            2 * i,
            2 * i + 2,
        ));
        le2_reads_back(sample_word(samples[i]));
    }
}

/// A file says what it holds: uncompressed samples of sixteen bits, so many channels at such a
/// rate, and how many bytes a second and a moment of them take. Each sample is stored in two's
/// complement behind the 44 bytes that say so.
pub proof fn wav_files_say_what_they_hold(samples: Seq<i16>, rate: int, channels: int)
    requires
        2 * samples.len() + 36 <= u32::MAX,
        0 <= rate <= u32::MAX,
        0 <= channels <= 32767,
        0 <= rate * channels * 2 <= u32::MAX,
    ensures
        ({
            let file = wav_bytes(samples, rate, channels);
            let two = |at: int| file[at] + 256 * file[at + 1];
            let four = |at: int| two(at) + 65536 * two(at + 2);
            &&& file.subrange(0, 4) == seq![82u8, 73u8, 70u8, 70u8]
            &&& file.subrange(8, 16) == seq![87u8, 65u8, 86u8, 69u8, 102u8, 109u8, 116u8, 32u8]
            &&& four(16) == 16
            &&& two(20) == 1
            &&& two(22) == channels
            &&& four(24) == rate
            &&& four(28) == rate * channels * 2
            &&& two(32) == channels * 2
            &&& two(34) == 16
            &&& file.subrange(36, 40) == seq![100u8, 97u8, 116u8, 97u8]
            &&& four(40) == file.len() - 44
            &&& four(4) == file.len() - 8
            &&& file.len() == 44 + 2 * samples.len()
            &&& forall|i: int|
                0 <= i < samples.len() ==> {
                    let word = #[trigger] file[44 + 2 * i] + 256 * file[45 + 2 * i];
                    samples[i] == if word < 32768 {
                        word
                    } else {
                        word - 65536
                    }
                }
        }),
{
    let file = wav_bytes(samples, rate, channels);
    let n = (2 * samples.len()) as int;
    sample_len(samples);
    assert(data_size(samples.len() as int) == n);
    let h = wav_header(n, rate, channels);
    let start = seq![0x52u8, 0x49u8, 0x46u8, 0x46u8] + le4(n + 36);
    let format = seq![0x57u8, 0x41u8, 0x56u8, 0x45u8, 0x66u8, 0x6du8, 0x74u8, 0x20u8] + le4(16)
        + le2(1) + le2(channels);
    let speed = le4(rate) + le4(rate * channels * 2) + le2(channels * 2) + le2(16);
    let rest = seq![0x64u8, 0x61u8, 0x74u8, 0x61u8] + le4(n);
    assert(h =~= start + format + speed + rest);
    assert(start.len() == 8 && format.len() == 16 && speed.len() == 12 && rest.len() == 8);
    le4_reads_back(n);
    le4_reads_back(n + 36);
    le4_reads_back(rate);
    le4_reads_back(rate * channels * 2);
    assert(file.subrange(0, 4) =~= seq![82u8, 73u8, 70u8, 70u8]);
    assert(file.subrange(8, 16) =~= seq![87u8, 65u8, 86u8, 69u8, 102u8, 109u8, 116u8, 32u8]);
    assert(file.subrange(36, 40) =~= seq![100u8, 97u8, 116u8, 97u8]);
    assert(file.subrange(4, 8) =~= le4(n + 36));
    assert(file.subrange(16, 20) =~= le4(16));
    assert(file.subrange(20, 22) =~= le2(1));
    assert(file.subrange(22, 24) =~= le2(channels));
    assert(file.subrange(24, 28) =~= le4(rate));
    assert(file.subrange(28, 32) =~= le4(rate * channels * 2));
    assert(file.subrange(32, 34) =~= le2(channels * 2));
    assert(file.subrange(34, 36) =~= le2(16));
    assert(file.subrange(40, 44) =~= le4(n));
    le4_reads_back(16);
    le2_reads_back(1);
    le2_reads_back(16);
    le2_reads_back(channels);
    le2_reads_back(channels * 2);
    four_at(file, 4);
    four_at(file, 16);
    four_at(file, 24);
    four_at(file, 28);
    four_at(file, 40);
    two_at(file, 20);
    two_at(file, 22);
    two_at(file, 32);
    two_at(file, 34);
    assert forall|i: int| 0 <= i < samples.len() implies {
        let word = #[trigger] file[44 + 2 * i] + 256 * file[45 + 2 * i];
        samples[i] == if word < 32768 {
            word
        } else {
            word - 65536
        }
    } by {
        sample_positions(samples, i);
        assert(file.subrange(44 + 2 * i, 44 + 2 * i + 2) =~= sample_bytes(samples).subrange(
            2 * i,
            2 * i + 2,
        ));
        le2_reads_back(sample_word(samples[i]));
        two_at(file, 44 + 2 * i);
    }
}

proof fn four_at(file: Seq<u8>, at: int)
    requires
        0 <= at <= file.len() - 4,
    ensures
        from_le4(file.subrange(at, at + 4)) == file[at] + 256 * file[at + 1] + 65536 * (file[at + 2]
            + 256 * file[at + 3]),
{
}

proof fn two_at(file: Seq<u8>, at: int)
    requires
        0 <= at <= file.len() - 2,
    ensures
        from_le2(file.subrange(at, at + 2)) == file[at] + 256 * file[at + 1],
{
}

} // verus!
