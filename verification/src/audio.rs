//! Handing mixed audio to the output device: which mixer output serves a
//! device sample format, and how signed samples become offset unsigned ones.
use vstd::prelude::*;

verus! {

/// A device sample format.
#[derive(Clone, Copy, Debug, PartialEq, Eq, Structural)]
pub enum SampleFormat {
    I8,
    I16,
    I32,
    I64,
    U8,
    U16,
    U32,
    U64,
    F32,
    F64,
    /// A format this list does not name.
    Other,
}

/// How the device buffer is filled from the mixer.
#[derive(Clone, Copy, Debug, PartialEq, Eq, Structural)]
pub enum MixOutput {
    /// Mix as 32-bit floats.
    Float,
    /// Mix as signed 16-bit samples.
    Signed16,
    /// Mix as signed 16-bit samples into the buffer, then bias each to make
    /// 32768 the equilibrium.
    Unsigned16,
}

/// The mixer output for a device format: 32-bit float, signed and unsigned
/// 16-bit are served; every other format is unsupported.
pub open spec fn mix_output_of(format: SampleFormat) -> Option<MixOutput> {
    match format {
        SampleFormat::F32 => Some(MixOutput::Float),
        SampleFormat::I16 => Some(MixOutput::Signed16),
        SampleFormat::U16 => Some(MixOutput::Unsigned16),
        _ => None,
    }
}

/// Choose how to fill buffers of a device format; `None` when the format is
/// unsupported.
pub fn mix_output(format: SampleFormat) -> (r: Option<MixOutput>)
    ensures
        r == mix_output_of(format),
{
    match format {
        SampleFormat::F32 => Some(MixOutput::Float),
        SampleFormat::I16 => Some(MixOutput::Signed16),
        SampleFormat::U16 => Some(MixOutput::Unsigned16),
        _ => None,
    }
}

/// 32-bit float devices are fed float samples, signed 16-bit devices signed
/// samples, unsigned 16-bit devices biased signed samples; every other format
/// is unsupported.
pub proof fn lemma_mix_output_table(format: SampleFormat)
    ensures
        mix_output_of(SampleFormat::F32) == Some(MixOutput::Float),
        mix_output_of(SampleFormat::I16) == Some(MixOutput::Signed16),
        mix_output_of(SampleFormat::U16) == Some(MixOutput::Unsigned16),
        format != SampleFormat::F32 && format != SampleFormat::I16 && format != SampleFormat::U16
            ==> mix_output_of(format) is None,
{
}

/// A sample shifted by 32768, modulo 2^16.
pub open spec fn biased(s: u16) -> u16 {
    ((s as int + 32768) % 65536) as u16
}

/// Bias every sample of a buffer by 32768 (wrapping), turning the bit patterns
/// of signed 16-bit samples into offset unsigned ones.
pub fn bias_to_unsigned(buffer: &mut [u16])
    ensures
        final(buffer)@.len() == old(buffer)@.len(),
        forall|i: int| 0 <= i < old(buffer)@.len() ==> #[trigger] final(buffer)@[i] == biased(old(buffer)@[i]),
{
    let n = buffer.len();
    let mut i: usize = 0;
    while i < n
        invariant
            n == old(buffer)@.len(),
            buffer@.len() == n,
            0 <= i <= n,
            forall|j: int| 0 <= j < i ==> #[trigger] buffer@[j] == biased(old(buffer)@[j]),
            forall|j: int| i <= j < n ==> #[trigger] buffer@[j] == old(buffer)@[j],
        decreases n - i,
    {
        let s = buffer[i];
        buffer[i] = s.wrapping_add(32768);
        i = i + 1;
    }
}

/// Offset binary: a signed sample's bit pattern, biased, read unsigned, is the
/// sample plus 32768, so silence (0) lands on 32768 and the order of samples
/// is kept.
pub proof fn lemma_bias_is_offset_binary(v: i16)
    ensures
        biased(v as u16) as int == v as int + 32768,
{
    assert(((v as u16) as int + 32768) % 65536 == v as int + 32768) by (bit_vector);
}

} // verus!
