use vstd::prelude::*;

verus! {

/// Sort layer of a chunk; lower layers are drawn first.
#[derive(Clone, Copy, Debug, PartialEq, Eq, Structural)]
pub struct LayerId(pub u16);

/// Bits used by the multisample count, once shifted into place.
pub const MSAA_MASK_BITS: u32 = 0b111111;

/// Position of the multisample field: the six highest bits of the key.
pub const MSAA_SHIFT_BITS: u32 = 26;

/// The bits of a key that are not reserved for any field.
pub const UNUSED_BITS: u32 = 0x03ff_ffff;

/// Pipeline variant key. The six highest bits hold the multisample count
/// minus one, so counts from 1 to 64 can be encoded; all other bits are
/// reserved and stay clear.
#[derive(Clone, Copy, Debug, PartialEq, Eq, Structural)]
pub struct TilemapPipelineKey {
    bits: u32,
}

/// Key bits for a multisample count in 1..=64.
pub open spec fn encode_msaa(samples: u32) -> u32 {
    (((samples - 1) as u32) & MSAA_MASK_BITS) << MSAA_SHIFT_BITS
}

/// Multisample count carried by raw key bits.
pub open spec fn decode_msaa(bits: u32) -> u32 {
    (((bits >> MSAA_SHIFT_BITS) & MSAA_MASK_BITS) + 1) as u32
}

/// A multisample count that a key can hold.
pub open spec fn valid_msaa_samples(samples: u32) -> bool {
    1 <= samples <= 64
}

impl TilemapPipelineKey {
    /// The key with no bits set (single-sampled).
    pub fn none() -> (r: TilemapPipelineKey)
        ensures
            r.wf(),
            r.spec_bits() == 0,
            r.samples() == 1,
    {
        assert(0u32 & 0x03ff_ffffu32 == 0) by (bit_vector);
        assert((((0u32 >> 26u32) & 63u32) + 1) as u32 == 1) by (bit_vector);
        TilemapPipelineKey { bits: 0 }
    }

    pub closed spec fn wf(self) -> bool {
        self.bits & UNUSED_BITS == 0
    }

    pub closed spec fn spec_bits(self) -> u32 {
        self.bits
    }

    /// The multisample count this key stands for.
    pub closed spec fn samples(self) -> u32 {
        decode_msaa(self.bits)
    }

    /// The key `from_msaa_samples` gives for a count in 1..=64.
    pub closed spec fn from_msaa_spec(samples: u32) -> TilemapPipelineKey {
        TilemapPipelineKey { bits: encode_msaa(samples) }
    }

    pub fn bits(&self) -> (r: u32)
        ensures
            r == self.spec_bits(),
    {
        self.bits
    }

    /// Builds a key from raw bits; only bits of the multisample field are
    /// known, so any other bit set gives `None`.
    pub fn from_bits(bits: u32) -> (r: Option<TilemapPipelineKey>)
        ensures
            r is Some <==> bits & UNUSED_BITS == 0,
            r is Some ==> r->0.spec_bits() == bits && r->0.wf(),
    {
        if bits & UNUSED_BITS == 0 {
            Some(TilemapPipelineKey { bits })
        } else {
            None
        }
    }

    /// Encodes a multisample count, which must lie in 1..=64.
    pub fn from_msaa_samples(msaa_samples: u32) -> (r: TilemapPipelineKey)
        requires
            valid_msaa_samples(msaa_samples),
        ensures
            r.wf(),
            r == TilemapPipelineKey::from_msaa_spec(msaa_samples),
            r.spec_bits() == encode_msaa(msaa_samples),
            r.samples() == msaa_samples,
    {
        let msaa_bits = ((msaa_samples - 1) & MSAA_MASK_BITS) << MSAA_SHIFT_BITS;
        proof {
            lemma_msaa_round_trip(msaa_samples);
        }
        TilemapPipelineKey { bits: msaa_bits }
    }

    /// Encodes a multisample count, rejecting counts outside 1..=64 instead
    /// of wrapping them into the six-bit field.
    pub fn try_from_msaa_samples(msaa_samples: u32) -> (r: Option<TilemapPipelineKey>)
        ensures
            r is Some <==> valid_msaa_samples(msaa_samples),
            r is Some ==> r->0.wf() && r->0 == TilemapPipelineKey::from_msaa_spec(msaa_samples)
                && r->0.spec_bits() == encode_msaa(msaa_samples)
                && r->0.samples() == msaa_samples,
    {
        if 1 <= msaa_samples && msaa_samples <= 64 {
            Some(TilemapPipelineKey::from_msaa_samples(msaa_samples))
        } else {
            None
        }
    }

    /// Decodes the multisample count held by the key.
    pub fn msaa_samples(&self) -> (r: u32)
        ensures
            r == self.samples(),
            valid_msaa_samples(r),
    {
        let b = self.bits;
        let field = (b >> MSAA_SHIFT_BITS) & MSAA_MASK_BITS;
        assert(field <= 63) by (bit_vector)
            requires
                field == (b >> 26u32) & 63u32,
        ;
        proof {
            lemma_decode_in_range(self.bits);
        }
        field + 1
    }
}

/// A key's multisample count is the one its bits decode to, and the key
/// rebuilt from that count has the same bits.
pub proof fn lemma_key_samples(k: TilemapPipelineKey)
    requires
        k.wf(),
    ensures
        k.samples() == decode_msaa(k.spec_bits()),
        valid_msaa_samples(k.samples()),
        encode_msaa(k.samples()) == k.spec_bits(),
{
    let b = k.bits;
    assert(b & 0x03ff_ffffu32 == 0 ==> ((((((b >> 26u32) & 63u32) + 1) as u32 - 1) as u32
        & 63u32) << 26u32) == b) by (bit_vector);
    lemma_decode_in_range(b);
}

/// Every key decodes to a multisample count in 1..=64.
pub proof fn lemma_decode_in_range(bits: u32)
    ensures
        valid_msaa_samples(decode_msaa(bits)),
{
    assert(1 <= (((bits >> 26u32) & 63u32) + 1) as u32 <= 64) by (bit_vector);
}

/// Decoding the key built from a multisample count in 1..=64 gives that
/// count back, and the encoded key touches no bit outside the multisample
/// field.
pub proof fn lemma_msaa_round_trip(samples: u32)
    requires
        valid_msaa_samples(samples),
    ensures
        decode_msaa(encode_msaa(samples)) == samples,
        encode_msaa(samples) & UNUSED_BITS == 0,
{
    assert(1 <= samples <= 64 ==> (((((((samples - 1) as u32) & 63u32) << 26u32) >> 26u32)
        & 63u32) + 1) as u32 == samples) by (bit_vector);
    assert(((((samples - 1) as u32) & 63u32) << 26u32) & 0x03ff_ffffu32 == 0) by (bit_vector);
}

} // verus!
