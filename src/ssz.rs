//! Decoding of the gossip container that carries a block together with its
//! blobs sidecar: two variable-size parts, each located by a 4-byte
//! little-endian offset in the container's fixed part.
use vstd::prelude::*;

verus! {

/// The size of the container's fixed part: two offsets.
pub const FIXED_LEN: usize = 8;

#[derive(Clone, Copy, Debug, PartialEq, Eq, Structural)]
pub enum DecodeError {
    /// Fewer bytes than the fixed part needs.
    InvalidByteLength { len: usize, expected: usize },
    /// The first offset points into the fixed part.
    OffsetIntoFixedPortion(usize),
    /// The first offset leaves bytes between the fixed part and the first part.
    OffsetSkipsVariableBytes(usize),
    /// The second offset lies before the first.
    OffsetsAreDecreasing(usize),
    /// The second offset lies beyond the end.
    OffsetOutOfBounds(usize),
}

/// The encoded parts of the container, in field order.
#[derive(Clone, Debug, PartialEq, Eq)]
pub struct SignedBeaconBlockAndBlobsSidecarDecode {
    pub beacon_block: Vec<u8>,
    pub blobs_sidecar: Vec<u8>,
}

/// A block of the blob fork together with its blobs sidecar, each still in its
/// SSZ encoding.
#[derive(Clone, Debug, PartialEq, Eq)]
pub struct SignedBeaconBlockAndBlobsSidecar {
    pub beacon_block: Vec<u8>,
    pub blobs_sidecar: Vec<u8>,
}

/// The little-endian 4-byte integer at `at`.
pub open spec fn le_u32(b: Seq<u8>, at: int) -> nat {
    (b[at] + 256 * b[at + 1] + 65536 * b[at + 2] + 16777216 * b[at + 3]) as nat
}

/// How the container's bytes split into its two parts.
pub open spec fn split_spec(b: Seq<u8>) -> Result<(Seq<u8>, Seq<u8>), DecodeError> {
    if b.len() < FIXED_LEN {
        Err(DecodeError::InvalidByteLength { len: b.len() as usize, expected: FIXED_LEN })
    } else {
        let first = le_u32(b, 0);
        let second = le_u32(b, 4);
        if first < FIXED_LEN {
            Err(DecodeError::OffsetIntoFixedPortion(first as usize))
        } else if first > FIXED_LEN {
            Err(DecodeError::OffsetSkipsVariableBytes(first as usize))
        } else if second < first {
            Err(DecodeError::OffsetsAreDecreasing(second as usize))
        } else if second > b.len() {
            Err(DecodeError::OffsetOutOfBounds(second as usize))
        } else {
            Ok((b.subrange(first as int, second as int), b.subrange(second as int, b.len() as int)))
        }
    }
}

fn read_offset(bytes: &[u8], at: usize) -> (r: usize)
    requires
        at + 4 <= bytes@.len(),
    ensures
        r == le_u32(bytes@, at as int),
{
    bytes[at] as usize + 256 * (bytes[at + 1] as usize) + 65536 * (bytes[at + 2] as usize)
        + 16777216 * (bytes[at + 3] as usize)
}

fn copy_range(bytes: &[u8], start: usize, end: usize) -> (r: Vec<u8>)
    requires
        start <= end <= bytes@.len(),
    ensures
        r@ == bytes@.subrange(start as int, end as int),
{
    let mut out: Vec<u8> = Vec::new();
    let mut i: usize = start;
    while i < end
        invariant
            start <= i <= end,
            end <= bytes@.len(),
            out@ == bytes@.subrange(start as int, i as int),
        decreases end - i,
    {
        out.push(bytes[i]);
        i = i + 1;
        assert(out@ =~= bytes@.subrange(start as int, i as int));
    }
    out
}

impl SignedBeaconBlockAndBlobsSidecarDecode {
    /// Splits the container's bytes into its two encoded parts.
    pub fn from_ssz_bytes(bytes: &[u8]) -> (r: Result<SignedBeaconBlockAndBlobsSidecarDecode, DecodeError>)
        ensures
            match split_spec(bytes@) {
                Ok((block, sidecar)) => r matches Ok(d) && d.beacon_block@ == block
                    && d.blobs_sidecar@ == sidecar,
                Err(e) => r == Err::<SignedBeaconBlockAndBlobsSidecarDecode, DecodeError>(e),
            },
    {
        if bytes.len() < FIXED_LEN {
            return Err(DecodeError::InvalidByteLength { len: bytes.len(), expected: FIXED_LEN });
        }
        let first = read_offset(bytes, 0);
        let second = read_offset(bytes, 4);
        if first < FIXED_LEN {
            return Err(DecodeError::OffsetIntoFixedPortion(first));
        }
        if first > FIXED_LEN {
            return Err(DecodeError::OffsetSkipsVariableBytes(first));
        }
        if second < first {
            return Err(DecodeError::OffsetsAreDecreasing(second));
        }
        if second > bytes.len() {
            return Err(DecodeError::OffsetOutOfBounds(second));
        }
        Ok(
            SignedBeaconBlockAndBlobsSidecarDecode {
                beacon_block: copy_range(bytes, first, second),
                blobs_sidecar: copy_range(bytes, second, bytes.len()),
            },
        )
    }
}

impl SignedBeaconBlockAndBlobsSidecar {
    /// Decodes a block and its blobs sidecar from the container's bytes.
    pub fn from_ssz_bytes(bytes: &[u8]) -> (r: Result<SignedBeaconBlockAndBlobsSidecar, DecodeError>)
        ensures
            match split_spec(bytes@) {
                Ok((block, sidecar)) => r matches Ok(d) && d.beacon_block@ == block
                    && d.blobs_sidecar@ == sidecar,
                Err(e) => r == Err::<SignedBeaconBlockAndBlobsSidecar, DecodeError>(e),
            },
    {
        match SignedBeaconBlockAndBlobsSidecarDecode::from_ssz_bytes(bytes) {
            Ok(d) => Ok(
                SignedBeaconBlockAndBlobsSidecar {
                    beacon_block: d.beacon_block,
                    blobs_sidecar: d.blobs_sidecar,
                },
            ),
            Err(e) => Err(e),
        }
    }
}

} // verus!
