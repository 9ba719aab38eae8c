//! The gating half of the wire codec. The foreign layer owns the actual
//! byte-stream encoding and decoding; this module decides, from the
//! events those primitives produce and from the verdict of the foreign
//! stream-validity predicate, which typed result each operation returns —
//! and in particular that nothing is ever treated as a value before the
//! validity predicate has accepted its stream.

use vstd::prelude::*;

use crate::err::KErr;
use crate::err::KError;
use crate::err::KResult;
use crate::kval::KOwned;
use crate::kval::KRaw;

verus! {

/// The protocol/version selector a caller hands to the foreign
/// serialization primitive.
pub const WIRE_VERSION: i32 = 3;

/// The serialization decision: `stream` is what the foreign serialization
/// primitive produced, `valid` the validity predicate's verdict on it.
/// Only a present and valid stream is a success; a null pointer or a
/// rejected stream is a failed encode.
pub open spec fn spec_serialize(stream: Option<KRaw>, valid: bool) -> Result<KRaw, KErr> {
    if stream is Some && valid {
        Ok(stream->0)
    } else {
        Err(KErr::EncodeFailed)
    }
}

/// The deserialization decision: `valid` is the validity predicate's
/// verdict on the input stream, `decoded` what the foreign decode
/// primitive returned — `None` both for a null pointer and when the
/// primitive was never run because the stream was rejected. An invalid
/// stream is a failed decode whatever else happened; a decode that
/// returned no value from a valid stream is corrupt data.
pub open spec fn spec_deserialize(valid: bool, decoded: Option<KRaw>) -> Result<KRaw, KErr> {
    if !valid {
        Err(KErr::DecodeFailed)
    } else if decoded is None {
        Err(KErr::CorruptData)
    } else {
        Ok(decoded->0)
    }
}

/// Decide the outcome of serializing `k`. `stream` is the value the
/// foreign serialization primitive (called with `WIRE_VERSION`) returned
/// for `k`, and `valid` the foreign validity predicate's verdict on that
/// stream. On success the stream value is adopted and handed over; on any
/// failure the result is a failed encode and never a wrapper.
pub fn serialize(k: &KOwned, stream: Option<KRaw>, valid: bool) -> (r: KResult<KOwned>)
    ensures
        r is Ok <==> spec_serialize(stream, valid) is Ok,
        r is Ok ==> r->Ok_0@ == spec_serialize(stream, valid)->Ok_0,
        r is Err ==> r->Err_0.spec_kind() == KErr::EncodeFailed,
{
    match stream {
        Some(raw) => {
            if valid {
                Ok(KOwned::new(raw))
            } else {
                Err(KError::new("Invalid serialization".to_owned(), KErr::EncodeFailed))
            }
        },
        None => Err(KError::new("Invalid serialization".to_owned(), KErr::EncodeFailed)),
    }
}

/// Decide the outcome of deserializing the stream held by `ser`. The
/// order is deliberate and must be kept by every caller: the foreign
/// validity predicate runs first, and only when it accepts the stream may
/// the foreign decode primitive be run at all, since that primitive is
/// unsafe on arbitrary bytes. `valid` is the predicate's verdict;
/// `decoded` is what the decode primitive returned, and stays `None`
/// whenever it was (rightly) never invoked. An invalid stream is a failed
/// decode no matter what `decoded` holds.
pub fn deserialize(ser: &KOwned, valid: bool, decoded: Option<KRaw>) -> (r: KResult<KOwned>)
    ensures
        r is Ok <==> spec_deserialize(valid, decoded) is Ok,
        r is Ok ==> r->Ok_0@ == spec_deserialize(valid, decoded)->Ok_0,
        r is Err ==> r->Err_0.spec_kind() == spec_deserialize(valid, decoded)->Err_0,
{
    if !valid {
        return Err(KError::new("Invalid deserialization".to_owned(), KErr::DecodeFailed));
    }
    match decoded {
        None => Err(KError::new("Decode returned no value".to_owned(), KErr::CorruptData)),
        Some(raw) => Ok(KOwned::new(raw)),
    }
}

/// The codec's own share of the round-trip law. Whenever the validity
/// predicate accepts the encoded stream and the decoded reply is present,
/// encoding succeeds, decoding the result succeeds, and the value handed
/// back is exactly the one the foreign decode primitive produced.
/// Structural equality of that value with the original is the foreign
/// codec primitives' contract, stated at their interface; this library
/// adds no transformation of its own on either path.
pub proof fn lemma_round_trip_gate(stream: KRaw, decoded: KRaw)
    ensures
        spec_serialize(Some(stream), true) == Result::<KRaw, KErr>::Ok(stream),
        spec_deserialize(true, Some(decoded)) == Result::<KRaw, KErr>::Ok(decoded),
{
}

/// Serialization never yields a wrapper for a stream the validity
/// predicate rejected, and a rejected stream is never decoded into a
/// value: both failures are the corresponding typed error, whatever the
/// foreign layer returned.
pub proof fn lemma_invalid_stream_rejected(stream: Option<KRaw>, decoded: Option<KRaw>)
    ensures
        spec_serialize(stream, false) == Result::<KRaw, KErr>::Err(KErr::EncodeFailed),
        spec_deserialize(false, decoded) == Result::<KRaw, KErr>::Err(KErr::DecodeFailed),
{
}

} // verus!
