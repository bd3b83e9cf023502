use crate::codec::{
    decode_ignoring, encode_ignoring, label_is_known, whatwg_decoded, whatwg_encoded,
    whatwg_label_known,
};
use vstd::prelude::*;

verus! {

/// Why a conversion did not take place.
#[derive(Debug, Clone, Copy, PartialEq, Eq, Structural)]
pub enum EncodingError {
    /// The label names no known codec.
    UnsupportedEncoding,
    /// The buffer that should carry the result could not be built.
    ConversionBufferError,
}

/// What decoding `bytes` under `label` gives.
pub open spec fn decode_outcome(bytes: Seq<u8>, label: Seq<char>) -> Result<Seq<char>, EncodingError> {
    if whatwg_label_known(label) {
        Ok(whatwg_decoded(label, bytes))
    } else {
        Err(EncodingError::UnsupportedEncoding)
    }
}

/// What encoding `text` under `label` gives.
pub open spec fn encode_outcome(text: Seq<char>, label: Seq<char>) -> Result<Seq<u8>, EncodingError> {
    if whatwg_label_known(label) {
        Ok(whatwg_encoded(label, text))
    } else {
        Err(EncodingError::UnsupportedEncoding)
    }
}

/// Decodes the whole of `bytes` with the codec that `label` names; bytes that
/// the codec cannot decode are dropped.
pub fn decode(bytes: &[u8], label: &str) -> (r: Result<String, EncodingError>)
    ensures
        r is Ok <==> whatwg_label_known(label@),
        r matches Ok(s) ==> decode_outcome(bytes@, label@) == Ok::<Seq<char>, EncodingError>(s@),
        r matches Err(e) ==> decode_outcome(bytes@, label@) == Err::<Seq<char>, EncodingError>(e),
{
    if !label_is_known(label) {
        return Err(EncodingError::UnsupportedEncoding);
    }
    Ok(decode_ignoring(bytes, label))
}

/// Encodes the whole of `text` with the codec that `label` names; characters
/// that the codec cannot represent are dropped.
pub fn encode(text: &str, label: &str) -> (r: Result<Vec<u8>, EncodingError>)
    ensures
        r is Ok <==> whatwg_label_known(label@),
        r matches Ok(b) ==> encode_outcome(text@, label@) == Ok::<Seq<u8>, EncodingError>(b@),
        r matches Err(e) ==> encode_outcome(text@, label@) == Err::<Seq<u8>, EncodingError>(e),
{
    if !label_is_known(label) {
        return Err(EncodingError::UnsupportedEncoding);
    }
    Ok(encode_ignoring(text, label))
}

/// A label that names no codec is refused alike by both conversions, whatever
/// the input.
pub proof fn unknown_label_is_unsupported(bytes: Seq<u8>, text: Seq<char>, label: Seq<char>)
    requires
        !whatwg_label_known(label),
    ensures
        decode_outcome(bytes, label) == Err::<Seq<char>, EncodingError>(EncodingError::UnsupportedEncoding),
        encode_outcome(text, label) == Err::<Seq<u8>, EncodingError>(EncodingError::UnsupportedEncoding),
{
}

/// Under a known label, decoding and then encoding again (or encoding and then
/// decoding again) succeeds at both steps and gives exactly what the codec's
/// own two conversions give one after the other: the library adds nothing to
/// the codec's round trip and takes nothing from it.
pub proof fn round_trips_follow_the_codec(bytes: Seq<u8>, text: Seq<char>, label: Seq<char>)
    requires
        whatwg_label_known(label),
    ensures
        decode_outcome(bytes, label) matches Ok(t) && encode_outcome(t, label) == Ok::<Seq<u8>, EncodingError>(
            whatwg_encoded(label, whatwg_decoded(label, bytes)),
        ),
        encode_outcome(text, label) matches Ok(b) && decode_outcome(b, label) == Ok::<Seq<char>, EncodingError>(
            whatwg_decoded(label, whatwg_encoded(label, text)),
        ),
{
}

} // verus!
