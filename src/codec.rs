use encoding::label::encoding_from_whatwg_label;
use encoding::{DecoderTrap, EncoderTrap};
use vstd::prelude::*;

verus! {

/// Whether a WHATWG label names one of the codecs of the `encoding` crate.
pub uninterp spec fn whatwg_label_known(label: Seq<char>) -> bool;

/// The text that the codec named by `label` makes of `bytes`, dropping what it
/// cannot decode.
pub uninterp spec fn whatwg_decoded(label: Seq<char>, bytes: Seq<u8>) -> Seq<char>;

/// The bytes that the codec named by `label` makes of `text`, dropping the
/// characters it cannot represent.
pub uninterp spec fn whatwg_encoded(label: Seq<char>, text: Seq<char>) -> Seq<u8>;

/// Relies on encoding::label::encoding_from_whatwg_label: it returns `Some`
/// exactly for the labels of its table, and depends on the label alone.
#[verifier::external_body]
pub(crate) fn label_is_known(label: &str) -> (r: bool)
    ensures
        r == whatwg_label_known(label@),
{
    encoding_from_whatwg_label(label).is_some()
}

/// Relies on encoding::label::encoding_from_whatwg_label to find the codec,
/// then on Encoding::decode with DecoderTrap::Ignore, whose trap never gives
/// up, so that the call always returns `Ok`.
#[verifier::external_body]
pub(crate) fn decode_ignoring(bytes: &[u8], label: &str) -> (r: String)
    requires
        whatwg_label_known(label@),
    ensures
        r@ == whatwg_decoded(label@, bytes@),
{
    encoding_from_whatwg_label(label).unwrap().decode(bytes, DecoderTrap::Ignore).unwrap()
}

/// Relies on encoding::label::encoding_from_whatwg_label to find the codec,
/// then on Encoding::encode with EncoderTrap::Ignore, whose trap never gives
/// up, so that the call always returns `Ok`.
#[verifier::external_body]
pub(crate) fn encode_ignoring(text: &str, label: &str) -> (r: Vec<u8>)
    requires
        whatwg_label_known(label@),
    ensures
        r@ == whatwg_encoded(label@, text@),
{
    encoding_from_whatwg_label(label).unwrap().encode(text, EncoderTrap::Ignore).unwrap()
}

} // verus!
