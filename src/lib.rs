pub mod bridge;
pub mod codec;

pub use bridge::{
    decode, decode_outcome, encode, encode_outcome, round_trips_follow_the_codec, unknown_label_is_unsupported,
    EncodingError,
};
