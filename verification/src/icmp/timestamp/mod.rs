//! ICMP Timestamp Request/Reply: builder.

mod builder;
pub use self::builder::lemma_timestamp_build_bytes;
pub use self::builder::spec_layer_bytes;
pub use self::builder::Builder;
