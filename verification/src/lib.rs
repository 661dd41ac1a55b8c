//! MessagePack serialization: the primitive encoders, the serializer that
//! drives them, and the value model used when reporting decoding errors.
use vstd::prelude::*;

pub mod config;
pub mod decode;
pub mod encode;
pub mod ext;
pub mod laws;
pub mod marker;
pub mod pack;
pub mod utf8;
pub mod write;

verus! {

} // verus!
