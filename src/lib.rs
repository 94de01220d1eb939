use vstd::prelude::*;

pub mod codecs;
pub mod cp1252;
pub mod wire;

pub use codecs::{I32IME, StringCp1252, U16Le, U16Smart, U8Add, WireEncode};
pub use wire::{ByteOrder, EncodingRangeError, Primitive};

verus! {

} // verus!
