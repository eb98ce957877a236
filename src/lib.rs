//! An MPEG-1/2 Layer III frame decoder: ID3v2 and Xing framing readers, the
//! frame header, side information, the bit reservoir and the integer stages of
//! the main-data decoder (scalefactors and Huffman samples), with the sample
//! layouts that the signal-processing stages use.
pub mod bits;
pub mod header;
pub mod huffman;
pub mod id3;
pub mod layout;
pub mod mp3;
pub mod requant;
pub mod reservoir;
pub mod scalefac;
pub mod side_info;
pub mod stream;
pub mod tables;
pub mod xing;
