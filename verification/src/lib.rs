//! Preprocessing of text corpora: decoding, HTML cleaning, character and
//! word normalization.
pub mod cleaners;
pub mod normalizers;
pub mod pipeline;
pub mod server;
pub mod text;
pub mod ucd;

use vstd::prelude::*;

verus! {
} // verus!
