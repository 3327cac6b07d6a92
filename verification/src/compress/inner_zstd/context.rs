//! The reusable zstd encoder.

use vstd::prelude::*;

verus! {

/// The zstd encoder for whole buffers.
#[verifier::external_type_specification]
#[verifier::external_body]
pub struct ExCompressor<'a>(zstd::bulk::Compressor<'a>);

/// The compression level that an encoder was last set to, if every parameter
/// beyond it is the default and there is no dictionary.
pub uninterp spec fn configured(compressor: zstd::bulk::Compressor<'static>) -> Option<int>;

/// `zstd::bulk::Compressor::default`: an encoder with default parameters, at
/// the level that zstd picks.
#[verifier::external_body]
fn new_compressor() -> (r: zstd::bulk::Compressor<'static>)
    ensures
        configured(r) is Some,
{
    zstd::bulk::Compressor::default()
}

/// Reusable zstd compressor carried across the items that one worker handles.
///
/// An encoder at the levels used here owns tens of megabytes of match tables;
/// keeping it avoids rebuilding them for each file. `i32::MIN` marks a fresh
/// context whose level is not yet configured (validated levels are all above
/// it).
pub struct ZstdContext {
    pub level: i32,
    pub compressor: zstd::bulk::Compressor<'static>,
}

impl ZstdContext {
    /// The encoder has no settings but a level, and that is the recorded one
    /// unless none is recorded.
    pub open spec fn wf(&self) -> bool {
        &&& configured(self.compressor) is Some
        &&& self.level != i32::MIN ==> configured(self.compressor) == Some(self.level as int)
    }
}

impl Default for ZstdContext {
    fn default() -> (r: Self)
        ensures
            r.wf(),
            r.level == i32::MIN,
    {
        ZstdContext { level: i32::MIN, compressor: new_compressor() }
    }
}

} // verus!
