//! Memory usage tracking for image-like assets: values backed by one
//! contiguous byte buffer.

use vstd::prelude::*;

use crate::config::MemoryConfig;
use crate::estimator::DataSize;
use crate::estimator::DataSizeEstimator;
use crate::estimator::FromConfig;

verus! {

/// An image reduced to its measurable content: the raw byte buffer that
/// holds its texel data.
#[derive(Debug)]
pub struct ImageData {
    /// The image's raw data.
    pub data: Vec<u8>,
}

impl DataSize for ImageData {
    /// Heap bytes of an image: the length of its data buffer.
    open spec fn spec_heap_size(&self) -> usize {
        self.data@.len() as usize
    }

    fn estimate_heap_size(&self) -> (r: usize) {
        self.data.len()
    }

    fn is_dynamic() -> bool {
        true
    }
}

/// An estimator for image-like assets: returns the size of the image's
/// data buffer.
pub struct ImageSizeEstimator;

impl DataSizeEstimator<ImageData> for ImageSizeEstimator {
    open spec fn spec_heap_size_of(&self, value: ImageData) -> usize {
        value.spec_heap_size()
    }

    fn estimate_heap_size(&self, value: &ImageData) -> (r: usize) {
        value.estimate_heap_size()
    }

    fn is_dynamic() -> bool {
        true
    }
}

impl Default for ImageSizeEstimator {
    fn default() -> (r: Self) {
        ImageSizeEstimator
    }
}

impl FromConfig for ImageSizeEstimator {
    open spec fn from_config_spec(config: MemoryConfig, r: Self) -> bool {
        true
    }

    fn from_config(config: &MemoryConfig) -> (r: Self) {
        ImageSizeEstimator
    }
}

} // verus!
