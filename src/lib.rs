//! Batch image compression: format classification, output-path derivation,
//! single-file recompression and result aggregation.
//!
//! File selection, file I/O, parallel scheduling and progress delivery belong to
//! the host program; this library computes everything those steps decide on.

mod codec;
mod format;
mod report;

pub use codec::{compress_data, PNG_PRESET};
pub use format::{
    classify, extension_dot, image_kind, output_path, strategy_of, CompressError, ImageKind,
    Strategy,
};
pub use report::{
    aggregate, completed_result, compression_ratio, failed_result, file_result,
    pending_result, pending_results, size_kb, BatchSummary, CompressImageResult, MAX_BATCH,
};
