//! Reading ZIP archives: trailer location, record decoding, directory
//! iteration, payload resolution and decompression dispatch, on an archive
//! held in memory behind a seekable cursor.

pub mod archive;
pub mod cdfh;
pub mod central_directory_iter;
pub mod enums;
pub mod eocd;
pub mod error;
pub mod extract;
pub mod functions;
pub mod info;
pub mod lfh;
pub mod names;
pub mod render;
pub mod source;
pub mod zip_data;
pub mod zip_data_iter;

pub use archive::Archive;
pub use cdfh::CentralDirectoryFileHeader;
pub use central_directory_iter::CentralDirectoryIter;
pub use enums::{ArchiveStructure, CompressionMethod, Signature};
pub use eocd::EndOfCentralDirectory;
pub use error::ZipError;
pub use extract::{extract_action, ExtractAction, Extraction};
pub use functions::{
    find_sig_position, read_cdfh, read_eocd, read_lfh, read_lfh_raw_data, read_string,
};
pub use info::{ArchiveInfo, InfoRecord};
pub use lfh::LocalFileHeader;
pub use source::ByteSource;
pub use zip_data::ZipData;
pub use zip_data_iter::ZipDataIter;
