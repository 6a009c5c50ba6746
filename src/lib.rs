//! Read-only access to UDF volumes: the decisions and translations that sit
//! between the native disc-image library and a virtual-filesystem interface.
pub mod entry;
pub mod error;
pub mod fs;
pub mod path;
pub mod reader;

pub use entry::{DirentInfo, FileMode, UdfDirType, UDF_BLOCKSIZE};
pub use error::UdfError;
pub use fs::{DirListing, Metadata};
pub use reader::{ReadStep, UdfFile};


