//! A cross-platform file-acquisition library: one typed request/response
//! contract for ping, download and save, decided here and carried out by a
//! thin host layer that performs the actual file-system and remote calls.
pub mod copy;
pub mod desktop;
pub mod error;
pub mod mobile;
pub mod models;
pub mod paths;
pub mod text;

pub use error::{Error, ErrorKind};
pub use models::{
    DownloadPrivateRequest, DownloadPublicRequest, DownloadResponse, PingRequest, PingResponse,
    SaveFilePrivateFromBufferRequest, SaveFilePrivateFromPathRequest,
    SaveFilePublicFromBufferRequest, SaveFilePublicFromPathRequest,
};
