//! Synchronisation of pipeline configurations and detector artifacts between
//! a local directory tree and a vision appliance's HTTP resource API.
//!
//! Resources are identified by [`resource::ResourceId`]; each has one local
//! path and one remote endpoint. Payloads are carried between their wire and
//! disk forms by [`transcode`]. Upload and download runs are state machines
//! ([`upload::UploadSession`], [`download::DownloadSession`]) that decide what
//! to do next from what the caller reports, so the caller only performs the
//! file and network operations.
pub mod decimal;
pub mod download;
pub mod error;
pub mod outcome;
pub mod remote;
pub mod resource;
pub mod status;
pub mod transcode;
pub mod upload;
