//! The control protocol's messages: what a client sends and what it gets back.

use vstd::prelude::*;

verus! {

/// What a client asks of the server.
#[derive(Debug, Clone, PartialEq, Eq)]
pub enum Command {
    /// Serve the directory at `path`.
    SetDirectory { path: String },
    /// Serve the file at `path` at the root URL, and its directory below it.
    SetFile { path: String },
    /// Report the directory that is served and the port.
    GetStatus,
    /// Answer, then end the process.
    Stop,
}

/// What the server answers.
#[derive(Debug, Clone, PartialEq, Eq)]
pub struct Response {
    pub success: bool,
    pub message: String,
    pub current_path: Option<String>,
    pub port: Option<u16>,
}

impl Response {
    /// An answer that reports success, with neither path nor port.
    pub fn success(message: String) -> (r: Response)
        ensures
            r == (Response { success: true, message, current_path: None, port: None }),
    {
        Response { success: true, message, current_path: None, port: None }
    }

    /// An answer that reports failure, with neither path nor port.
    pub fn error(message: String) -> (r: Response)
        ensures
            r == (Response { success: false, message, current_path: None, port: None }),
    {
        Response { success: false, message, current_path: None, port: None }
    }

    /// An answer that reports success, the directory that is served and the port.
    pub fn status(message: String, current_path: String, port: u16) -> (r: Response)
        ensures
            r == (Response {
                success: true,
                message,
                current_path: Some(current_path),
                port: Some(port),
            }),
    {
        Response { success: true, message, current_path: Some(current_path), port: Some(port) }
    }
}

} // verus!
