use vstd::prelude::*;

verus! {

/// A message that the rendering process sends back for one request.
pub enum IncomingMessage {
    /// The request is to be served from another path.
    Rewrite { path: String },
    /// The page was rendered.
    Response { status_code: u16, headers: Vec<(String, String)>, body: Vec<u8> },
    /// Rendering failed inside the process.
    Error { message: String },
}

/// What one rendering attempt yields to its caller.
pub enum StaticResult {
    /// A page to serve, with its status code and headers.
    Content { content: Vec<u8>, status_code: u16, headers: Vec<(String, String)> },
    /// The request is to be served from `target_path` instead.
    Rewrite { target_path: String },
}

impl StaticResult {
    /// A page to serve as it stands.
    pub fn content(content: Vec<u8>, status_code: u16, headers: Vec<(String, String)>) -> (r: Self)
        ensures
            r == (StaticResult::Content { content, status_code, headers }),
    {
        StaticResult::Content { content, status_code, headers }
    }

    /// An instruction to serve the request from `target_path`.
    pub fn rewrite(target_path: String) -> (r: Self)
        ensures
            r == (StaticResult::Rewrite { target_path }),
    {
        StaticResult::Rewrite { target_path }
    }
}

/// How a rendering process ended, once it was waited for or killed.
#[derive(Clone, Copy, Debug, PartialEq, Eq, Structural)]
pub enum ExitStatus {
    /// The process exited by itself with `code`.
    Exited { code: i32 },
    /// The process had to be killed and left no exit code.
    Killed,
}

impl ExitStatus {
    /// The exit code, where the process exited by itself.
    pub open spec fn code_spec(self) -> Option<i32> {
        match self {
            ExitStatus::Exited { code } => Some(code),
            ExitStatus::Killed => None,
        }
    }

    /// The exit code, where the process exited by itself.
    pub fn code(&self) -> (r: Option<i32>)
        ensures
            r == self.code_spec(),
    {
        match self {
            ExitStatus::Exited { code } => Some(*code),
            ExitStatus::Killed => None,
        }
    }
}

/// A problem reported to the build system: which page, what went wrong, and
/// the exit code of the rendering process where there is one.
pub struct Issue {
    pub context: String,
    pub message: String,
    pub exit_code: Option<i32>,
}

} // verus!
