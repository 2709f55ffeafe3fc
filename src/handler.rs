//! The language plug-in's side of the shell socket: typed requests and
//! replies, the handler trait, and dispatch by verb.
use crate::r_kernel::{ExecuteReply, ExecuteReplyException, ExecuteRequest, Exception};
use vstd::prelude::*;

verus! {

/// `kernel_info_request` carries no fields.
pub struct KernelInfoRequest {}

/// `kernel_info_reply`: what the kernel runs and in which language.
pub struct KernelInfoReply {
    pub protocol_version: String,
    pub implementation: String,
    pub implementation_version: String,
    pub language: String,
    pub language_version: String,
    pub banner: String,
}

/// `is_complete_request`: a fragment of code to judge.
pub struct IsCompleteRequest {
    pub code: String,
}

/// The verdict on a code fragment.
#[derive(PartialEq, Eq, Structural, Clone, Copy, Debug)]
pub enum IsComplete {
    Complete,
    Incomplete,
    Invalid,
    Unknown,
}

/// `is_complete_reply`.
pub struct IsCompleteReply {
    pub status: IsComplete,
    pub indent: String,
}

/// `complete_request`: code and the cursor position within it.
pub struct CompleteRequest {
    pub code: String,
    pub cursor_pos: u32,
}

/// `complete_reply`: candidate texts for the range `cursor_start..cursor_end`.
pub struct CompleteReply {
    pub matches: Vec<String>,
    pub cursor_start: u32,
    pub cursor_end: u32,
}

/// `comm_info_request`, optionally restricted to one target.
pub struct CommInfoRequest {
    pub target_name: Option<String>,
}

/// `comm_info_reply`: open comms as pairs of comm id and target name.
pub struct CommInfoReply {
    pub comms: Vec<(String, String)>,
}

/// The language-specific operations that the shell worker calls.
pub trait ShellHandler {
    /// Information about the kernel.
    fn handle_info_request(&self, req: KernelInfoRequest) -> Result<KernelInfoReply, Exception>;

    /// Whether a code fragment is a complete expression.
    fn handle_is_complete_request(&self, req: IsCompleteRequest) -> Result<
        IsCompleteReply,
        Exception,
    >;

    /// Executes code.
    fn handle_execute_request(&mut self, req: ExecuteRequest) -> Result<
        ExecuteReply,
        ExecuteReplyException,
    >;

    /// Completions for a code fragment.
    fn handle_complete_request(&self, req: CompleteRequest) -> Result<CompleteReply, Exception>;

    /// The comms that are open.
    fn handle_comm_info_request(&self, req: CommInfoRequest) -> Result<CommInfoReply, Exception>;
}

/// A request on the shell socket, by verb.
pub enum ShellRequest {
    KernelInfo(KernelInfoRequest),
    IsComplete(IsCompleteRequest),
    Execute(ExecuteRequest),
    Complete(CompleteRequest),
    CommInfo(CommInfoRequest),
}

/// The reply to a shell request: the matching reply verb with `status=ok`,
/// or an error reply.
pub enum ShellReply {
    KernelInfo(KernelInfoReply),
    IsComplete(IsCompleteReply),
    Execute(ExecuteReply),
    ExecuteError(ExecuteReplyException),
    Complete(CompleteReply),
    CommInfo(CommInfoReply),
    Error(Exception),
}

/// Whether `reply` is of the verb that answers `req`, or an error reply.
pub open spec fn answers(req: ShellRequest, reply: ShellReply) -> bool {
    match req {
        ShellRequest::KernelInfo(_) => reply is KernelInfo || reply is Error,
        ShellRequest::IsComplete(_) => reply is IsComplete || reply is Error,
        ShellRequest::Execute(_) => reply is Execute || reply is ExecuteError,
        ShellRequest::Complete(_) => reply is Complete || reply is Error,
        ShellRequest::CommInfo(_) => reply is CommInfo || reply is Error,
    }
}

/// Hands a shell request to the operation of `handler` for its verb, and
/// wraps the outcome as the reply of that verb or as an error reply.
pub fn dispatch<H: ShellHandler>(handler: &mut H, req: ShellRequest) -> (r: ShellReply)
    ensures
        answers(req, r),
{
    match req {
        ShellRequest::KernelInfo(q) => match handler.handle_info_request(q) {
            Ok(x) => ShellReply::KernelInfo(x),
            Err(e) => ShellReply::Error(e),
        },
        ShellRequest::IsComplete(q) => match handler.handle_is_complete_request(q) {
            Ok(x) => ShellReply::IsComplete(x),
            Err(e) => ShellReply::Error(e),
        },
        ShellRequest::Execute(q) => match handler.handle_execute_request(q) {
            Ok(x) => ShellReply::Execute(x),
            Err(e) => ShellReply::ExecuteError(e),
        },
        ShellRequest::Complete(q) => match handler.handle_complete_request(q) {
            Ok(x) => ShellReply::Complete(x),
            Err(e) => ShellReply::Error(e),
        },
        ShellRequest::CommInfo(q) => match handler.handle_comm_info_request(q) {
            Ok(x) => ShellReply::CommInfo(x),
            Err(e) => ShellReply::Error(e),
        },
    }
}

} // verus!
