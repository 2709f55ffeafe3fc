//! The shell worker's side of a request: the status envelope published
//! around it, the verbs it serves, and the heartbeat echo.
use crate::r_kernel::{
    incomplete_name, incomplete_text, next_count, ExecuteInput, ExecuteReplyException,
    ExecuteRequest, ExecuteResponse, ExecuteResult, Exception, RKernel, RRequest,
};
use crate::wire::copy_bytes;
use vstd::prelude::*;

verus! {

/// Execution state carried by a `status` broadcast.
#[derive(PartialEq, Eq, Structural, Clone, Copy, Debug)]
pub enum ExecutionState {
    Busy,
    Idle,
}

/// What the publish socket broadcasts.
pub enum IOPubContent {
    Status(ExecutionState),
    ExecuteInput(ExecuteInput),
    ExecuteResult(ExecuteResult),
}

/// A broadcast, with the header of the request it belongs to as its parent.
pub struct IOPubMessage {
    pub parent_header: Vec<u8>,
    pub content: IOPubContent,
}

/// How the language executor finished evaluating a request's code.
pub enum EvalOutcome {
    /// Evaluation succeeded; `output` is what it wrote, `html` the table form
    /// of a tabular value.
    Complete { output: String, html: Option<String> },
    /// The code is not a complete expression.
    Incomplete,
    /// Evaluation raised an error.
    Failed(Exception),
}

pub open spec fn is_status(m: IOPubMessage, s: ExecutionState) -> bool {
    m.content matches IOPubContent::Status(t) && t == s
}

/// The broadcasts of one request: `busy` first, `idle` last, no other
/// status between, every one with the request's header as its parent.
pub open spec fn enveloped(msgs: Seq<IOPubMessage>, parent: Seq<u8>) -> bool {
    &&& msgs.len() >= 2
    &&& forall|i: int| 0 <= i < msgs.len() ==> (#[trigger] msgs[i]).parent_header@ == parent
    &&& forall|i: int|
        0 <= i < msgs.len() ==> (is_status(#[trigger] msgs[i], ExecutionState::Busy) <==> i == 0)
    &&& forall|i: int|
        0 <= i < msgs.len() ==> (is_status(#[trigger] msgs[i], ExecutionState::Idle) <==> i
            == msgs.len() - 1)
}

/// A `status` broadcast for the request with header `parent`.
pub fn status_message(parent: &Vec<u8>, state: ExecutionState) -> (r: IOPubMessage)
    ensures
        r.parent_header@ == parent@,
        is_status(r, state),
{
    IOPubMessage { parent_header: copy_bytes(parent), content: IOPubContent::Status(state) }
}

/// Runs one execute request through the coordinator, given how the
/// executor finished, and returns the broadcasts in publication order and
/// the shell reply. The broadcasts are `status=busy`, `execute_input`
/// unless the request is silent, `execute_result` on success, then
/// `status=idle`, all with the request's header `parent` as their parent.
pub fn execute_envelope(
    kernel: &mut RKernel,
    parent: &Vec<u8>,
    req: &ExecuteRequest,
    outcome: EvalOutcome,
) -> (r: (Vec<IOPubMessage>, ExecuteResponse))
    requires
        !old(kernel).is_initializing(),
        req.store_history ==> old(kernel).count() < u32::MAX,
    ensures
        enveloped(r.0@, parent@),
        final(kernel).count() == next_count(old(kernel).count() as nat, req.store_history),
        !final(kernel).is_initializing(),
        final(kernel).has_request(),
        !req.silent ==> (r.0@[1].content matches IOPubContent::ExecuteInput(input) && input.code@
            == req.code@ && input.execution_count == final(kernel).count()),
        match outcome {
            EvalOutcome::Complete { output, html } => {
                &&& r.0@.len() == if req.silent {
                    3int
                } else {
                    4int
                }
                &&& r.0@[r.0@.len() - 2].content matches IOPubContent::ExecuteResult(res) && res.execution_count == final(kernel).count() && res.text_plain@ == output@ && res.text_html == html
                &&& r.1 matches ExecuteResponse::Reply(reply) && reply.execution_count == final(kernel).count()
            },
            EvalOutcome::Incomplete => {
                &&& r.0@.len() == if req.silent {
                    2int
                } else {
                    3int
                }
                &&& r.1 matches ExecuteResponse::ReplyException(x) && x.execution_count == final(kernel).count() && x.exception.ename@ == incomplete_name() && x.exception.evalue@ == incomplete_text(req.code@) && x.exception.traceback@.len() == 0
            },
            EvalOutcome::Failed(e) => {
                &&& r.0@.len() == if req.silent {
                    2int
                } else {
                    3int
                }
                &&& r.1 matches ExecuteResponse::ReplyException(x) && x.execution_count == final(kernel).count() && x.exception == e
            },
        },
{
    let mut msgs: Vec<IOPubMessage> = Vec::new();
    msgs.push(status_message(parent, ExecutionState::Busy));
    let input = kernel.handle_execute_request(req);
    match input {
        Some(i) => {
            msgs.push(IOPubMessage { parent_header: copy_bytes(parent), content: IOPubContent::ExecuteInput(i) });
        },
        None => {},
    }
    let response = match outcome {
        EvalOutcome::Complete { output, html } => {
            kernel.write_console(output.as_str(), 0);
            let (result, reply) = kernel.finish_request(html);
            msgs.push(IOPubMessage { parent_header: copy_bytes(parent), content: IOPubContent::ExecuteResult(result) });
            match reply {
                Some(reply) => ExecuteResponse::Reply(reply),
                None => unreached(),
            }
        },
        EvalOutcome::Incomplete => {
            let request = RRequest::ExecuteCode(
                ExecuteRequest {
                    code: req.code.clone(),
                    silent: req.silent,
                    store_history: req.store_history,
                    allow_stdin: req.allow_stdin,
                    stop_on_error: req.stop_on_error,
                },
            );
            match kernel.report_incomplete_request(&request) {
                Some(resp) => resp,
                None => unreached(),
            }
        },
        EvalOutcome::Failed(e) => ExecuteResponse::ReplyException(
            ExecuteReplyException { execution_count: kernel.current_count(), exception: e },
        ),
    };
    msgs.push(status_message(parent, ExecutionState::Idle));
    (msgs, response)
}

/// The reply on the heartbeat socket: the very frame that came in.
pub fn heartbeat_reply(frame: &Vec<u8>) -> (r: Vec<u8>)
    ensures
        r@ == frame@,
{
    copy_bytes(frame)
}

/// The execution counter after requests whose `store_history` flags are
/// `flags`, in order, starting from `start`.
pub open spec fn count_after(start: nat, flags: Seq<bool>) -> nat
    decreases flags.len(),
{
    if flags.len() == 0 {
        start
    } else {
        next_count(count_after(start, flags.drop_last()), flags.last())
    }
}

/// After a run of execute requests from a fresh kernel, the counter equals
/// the number of requests that asked to be stored in history; those that did
/// not leave it alone.
pub proof fn lemma_count_is_stored_requests(flags: Seq<bool>)
    ensures
        count_after(0, flags) == flags.filter(|b: bool| b).len(),
    decreases flags.len(),
{
    reveal(Seq::filter);
    if flags.len() > 0 {
        lemma_count_is_stored_requests(flags.drop_last());
    }
}

} // verus!
