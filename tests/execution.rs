use amalthea::handler::{
    dispatch, CommInfoReply, CommInfoRequest, CompleteReply, CompleteRequest, IsComplete,
    IsCompleteReply, IsCompleteRequest, KernelInfoReply, KernelInfoRequest, ShellHandler,
    ShellReply, ShellRequest,
};
use amalthea::r_kernel::{
    ConsoleAction, DataFrame, Exception, ExecuteReply, ExecuteReplyException, ExecuteRequest,
    ExecuteResponse, RKernel, RRequest,
};
use amalthea::shell::{
    execute_envelope, heartbeat_reply, status_message, EvalOutcome, ExecutionState, IOPubContent,
    IOPubMessage,
};
use amalthea::verbs::Verb;
use amalthea::wire::JupyterMessage;

fn started() -> RKernel {
    let mut k = RKernel::new();
    k.write_console("R version 4.3", 1);
    let info = k.complete_intialization("4.3.0".to_string()).unwrap();
    assert_eq!(info.banner, "R version 4.3");
    k
}

fn request(code: &str, store_history: bool, silent: bool) -> ExecuteRequest {
    ExecuteRequest {
        code: code.to_string(),
        silent,
        store_history,
        allow_stdin: false,
        stop_on_error: true,
    }
}

fn state(m: &IOPubMessage) -> Option<ExecutionState> {
    match &m.content {
        IOPubContent::Status(s) => Some(*s),
        _ => None,
    }
}

fn complete(output: &str) -> EvalOutcome {
    EvalOutcome::Complete { output: output.to_string(), html: None }
}

#[test]
fn execute_store_history() {
    let mut k = started();
    let parent = br#"{"msg_id":"A","msg_type":"execute_request"}"#.to_vec();
    let (msgs, reply) = execute_envelope(&mut k, &parent, &request("1+1", true, false), complete("2"));
    assert_eq!(msgs.len(), 4);
    assert!(msgs.iter().all(|m| m.parent_header == parent));
    assert_eq!(state(&msgs[0]), Some(ExecutionState::Busy));
    match &msgs[1].content {
        IOPubContent::ExecuteInput(i) => {
            assert_eq!(i.code, "1+1");
            assert_eq!(i.execution_count, 1);
        },
        _ => panic!("expected execute_input"),
    }
    match &msgs[2].content {
        IOPubContent::ExecuteResult(r) => {
            assert_eq!(r.execution_count, 1);
            assert_eq!(r.text_plain, "2");
            assert_eq!(r.text_html, None);
        },
        _ => panic!("expected execute_result"),
    }
    assert_eq!(state(&msgs[3]), Some(ExecutionState::Idle));
    match reply {
        ExecuteResponse::Reply(r) => assert_eq!(r.execution_count, 1),
        _ => panic!("expected execute_reply"),
    }
}

#[test]
fn execute_silent() {
    let mut k = started();
    let parent = b"{\"msg_id\":\"A\"}".to_vec();
    let (msgs, reply) = execute_envelope(&mut k, &parent, &request("1+1", true, true), complete("2"));
    assert_eq!(msgs.len(), 3);
    assert!(msgs.iter().all(|m| !matches!(m.content, IOPubContent::ExecuteInput(_))));
    assert_eq!(state(&msgs[0]), Some(ExecutionState::Busy));
    assert_eq!(state(&msgs[2]), Some(ExecutionState::Idle));
    assert_eq!(k.current_count(), 1);
    assert!(matches!(reply, ExecuteResponse::Reply(ExecuteReply { execution_count: 1 })));

    let (_, reply) = execute_envelope(&mut k, &parent, &request("1+1", false, true), complete("2"));
    assert_eq!(k.current_count(), 1);
    assert!(matches!(reply, ExecuteResponse::Reply(ExecuteReply { execution_count: 1 })));
}

#[test]
fn incomplete_input() {
    let mut k = started();
    let parent = b"{\"msg_id\":\"B\"}".to_vec();
    let (msgs, reply) =
        execute_envelope(&mut k, &parent, &request("1+", false, true), EvalOutcome::Incomplete);
    assert_eq!(msgs.len(), 2);
    assert_eq!(state(&msgs[0]), Some(ExecutionState::Busy));
    assert_eq!(state(&msgs[1]), Some(ExecutionState::Idle));
    match reply {
        ExecuteResponse::ReplyException(x) => {
            assert_eq!(x.exception.ename, "IncompleteInput");
            assert_eq!(x.exception.evalue, "Code fragment is not complete: 1+");
            assert!(x.exception.traceback.is_empty());
        },
        _ => panic!("expected an error reply"),
    }
}

#[test]
fn incomplete_input_not_silent_still_bracketed() {
    let mut k = started();
    let parent = b"{\"msg_id\":\"B\"}".to_vec();
    let (msgs, _) =
        execute_envelope(&mut k, &parent, &request("1+", false, false), EvalOutcome::Incomplete);
    assert_eq!(msgs.len(), 3);
    assert_eq!(state(&msgs[0]), Some(ExecutionState::Busy));
    assert_eq!(state(&msgs[2]), Some(ExecutionState::Idle));
}

#[test]
fn failed_evaluation_reply() {
    let mut k = started();
    let parent = b"{}".to_vec();
    let e = Exception {
        ename: "simpleError".to_string(),
        evalue: "object 'x' not found".to_string(),
        traceback: vec!["at top level".to_string()],
    };
    let (msgs, reply) =
        execute_envelope(&mut k, &parent, &request("x", true, false), EvalOutcome::Failed(e));
    assert_eq!(msgs.len(), 3);
    assert_eq!(state(&msgs[2]), Some(ExecutionState::Idle));
    match reply {
        ExecuteResponse::ReplyException(ExecuteReplyException { execution_count, exception }) => {
            assert_eq!(execution_count, 1);
            assert_eq!(exception.ename, "simpleError");
            assert_eq!(exception.traceback, vec!["at top level".to_string()]);
        },
        _ => panic!("expected an error reply"),
    }
}

#[test]
fn counter_counts_stored_requests() {
    let mut k = started();
    let parent = b"{}".to_vec();
    let flags = [true, false, true, false, false];
    for f in flags {
        let _ = execute_envelope(&mut k, &parent, &request("1", f, false), complete("1"));
    }
    assert_eq!(k.current_count(), 2);
    assert_eq!(k.execution_count, 2);
}

#[test]
fn busy_and_idle_once_each() {
    let mut k = started();
    let parent = b"{\"msg_id\":\"C\"}".to_vec();
    let (msgs, _) = execute_envelope(&mut k, &parent, &request("1", true, false), complete("1"));
    let busy = msgs.iter().filter(|m| state(m) == Some(ExecutionState::Busy)).count();
    let idle = msgs.iter().filter(|m| state(m) == Some(ExecutionState::Idle)).count();
    assert_eq!((busy, idle), (1, 1));
    let b = msgs.iter().position(|m| state(m) == Some(ExecutionState::Busy)).unwrap();
    let i = msgs.iter().position(|m| state(m) == Some(ExecutionState::Idle)).unwrap();
    assert!(b < i);
}

#[test]
fn heartbeat_echo() {
    assert_eq!(heartbeat_reply(&vec![0x01, 0x02, 0x03]), vec![0x01, 0x02, 0x03]);
}

#[test]
fn console_output_before_and_after_start() {
    let mut k = RKernel::new();
    k.write_console("hello ", 0);
    k.write_console("world", 0);
    let info = k.complete_intialization("4.3.0".to_string()).unwrap();
    assert_eq!(info.banner, "hello world");
    assert_eq!(info.version, "4.3.0");
    assert!(k.complete_intialization("4.3.0".to_string()).is_none());
    let action = k.fulfill_request(&RRequest::ExecuteCode(request("x", true, false)));
    match action {
        ConsoleAction::Evaluate { code, input } => {
            assert_eq!(code, "x");
            assert_eq!(input.unwrap().execution_count, 1);
        },
        ConsoleAction::Quit => panic!("expected evaluation"),
    }
    k.write_console("[1] 5", 0);
    let (result, reply) = k.finish_request(Some("<b/>".to_string()));
    assert_eq!(result.text_plain, "[1] 5");
    assert_eq!(result.text_html, Some("<b/>".to_string()));
    assert_eq!(reply.unwrap().execution_count, 1);
    assert!(matches!(k.fulfill_request(&RRequest::Shutdown(false)), ConsoleAction::Quit));
}

#[test]
fn no_reply_before_any_request() {
    let k = started();
    assert!(k.report_incomplete_request(&RRequest::Shutdown(false)).is_none());
    let (result, reply) = k.finish_request(None);
    assert_eq!(result.execution_count, 0);
    assert!(reply.is_none());
}

#[test]
fn data_frame_html() {
    let frame = DataFrame {
        names: vec!["a".to_string(), "b".to_string()],
        columns: vec![
            vec!["1".to_string(), "2".to_string()],
            vec!["x".to_string(), "y".to_string()],
        ],
    };
    assert_eq!(
        RKernel::to_html(&frame),
        "<table><thead><tr><th>a</th><th>b</th></tr></thead><tbody>\
         <tr><td>1</td><td>2</td></tr><tr><td>x</td><td>y</td></tr><tr></tr><tr></tr>\
         </tbody></table>"
    );
}

struct Fixed;

impl ShellHandler for Fixed {
    fn handle_info_request(&self, _req: KernelInfoRequest) -> Result<KernelInfoReply, Exception> {
        Ok(KernelInfoReply {
            protocol_version: "5.3".to_string(),
            implementation: "ark".to_string(),
            implementation_version: "0.1".to_string(),
            language: "R".to_string(),
            language_version: "4.3".to_string(),
            banner: String::new(),
        })
    }
    fn handle_is_complete_request(&self, req: IsCompleteRequest) -> Result<IsCompleteReply, Exception> {
        let status = if req.code.ends_with('+') { IsComplete::Incomplete } else { IsComplete::Complete };
        Ok(IsCompleteReply { status, indent: String::new() })
    }
    fn handle_execute_request(&mut self, req: ExecuteRequest) -> Result<ExecuteReply, ExecuteReplyException> {
        let _ = req;
        Ok(ExecuteReply { execution_count: 1 })
    }
    fn handle_complete_request(&self, _req: CompleteRequest) -> Result<CompleteReply, Exception> {
        Err(Exception { ename: "E".to_string(), evalue: "no".to_string(), traceback: vec![] })
    }
    fn handle_comm_info_request(&self, _req: CommInfoRequest) -> Result<CommInfoReply, Exception> {
        Ok(CommInfoReply { comms: vec![] })
    }
}

#[test]
fn kernel_info_round() {
    let key = Some(b"k".to_vec());
    let request = JupyterMessage {
        identities: vec![b"front".to_vec()],
        header: br#"{"msg_id":"A","msg_type":"kernel_info_request"}"#.to_vec(),
        parent_header: b"{}".to_vec(),
        metadata: b"{}".to_vec(),
        content: b"{}".to_vec(),
        buffers: vec![],
    };
    let parsed = JupyterMessage::from_buffers(request.to_frames(&key), key.clone()).unwrap();
    assert_eq!(Verb::from_msg_type(&"kernel_info_request".to_string()), Some(Verb::KernelInfo));
    let busy = status_message(&parsed.header, ExecutionState::Busy);
    let reply = dispatch(&mut Fixed, ShellRequest::KernelInfo(KernelInfoRequest {}));
    assert!(matches!(reply, ShellReply::KernelInfo(_)));
    let out = JupyterMessage::reply_to(
        &parsed,
        br#"{"msg_id":"R","msg_type":"kernel_info_reply"}"#.to_vec(),
        b"{\"status\":\"ok\"}".to_vec(),
    );
    let idle = status_message(&parsed.header, ExecutionState::Idle);
    assert_eq!(out.parent_header, request.header);
    assert_eq!(out.identities, vec![b"front".to_vec()]);
    assert_eq!(busy.parent_header, request.header);
    assert_eq!(idle.parent_header, request.header);
    assert_eq!(state(&busy), Some(ExecutionState::Busy));
    assert_eq!(state(&idle), Some(ExecutionState::Idle));
}

#[test]
fn dispatch_wraps_errors() {
    let r = dispatch(&mut Fixed, ShellRequest::Complete(CompleteRequest { code: "a".to_string(), cursor_pos: 1 }));
    assert!(matches!(r, ShellReply::Error(_)));
    let r = dispatch(&mut Fixed, ShellRequest::IsComplete(IsCompleteRequest { code: "1+".to_string() }));
    match r {
        ShellReply::IsComplete(x) => assert_eq!(x.status, IsComplete::Incomplete),
        _ => panic!("expected is_complete_reply"),
    }
    let r = dispatch(&mut Fixed, ShellRequest::CommInfo(CommInfoRequest { target_name: None }));
    assert!(matches!(r, ShellReply::CommInfo(_)));
    let r = dispatch(&mut Fixed, ShellRequest::Execute(request("1", true, false)));
    assert!(matches!(r, ShellReply::Execute(_)));
}
