//! Protocol verbs: the `msg_type` of requests on the shell and control
//! sockets, and of the replies that answer them.
use vstd::prelude::*;

verus! {

/// A request verb that the kernel serves.
#[derive(PartialEq, Eq, Structural, Clone, Copy, Debug)]
pub enum Verb {
    KernelInfo,
    IsComplete,
    Execute,
    Complete,
    CommInfo,
    Interrupt,
    Shutdown,
}

/// The verb named by a request's `msg_type`, if the kernel serves it.
pub open spec fn verb_of(t: Seq<char>) -> Option<Verb> {
    if t == "kernel_info_request"@ {
        Some(Verb::KernelInfo)
    } else if t == "is_complete_request"@ {
        Some(Verb::IsComplete)
    } else if t == "execute_request"@ {
        Some(Verb::Execute)
    } else if t == "complete_request"@ {
        Some(Verb::Complete)
    } else if t == "comm_info_request"@ {
        Some(Verb::CommInfo)
    } else if t == "interrupt_request"@ {
        Some(Verb::Interrupt)
    } else if t == "shutdown_request"@ {
        Some(Verb::Shutdown)
    } else {
        None
    }
}

/// The `msg_type` of the reply to a verb.
pub open spec fn reply_name(v: Verb) -> Seq<char> {
    match v {
        Verb::KernelInfo => "kernel_info_reply"@,
        Verb::IsComplete => "is_complete_reply"@,
        Verb::Execute => "execute_reply"@,
        Verb::Complete => "complete_reply"@,
        Verb::CommInfo => "comm_info_reply"@,
        Verb::Interrupt => "interrupt_reply"@,
        Verb::Shutdown => "shutdown_reply"@,
    }
}

fn text_is(t: &String, lit: &str) -> (r: bool)
    ensures
        r == (t@ == lit@),
{
    *t == lit.to_owned()
}

impl Verb {
    /// The verb of a request's `msg_type`; `None` for a verb the kernel
    /// does not serve.
    pub fn from_msg_type(t: &String) -> (r: Option<Verb>)
        ensures
            r == verb_of(t@),
    {
        if text_is(t, "kernel_info_request") {
            Some(Verb::KernelInfo)
        } else if text_is(t, "is_complete_request") {
            Some(Verb::IsComplete)
        } else if text_is(t, "execute_request") {
            Some(Verb::Execute)
        } else if text_is(t, "complete_request") {
            Some(Verb::Complete)
        } else if text_is(t, "comm_info_request") {
            Some(Verb::CommInfo)
        } else if text_is(t, "interrupt_request") {
            Some(Verb::Interrupt)
        } else if text_is(t, "shutdown_request") {
            Some(Verb::Shutdown)
        } else {
            None
        }
    }

    /// The `msg_type` of the reply to this verb.
    pub fn reply_msg_type(&self) -> (r: String)
        ensures
            r@ == reply_name(*self),
    {
        match self {
            Verb::KernelInfo => "kernel_info_reply".to_owned(),
            Verb::IsComplete => "is_complete_reply".to_owned(),
            Verb::Execute => "execute_reply".to_owned(),
            Verb::Complete => "complete_reply".to_owned(),
            Verb::CommInfo => "comm_info_reply".to_owned(),
            Verb::Interrupt => "interrupt_reply".to_owned(),
            Verb::Shutdown => "shutdown_reply".to_owned(),
        }
    }

    /// Whether the verb belongs on the control socket.
    pub fn is_control(&self) -> (r: bool)
        ensures
            r == (*self == Verb::Interrupt || *self == Verb::Shutdown),
    {
        match self {
            Verb::Interrupt | Verb::Shutdown => true,
            _ => false,
        }
    }
}

} // verus!
