//! The execution coordinator: the state that lives beside the language
//! executor, and the messages it produces around each execute request.
use crate::text::{push_str, push_string};
use vstd::prelude::*;

verus! {

/// A request to execute code, as the front end sends it.
pub struct ExecuteRequest {
    pub code: String,
    pub silent: bool,
    pub store_history: bool,
    pub allow_stdin: bool,
    pub stop_on_error: bool,
}

/// Requests to the execution worker.
pub enum RRequest {
    /// Evaluate the code of an execute request.
    ExecuteCode(ExecuteRequest),
    /// Stop the executor.
    Shutdown(bool),
}

/// The `execute_input` broadcast: the code about to run and its counter.
pub struct ExecuteInput {
    pub code: String,
    pub execution_count: u32,
}

/// An error as the protocol carries it.
pub struct Exception {
    pub ename: String,
    pub evalue: String,
    pub traceback: Vec<String>,
}

/// `execute_reply` with `status=ok`.
pub struct ExecuteReply {
    pub execution_count: u32,
}

/// `execute_reply` with `status=error`.
pub struct ExecuteReplyException {
    pub execution_count: u32,
    pub exception: Exception,
}

/// The reply that ends an execute request.
pub enum ExecuteResponse {
    Reply(ExecuteReply),
    ReplyException(ExecuteReplyException),
}

/// The `execute_result` broadcast: the value's text, and an HTML table for
/// tabular values.
pub struct ExecuteResult {
    pub execution_count: u32,
    pub text_plain: String,
    pub text_html: Option<String>,
}

/// Kernel metadata, known once the executor has started.
pub struct RKernelInfo {
    pub version: String,
    pub banner: String,
}

/// What the executor's console is to do next.
pub enum ConsoleAction {
    /// Evaluate `code`, after publishing `input` when there is one.
    Evaluate { code: String, input: Option<ExecuteInput> },
    /// Leave the read-evaluate loop.
    Quit,
}

/// A table to show as HTML: column names and, per column, the text of its
/// cells.
pub struct DataFrame {
    pub names: Vec<String>,
    pub columns: Vec<Vec<String>>,
}

impl View for DataFrame {
    type V = (Seq<Seq<char>>, Seq<Seq<Seq<char>>>);

    open spec fn view(&self) -> (Seq<Seq<char>>, Seq<Seq<Seq<char>>>) {
        (self.names@.map_values(|s: String| s@), self.columns@.map_values(|c: Vec<String>| column_view(c)))
    }
}

pub open spec fn column_view(c: Vec<String>) -> Seq<Seq<char>> {
    c@.map_values(|s: String| s@)
}

/// The header cells `<th>name</th>` of each name.
pub open spec fn th_cells(names: Seq<Seq<char>>) -> Seq<char>
    decreases names.len(),
{
    if names.len() == 0 {
        seq![]
    } else {
        th_cells(names.drop_last()) + "<th>"@ + names.last() + "</th>"@
    }
}

/// Cell `j` of table row `r`: element `j` of column `r`, when both exist.
pub open spec fn td_cell(cols: Seq<Seq<Seq<char>>>, r: int, j: int) -> Seq<char> {
    if r < cols.len() && j < cols[r].len() {
        "<td>"@ + cols[r][j] + "</td>"@
    } else {
        seq![]
    }
}

/// The first `n` cells of table row `r`.
pub open spec fn td_cells(cols: Seq<Seq<Seq<char>>>, r: int, n: nat) -> Seq<char>
    decreases n,
{
    if n == 0 {
        seq![]
    } else {
        td_cells(cols, r, (n - 1) as nat) + td_cell(cols, r, n - 1)
    }
}

/// The first `k` table rows, each with one cell per column.
pub open spec fn body_rows(cols: Seq<Seq<Seq<char>>>, k: nat) -> Seq<char>
    decreases k,
{
    if k == 0 {
        seq![]
    } else {
        body_rows(cols, (k - 1) as nat) + "<tr>"@ + td_cells(cols, k - 1, cols.len()) + "</tr>"@
    }
}

/// The HTML table for a data frame: a header row of names and four body
/// rows.
pub open spec fn html_table(names: Seq<Seq<char>>, cols: Seq<Seq<Seq<char>>>) -> Seq<char> {
    "<table><thead>"@ + "<tr>"@ + th_cells(names) + "</tr>"@ + "</thead><tbody>"@ + body_rows(
        cols,
        4,
    ) + "</tbody></table>"@
}

/// The execution counter after one request.
pub open spec fn next_count(count: nat, store_history: bool) -> nat {
    if store_history {
        count + 1
    } else {
        count
    }
}

pub open spec fn incomplete_name() -> Seq<char> {
    "IncompleteInput"@
}

/// The error text for a code fragment that is not a complete expression.
pub open spec fn incomplete_text(code: Seq<char>) -> Seq<char> {
    "Code fragment is not complete: "@ + code
}

/// The state beside the language executor.
pub struct RKernel {
    pub execution_count: u32,
    output: String,
    banner: String,
    initializing: bool,
    active: bool,
}

impl RKernel {
    /// Output that the executor wrote during the current request.
    pub closed spec fn output_text(&self) -> Seq<char> {
        self.output@
    }

    /// Output that the executor wrote while starting.
    pub closed spec fn banner_text(&self) -> Seq<char> {
        self.banner@
    }

    /// The execution counter.
    pub closed spec fn count(&self) -> u32 {
        self.execution_count
    }

    /// The execution counter.
    pub fn current_count(&self) -> (r: u32)
        ensures
            r == self.count(),
    {
        self.execution_count
    }

    pub closed spec fn is_initializing(&self) -> bool {
        self.initializing
    }

    /// Whether an execute request has been taken on, so that a reply is owed.
    pub closed spec fn has_request(&self) -> bool {
        self.active
    }

    /// A kernel that is still starting, with the counter at zero.
    pub fn new() -> (r: RKernel)
        ensures
            r.count() == 0,
            r.output_text() == Seq::<char>::empty(),
            r.banner_text() == Seq::<char>::empty(),
            r.is_initializing(),
            !r.has_request(),
    {
        RKernel {
            execution_count: 0,
            output: String::new(),
            banner: String::new(),
            initializing: true,
            active: false,
        }
    }

    /// Ends start-up: the first call returns the kernel's metadata (the
    /// executor's `version` and the banner written so far); later calls
    /// return nothing.
    pub fn complete_intialization(&mut self, version: String) -> (r: Option<RKernelInfo>)
        ensures
            !final(self).is_initializing(),
            old(self).is_initializing() <==> r is Some,
            r matches Some(info) ==> info.version@ == version@ && info.banner@
                == old(self).banner_text(),
            final(self).count() == old(self).count(),
            final(self).output_text() == old(self).output_text(),
            final(self).banner_text() == old(self).banner_text(),
            final(self).has_request() == old(self).has_request(),
    {
        if self.initializing {
            self.initializing = false;
            Some(RKernelInfo { version, banner: self.banner.clone() })
        } else {
            None
        }
    }

    /// Takes on an execute request: clears the output, counts the request
    /// when it is stored in history, and returns the `execute_input` to
    /// publish unless the request is silent.
    pub fn handle_execute_request(&mut self, req: &ExecuteRequest) -> (r: Option<ExecuteInput>)
        requires
            req.store_history ==> old(self).count() < u32::MAX,
        ensures
            final(self).count() == next_count(
                old(self).count() as nat,
                req.store_history,
            ),
            final(self).output_text() == Seq::<char>::empty(),
            final(self).has_request(),
            final(self).banner_text() == old(self).banner_text(),
            final(self).is_initializing() == old(self).is_initializing(),
            r is Some <==> !req.silent,
            r matches Some(input) ==> input.code@ == req.code@ && input.execution_count
                == final(self).count(),
    {
        self.output = String::new();
        self.active = true;
        if req.store_history {
            self.execution_count = self.execution_count + 1;
        }
        if !req.silent {
            Some(ExecuteInput { code: req.code.clone(), execution_count: self.execution_count })
        } else {
            None
        }
    }

    /// Serves a request to the execution worker.
    pub fn fulfill_request(&mut self, req: &RRequest) -> (r: ConsoleAction)
        requires
            req matches RRequest::ExecuteCode(e) ==> (e.store_history ==> old(self).count()
                < u32::MAX),
        ensures
            match req {
                RRequest::ExecuteCode(e) => {
                    &&& r matches ConsoleAction::Evaluate { code, input } && code@ == e.code@ && (
                    input is Some <==> !e.silent) && (input matches Some(i) ==> i.code@ == e.code@
                        && i.execution_count == final(self).count())
                    &&& final(self).count() == next_count(
                        old(self).count() as nat,
                        e.store_history,
                    )
                    &&& final(self).output_text() == Seq::<char>::empty()
                    &&& final(self).has_request()
                },
                RRequest::Shutdown(_) => {
                    &&& r is Quit
                    &&& final(self).count() == old(self).count()
                    &&& final(self).output_text() == old(self).output_text()
                    &&& final(self).has_request() == old(self).has_request()
                },
            },
            final(self).banner_text() == old(self).banner_text(),
            final(self).is_initializing() == old(self).is_initializing(),
    {
        match req {
            RRequest::ExecuteCode(e) => {
                let input = self.handle_execute_request(e);
                ConsoleAction::Evaluate { code: e.code.clone(), input }
            },
            RRequest::Shutdown(_) => ConsoleAction::Quit,
        }
    }

    /// The reply for code that is not a complete expression, when a request
    /// is under way: `IncompleteInput`, with the code in the error text.
    pub fn report_incomplete_request(&self, req: &RRequest) -> (r: Option<ExecuteResponse>)
        ensures
            r is Some <==> self.has_request(),
            r matches Some(resp) ==> resp matches ExecuteResponse::ReplyException(x) && {
                &&& x.execution_count == self.count()
                &&& x.exception.ename@ == incomplete_name()
                &&& x.exception.evalue@ == incomplete_text(
                    match req {
                        RRequest::ExecuteCode(e) => e.code@,
                        RRequest::Shutdown(_) => Seq::<char>::empty(),
                    },
                )
                &&& x.exception.traceback@.len() == 0
            },
    {
        if !self.active {
            return None;
        }
        let mut evalue = String::new();
        push_str(&mut evalue, "Code fragment is not complete: ");
        match req {
            RRequest::ExecuteCode(e) => push_string(&mut evalue, &e.code),
            RRequest::Shutdown(_) => {},
        }
        let ename = "IncompleteInput".to_owned();
        assert(evalue@ =~= incomplete_text(
            match req {
                RRequest::ExecuteCode(e) => e.code@,
                RRequest::Shutdown(_) => Seq::<char>::empty(),
            },
        ));
        Some(
            ExecuteResponse::ReplyException(
                ExecuteReplyException {
                    execution_count: self.execution_count,
                    exception: Exception { ename, evalue, traceback: Vec::new() },
                },
            ),
        )
    }

    /// Ends the request under way: the `execute_result` to publish, carrying
    /// the output written during the request (and `html` for a tabular
    /// value), and the `execute_reply` owed when a request is under way.
    pub fn finish_request(&self, html: Option<String>) -> (r: (ExecuteResult, Option<ExecuteReply>))
        ensures
            r.0.execution_count == self.count(),
            r.0.text_plain@ == self.output_text(),
            r.0.text_html == html,
            r.1 is Some <==> self.has_request(),
            r.1 matches Some(reply) ==> reply.execution_count == self.count(),
    {
        let result = ExecuteResult {
            execution_count: self.execution_count,
            text_plain: self.output.clone(),
            text_html: html,
        };
        let reply = if self.active {
            Some(ExecuteReply { execution_count: self.execution_count })
        } else {
            None
        };
        (result, reply)
    }

    /// Renders a data frame as an HTML table.
    pub fn to_html(frame: &DataFrame) -> (r: String)
        ensures
            r@ == html_table(frame@.0, frame@.1),
    {
        let ghost names = frame@.0;
        let ghost cols = frame@.1;
        let mut th = String::new();
        push_str(&mut th, "<tr>");
        let mut i: usize = 0;
        while i < frame.names.len()
            invariant
                names == frame@.0,
                0 <= i <= names.len(),
                th@ == "<tr>"@ + th_cells(names.take(i as int)),
            decreases names.len() - i,
        {
            push_str(&mut th, "<th>");
            push_string(&mut th, &frame.names[i]);
            push_str(&mut th, "</th>");
            assert(names.take(i + 1).drop_last() =~= names.take(i as int));
            i = i + 1;
            assert(th@ =~= "<tr>"@ + th_cells(names.take(i as int)));
        }
        assert(names.take(i as int) =~= names);
        push_str(&mut th, "</tr>");
        let mut body = String::new();
        let ncols = frame.columns.len();
        let mut row: usize = 0;
        while row < 4
            invariant
                cols == frame@.1,
                ncols == cols.len(),
                0 <= row <= 4,
                body@ == body_rows(cols, row as nat),
            decreases 4 - row,
        {
            push_str(&mut body, "<tr>");
            let ghost before = body@;
            let mut j: usize = 0;
            while j < ncols
                invariant
                    cols == frame@.1,
                    ncols == cols.len(),
                    0 <= row < 4,
                    0 <= j <= ncols,
                    body@ == before + td_cells(cols, row as int, j as nat),
                decreases ncols - j,
            {
                if row < ncols && j < frame.columns[row].len() {
                    push_str(&mut body, "<td>");
                    push_string(&mut body, &frame.columns[row][j]);
                    push_str(&mut body, "</td>");
                }
                j = j + 1;
                assert(body@ =~= before + td_cells(cols, row as int, j as nat));
            }
            push_str(&mut body, "</tr>");
            row = row + 1;
            assert(body@ =~= body_rows(cols, row as nat));
        }
        let mut r = String::new();
        push_str(&mut r, "<table><thead>");
        push_string(&mut r, &th);
        push_str(&mut r, "</thead><tbody>");
        push_string(&mut r, &body);
        push_str(&mut r, "</tbody></table>");
        assert(r@ =~= html_table(names, cols));
        r
    }

    /// Console output from the executor: part of the banner while starting,
    /// part of the current request's output afterwards.
    pub fn write_console(&mut self, content: &str, otype: i32)
        ensures
            old(self).is_initializing() ==> final(self).banner_text() == old(self).banner_text()
                + content@ && final(self).output_text() == old(self).output_text(),
            !old(self).is_initializing() ==> final(self).output_text() == old(self).output_text()
                + content@ && final(self).banner_text() == old(self).banner_text(),
            final(self).count() == old(self).count(),
            final(self).is_initializing() == old(self).is_initializing(),
            final(self).has_request() == old(self).has_request(),
    {
        if self.initializing {
            push_str(&mut self.banner, content);
        } else {
            push_str(&mut self.output, content);
        }
    }
}

} // verus!
