//! What hooks are told when they are invoked.

use crate::event::HookEvent;
use crate::json::path_to_json;
use crate::json::text_to_json;
use crate::json::value_to_json;
use crate::outcome::HookError;
use crate::text::decimal_text;
use vstd::prelude::*;
use vstd::string::StringExecFns;

verus! {

/// One invocation of hooks: the event, and what the hooks are told of it.
#[derive(Debug)]
pub struct HookInvocation {
    pub event: HookEvent,
    pub cwd: std::path::PathBuf,
    pub run_id: String,
    pub session_id: String,
    pub turn: u32,
    /// The tool that the event concerns, where it concerns one.
    pub tool: Option<String>,
    pub payload: serde_json::Value,
}

/// What a [`HookInvocation`] says.
pub struct HookInvocationView {
    pub event: HookEvent,
    pub cwd: std::path::PathBuf,
    pub run_id: Seq<char>,
    pub session_id: Seq<char>,
    pub turn: u32,
    pub tool: Option<Seq<char>>,
    pub payload: serde_json::Value,
}

impl View for HookInvocation {
    type V = HookInvocationView;

    open spec fn view(&self) -> HookInvocationView {
        HookInvocationView {
            event: self.event,
            cwd: self.cwd,
            run_id: self.run_id@,
            session_id: self.session_id@,
            turn: self.turn,
            tool: crate::text::optional_owned(self.tool),
            payload: self.payload,
        }
    }
}

impl Clone for HookInvocation {
    fn clone(&self) -> (copy: Self)
        ensures
            copy == *self,
    {
        HookInvocation {
            event: self.event,
            cwd: self.cwd.clone(),
            run_id: self.run_id.clone(),
            session_id: self.session_id.clone(),
            turn: self.turn,
            tool: self.tool.clone(),
            payload: self.payload.clone(),
        }
    }
}

/// The run and the session that invocations belong to.
#[derive(Debug, Clone)]
pub struct HookRunContext {
    pub run_id: String,
    pub session_id: String,
}

impl HookInvocationView {
    /// The member that names the tool; there is none where no tool is concerned.
    pub open spec fn tool_member(self) -> Seq<char> {
        match self.tool {
            Some(tool) => ",\"tool\":"@ + crate::json::quoted(tool),
            None => Seq::empty(),
        }
    }

    /// The JSON document that a hook reads, where the working directory and the payload are
    /// written as `cwd` and `payload` in JSON.
    pub open spec fn document(self, cwd: Seq<char>, payload: Seq<char>) -> Seq<char> {
        "{\"event\":"@ + crate::json::quoted(self.event.name()) + ",\"cwd\":"@ + cwd
            + ",\"run_id\":"@ + crate::json::quoted(self.run_id) + ",\"session_id\":"@
            + crate::json::quoted(self.session_id) + ",\"turn\":"@ + crate::text::decimal(
            self.turn as nat,
        ) + self.tool_member() + ",\"payload\":"@ + payload + "}"@
    }

    /// The JSON document that a hook reads, or the error where there is none: a document can only
    /// name a working directory that has a text.
    pub open spec fn json(self) -> Result<Seq<char>, crate::outcome::HookErrorView> {
        match crate::json::path_text(self.cwd) {
            Some(cwd) => Ok(
                self.document(crate::json::quoted(cwd), crate::json::value_text(self.payload)),
            ),
            None => Err(
                crate::outcome::HookErrorView::InvalidJson(
                    "path contains invalid UTF-8 characters"@,
                ),
            ),
        }
    }
}

/// Writes a text as a JSON string.
fn quote(text: &str) -> (json: Result<String, HookError>)
    ensures
        json is Ok,
        json->Ok_0@ == crate::json::quoted(text@),
{
    match text_to_json(text) {
        Ok(json) => Ok(json),
        Err(cause) => Err(HookError::InvalidJson(cause)),
    }
}

impl HookInvocation {
    /// Writes the JSON document that a hook reads, given how the working directory and the
    /// payload are written in JSON.
    pub fn compose(&self, cwd: &str, payload: &str) -> (json: Result<String, HookError>)
        ensures
            json is Ok,
            json->Ok_0@ == self@.document(cwd@, payload@),
    {
        let mut document = "{\"event\":".to_owned();
        document.append(quote(self.event.json_name())?.as_str());
        document.append(",\"cwd\":");
        document.append(cwd);
        document.append(",\"run_id\":");
        document.append(quote(self.run_id.as_str())?.as_str());
        document.append(",\"session_id\":");
        document.append(quote(self.session_id.as_str())?.as_str());
        document.append(",\"turn\":");
        document.append(decimal_text(self.turn as u64).as_str());
        match &self.tool {
            Some(tool) => {
                let ghost before = document@;
                document.append(",\"tool\":");
                document.append(quote(tool.as_str())?.as_str());
                assert(document@ =~= before + self@.tool_member());
            },
            None => {
                assert(document@ =~= document@ + self@.tool_member());
            },
        }
        document.append(",\"payload\":");
        document.append(payload);
        document.append("}");
        Ok(document)
    }

    /// Writes the JSON document that a hook reads on its standard input.
    pub fn to_json(&self) -> (json: Result<String, HookError>)
        ensures
            match self@.json() {
                Ok(document) => json is Ok && json->Ok_0@ == document,
                Err(error) => json is Err && json->Err_0@ == error,
            },
            match json {
                Ok(document) => crate::json::path_text(self.cwd) matches Some(cwd) && document@
                    == self@.document(
                    crate::json::quoted(cwd),
                    crate::json::value_text(self.payload),
                ),
                Err(error) => {
                    &&& crate::json::path_text(self.cwd) is None
                    &&& error matches HookError::InvalidJson(cause)
                    &&& cause@ == "path contains invalid UTF-8 characters"@
                },
            },
    {
        match (path_to_json(&self.cwd), value_to_json(&self.payload)) {
            (Ok(cwd), Ok(payload)) => self.compose(cwd.as_str(), payload.as_str()),
            (Err(cause), _) => Err(HookError::InvalidJson(cause)),
            (_, Err(cause)) => Err(HookError::InvalidJson(cause)),
        }
    }
}

/// What the document of an invocation holds from the member for the tool on.
spec fn from_tool(invocation: HookInvocationView, payload: Seq<char>) -> Seq<char> {
    invocation.tool_member() + (",\"payload\":"@ + (payload + "}"@))
}

/// The part of a document from the member for the tool on tells the tool and the payload.
proof fn from_tool_is_read_back(
    a: HookInvocationView,
    a_payload: Seq<char>,
    b: HookInvocationView,
    b_payload: Seq<char>,
)
    requires
        from_tool(a, a_payload) == from_tool(b, b_payload),
    ensures
        a.tool == b.tool,
        a_payload == b_payload,
{
    reveal_strlit(",\"tool\":");
    reveal_strlit(",\"payload\":");
    let left = ",\"payload\":"@ + (a_payload + "}"@);
    let right = ",\"payload\":"@ + (b_payload + "}"@);
    assert(from_tool(a, a_payload)[2] == if a.tool is Some { 't' } else { 'p' });
    assert(from_tool(b, b_payload)[2] == if b.tool is Some { 't' } else { 'p' });
    if a.tool is Some {
        let s = crate::json::quoted(a.tool->0);
        let t = crate::json::quoted(b.tool->0);
        assert(from_tool(a, a_payload) =~= ",\"tool\":"@ + (s + left));
        assert(from_tool(b, b_payload) =~= ",\"tool\":"@ + (t + right));
        crate::json::same_front(",\"tool\":"@, s + left, t + right);
        crate::json::quoted_is_read_back(a.tool->0, b.tool->0, left, right);
    } else {
        assert(from_tool(a, a_payload) =~= left);
        assert(from_tool(b, b_payload) =~= right);
    }
    crate::json::same_front(",\"payload\":"@, a_payload + "}"@, b_payload + "}"@);
    assert(a_payload =~= (a_payload + "}"@).take(
        (a_payload + "}"@).len() - "}"@.len(),
    ));
    assert(b_payload =~= (b_payload + "}"@).take(
        (b_payload + "}"@).len() - "}"@.len(),
    ));
}

/// A sequence in front of two others.
proof fn regroup(x: Seq<char>, y: Seq<char>, z: Seq<char>)
    ensures
        (x + y) + z == x + (y + z),
{
    assert((x + y) + z =~= x + (y + z));
}

/// What the document of an invocation holds from the member for the turn on.
spec fn from_turn(invocation: HookInvocationView, payload: Seq<char>) -> Seq<char> {
    ",\"turn\":"@ + (crate::text::decimal(invocation.turn as nat) + from_tool(
        invocation,
        payload,
    ))
}

/// What the document of an invocation holds from the member for the session on.
spec fn from_session(invocation: HookInvocationView, payload: Seq<char>) -> Seq<char> {
    ",\"session_id\":"@ + (crate::json::quoted(invocation.session_id) + from_turn(
        invocation,
        payload,
    ))
}

/// What the document of an invocation holds from the member for the run on.
spec fn from_run(invocation: HookInvocationView, payload: Seq<char>) -> Seq<char> {
    ",\"run_id\":"@ + (crate::json::quoted(invocation.run_id) + from_session(
        invocation,
        payload,
    ))
}

/// What the document of an invocation holds from the member for the working directory on.
spec fn from_cwd(
    invocation: HookInvocationView,
    cwd: Seq<char>,
    payload: Seq<char>,
) -> Seq<char> {
    ",\"cwd\":"@ + (cwd + from_run(invocation, payload))
}

/// A document is its first member and what follows.
proof fn document_unfolds(invocation: HookInvocationView, cwd: Seq<char>, payload: Seq<char>)
    ensures
        invocation.document(cwd, payload) == "{\"event\":"@ + (crate::json::quoted(
            invocation.event.name(),
        ) + from_cwd(invocation, cwd, payload)),
{
    let d1 = "{\"event\":"@ + crate::json::quoted(invocation.event.name());
    let d2 = d1 + ",\"cwd\":"@;
    let d3 = d2 + cwd;
    let d4 = d3 + ",\"run_id\":"@;
    let d5 = d4 + crate::json::quoted(invocation.run_id);
    let d6 = d5 + ",\"session_id\":"@;
    let d7 = d6 + crate::json::quoted(invocation.session_id);
    let d8 = d7 + ",\"turn\":"@;
    let d9 = d8 + crate::text::decimal(invocation.turn as nat);
    let d10 = d9 + invocation.tool_member();
    let d11 = d10 + ",\"payload\":"@;
    let end = payload + "}"@;
    regroup(d11, payload, "}"@);
    regroup(d10, ",\"payload\":"@, end);
    regroup(d9, invocation.tool_member(), ",\"payload\":"@ + end);
    let tool = from_tool(invocation, payload);
    regroup(d8, crate::text::decimal(invocation.turn as nat), tool);
    regroup(d7, ",\"turn\":"@, crate::text::decimal(invocation.turn as nat) + tool);
    let turn = from_turn(invocation, payload);
    regroup(d6, crate::json::quoted(invocation.session_id), turn);
    regroup(d5, ",\"session_id\":"@, crate::json::quoted(invocation.session_id) + turn);
    let session = from_session(invocation, payload);
    regroup(d4, crate::json::quoted(invocation.run_id), session);
    regroup(d3, ",\"run_id\":"@, crate::json::quoted(invocation.run_id) + session);
    let run = from_run(invocation, payload);
    regroup(d2, cwd, run);
    regroup(d1, ",\"cwd\":"@, cwd + run);
    regroup(
        "{\"event\":"@,
        crate::json::quoted(invocation.event.name()),
        from_cwd(invocation, cwd, payload),
    );
}

/// What follows the turn begins with a comma.
proof fn from_tool_begins_with_a_comma(invocation: HookInvocationView, payload: Seq<char>)
    ensures
        from_tool(invocation, payload).len() > 0,
        from_tool(invocation, payload)[0] == ',',
{
    reveal_strlit(",\"tool\":");
    reveal_strlit(",\"payload\":");
}

/// A document tells each of its members.
proof fn document_is_read_back(
    a: HookInvocationView,
    a_cwd: Seq<char>,
    a_payload: Seq<char>,
    b: HookInvocationView,
    b_cwd: Seq<char>,
    b_payload: Seq<char>,
)
    requires
        a.document(crate::json::quoted(a_cwd), a_payload) == b.document(
            crate::json::quoted(b_cwd),
            b_payload,
        ),
    ensures
        a.event == b.event,
        a_cwd == b_cwd,
        a.run_id == b.run_id,
        a.session_id == b.session_id,
        a.turn == b.turn,
        a.tool == b.tool,
        a_payload == b_payload,
{
    let a_json = crate::json::quoted(a_cwd);
    let b_json = crate::json::quoted(b_cwd);
    document_unfolds(a, a_json, a_payload);
    document_unfolds(b, b_json, b_payload);
    crate::json::same_front(
        "{\"event\":"@,
        crate::json::quoted(a.event.name()) + from_cwd(a, a_json, a_payload),
        crate::json::quoted(b.event.name()) + from_cwd(b, b_json, b_payload),
    );
    crate::json::quoted_is_read_back(
        a.event.name(),
        b.event.name(),
        from_cwd(a, a_json, a_payload),
        from_cwd(b, b_json, b_payload),
    );
    crate::event::names_are_distinct(a.event, b.event);
    crate::json::same_front(
        ",\"cwd\":"@,
        a_json + from_run(a, a_payload),
        b_json + from_run(b, b_payload),
    );
    crate::json::quoted_is_read_back(a_cwd, b_cwd, from_run(a, a_payload), from_run(b, b_payload));
    crate::json::same_front(
        ",\"run_id\":"@,
        crate::json::quoted(a.run_id) + from_session(a, a_payload),
        crate::json::quoted(b.run_id) + from_session(b, b_payload),
    );
    crate::json::quoted_is_read_back(
        a.run_id,
        b.run_id,
        from_session(a, a_payload),
        from_session(b, b_payload),
    );
    crate::json::same_front(
        ",\"session_id\":"@,
        crate::json::quoted(a.session_id) + from_turn(a, a_payload),
        crate::json::quoted(b.session_id) + from_turn(b, b_payload),
    );
    crate::json::quoted_is_read_back(
        a.session_id,
        b.session_id,
        from_turn(a, a_payload),
        from_turn(b, b_payload),
    );
    crate::json::same_front(
        ",\"turn\":"@,
        crate::text::decimal(a.turn as nat) + from_tool(a, a_payload),
        crate::text::decimal(b.turn as nat) + from_tool(b, b_payload),
    );
    from_tool_begins_with_a_comma(a, a_payload);
    from_tool_begins_with_a_comma(b, b_payload);
    crate::text::decimal_is_read_back(
        a.turn as nat,
        b.turn as nat,
        from_tool(a, a_payload),
        from_tool(b, b_payload),
    );
    from_tool_is_read_back(a, a_payload, b, b_payload);
}

/// The document that a hook reads tells everything that the invocation says: two invocations with
/// one document agree in the event, the text of the working directory, the run, the session, the
/// turn, the tool (or that there is none) and the text of the payload.
pub proof fn documents_tell_invocations_apart(a: HookInvocationView, b: HookInvocationView)
    requires
        a.json() is Ok,
        a.json() == b.json(),
    ensures
        a.event == b.event,
        crate::json::path_text(a.cwd) == crate::json::path_text(b.cwd),
        a.run_id == b.run_id,
        a.session_id == b.session_id,
        a.turn == b.turn,
        a.tool == b.tool,
        crate::json::value_text(a.payload) == crate::json::value_text(b.payload),
{
    document_is_read_back(
        a,
        crate::json::path_text(a.cwd)->0,
        crate::json::value_text(a.payload),
        b,
        crate::json::path_text(b.cwd)->0,
        crate::json::value_text(b.payload),
    );
}

/// An invocation's view says what its fields hold.
pub proof fn invocations_say_their_fields(invocation: HookInvocation)
    ensures
        invocation@.event == invocation.event,
        invocation@.cwd == invocation.cwd,
        invocation@.run_id == invocation.run_id@,
        invocation@.session_id == invocation.session_id@,
        invocation@.turn == invocation.turn,
        invocation.tool is None ==> invocation@.tool is None,
        invocation.tool matches Some(tool) ==> invocation@.tool == Some(tool@),
        invocation@.payload == invocation.payload,
{
}

/// An invocation has a document if and only if its working directory has a text, whatever the
/// event, the run, the session, the turn, the tool and the payload are.
pub proof fn every_unicode_directory_has_a_document(invocation: HookInvocationView)
    ensures
        invocation.json() is Ok <==> crate::json::path_text(invocation.cwd) is Some,
        invocation.json() is Err ==> invocation.json()->Err_0
            == crate::outcome::HookErrorView::InvalidJson(
            "path contains invalid UTF-8 characters"@,
        ),
{
}

/// Whether there is a document depends on the working directory alone.
pub proof fn only_the_directory_can_prevent_a_document(a: HookInvocationView, b: HookInvocationView)
    requires
        a.cwd == b.cwd,
    ensures
        a.json() is Ok <==> b.json() is Ok,
{
}

/// A document is one JSON object with every field of the invocation as a member, in order and in
/// full: texts as JSON strings, the turn in decimal, and the tool only where there is one.
pub proof fn documents_hold_every_field(invocation: HookInvocationView, cwd: Seq<char>)
    requires
        crate::json::path_text(invocation.cwd) == Some(cwd),
    ensures
        invocation.json() == Ok::<_, crate::outcome::HookErrorView>(
            "{\"event\":"@ + (crate::json::quoted(invocation.event.name()) + (",\"cwd\":"@ + (
            crate::json::quoted(cwd) + (",\"run_id\":"@ + (crate::json::quoted(invocation.run_id) + (
            ",\"session_id\":"@ + (crate::json::quoted(invocation.session_id) + (",\"turn\":"@ + (
            crate::text::decimal(invocation.turn as nat) + (match invocation.tool {
                Some(tool) => ",\"tool\":"@ + crate::json::quoted(tool),
                None => Seq::empty(),
            } + (",\"payload\":"@ + (crate::json::value_text(invocation.payload) + "}"@)))))))))))),
        ),
{
    document_unfolds(
        invocation,
        crate::json::quoted(cwd),
        crate::json::value_text(invocation.payload),
    );
}

/// A document is made the same way of whatever the directory and the payload are written as.
pub proof fn documents_take_their_parts_as_given(
    invocation: HookInvocationView,
    cwd: Seq<char>,
    payload: Seq<char>,
)
    ensures
        invocation.document(cwd, payload) == "{\"event\":"@ + (crate::json::quoted(
            invocation.event.name(),
        ) + (",\"cwd\":"@ + (cwd + (",\"run_id\":"@ + (crate::json::quoted(invocation.run_id) + (
        ",\"session_id\":"@ + (crate::json::quoted(invocation.session_id) + (",\"turn\":"@ + (
        crate::text::decimal(invocation.turn as nat) + (match invocation.tool {
            Some(tool) => ",\"tool\":"@ + crate::json::quoted(tool),
            None => Seq::empty(),
        } + (",\"payload\":"@ + (payload + "}"@)))))))))))),
{
    document_unfolds(invocation, cwd, payload);
}

} // verus!
