//! Talking to the browser's control endpoint.
//!
//! Requests are numbered JSON texts; each reply names the request that it answers. Sending and
//! receiving are the caller's part.

use crate::flow::{Command, Direction, MouseStep, Script};
use crate::json;
use crate::text;
use serde_json::Value;
use std::collections::HashSet;
use vstd::prelude::*;

verus! {

/// What a waiting request is told when the connection ends.
pub const CONNECTION_CLOSED: &'static str = "Browser CDP connection closed";

/// The text of a request: its number, the method and the parameters as JSON.
pub open spec fn request_text(id: u64, method: Seq<char>, parameters: Seq<char>) -> Seq<char> {
    "{\"id\":"@ + text::decimal(id as nat) + ",\"method\":"@ + json::literal(method)
        + ",\"params\":"@ + parameters + "}"@
}

/// What a control request found out, given the browser's reply to it: the value behind it, or the
/// error that the browser reports.
pub open spec fn control_result(reply: json::Json) -> Result<json::Json, Seq<char>> {
    match reply {
        json::Json::Object(reply) => if reply.contains_key("error"@) {
            Err(json::json_display(reply["error"@]))
        } else if reply.contains_key("result"@) {
            Ok(reply["result"@])
        } else {
            Ok(json::Json::Null)
        },
        _ => Ok(json::Json::Null),
    }
}

/// The number of the request that a reply answers.
pub open spec fn answered_request(reply: json::Json) -> Option<json::Json> {
    match reply {
        json::Json::Object(reply) => if reply.contains_key("id"@) {
            Some(reply["id"@])
        } else {
            None
        },
        _ => None,
    }
}

/// A reply answers the request with this number.
pub open spec fn answers(reply: json::Json, id: u64) -> bool {
    answered_request(reply) == Some(json::Json::Number(text::decimal(id as nat)))
}

/// A result is the one that a reply holds.
pub open spec fn is_result(reply: json::Json, result: Result<Value, String>) -> bool {
    match result {
        Ok(value) => control_result(reply) == Ok::<json::Json, Seq<char>>(json::json(value)),
        Err(error) => control_result(reply) == Err::<json::Json, Seq<char>>(error@),
    }
}

/// Reads a reply of the browser: which request it answers, and the result. A message that answers
/// no request gives nothing.
pub fn read_control_reply(reply: &Value) -> (answer: Option<(u64, Result<Value, String>)>)
    ensures
        match answer {
            Some((id, result)) => answers(json::json(*reply), id) && is_result(
                json::json(*reply),
                result,
            ),
            None => forall|id: u64| !#[trigger] answers(json::json(*reply), id),
        },
{
    let id: u64 = match json::field(reply, "id") {
        Some(id) => match id.as_u64() {
            Some(id) => id,
            None => {
                return None;
            },
        },
        None => {
            return None;
        },
    };
    let result = match json::field(reply, "error") {
        Some(error) => Err(json::display_value(error)),
        None => match json::field(reply, "result") {
            Some(value) => Ok(json::copy_value(value)),
            None => Ok(json::null_value()),
        },
    };
    Some((id, result))
}

/// The requests that wait for their replies.
pub struct CdpClient {
    pub next_id: u64,
    pub pending: HashSet<u64>,
}

impl CdpClient {
    /// No request waits under a number that is still to be used.
    pub open spec fn well_formed(&self) -> bool {
        forall|id: u64| #[trigger] self.pending@.contains(id) ==> id < self.next_id
    }

    /// A fresh connection; its first request has the number one.
    pub fn new() -> (client: Self)
        ensures
            client.well_formed(),
            client.next_id == 1,
            client.pending@ == Set::<u64>::empty(),
    {
        CdpClient { next_id: 1, pending: HashSet::new() }
    }

    /// Writes a request and takes note that its reply is awaited.
    pub fn call(&mut self, method: &str, parameters: &str) -> (request: (u64, String))
        requires
            old(self).well_formed(),
            old(self).next_id < u64::MAX,
        ensures
            final(self).well_formed(),
            request.0 == old(self).next_id,
            request.1@ == request_text(request.0, method@, parameters@),
            final(self).next_id == old(self).next_id + 1,
            !old(self).pending@.contains(request.0),
            final(self).pending@ == old(self).pending@.insert(request.0),
    {
        broadcast use vstd::std_specs::hash::group_hash_axioms;

        let id: u64 = self.next_id;
        self.next_id = id + 1;
        self.pending.insert(id);
        let mut request = "{\"id\":".to_owned();
        request.append(text::decimal_text(id).as_str());
        request.append(",\"method\":");
        request.append(json::json_literal(method).as_str());
        request.append(",\"params\":");
        request.append(parameters);
        request.append("}");
        (id, request)
    }

    fn forget(&mut self, id: u64) -> (known: bool)
        ensures
            old(self).well_formed() ==> final(self).well_formed(),
            known == old(self).pending@.contains(id),
            final(self).pending@ == old(self).pending@.remove(id),
            final(self).next_id == old(self).next_id,
    {
        broadcast use vstd::std_specs::hash::group_hash_axioms;

        self.pending.remove(&id)
    }

    /// Takes in a reply, here as the value that was read: the answer is the request that it
    /// belongs to and its result. What nobody waits for is ignored.
    pub fn answered(&mut self, reply: &Value) -> (answer: Option<(u64, Result<Value, String>)>)
        requires
            old(self).well_formed(),
        ensures
            final(self).well_formed(),
            final(self).next_id == old(self).next_id,
            match answer {
                Some((id, result)) => {
                    &&& answers(json::json(*reply), id)
                    &&& is_result(json::json(*reply), result)
                    &&& old(self).pending@.contains(id)
                    &&& final(self).pending@ == old(self).pending@.remove(id)
                },
                None => *final(self) == *old(self) && forall|id: u64| #[trigger]
                    answers(json::json(*reply), id) ==> !old(self).pending@.contains(id),
            },
    {
        broadcast use vstd::std_specs::hash::group_hash_axioms;

        match read_control_reply(reply) {
            Some((id, result)) => {
                proof {
                    text::lemma_decimal_reads_back(id as nat);
                    assert forall|other: u64| #[trigger] answers(json::json(*reply), other) implies other
                        == id by {
                        text::lemma_decimal_reads_back(other as nat);
                    }
                }
                if !self.pending.contains(&id) {
                    return None;
                }
                self.forget(id);
                Some((id, result))
            },
            None => None,
        }
    }

    /// Takes in a message from the browser. A message that is no JSON is ignored, as is one that
    /// nobody waits for.
    pub fn received(&mut self, message: &str) -> (answer: Option<(u64, Result<Value, String>)>)
        requires
            old(self).well_formed(),
        ensures
            final(self).well_formed(),
            final(self).next_id == old(self).next_id,
            match (json::parsed_json(message@), answer) {
                (Ok(reply), Some((id, result))) => {
                    &&& answers(reply, id)
                    &&& is_result(reply, result)
                    &&& old(self).pending@.contains(id)
                    &&& final(self).pending@ == old(self).pending@.remove(id)
                },
                (Ok(reply), None) => *final(self) == *old(self) && forall|id: u64| #[trigger]
                    answers(reply, id) ==> !old(self).pending@.contains(id),
                (Err(_), answer) => answer is None && *final(self) == *old(self),
            },
    {
        match json::parse_json(message) {
            Ok(reply) => self.answered(&reply),
            Err(_) => None,
        }
    }

    /// Gives up a request that could not be sent; the answer is its error.
    pub fn not_sent(&mut self, id: u64, error: &str) -> (message: String)
        requires
            old(self).well_formed(),
        ensures
            final(self).well_formed(),
            final(self).next_id == old(self).next_id,
            final(self).pending@ == old(self).pending@.remove(id),
            message@ == "Could not send browser CDP command: "@ + error@,
    {
        self.forget(id);
        text::joined("Could not send browser CDP command: ", error)
    }

    /// Gives up a request whose reply did not come in time; the answer is its error.
    pub fn timed_out(&mut self, id: u64, method: &str) -> (message: String)
        requires
            old(self).well_formed(),
        ensures
            final(self).well_formed(),
            final(self).next_id == old(self).next_id,
            final(self).pending@ == old(self).pending@.remove(id),
            message@ == "Browser CDP command "@ + method@ + " timed out"@,
    {
        self.forget(id);
        let mut message = "Browser CDP command ".to_owned();
        message.append(method);
        message.append(" timed out");
        message
    }

    /// The connection has ended: the answer is the requests that still wait.
    pub fn closed(&mut self) -> (waiting: Vec<u64>)
        ensures
            final(self).well_formed(),
            final(self).next_id == old(self).next_id,
            final(self).pending@ == Set::<u64>::empty(),
            waiting@.no_duplicates(),
            waiting@.to_set() == old(self).pending@,
    {
        broadcast use vstd::std_specs::hash::group_hash_axioms;

        let mut waiting: Vec<u64> = Vec::new();
        let numbers = self.pending.iter();
        let ghost ids = vstd::std_specs::iter::IteratorSpec::remaining(&numbers);
        for number in it: numbers
            invariant
                it.seq() == ids,
                waiting@.len() == it.index(),
                forall|i: int| 0 <= i < waiting@.len() ==> #[trigger] waiting@[i] == *ids[i],
        {
            waiting.push(*number);
        }
        assert(waiting@ =~= ids.unref());
        assert forall|i: int, j: int| 0 <= i < j < waiting@.len() implies waiting@[i]
            != waiting@[j] by {
            assert(ids[i] != ids[j]);
        }
        self.pending.clear();
        waiting
    }
}

/// A request is answered once at most: after its reply nobody waits for it any more, and the other
/// requests go on waiting.
pub proof fn requests_are_answered_once(pending: Set<u64>, id: u64, other: u64)
    ensures
        !pending.remove(id).contains(id),
        other != id ==> (pending.remove(id).contains(other) <==> pending.contains(other)),
{
}

/// The value that a script gave, inside the browser's answer to running it.
pub open spec fn script_value(answer: json::Json) -> Result<json::Json, Seq<char>> {
    match answer {
        json::Json::Object(answer) => if answer.contains_key("exceptionDetails"@) {
            Err(
                "Browser page evaluation failed: "@ + json::json_display(
                    answer["exceptionDetails"@],
                ),
            )
        } else if answer.contains_key("result"@) {
            match answer["result"@] {
                json::Json::Object(remote) => if remote.contains_key("value"@) {
                    Ok(remote["value"@])
                } else {
                    Ok(json::Json::Null)
                },
                _ => Ok(json::Json::Null),
            }
        } else {
            Ok(json::Json::Null)
        },
        _ => Ok(json::Json::Null),
    }
}

/// Reads the browser's answer to running a script: a script that threw is an error, one without a
/// value gave null.
pub fn evaluate(answer: &Value) -> (value: Result<Value, String>)
    ensures
        match value {
            Ok(value) => script_value(json::json(*answer)) == Ok::<json::Json, Seq<char>>(
                json::json(value),
            ),
            Err(error) => script_value(json::json(*answer)) == Err::<json::Json, Seq<char>>(error@),
        },
{
    if let Some(exception) = json::field(answer, "exceptionDetails") {
        let shown = json::display_value(exception);
        return Err(text::joined("Browser page evaluation failed: ", shown.as_str()));
    }
    match json::field(answer, "result") {
        Some(remote) => match json::field(remote, "value") {
            Some(value) => Ok(json::copy_value(value)),
            None => Ok(json::null_value()),
        },
        None => Ok(json::null_value()),
    }
}

/// The method that runs a script in the page.
pub const EVALUATE: &'static str = "Runtime.evaluate";

/// The parameters that run a script in the page: it counts as an act of the user, and its value is
/// awaited and sent back.
pub fn evaluation(expression: &str) -> (parameters: String)
    ensures
        parameters@ == "{\"awaitPromise\":true,\"expression\":"@ + json::literal(expression@)
            + ",\"returnByValue\":true,\"userGesture\":true}"@,
{
    let mut parameters = "{\"awaitPromise\":true,\"expression\":".to_owned();
    parameters.append(json::json_literal(expression).as_str());
    parameters.append(",\"returnByValue\":true,\"userGesture\":true}");
    parameters
}

/// The parameters of a mouse event.
pub open spec fn mouse_parameters(step: MouseStep, x: Seq<char>, y: Seq<char>) -> Seq<char> {
    (match step {
        MouseStep::Move =>
        "{\"button\":\"none\",\"pointerType\":\"mouse\",\"type\":\"mouseMoved\",\"x\":"@,
        MouseStep::Press =>
        "{\"button\":\"left\",\"clickCount\":1,\"pointerType\":\"mouse\",\"type\":\"mousePressed\",\"x\":"@,
        MouseStep::Release =>
        "{\"button\":\"left\",\"clickCount\":1,\"pointerType\":\"mouse\",\"type\":\"mouseReleased\",\"x\":"@,
    }) + x + ",\"y\":"@ + y + "}"@
}

impl Command {
    /// The method of a command.
    pub open spec fn method_name(self) -> Seq<char> {
        match self {
            Command::EnableRuntime => "Runtime.enable"@,
            Command::EnablePage => "Page.enable"@,
            Command::BypassContentPolicy => "Page.setBypassCSP"@,
            Command::InstallBridge => "Page.addScriptToEvaluateOnNewDocument"@,
            Command::Navigate(_) => "Page.navigate"@,
            Command::Reload => "Page.reload"@,
            Command::BringToFront => "Page.bringToFront"@,
            Command::EmulateFocus => "Emulation.setFocusEmulationEnabled"@,
            Command::KeepActive => "Page.setWebLifecycleState"@,
            Command::Mouse(_, _, _) => "Input.dispatchMouseEvent"@,
        }
    }

    /// The parameters of a command; `bridge` is the script of the audio bridge.
    pub open spec fn parameter_text(self, bridge: Seq<char>) -> Seq<char> {
        match self {
            Command::EnableRuntime => "{}"@,
            Command::EnablePage => "{}"@,
            Command::BypassContentPolicy => "{\"enabled\":true}"@,
            Command::InstallBridge => "{\"source\":"@ + json::literal(bridge) + "}"@,
            Command::Navigate(url) => "{\"url\":"@ + json::literal(url@) + "}"@,
            Command::Reload => "{\"ignoreCache\":true}"@,
            Command::BringToFront => "{}"@,
            Command::EmulateFocus => "{\"enabled\":true}"@,
            Command::KeepActive => "{\"state\":\"active\"}"@,
            Command::Mouse(step, x, y) => mouse_parameters(step, x@, y@),
        }
    }

    /// Names the method of a command.
    pub fn method(&self) -> (name: &'static str)
        ensures
            name@ == self.method_name(),
    {
        match self {
            Command::EnableRuntime => "Runtime.enable",
            Command::EnablePage => "Page.enable",
            Command::BypassContentPolicy => "Page.setBypassCSP",
            Command::InstallBridge => "Page.addScriptToEvaluateOnNewDocument",
            Command::Navigate(_) => "Page.navigate",
            Command::Reload => "Page.reload",
            Command::BringToFront => "Page.bringToFront",
            Command::EmulateFocus => "Emulation.setFocusEmulationEnabled",
            Command::KeepActive => "Page.setWebLifecycleState",
            Command::Mouse(_, _, _) => "Input.dispatchMouseEvent",
        }
    }

    /// Writes the parameters of a command; `bridge` is the script of the audio bridge.
    pub fn parameters(&self, bridge: &str) -> (written: String)
        ensures
            written@ == self.parameter_text(bridge@),
    {
        match self {
            Command::EnableRuntime => "{}".to_owned(),
            Command::EnablePage => "{}".to_owned(),
            Command::BypassContentPolicy => "{\"enabled\":true}".to_owned(),
            Command::InstallBridge => {
                let mut written = "{\"source\":".to_owned();
                written.append(json::json_literal(bridge).as_str());
                written.append("}");
                written
            },
            Command::Navigate(url) => {
                let mut written = "{\"url\":".to_owned();
                written.append(json::json_literal(url.as_str()).as_str());
                written.append("}");
                written
            },
            Command::Reload => "{\"ignoreCache\":true}".to_owned(),
            Command::BringToFront => "{}".to_owned(),
            Command::EmulateFocus => "{\"enabled\":true}".to_owned(),
            Command::KeepActive => "{\"state\":\"active\"}".to_owned(),
            Command::Mouse(step, x, y) => {
                let mut written = (match step {
                    MouseStep::Move =>
                    "{\"button\":\"none\",\"pointerType\":\"mouse\",\"type\":\"mouseMoved\",\"x\":",
                    MouseStep::Press =>
                    "{\"button\":\"left\",\"clickCount\":1,\"pointerType\":\"mouse\",\"type\":\"mousePressed\",\"x\":",
                    MouseStep::Release =>
                    "{\"button\":\"left\",\"clickCount\":1,\"pointerType\":\"mouse\",\"type\":\"mouseReleased\",\"x\":",
                }).to_owned();
                written.append(x.as_str());
                written.append(",\"y\":");
                written.append(y.as_str());
                written.append("}");
                written
            },
        }
    }
}

/// The word for a direction.
pub open spec fn direction_word(direction: Direction) -> Seq<char> {
    match direction {
        Direction::Next => "next"@,
        Direction::Previous => "previous"@,
    }
}

impl Script {
    /// The script as it runs in the page: what it is about stands in its template as a JSON
    /// string.
    pub open spec fn filled(self, template: Seq<char>) -> Seq<char> {
        match self {
            Script::SetMicrophone(muted) => text::replaced(
                template,
                "__DESIRED__"@,
                json::literal(crate::flow::toggle_word(muted)),
            ),
            Script::OpenRow(label) => text::replaced(
                template,
                "__LABEL__"@,
                json::literal(label@),
            ),
            Script::ChooseOption(label, target) => text::replaced(
                text::replaced(template, "__LABEL__"@, json::literal(label@)),
                "__TARGET__"@,
                json::literal(target@),
            ),
            Script::ChooseVoice(name) => text::replaced(
                template,
                "__TARGET__"@,
                json::literal(name@),
            ),
            Script::StepVoice(direction) => text::replaced(
                template,
                "__DIRECTION__"@,
                json::literal(direction_word(direction)),
            ),
            _ => template,
        }
    }

    /// Fills in the template of a script.
    pub fn fill(&self, template: &str) -> (expression: String)
        ensures
            expression@ == self.filled(template@),
    {
        proof {
            reveal_strlit("__DESIRED__");
            reveal_strlit("__LABEL__");
            reveal_strlit("__TARGET__");
            reveal_strlit("__DIRECTION__");
        }
        match self {
            Script::SetMicrophone(muted) => {
                let word = if *muted {
                    "mute"
                } else {
                    "unmute"
                };
                text::replace(template, "__DESIRED__", json::json_literal(word).as_str())
            },
            Script::OpenRow(label) => text::replace(
                template,
                "__LABEL__",
                json::json_literal(label.as_str()).as_str(),
            ),
            Script::ChooseOption(label, target) => {
                let labelled = text::replace(
                    template,
                    "__LABEL__",
                    json::json_literal(label.as_str()).as_str(),
                );
                text::replace(
                    labelled.as_str(),
                    "__TARGET__",
                    json::json_literal(target.as_str()).as_str(),
                )
            },
            Script::ChooseVoice(name) => text::replace(
                template,
                "__TARGET__",
                json::json_literal(name.as_str()).as_str(),
            ),
            Script::StepVoice(direction) => {
                let word = match direction {
                    Direction::Next => "next",
                    Direction::Previous => "previous",
                };
                text::replace(template, "__DIRECTION__", json::json_literal(word).as_str())
            },
            _ => template.to_owned(),
        }
    }
}

/// A reply with an error is an error, whatever else it holds; otherwise its result is the result,
/// and a reply without one gave null.
pub proof fn replies_carry_their_result(
    reply: Map<Seq<char>, json::Json>,
    error: json::Json,
    result: json::Json,
)
    ensures
        control_result(json::Json::Object(reply.insert("error"@, error))) == Err::<
            json::Json,
            Seq<char>,
        >(json::json_display(error)),
        !reply.contains_key("error"@) ==> control_result(
            json::Json::Object(reply.insert("result"@, result)),
        ) == Ok::<json::Json, Seq<char>>(result),
        !reply.contains_key("error"@) && !reply.contains_key("result"@) ==> control_result(
            json::Json::Object(reply),
        ) == Ok::<json::Json, Seq<char>>(json::Json::Null),
{
    reveal_strlit("error");
    reveal_strlit("result");
    assert("error"@.len() == 5 && "result"@.len() == 6);
}

/// A reply answers the request whose number it holds, and no other one.
pub proof fn replies_find_their_request(reply: Map<Seq<char>, json::Json>, id: u64, other: u64)
    ensures
        answers(
            json::Json::Object(
                reply.insert("id"@, json::Json::Number(text::decimal(id as nat))),
            ),
            other,
        ) <==> id == other,
        !reply.contains_key("id"@) ==> !answers(json::Json::Object(reply), id),
{
    text::lemma_decimal_reads_back(id as nat);
    text::lemma_decimal_reads_back(other as nat);
}

/// A script that threw is an error that shows what was thrown; otherwise the value behind its
/// result is what it gave, and a script without a value gave null.
pub proof fn scripts_give_their_value(
    answer: Map<Seq<char>, json::Json>,
    remote: Map<Seq<char>, json::Json>,
    thrown: json::Json,
    value: json::Json,
)
    ensures
        script_value(json::Json::Object(answer.insert("exceptionDetails"@, thrown))) == Err::<
            json::Json,
            Seq<char>,
        >("Browser page evaluation failed: "@ + json::json_display(thrown)),
        !answer.contains_key("exceptionDetails"@) ==> script_value(
            json::Json::Object(
                answer.insert("result"@, json::Json::Object(remote.insert("value"@, value))),
            ),
        ) == Ok::<json::Json, Seq<char>>(value),
        !answer.contains_key("exceptionDetails"@) && !remote.contains_key("value"@)
            ==> script_value(
            json::Json::Object(answer.insert("result"@, json::Json::Object(remote))),
        ) == Ok::<json::Json, Seq<char>>(json::Json::Null),
        !answer.contains_key("exceptionDetails"@) && !answer.contains_key("result"@)
            ==> script_value(json::Json::Object(answer)) == Ok::<json::Json, Seq<char>>(
            json::Json::Null,
        ),
{
    reveal_strlit("exceptionDetails");
    reveal_strlit("result");
    assert("exceptionDetails"@.len() == 16 && "result"@.len() == 6);
}

/// A request is an object with its number, its method and its parameters.
pub proof fn requests_name_number_method_and_parameters(
    id: u64,
    method: Seq<char>,
    parameters: Seq<char>,
)
    ensures
        request_text(id, method, parameters) == "{\"id\":"@ + text::decimal(id as nat)
            + ",\"method\":"@ + json::literal(method) + ",\"params\":"@ + parameters + "}"@,
{
}

/// A click happens at its point: the mouse moves there without a button, and the left button is
/// pressed and released once at the same place.
pub proof fn clicks_happen_at_their_point(x: String, y: String, bridge: Seq<char>)
    ensures
        Command::Mouse(MouseStep::Move, x, y).method_name() == "Input.dispatchMouseEvent"@,
        Command::Mouse(MouseStep::Move, x, y).parameter_text(bridge)
            == "{\"button\":\"none\",\"pointerType\":\"mouse\",\"type\":\"mouseMoved\",\"x\":"@ + x@
            + ",\"y\":"@ + y@ + "}"@,
        Command::Mouse(MouseStep::Press, x, y).parameter_text(bridge)
            == "{\"button\":\"left\",\"clickCount\":1,\"pointerType\":\"mouse\",\"type\":\"mousePressed\",\"x\":"@
            + x@ + ",\"y\":"@ + y@ + "}"@,
        Command::Mouse(MouseStep::Release, x, y).parameter_text(bridge)
            == "{\"button\":\"left\",\"clickCount\":1,\"pointerType\":\"mouse\",\"type\":\"mouseReleased\",\"x\":"@
            + x@ + ",\"y\":"@ + y@ + "}"@,
{
}

/// Each command to the page has the method and the parameters of the browser's protocol.
pub proof fn commands_follow_the_protocol(url: String, bridge: Seq<char>)
    ensures
        Command::Navigate(url).method_name() == "Page.navigate"@,
        Command::Navigate(url).parameter_text(bridge) == "{\"url\":"@ + json::literal(url@) + "}"@,
        Command::InstallBridge.method_name() == "Page.addScriptToEvaluateOnNewDocument"@,
        Command::InstallBridge.parameter_text(bridge) == "{\"source\":"@ + json::literal(bridge)
            + "}"@,
        Command::Reload.method_name() == "Page.reload"@,
        Command::Reload.parameter_text(bridge) == "{\"ignoreCache\":true}"@,
        Command::EnableRuntime.method_name() == "Runtime.enable"@,
        Command::EnableRuntime.parameter_text(bridge) == "{}"@,
        Command::EnablePage.method_name() == "Page.enable"@,
        Command::EnablePage.parameter_text(bridge) == "{}"@,
        Command::BypassContentPolicy.method_name() == "Page.setBypassCSP"@,
        Command::BypassContentPolicy.parameter_text(bridge) == "{\"enabled\":true}"@,
        Command::BringToFront.method_name() == "Page.bringToFront"@,
        Command::BringToFront.parameter_text(bridge) == "{}"@,
        Command::EmulateFocus.method_name() == "Emulation.setFocusEmulationEnabled"@,
        Command::EmulateFocus.parameter_text(bridge) == "{\"enabled\":true}"@,
        Command::KeepActive.method_name() == "Page.setWebLifecycleState"@,
        Command::KeepActive.parameter_text(bridge) == "{\"state\":\"active\"}"@,
{
}

/// What a script is about stands where its template names it once, as a JSON string; the rest of
/// the template stays as it is.
pub proof fn scripts_are_filled_in(template: Seq<char>, at: int, word: Seq<char>, script: Script)
    requires
        text::first_match(template, word) == Some(at),
        text::first_match(template.skip(at + word.len()), word) is None,
        match script {
            Script::SetMicrophone(_) => word == "__DESIRED__"@,
            Script::OpenRow(_) => word == "__LABEL__"@,
            Script::ChooseVoice(_) => word == "__TARGET__"@,
            Script::StepVoice(_) => word == "__DIRECTION__"@,
            _ => false,
        },
    ensures
        script.filled(template) == template.take(at) + json::literal(
            match script {
                Script::SetMicrophone(true) => "mute"@,
                Script::SetMicrophone(false) => "unmute"@,
                Script::OpenRow(label) => label@,
                Script::ChooseVoice(name) => name@,
                Script::StepVoice(Direction::Next) => "next"@,
                _ => "previous"@,
            },
        ) + template.skip(at + word.len()),
{
    reveal_strlit("__DESIRED__");
    reveal_strlit("__LABEL__");
    reveal_strlit("__TARGET__");
    reveal_strlit("__DIRECTION__");
    let with = match script {
        Script::SetMicrophone(muted) => json::literal(crate::flow::toggle_word(muted)),
        Script::OpenRow(label) => json::literal(label@),
        Script::ChooseVoice(name) => json::literal(name@),
        Script::StepVoice(direction) => json::literal(direction_word(direction)),
        _ => Seq::empty(),
    };
    text::occurrences_are_replaced(template, word, with);
    text::occurrences_are_replaced(template.skip(at + word.len()), word, with);
}

/// An option is chosen by its row and its value: the row's label is filled in first, and then the
/// value.
pub proof fn options_are_filled_in(label: String, target: String, template: Seq<char>)
    ensures
        Script::ChooseOption(label, target).filled(template) == Script::ChooseVoice(target).filled(
            Script::OpenRow(label).filled(template),
        ),
{
}

} // verus!
