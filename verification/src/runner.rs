//! Decisions of the job runner: how pipeline output lines become events,
//! and what to do on each look at the running pipeline process.

use serde_json::{Number, Value};
use vstd::prelude::*;
use vstd::string::StringExecFns;
use crate::text::{after_prefix, i32_to_decimal, signed_decimal, strip_prefix};

verus! {

broadcast use vstd::string::group_string_axioms;

#[verifier::external_type_specification]
#[verifier::external_body]
pub struct ExValue(Value);

#[verifier::external_type_specification]
#[verifier::external_body]
pub struct ExNumber(Number);

/// What a JSON value is, as far as event lines are read: an object with its
/// members, a string, a number, or something else.
pub enum JsonShape {
    Object(Map<Seq<char>, Value>),
    Str(Seq<char>),
    Num(Number),
    Other,
}

/// What a `serde_json::Value` holds.
pub uninterp spec fn json_shape(value: Value) -> JsonShape;

/// The value `serde_json::from_str` reads from a text, when the text is JSON.
pub uninterp spec fn json_parsed(text: Seq<char>) -> Option<Value>;

/// Calls `serde_json::from_str` for a `Value`; the result is named by `json_parsed`.
#[verifier::external_body]
fn parse_json(text: &str) -> (r: Option<Value>)
    ensures
        r == json_parsed(text@),
{
    serde_json::from_str::<Value>(text).ok()
}

/// The member `key` of an object; nothing for other values.
pub open spec fn member(value: Value, key: Seq<char>) -> Option<Value> {
    match json_shape(value) {
        JsonShape::Object(members) => if members.contains_key(key) {
            Some(members[key])
        } else {
            None
        },
        _ => None,
    }
}

/// Calls `Value::get` with a string key: the member of an object, and
/// nothing for a missing key or a value that is not an object.
#[verifier::external_body]
fn json_get<'a>(value: &'a Value, key: &str) -> (r: Option<&'a Value>)
    ensures
        r matches Some(m) ==> member(*value, key@) == Some(*m),
        r is None ==> member(*value, key@) is None,
{
    value.get(key)
}

/// Calls `Value::as_str`: the text of a string, and nothing for other values.
#[verifier::external_body]
fn json_as_str(value: &Value) -> (r: Option<&str>)
    ensures
        (match json_shape(*value) {
            JsonShape::Str(s) => r is Some && r.unwrap()@ == s,
            _ => r is None,
        }),
{
    value.as_str()
}

/// Calls `Value::as_number`: a copy of the number, and nothing for other values.
#[verifier::external_body]
fn json_as_number(value: &Value) -> (r: Option<Number>)
    ensures
        (match json_shape(*value) {
            JsonShape::Num(n) => r == Some(n),
            _ => r is None,
        }),
{
    value.as_number().cloned()
}

/// A string member of an object.
pub open spec fn str_member(value: Value, key: Seq<char>) -> Option<Seq<char>> {
    match member(value, key) {
        Some(m) => match json_shape(m) {
            JsonShape::Str(s) => Some(s),
            _ => None,
        },
        None => None,
    }
}

/// A number member of an object.
pub open spec fn number_member(value: Value, key: Seq<char>) -> Option<Number> {
    match member(value, key) {
        Some(m) => match json_shape(m) {
            JsonShape::Num(n) => Some(n),
            _ => None,
        },
        None => None,
    }
}

/// What the runner reports to the user interface. A stage's progress is
/// the `progress` number of the structured line as JSON gave it, when it
/// gave one; readers take it as a fraction, 0 when absent, clamped to [0, 1].
#[derive(Debug, Clone)]
pub enum JobEvent {
    Log(String),
    Stage { name: String, progress: Option<Number> },
    Finished(i32),
    Failed(String),
    Cancelled,
}

/// A job event with its text as character sequences.
pub enum JobEventView {
    Log(Seq<char>),
    Stage(Seq<char>, Option<Number>),
    Finished(i32),
    Failed(Seq<char>),
    Cancelled,
}

impl View for JobEvent {
    type V = JobEventView;

    open spec fn view(&self) -> JobEventView {
        match self {
            JobEvent::Log(text) => JobEventView::Log(text@),
            JobEvent::Stage { name, progress } => JobEventView::Stage(name@, *progress),
            JobEvent::Finished(code) => JobEventView::Finished(*code),
            JobEvent::Failed(text) => JobEventView::Failed(text@),
            JobEvent::Cancelled => JobEventView::Cancelled,
        }
    }
}

pub open spec fn events_view(events: Seq<JobEvent>) -> Seq<JobEventView> {
    events.map_values(|e: JobEvent| e@)
}

/// The marker that starts a structured progress line.
pub open spec fn event_marker() -> Seq<char> {
    "GSS_EVENT "@
}

/// The events of a structured line's JSON value: the stage (named
/// `working` when the line names none) with its progress, then its message
/// when it has one.
pub open spec fn structured_events(value: Value) -> Seq<JobEventView> {
    let name = match str_member(value, "stage"@) {
        Some(s) => s,
        None => "working"@,
    };
    let stage = JobEventView::Stage(name, number_member(value, "progress"@));
    match str_member(value, "message"@) {
        Some(message) => seq![stage, JobEventView::Log(message)],
        None => seq![stage],
    }
}

/// The events one line of pipeline output gives: a structured line (the
/// marker, then JSON) gives its stage events; any other line is logged as it is.
pub open spec fn line_events_view(line: Seq<char>) -> Seq<JobEventView> {
    match after_prefix(line, event_marker()) {
        Some(payload) => match json_parsed(payload) {
            Some(value) => structured_events(value),
            None => seq![JobEventView::Log(line)],
        },
        None => seq![JobEventView::Log(line)],
    }
}

/// The events of a structured line whose JSON has been read.
pub fn stage_events(value: &Value) -> (r: Vec<JobEvent>)
    ensures
        events_view(r@) == structured_events(*value),
{
    proof {
        reveal_strlit("working");
    }
    let name = match json_get(value, "stage") {
        Some(m) => match json_as_str(m) {
            Some(s) => String::from_str(s),
            None => String::from_str("working"),
        },
        None => String::from_str("working"),
    };
    let progress = match json_get(value, "progress") {
        Some(m) => json_as_number(m),
        None => None,
    };
    let mut events: Vec<JobEvent> = Vec::new();
    events.push(JobEvent::Stage { name, progress });
    let message = match json_get(value, "message") {
        Some(m) => json_as_str(m),
        None => None,
    };
    match message {
        Some(text) => events.push(JobEvent::Log(String::from_str(text))),
        None => {},
    }
    assert(events_view(events@) =~= structured_events(*value));
    events
}

/// The events one line of pipeline output gives.
pub fn line_events(line: &str) -> (r: Vec<JobEvent>)
    ensures
        events_view(r@) == line_events_view(line@),
{
    proof {
        reveal_strlit("GSS_EVENT ");
    }
    match strip_prefix(line, "GSS_EVENT ") {
        Some(payload) => match parse_json(payload) {
            Some(value) => {
                return stage_events(&value);
            },
            None => {},
        },
        None => {},
    }
    let mut events: Vec<JobEvent> = Vec::new();
    events.push(JobEvent::Log(String::from_str(line)));
    assert(events_view(events@) =~= line_events_view(line@));
    events
}

/// Every line gives one or two events; a line that is not structured is
/// logged exactly as it is, and a structured one reports its stage first.
pub proof fn lemma_line_events_shape(line: Seq<char>)
    ensures
        1 <= line_events_view(line).len() <= 2,
        after_prefix(line, event_marker()) is None ==> line_events_view(line) == seq![
            JobEventView::Log(line),
        ],
        line_events_view(line).len() == 2 ==> line_events_view(line)[0] is Stage,
{
}

/// A structured line reports what its JSON says, and a line whose JSON
/// cannot be read is logged as it is.
pub proof fn lemma_structured_line(payload: Seq<char>)
    ensures
        json_parsed(payload) matches Some(value) ==> line_events_view(event_marker() + payload)
            == structured_events(value),
        json_parsed(payload) is None ==> line_events_view(event_marker() + payload) == seq![
            JobEventView::Log(event_marker() + payload),
        ],
{
    crate::text::lemma_after_prefix_of_concat(event_marker(), payload);
}

/// What the runner saw on one look at the pipeline process.
#[derive(Debug, Clone)]
pub enum ProcessObservation {
    /// The user asked for the job to be cancelled.
    CancelRequested,
    /// The process has exited; `code` is its exit code when it has one.
    Exited { success: bool, code: Option<i32> },
    /// The process is still running.
    StillRunning,
    /// Waiting on the process failed, for the given reason.
    WaitFailed(String),
}

/// What the runner does after a look at the pipeline process.
#[derive(Debug, Clone)]
pub enum RunnerAction {
    /// Sleep a little and look again.
    Sleep,
    /// Kill the process, wait for it, report `Cancelled` and stop.
    Cancel,
    /// Report the output lines still buffered, then this event, and stop.
    Finish(JobEvent),
    /// Report this event at once and stop.
    Abort(JobEvent),
}

pub enum RunnerActionView {
    Sleep,
    Cancel,
    Finish(JobEventView),
    Abort(JobEventView),
}

impl View for RunnerAction {
    type V = RunnerActionView;

    open spec fn view(&self) -> RunnerActionView {
        match self {
            RunnerAction::Sleep => RunnerActionView::Sleep,
            RunnerAction::Cancel => RunnerActionView::Cancel,
            RunnerAction::Finish(e) => RunnerActionView::Finish(e@),
            RunnerAction::Abort(e) => RunnerActionView::Abort(e@),
        }
    }
}

/// The exit code reported for a process; -1 when it has none.
pub open spec fn reported_code(code: Option<i32>) -> i32 {
    match code {
        Some(c) => c,
        None => -1i32,
    }
}

/// The runner's response to each observation: a cancel request always
/// cancels; a successful exit finishes with its code; an unsuccessful one
/// fails, naming its code; a failed wait fails with its reason; a running
/// process is looked at again later.
pub open spec fn action_for(observation: ProcessObservation) -> RunnerActionView {
    match observation {
        ProcessObservation::CancelRequested => RunnerActionView::Cancel,
        ProcessObservation::Exited { success, code } => if success {
            RunnerActionView::Finish(JobEventView::Finished(reported_code(code)))
        } else {
            RunnerActionView::Finish(
                JobEventView::Failed(
                    "Pipeline exited with code "@ + signed_decimal(reported_code(code) as int),
                ),
            )
        },
        ProcessObservation::StillRunning => RunnerActionView::Sleep,
        ProcessObservation::WaitFailed(reason) => RunnerActionView::Abort(
            JobEventView::Failed("Failed while waiting for pipeline: "@ + reason@),
        ),
    }
}

/// Decides what the runner does after looking at the pipeline process.
pub fn next_action(observation: ProcessObservation) -> (r: RunnerAction)
    ensures
        r@ == action_for(observation),
{
    match observation {
        ProcessObservation::CancelRequested => RunnerAction::Cancel,
        ProcessObservation::Exited { success, code } => {
            let code = match code {
                Some(c) => c,
                None => -1,
            };
            if success {
                RunnerAction::Finish(JobEvent::Finished(code))
            } else {
                let mut message = String::from_str("Pipeline exited with code ");
                let digits = i32_to_decimal(code);
                message.append(digits.as_str());
                RunnerAction::Finish(JobEvent::Failed(message))
            }
        },
        ProcessObservation::StillRunning => RunnerAction::Sleep,
        ProcessObservation::WaitFailed(reason) => {
            let mut message = String::from_str("Failed while waiting for pipeline: ");
            message.append(reason.as_str());
            RunnerAction::Abort(JobEvent::Failed(message))
        },
    }
}

/// The event reported when the pipeline program could not be started.
pub fn start_failure(program: &str, error: &str) -> (r: JobEvent)
    ensures
        r@ == JobEventView::Failed("Failed to start "@ + program@ + ": "@ + error@),
{
    let mut message = String::from_str("Failed to start ");
    message.append(program);
    message.append(": ");
    message.append(error);
    JobEvent::Failed(message)
}

/// The events of several output lines, in the order of the lines.
pub open spec fn lines_events_view(lines: Seq<Seq<char>>) -> Seq<JobEventView>
    decreases lines.len(),
{
    if lines.len() == 0 {
        Seq::empty()
    } else {
        lines_events_view(lines.drop_last()) + line_events_view(lines.last())
    }
}

/// The text of some output lines.
pub open spec fn lines_text(lines: Seq<String>) -> Seq<Seq<char>> {
    lines.map_values(|line: String| line@)
}

/// The events of several output lines, in the order of the lines.
pub fn lines_events(lines: &Vec<String>) -> (r: Vec<JobEvent>)
    ensures
        events_view(r@) == lines_events_view(lines_text(lines@)),
{
    let mut events: Vec<JobEvent> = Vec::new();
    let mut i: usize = 0;
    while i < lines.len()
        invariant
            i <= lines@.len(),
            events_view(events@) == lines_events_view(lines_text(lines@).take(i as int)),
        decreases lines@.len() - i,
    {
        let ghost before = events@;
        let mut line_evs = line_events(lines[i].as_str());
        let ghost added = line_evs@;
        events.append(&mut line_evs);
        proof {
            let t = lines_text(lines@);
            assert(t.take(i + 1).drop_last() =~= t.take(i as int));
            assert(t.take(i + 1).last() == lines@[i as int]@);
            assert(events_view(before + added) =~= events_view(before) + events_view(added));
        }
        i = i + 1;
    }
    proof {
        assert(lines_text(lines@).take(lines@.len() as int) =~= lines_text(lines@));
    }
    events
}

/// An event after which nothing more is reported for the run.
pub open spec fn is_final_event(event: JobEventView) -> bool {
    event is Finished || event is Failed || event is Cancelled
}

/// What the runner reports when a look at the process ends the run: after
/// an exit, the events of the output lines still buffered, then the exit's
/// event; after a failed wait, the failure; after a cancel request,
/// `Cancelled`. While the process runs, nothing.
pub open spec fn closing_events_view(late: Seq<Seq<char>>, action: RunnerActionView) -> Seq<JobEventView> {
    match action {
        RunnerActionView::Sleep => Seq::empty(),
        RunnerActionView::Cancel => seq![JobEventView::Cancelled],
        RunnerActionView::Finish(event) => lines_events_view(late) + seq![event],
        RunnerActionView::Abort(event) => seq![event],
    }
}

/// The events that close a run after `action`, given the output lines that
/// were still buffered when the process exited.
pub fn closing_events(late_lines: &Vec<String>, action: RunnerAction) -> (r: Vec<JobEvent>)
    ensures
        events_view(r@) == closing_events_view(lines_text(late_lines@), action@),
{
    match action {
        RunnerAction::Sleep => Vec::new(),
        RunnerAction::Cancel => {
            let mut events: Vec<JobEvent> = Vec::new();
            events.push(JobEvent::Cancelled);
            assert(events_view(events@) =~= seq![JobEventView::Cancelled]);
            events
        },
        RunnerAction::Finish(event) => {
            let mut events = lines_events(late_lines);
            let ghost before = events@;
            events.push(event);
            assert(events_view(events@) =~= events_view(before) + seq![event@]);
            events
        },
        RunnerAction::Abort(event) => {
            let mut events: Vec<JobEvent> = Vec::new();
            events.push(event);
            assert(events_view(events@) =~= seq![event@]);
            events
        },
    }
}

/// Output lines only ever give log and stage events.
pub proof fn lemma_lines_never_final(lines: Seq<Seq<char>>)
    ensures
        forall|i: int|
            0 <= i < lines_events_view(lines).len() ==> !is_final_event(
                #[trigger] lines_events_view(lines)[i],
            ),
    decreases lines.len(),
{
    if lines.len() > 0 {
        lemma_lines_never_final(lines.drop_last());
        let a = lines_events_view(lines.drop_last());
        let b = line_events_view(lines.last());
        assert forall|i: int| 0 <= i < (a + b).len() implies !is_final_event(#[trigger] (a + b)[i]) by {
            if i >= a.len() {
                assert((a + b)[i] == b[i - a.len()]);
            }
        }
    }
}

/// A run ends with exactly one final event, reported after every output
/// line's events; while the process runs nothing final is reported.
pub proof fn lemma_run_ends_once(late: Seq<Seq<char>>, observation: ProcessObservation)
    ensures
        action_for(observation) is Sleep ==> closing_events_view(late, action_for(observation)).len()
            == 0,
        !(action_for(observation) is Sleep) ==> {
            let events = closing_events_view(late, action_for(observation));
            &&& events.len() >= 1
            &&& is_final_event(events.last())
            &&& forall|i: int| 0 <= i < events.len() - 1 ==> !is_final_event(#[trigger] events[i])
        },
{
    lemma_lines_never_final(late);
    let events = closing_events_view(late, action_for(observation));
    if action_for(observation) is Finish {
        let a = lines_events_view(late);
        assert forall|i: int| 0 <= i < events.len() - 1 implies !is_final_event(#[trigger] events[i]) by {
            assert(events[i] == a[i]);
        }
    }
}

/// Whether a new job may start: not while one is running.
pub fn start_permission(already_running: bool) -> (r: Result<(), String>)
    ensures
        r is Ok <==> !already_running,
        r matches Err(message) ==> message@ == "A reconstruction job is already running"@,
{
    if already_running {
        Err(String::from_str("A reconstruction job is already running"))
    } else {
        Ok(())
    }
}

/// A run ends only on cancellation, on exit or on a failed wait, and a
/// successful exit is never reported as a failure.
pub proof fn lemma_runner_outcomes(observation: ProcessObservation)
    ensures
        observation is CancelRequested <==> action_for(observation) is Cancel,
        observation is StillRunning <==> action_for(observation) is Sleep,
        forall|code: Option<i32>|
            #![trigger reported_code(code)]
            observation == (ProcessObservation::Exited { success: true, code }) ==> action_for(
                observation,
            ) == RunnerActionView::Finish(JobEventView::Finished(reported_code(code))),
{
}

/// A structured line always reports its stage first: the stage it names,
/// or `working` when it names none as a string, with its `progress`
/// number. Its `message`, when it is a string, is always reported next,
/// whether or not the line names a stage; otherwise nothing follows.
pub proof fn lemma_structured_events_report_message(value: Value)
    ensures
        structured_events(value).len() >= 1,
        structured_events(value)[0] == JobEventView::Stage(
            match str_member(value, "stage"@) {
                Some(s) => s,
                None => "working"@,
            },
            number_member(value, "progress"@),
        ),
        (match str_member(value, "message"@) {
            Some(m) => structured_events(value).len() == 2 && structured_events(value)[1]
                == JobEventView::Log(m),
            None => structured_events(value).len() == 1,
        }),
        str_member(value, "stage"@) is None ==> structured_events(value)[0] == JobEventView::Stage(
            "working"@,
            number_member(value, "progress"@),
        ),
{
}

/// The events of a list of lines are those of its first part followed by
/// those of the rest: every line is reported, in order, repeated lines too.
pub proof fn lemma_lines_events_concat(a: Seq<Seq<char>>, b: Seq<Seq<char>>)
    ensures
        lines_events_view(a + b) == lines_events_view(a) + lines_events_view(b),
    decreases b.len(),
{
    if b.len() == 0 {
        assert(a + b =~= a);
        assert(lines_events_view(a) + lines_events_view(b) =~= lines_events_view(a));
    } else {
        lemma_lines_events_concat(a, b.drop_last());
        assert((a + b).drop_last() =~= a + b.drop_last());
        assert((a + b).last() == b.last());
        assert(lines_events_view(a + b) =~= lines_events_view(a) + lines_events_view(b));
    }
}

/// Adding one more line adds exactly that line's events at the end, and
/// each line gives one or two events.
pub proof fn lemma_lines_events_push(lines: Seq<Seq<char>>, line: Seq<char>)
    ensures
        lines_events_view(lines.push(line)) == lines_events_view(lines) + line_events_view(line),
        lines_events_view(lines).len() + 1 <= lines_events_view(lines.push(line)).len()
            <= lines_events_view(lines).len() + 2,
        lines.len() <= lines_events_view(lines).len() <= 2 * lines.len(),
    decreases lines.len(),
{
    assert(lines.push(line).drop_last() =~= lines);
    lemma_line_events_shape(line);
    if lines.len() > 0 {
        lemma_lines_events_push(lines.drop_last(), lines.last());
        assert(lines.drop_last().push(lines.last()) =~= lines);
    }
}

/// When the process has exited, successfully or not, the run closes with
/// the events of every line still buffered, in order, followed by exactly
/// one event: `Finished` with the exit code after a successful exit, and
/// the failure naming the exit code after an unsuccessful one.
pub proof fn lemma_exit_reports_buffered_lines(late: Seq<Seq<char>>, success: bool, code: Option<i32>)
    ensures
        ({
            let events = closing_events_view(
                late,
                action_for(ProcessObservation::Exited { success, code }),
            );
            &&& events.len() == lines_events_view(late).len() + 1
            &&& events.subrange(0, events.len() - 1) == lines_events_view(late)
            &&& success ==> events.last() == JobEventView::Finished(reported_code(code))
            &&& !success ==> events.last() == JobEventView::Failed(
                "Pipeline exited with code "@ + signed_decimal(reported_code(code) as int),
            )
        }),
{
    let events = closing_events_view(late, action_for(ProcessObservation::Exited { success, code }));
    assert(events.subrange(0, events.len() - 1) =~= lines_events_view(late));
}

/// An unsuccessful exit is always reported as a failure naming its exit
/// code (or -1), never as a finish; a successful one always as a finish
/// with its code.
pub proof fn lemma_exit_outcome(success: bool, code: Option<i32>)
    ensures
        !success ==> action_for(ProcessObservation::Exited { success, code })
            == RunnerActionView::Finish(
            JobEventView::Failed(
                "Pipeline exited with code "@ + signed_decimal(reported_code(code) as int),
            ),
        ),
        !success ==> !(action_for(ProcessObservation::Exited { success, code })
            matches RunnerActionView::Finish(JobEventView::Finished(_))),
        success ==> action_for(ProcessObservation::Exited { success, code })
            == RunnerActionView::Finish(JobEventView::Finished(reported_code(code))),
        code matches Some(c) ==> reported_code(code) == c,
        code is None ==> reported_code(code) == -1,
{
}

/// A failed wait aborts the run with a failure that carries the reason.
pub proof fn lemma_wait_failure_reported(reason: String)
    ensures
        action_for(ProcessObservation::WaitFailed(reason)) == RunnerActionView::Abort(
            JobEventView::Failed("Failed while waiting for pipeline: "@ + reason@),
        ),
{
}

} // verus!
