//! The script worker: what it hands to a script, and what it makes of what
//! the script hands back.
//!
//! Running a script is the caller's work: a script may read what is on disk,
//! may wait, and may never end. The worker here takes the run as a function
//! from a [`ScriptCall`] to an [`Evaluation`]. It fixes the call, and it turns
//! the evaluation into a payload, a "keep" or an error.
use vstd::prelude::*;
use vstd::utf8::encode_utf8;
use crate::hooks::chain::{verdict_of, Verdict};
use crate::hooks::types::{Direction, HookRequest, HookResponse};
use crate::hooks::TriggerOutput;
use crate::text::{chars_of, string_of};
use self::error::{Error, ErrorModel, Result};

pub mod error;

verus! {

/// One script to run on one payload.
#[derive(Debug)]
pub struct ExecRequest {
    pub script: String,
    pub direction: Direction,
    pub target_name: String,
    pub data: Vec<u8>,
}

/// What a script made of a payload: the bytes that replace it, or `None` when
/// the payload stays as it is.
#[derive(Debug)]
pub struct ExecResponse {
    pub data: Option<Vec<u8>>,
}

impl Default for ExecResponse {
    fn default() -> (r: ExecResponse)
        ensures
            r.data is None,
    {
        ExecResponse { data: None }
    }
}

impl View for ExecResponse {
    type V = Option<Seq<u8>>;

    open spec fn view(&self) -> Option<Seq<u8>> {
        match self.data {
            Some(bytes) => Some(bytes@),
            None => None,
        }
    }
}

/// What a variable of a script holds.
#[derive(Debug)]
pub enum Value {
    Direction(Direction),
    Text(String),
    Blob(Vec<u8>),
}

/// What a [`Value`] is in contracts.
pub enum ValueModel {
    Direction(Direction),
    Text(Seq<char>),
    Blob(Seq<u8>),
}

impl View for Value {
    type V = ValueModel;

    open spec fn view(&self) -> ValueModel {
        match *self {
            Value::Direction(direction) => ValueModel::Direction(direction),
            Value::Text(text) => ValueModel::Text(text@),
            Value::Blob(bytes) => ValueModel::Blob(bytes@),
        }
    }
}

/// A variable that a script sees.
#[derive(Debug)]
pub struct Variable {
    pub name: String,
    pub value: Value,
}

/// What a [`Variable`] is in contracts.
pub struct VariableModel {
    pub name: Seq<char>,
    pub value: ValueModel,
}

impl View for Variable {
    type V = VariableModel;

    open spec fn view(&self) -> VariableModel {
        VariableModel { name: self.name@, value: self.value@ }
    }
}

/// A script together with the variables that it is run with, in the order
/// in which they are defined.
#[derive(Debug)]
pub struct ScriptCall {
    pub script: String,
    pub scope: Vec<Variable>,
}

/// What a [`ScriptCall`] is in contracts.
pub struct CallModel {
    pub script: Seq<char>,
    pub scope: Seq<VariableModel>,
}

impl View for ScriptCall {
    type V = CallModel;

    open spec fn view(&self) -> CallModel {
        CallModel {
            script: self.script@,
            scope: Seq::new(self.scope@.len(), |i: int| self.scope@[i]@),
        }
    }
}

/// What a script handed back, as plain values.
#[derive(Debug)]
pub enum ScriptValue {
    /// A blob: its bytes.
    Blob(Vec<u8>),
    /// An array: for each element its integer, or `None` where the element
    /// is no integer.
    Array(Vec<Option<i64>>),
    /// A string.
    Text(String),
    /// The unit value.
    Unit,
    /// Any other value, as the script language prints it.
    Other(String),
}

/// A script's run: the value it handed back, or the engine's error message.
pub type Evaluation = std::result::Result<ScriptValue, String>;

/// The worker around the function that runs a script.
pub struct Worker<R> {
    pub run: R,
}

/// What the variable `trigger` holds in a script: who sent the payload.
pub open spec fn trigger_text(direction: Direction) -> Seq<char> {
    if direction == Direction::ClientToTarget {
        "client"@
    } else {
        "target"@
    }
}

/// What the variable `trigger` holds in a script: who sent the payload.
pub fn trigger_name(direction: Direction) -> (name: &'static str)
    ensures
        name@ == trigger_text(direction),
{
    if direction.from_client() {
        "client"
    } else {
        "target"
    }
}

/// The call that runs `script` on the payload `data` that travels in
/// `direction` to or from `target`. The script sees four variables:
/// `direction`, `trigger`, `target` and `data`.
pub open spec fn call_for(
    script: Seq<char>,
    direction: Direction,
    target: Seq<char>,
    data: Seq<u8>,
) -> CallModel {
    CallModel {
        script,
        scope: seq![
            VariableModel { name: "direction"@, value: ValueModel::Direction(direction) },
            VariableModel { name: "trigger"@, value: ValueModel::Text(trigger_text(direction)) },
            VariableModel { name: "target"@, value: ValueModel::Text(target) },
            VariableModel { name: "data"@, value: ValueModel::Blob(data) },
        ],
    }
}

/// The call of a request, in contracts.
pub open spec fn call_of(request: ExecRequest) -> CallModel {
    call_for(request.script@, request.direction, request.target_name@, request.data@)
}

/// What is handed to the script's run for `request`: the script as it is,
/// and the payload's direction, its sender, the target's name and the
/// payload's bytes as the script's variables.
pub fn script_call(request: ExecRequest) -> (call: ScriptCall)
    ensures
        call@ == call_of(request),
{
    let mut scope: Vec<Variable> = Vec::new();
    scope.push(
        Variable { name: String::from_str("direction"), value: Value::Direction(request.direction) },
    );
    scope.push(
        Variable {
            name: String::from_str("trigger"),
            value: Value::Text(String::from_str(trigger_name(request.direction))),
        },
    );
    scope.push(
        Variable { name: String::from_str("target"), value: Value::Text(request.target_name) },
    );
    scope.push(Variable { name: String::from_str("data"), value: Value::Blob(request.data) });
    let call = ScriptCall { script: request.script, scope };
    assert(call@.scope =~= call_of(request).scope);
    call
}

/// True when every element of an array is an integer.
pub open spec fn all_integers(items: Seq<Option<i64>>) -> bool {
    forall|i: int| 0 <= i < items.len() ==> items[i] is Some
}

/// The bytes that an array of integers stands for: of each integer its
/// lowest eight bits.
pub open spec fn low_bytes(items: Seq<Option<i64>>) -> Seq<u8> {
    Seq::new(items.len(), |i: int| items[i]->0 as u8)
}

/// The text that precedes a value that is no payload.
pub open spec fn invalid_value_prefix() -> Seq<char> {
    "Script returned an invalid value: "@
}

/// The cause that is reported for an array with an element that is no
/// integer.
pub open spec fn bad_array_cause() -> Seq<char> {
    "Script returned an array with an element that is not an integer"@
}

/// What the worker answers for a script's run on a payload for `target`.
pub open spec fn answer(target: Seq<char>, evaluation: Evaluation) -> std::result::Result<
    Option<Seq<u8>>,
    ErrorModel,
> {
    match evaluation {
        Err(message) => Err(ErrorModel::ScriptError { target, cause: message@ }),
        Ok(ScriptValue::Blob(bytes)) => Ok(Some(bytes@)),
        Ok(ScriptValue::Array(items)) => if all_integers(items@) {
            Ok(Some(low_bytes(items@)))
        } else {
            Err(ErrorModel::ScriptError { target, cause: bad_array_cause() })
        },
        Ok(ScriptValue::Text(text)) => Ok(Some(encode_utf8(text@))),
        Ok(ScriptValue::Unit) => Ok(None),
        Ok(ScriptValue::Other(shown)) => Err(
            ErrorModel::ScriptError { target, cause: invalid_value_prefix() + shown@ },
        ),
    }
}

/// What a response of the worker is in contracts.
pub open spec fn answer_of(response: Result<ExecResponse>) -> std::result::Result<
    Option<Seq<u8>>,
    ErrorModel,
> {
    match response {
        Ok(r) => Ok(r@),
        Err(e) => Err(e@),
    }
}

/// True when every element of `items` is an integer.
pub fn holds_integers(items: &Vec<Option<i64>>) -> (all: bool)
    ensures
        all == all_integers(items@),
{
    let mut i: usize = 0;
    while i < items.len()
        invariant
            i <= items.len(),
            forall|k: int| 0 <= k < i ==> items@[k] is Some,
        decreases items.len() - i,
    {
        if items[i].is_none() {
            return false;
        }
        i += 1;
    }
    true
}

/// Turns a script's run into the worker's answer.
///
/// The engine's error becomes a script error for `target_name`. A blob is
/// the new payload as it is, an array of integers gives one byte for each
/// integer (its lowest eight bits), a string gives its UTF-8 bytes, and the
/// unit value keeps the payload. An array with an element that is no integer
/// and any other value are script errors; the latter shows the value.
pub fn respond(target_name: String, evaluation: Evaluation) -> (response: Result<ExecResponse>)
    ensures
        answer_of(response) == answer(target_name@, evaluation),
{
    match evaluation {
        Err(message) => Err(Error::ScriptError { target: target_name, cause: message }),
        Ok(ScriptValue::Blob(bytes)) => Ok(ExecResponse { data: Some(bytes) }),
        Ok(ScriptValue::Array(items)) => {
            if !holds_integers(&items) {
                return Err(
                    Error::ScriptError {
                        target: target_name,
                        cause: String::from_str(
                            "Script returned an array with an element that is not an integer",
                        ),
                    },
                );
            }
            let mut bytes: Vec<u8> = Vec::new();
            let mut i: usize = 0;
            while i < items.len()
                invariant
                    i <= items.len(),
                    all_integers(items@),
                    bytes@ == Seq::new(i as nat, |k: int| items@[k]->0 as u8),
                decreases items.len() - i,
            {
                let item: i64 = match items[i] {
                    Some(n) => n,
                    None => 0,
                };
                bytes.push(#[verifier::truncate] (item as u8));
                i += 1;
            }
            Ok(ExecResponse { data: Some(bytes) })
        },
        Ok(ScriptValue::Text(text)) => {
            let bytes = text.as_str().as_bytes_vec();
            Ok(ExecResponse { data: Some(bytes) })
        },
        Ok(ScriptValue::Unit) => Ok(ExecResponse { data: None }),
        Ok(ScriptValue::Other(shown)) => {
            let mut cause = chars_of("Script returned an invalid value: ");
            let mut rest = chars_of(shown.as_str());
            cause.append(&mut rest);
            Err(Error::ScriptError { target: target_name, cause: string_of(cause) })
        },
    }
}

/// The verdict of a hook whose script was answered with `answer`.
pub open spec fn as_verdict(
    answer: std::result::Result<Option<Seq<u8>>, ErrorModel>,
) -> Verdict {
    match answer {
        Ok(Some(bytes)) => Verdict::Replace(bytes),
        Ok(None) => Verdict::Keep,
        Err(ErrorModel::ScriptError { target, cause }) => Verdict::Fail(
            crate::error::ErrorModel::ScriptError { target, cause },
        ),
        Err(ErrorModel::UnexpectedError(message)) => Verdict::Fail(
            crate::error::ErrorModel::UnexpectedError(message),
        ),
    }
}

/// Turns the worker's answer into a hook trigger's output: new bytes replace
/// the payload, no bytes keep it, and the worker's error rejects it.
pub fn trigger_output(response: Result<ExecResponse>) -> (out: TriggerOutput)
    ensures
        verdict_of(out) == as_verdict(answer_of(response)),
{
    match response {
        Ok(response) => match response.data {
            Some(bytes) => Ok(Some(HookResponse::new(bytes))),
            None => Ok(None),
        },
        Err(Error::ScriptError { target, cause }) => Err(
            crate::error::Error::ScriptError { target, cause },
        ),
        Err(Error::UnexpectedError(message)) => Err(crate::error::Error::UnexpectedError(message)),
    }
}

/// True when `run` can hand back `evaluation` for a call equal to `call`.
pub open spec fn may_evaluate<R: Fn(ScriptCall) -> Evaluation>(
    run: R,
    call: CallModel,
    evaluation: Evaluation,
) -> bool {
    exists|c: ScriptCall| c@ == call && call_ensures(run, (c,), evaluation)
}

/// True when `answer` is what the worker makes of some run of `call` for a
/// payload for `target`.
pub open spec fn answered<R: Fn(ScriptCall) -> Evaluation>(
    run: R,
    call: CallModel,
    target: Seq<char>,
    answer: std::result::Result<Option<Seq<u8>>, ErrorModel>,
) -> bool {
    exists|evaluation: Evaluation|
        may_evaluate(run, call, evaluation) && answer == #[trigger] self::answer(
            target,
            evaluation,
        )
}

/// Runs the request's script on its payload: hands [`script_call`]'s call to
/// the worker's run, once, and answers as [`respond`] does for what came
/// back.
pub fn exec<R: Fn(ScriptCall) -> Evaluation>(worker: &Worker<R>, request: ExecRequest) -> (response:
    Result<ExecResponse>)
    requires
        forall|c: ScriptCall| #[trigger] call_requires(worker.run, (c,)),
    ensures
        answered(worker.run, call_of(request), request.target_name@, answer_of(response)),
{
    let target = request.target_name.clone();
    let call = script_call(request);
    let evaluation = (worker.run)(call);
    assert(may_evaluate(worker.run, call_of(request), evaluation));
    respond(target, evaluation)
}

/// Runs every request in order and collects the answers: answer `i` is the
/// worker's answer to request `i`.
pub fn exec_worker<R: Fn(ScriptCall) -> Evaluation>(
    worker: &Worker<R>,
    requests: Vec<ExecRequest>,
) -> (responses: Vec<Result<ExecResponse>>)
    requires
        forall|c: ScriptCall| #[trigger] call_requires(worker.run, (c,)),
    ensures
        responses@.len() == requests@.len(),
        forall|i: int|
            0 <= i < requests@.len() ==> answered(
                worker.run,
                call_of(requests@[i]),
                requests@[i].target_name@,
                answer_of(#[trigger] responses@[i]),
            ),
{
    let mut responses: Vec<Result<ExecResponse>> = Vec::new();
    let mut rest = requests;
    let ghost all = rest@;
    let mut i: usize = 0;
    let n = rest.len();
    while i < n
        invariant
            0 <= i <= n,
            n == all.len(),
            rest@ == all.subrange(i as int, n as int),
            responses@.len() == i,
            forall|c: ScriptCall| #[trigger] call_requires(worker.run, (c,)),
            forall|k: int|
                0 <= k < i ==> answered(
                    worker.run,
                    call_of(all[k]),
                    all[k].target_name@,
                    answer_of(#[trigger] responses@[k]),
                ),
        decreases n - i,
    {
        let request = rest.remove(0);
        let response = exec(worker, request);
        responses.push(response);
        i += 1;
    }
    responses
}

/// A hook's trigger that runs `script`: the hook request becomes a request to
/// the worker, and the worker's answer becomes the trigger's output as
/// [`trigger_output`] says.
pub fn script_trigger<R: Fn(ScriptCall) -> Evaluation>(
    worker: &Worker<R>,
    script: &str,
    request: HookRequest,
) -> (out: TriggerOutput)
    requires
        forall|c: ScriptCall| #[trigger] call_requires(worker.run, (c,)),
    ensures
        exists|answer: std::result::Result<Option<Seq<u8>>, ErrorModel>|
            answered(
                worker.run,
                call_for(script@, request.direction, request.target_name@, request.data@),
                request.target_name@,
                answer,
            ) && verdict_of(out) == #[trigger] as_verdict(answer),
{
    let exec_request = ExecRequest {
        script: String::from_str(script),
        direction: request.direction,
        target_name: request.target_name,
        data: request.data,
    };
    let response = exec(worker, exec_request);
    let out = trigger_output(response);
    assert(verdict_of(out) == as_verdict(answer_of(response)));
    out
}

} // verus!
