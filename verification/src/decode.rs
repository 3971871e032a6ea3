//! Decoding of inbound request payloads.  serde_json parses the payload;
//! its results are captured by two named spec functions — the document a
//! payload parses to (`json_doc`) and the text it fails with
//! (`json_parse_error`) — and by a model of what a parsed value holds
//! (`value_model`).  Everything after the parse — which shapes are accepted,
//! which member produces which error, how a request is assembled — is
//! verified logic whose contracts are exact over those names.

use vstd::prelude::*;
use vstd::string::StringExecFns;

use crate::messages::CloseRequest;
use crate::messages::CommandConfig;
use crate::messages::CommandConfigV;
use crate::messages::OpenRequest;
use crate::messages::ToggleRequest;

verus! {

/// A parsed JSON document.  Numbers and booleans are not told apart further:
/// the request grammar never reads one, it only needs to see that a member
/// is not text, not an array of text, and not null.
pub enum JsonV {
    Null,
    Bool(bool),
    Number,
    Text(Seq<char>),
    Array(Seq<JsonV>),
    Object(Map<Seq<char>, JsonV>),
}

/// The document a payload parses to, or `None` when it is not JSON.
/// serde_json's verdict depends on the payload alone.
pub uninterp spec fn json_doc(payload: Seq<char>) -> Option<JsonV>;

/// The rendered parse failure for a payload that is not JSON; the detail
/// behind `invalid json: ...` responses.
pub uninterp spec fn json_parse_error(payload: Seq<char>) -> Seq<char>;

/// The document a parsed `serde_json::Value` holds.
pub uninterp spec fn value_model(value: serde_json::Value) -> JsonV;

#[verifier::external_type_specification]
#[verifier::external_body]
pub struct ExJsonValue(serde_json::Value);

/// Relies on serde_json::from_str::<serde_json::Value> and on
/// serde_json::Error's Display impl: parses the payload as a JSON document,
/// or renders why it is not one.
#[verifier::external_body]
fn parse_json_value(payload: &str) -> (r: Result<serde_json::Value, String>)
    ensures
        r is Ok <==> json_doc(payload@) is Some,
        r matches Ok(value) ==> json_doc(payload@) == Option::Some(value_model(value)),
        r matches Err(detail) ==> detail@ == json_parse_error(payload@),
{
    serde_json::from_str::<serde_json::Value>(payload).map_err(|error| error.to_string())
}

/// Relies on serde_json::Value::get with a string index: the member of a
/// JSON object under this key, None when the key is absent or the value is
/// not an object.
#[verifier::external_body]
fn json_get<'a>(value: &'a serde_json::Value, key: &str) -> (r: Option<&'a serde_json::Value>)
    ensures
        match value_model(*value) {
            JsonV::Object(members) => {
                &&& (r is Some <==> members.contains_key(key@))
                &&& (r matches Some(member) ==> members.contains_key(key@) && value_model(*member)
                    == members[key@])
            },
            _ => r is None,
        },
{
    value.get(key)
}

/// Relies on serde_json::Value::as_str: the contained text exactly when the
/// value is a JSON string.
#[verifier::external_body]
fn json_as_str(value: &serde_json::Value) -> (r: Option<String>)
    ensures
        r is Some <==> value_model(*value) is Text,
        r matches Some(text) ==> value_model(*value) == JsonV::Text(text@),
{
    value.as_str().map(|s| s.to_string())
}

/// Relies on serde_json::Value::as_array: the contained elements exactly
/// when the value is a JSON array.
#[verifier::external_body]
fn json_as_array<'a>(value: &'a serde_json::Value) -> (r: Option<&'a Vec<serde_json::Value>>)
    ensures
        r is Some <==> value_model(*value) is Array,
        r matches Some(items) ==> value_model(*value) matches JsonV::Array(elements)
            && elements.len() == items@.len() && (forall|i: int|
            0 <= i < items@.len() ==> value_model(items@[i]) == elements[i]),
{
    value.as_array()
}

/// Relies on serde_json::Value::is_null: whether the value is JSON null.
#[verifier::external_body]
fn json_is_null(value: &serde_json::Value) -> (r: bool)
    ensures
        r == (value_model(*value) is Null),
{
    value.is_null()
}

/// The shape of one member of the request object, reduced to what the
/// request grammar distinguishes.
pub enum JsonField {
    /// The key is absent (or the payload is not an object).
    Absent,
    /// The member is JSON null.
    Null,
    /// The member is a JSON string.
    Text(String),
    /// The member is a JSON array of strings.
    TextList(Vec<String>),
    /// The member is of any other JSON shape.
    Other,
}

pub enum JsonFieldV {
    Absent,
    Null,
    Text(Seq<char>),
    TextList(Seq<Seq<char>>),
    Other,
}

impl View for JsonField {
    type V = JsonFieldV;

    open spec fn view(&self) -> JsonFieldV {
        match self {
            JsonField::Absent => JsonFieldV::Absent,
            JsonField::Null => JsonFieldV::Null,
            JsonField::Text(text) => JsonFieldV::Text(text@),
            JsonField::TextList(items) => JsonFieldV::TextList(items.deep_view()),
            JsonField::Other => JsonFieldV::Other,
        }
    }
}

pub open spec fn spec_all_text(elements: Seq<JsonV>) -> bool {
    forall|i: int| 0 <= i < elements.len() ==> elements[i] is Text
}

pub open spec fn spec_texts_of(elements: Seq<JsonV>) -> Seq<Seq<char>> {
    elements.map_values(|element: JsonV| element->Text_0)
}

/// The shape of one document member, as the request grammar sees it.
pub open spec fn spec_classify(member: Option<JsonV>) -> JsonFieldV {
    match member {
        Option::None => JsonFieldV::Absent,
        Option::Some(document) => match document {
            JsonV::Null => JsonFieldV::Null,
            JsonV::Text(text) => JsonFieldV::Text(text),
            JsonV::Array(elements) => if spec_all_text(elements) {
                JsonFieldV::TextList(spec_texts_of(elements))
            } else {
                JsonFieldV::Other
            },
            _ => JsonFieldV::Other,
        },
    }
}

/// The member of a document under `key`: present only when the document is
/// an object that carries the key.
pub open spec fn spec_member(document: JsonV, key: Seq<char>) -> Option<JsonV> {
    match document {
        JsonV::Object(members) => if members.contains_key(key) {
            Option::Some(members[key])
        } else {
            Option::None
        },
        _ => Option::None,
    }
}

pub open spec fn opt_value_model(field: Option<&serde_json::Value>) -> Option<JsonV> {
    match field {
        Option::None => Option::None,
        Option::Some(value) => Option::Some(value_model(*value)),
    }
}

/// Reduce one member of the parsed document to its `JsonField` shape,
/// exactly as `spec_classify` describes it.
fn classify_field(field: Option<&serde_json::Value>) -> (r: JsonField)
    ensures
        r@ == spec_classify(opt_value_model(field)),
{
    let value = match field {
        Option::None => {
            return JsonField::Absent;
        },
        Option::Some(value) => value,
    };
    if json_is_null(value) {
        return JsonField::Null;
    }
    if let Option::Some(text) = json_as_str(value) {
        return JsonField::Text(text);
    }
    let items = match json_as_array(value) {
        Option::None => {
            return JsonField::Other;
        },
        Option::Some(items) => items,
    };
    let ghost elements = value_model(*value)->Array_0;
    let mut texts: Vec<String> = Vec::new();
    let mut i: usize = 0;
    while i < items.len()
        invariant
            i <= items.len(),
            opt_value_model(field) == Option::Some(value_model(*value)),
            elements == value_model(*value)->Array_0,
            value_model(*value) is Array,
            elements.len() == items@.len(),
            forall|j: int| 0 <= j < items@.len() ==> value_model(items@[j]) == elements[j],
            texts@.len() == i,
            forall|j: int| 0 <= j < i ==> elements[j] is Text && texts@[j]@ == elements[j]->Text_0,
        decreases items.len() - i,
    {
        match json_as_str(&items[i]) {
            Option::None => {
                proof {
                    assert(!(elements[i as int] is Text));
                    assert(!spec_all_text(elements));
                }
                return JsonField::Other;
            },
            Option::Some(text) => texts.push(text),
        }
        i = i + 1;
    }
    proof {
        assert(texts.deep_view() =~= spec_texts_of(elements));
    }
    JsonField::TextList(texts)
}

/// The request grammar's verdict on the mandatory `pane_id` member.
pub open spec fn spec_pane_id_from_field(pane_id: JsonFieldV) -> Result<Seq<char>, Seq<char>> {
    match pane_id {
        JsonFieldV::Absent => Result::Err("missing field pane_id"@),
        JsonFieldV::Text(text) => Result::Ok(text),
        _ => Result::Err("pane_id is not a string"@),
    }
}

/// The request grammar's verdict on the members of an open or toggle
/// request: `pane_id` and `cmd` must be strings, `args` defaults to an empty
/// list and must otherwise be an array of strings, `cwd` defaults to absent
/// and must otherwise be a string (null counts as absent).  The first
/// offending member, in that order, decides the error.
pub open spec fn spec_command_request_from_fields(
    pane_id: JsonFieldV,
    cmd: JsonFieldV,
    args: JsonFieldV,
    cwd: JsonFieldV,
) -> Result<(Seq<char>, CommandConfigV), Seq<char>> {
    match spec_pane_id_from_field(pane_id) {
        Result::Err(message) => Result::Err(message),
        Result::Ok(pane_id_text) => {
            let cmd_text = match cmd {
                JsonFieldV::Absent => { Result::Err("missing field cmd"@) },
                JsonFieldV::Text(text) => Result::Ok(text),
                _ => Result::Err("cmd is not a string"@),
            };
            match cmd_text {
                Result::Err(message) => Result::Err(message),
                Result::Ok(cmd_text) => {
                    let args_list = match args {
                        JsonFieldV::Absent => Result::Ok(Seq::<Seq<char>>::empty()),
                        JsonFieldV::TextList(items) => Result::Ok(items),
                        _ => Result::Err("args is not an array of strings"@),
                    };
                    match args_list {
                        Result::Err(message) => Result::Err(message),
                        Result::Ok(args_list) => {
                            match cwd {
                                JsonFieldV::Absent => Result::Ok(
                                    (
                                        pane_id_text,
                                        CommandConfigV {
                                            cmd: cmd_text,
                                            args: args_list,
                                            cwd: Option::None,
                                        },
                                    ),
                                ),
                                JsonFieldV::Null => Result::Ok(
                                    (
                                        pane_id_text,
                                        CommandConfigV {
                                            cmd: cmd_text,
                                            args: args_list,
                                            cwd: Option::None,
                                        },
                                    ),
                                ),
                                JsonFieldV::Text(cwd_text) => Result::Ok(
                                    (
                                        pane_id_text,
                                        CommandConfigV {
                                            cmd: cmd_text,
                                            args: args_list,
                                            cwd: Option::Some(cwd_text),
                                        },
                                    ),
                                ),
                                _ => Result::Err("cwd is not a string"@),
                            }
                        },
                    }
                },
            }
        },
    }
}

/// What decoding an open or toggle payload returns: the parse failure's
/// rendered detail when the payload is not JSON, else the grammar's verdict
/// on the document's four members.
pub open spec fn spec_decode_command_request(payload: Seq<char>) -> Result<
    (Seq<char>, CommandConfigV),
    Seq<char>,
> {
    match json_doc(payload) {
        Option::None => Result::Err(json_parse_error(payload)),
        Option::Some(document) => spec_command_request_from_fields(
            spec_classify(spec_member(document, "pane_id"@)),
            spec_classify(spec_member(document, "cmd"@)),
            spec_classify(spec_member(document, "args"@)),
            spec_classify(spec_member(document, "cwd"@)),
        ),
    }
}

/// What decoding a close payload returns.
pub open spec fn spec_decode_close_request(payload: Seq<char>) -> Result<Seq<char>, Seq<char>> {
    match json_doc(payload) {
        Option::None => Result::Err(json_parse_error(payload)),
        Option::Some(document) => spec_pane_id_from_field(
            spec_classify(spec_member(document, "pane_id"@)),
        ),
    }
}

/// Assemble the mandatory `pane_id` member, exactly as
/// `spec_pane_id_from_field` decides.
pub fn pane_id_from_field(pane_id: JsonField) -> (r: Result<String, String>)
    ensures
        match r {
            Result::Ok(text) => spec_pane_id_from_field(pane_id@) == Result::<
                Seq<char>,
                Seq<char>,
            >::Ok(text@),
            Result::Err(message) => spec_pane_id_from_field(pane_id@) == Result::<
                Seq<char>,
                Seq<char>,
            >::Err(message@),
        },
{
    match pane_id {
        JsonField::Absent => Result::Err(String::from_str("missing field pane_id")),
        JsonField::Text(text) => Result::Ok(text),
        _ => Result::Err(String::from_str("pane_id is not a string")),
    }
}

/// Assemble an open or toggle request from its members, exactly as
/// `spec_command_request_from_fields` decides.
pub fn command_request_from_fields(
    pane_id: JsonField,
    cmd: JsonField,
    args: JsonField,
    cwd: JsonField,
) -> (r: Result<(String, CommandConfig), String>)
    ensures
        match r {
            Result::Ok(request) => spec_command_request_from_fields(
                pane_id@,
                cmd@,
                args@,
                cwd@,
            ) == Result::<(Seq<char>, CommandConfigV), Seq<char>>::Ok(
                (request.0@, request.1@),
            ),
            Result::Err(message) => spec_command_request_from_fields(
                pane_id@,
                cmd@,
                args@,
                cwd@,
            ) == Result::<(Seq<char>, CommandConfigV), Seq<char>>::Err(message@),
        },
{
    let pane_id_text = match pane_id_from_field(pane_id) {
        Result::Err(message) => {
            return Result::Err(message);
        },
        Result::Ok(text) => text,
    };
    let cmd_text = match cmd {
        JsonField::Absent => {
            return Result::Err(String::from_str("missing field cmd"));
        },
        JsonField::Text(text) => text,
        _ => {
            return Result::Err(String::from_str("cmd is not a string"));
        },
    };
    let args_list = match args {
        JsonField::Absent => {
            let empty_args: Vec<String> = Vec::new();
            proof {
                assert(empty_args.deep_view() =~= Seq::<Seq<char>>::empty());
            }
            empty_args
        },
        JsonField::TextList(items) => items,
        _ => {
            return Result::Err(String::from_str("args is not an array of strings"));
        },
    };
    let cwd_path = match cwd {
        JsonField::Absent => Option::None,
        JsonField::Null => Option::None,
        JsonField::Text(text) => Option::Some(text),
        _ => {
            return Result::Err(String::from_str("cwd is not a string"));
        },
    };
    Result::Ok((pane_id_text, CommandConfig { cmd: cmd_text, args: args_list, cwd: cwd_path }))
}

fn classify_member(value: &serde_json::Value, key: &str) -> (r: JsonField)
    ensures
        r@ == spec_classify(spec_member(value_model(*value), key@)),
{
    let field = json_get(value, key);
    proof {
        assert(opt_value_model(field) == spec_member(value_model(*value), key@));
    }
    classify_field(field)
}

/// Decode an open request: `{pane_id, cmd, args?, cwd?}`, exactly as
/// `spec_decode_command_request` decides on the payload.
pub fn decode_open(payload: &str) -> (r: Result<OpenRequest, String>)
    ensures
        match r {
            Result::Ok(request) => spec_decode_command_request(payload@) == Result::<
                (Seq<char>, CommandConfigV),
                Seq<char>,
            >::Ok((request.pane_id@, request.command@)),
            Result::Err(message) => spec_decode_command_request(payload@) == Result::<
                (Seq<char>, CommandConfigV),
                Seq<char>,
            >::Err(message@),
        },
{
    let value = match parse_json_value(payload) {
        Result::Err(detail) => {
            return Result::Err(detail);
        },
        Result::Ok(value) => value,
    };
    let pane_id = classify_member(&value, "pane_id");
    let cmd = classify_member(&value, "cmd");
    let args = classify_member(&value, "args");
    let cwd = classify_member(&value, "cwd");
    match command_request_from_fields(pane_id, cmd, args, cwd) {
        Result::Err(message) => Result::Err(message),
        Result::Ok(request) => Result::Ok(
            OpenRequest { pane_id: request.0, command: request.1 },
        ),
    }
}

/// Decode a toggle request, whose payload has the same shape as an open
/// request.
pub fn decode_toggle(payload: &str) -> (r: Result<ToggleRequest, String>)
    ensures
        match r {
            Result::Ok(request) => spec_decode_command_request(payload@) == Result::<
                (Seq<char>, CommandConfigV),
                Seq<char>,
            >::Ok((request.pane_id@, request.command@)),
            Result::Err(message) => spec_decode_command_request(payload@) == Result::<
                (Seq<char>, CommandConfigV),
                Seq<char>,
            >::Err(message@),
        },
{
    let value = match parse_json_value(payload) {
        Result::Err(detail) => {
            return Result::Err(detail);
        },
        Result::Ok(value) => value,
    };
    let pane_id = classify_member(&value, "pane_id");
    let cmd = classify_member(&value, "cmd");
    let args = classify_member(&value, "args");
    let cwd = classify_member(&value, "cwd");
    match command_request_from_fields(pane_id, cmd, args, cwd) {
        Result::Err(message) => Result::Err(message),
        Result::Ok(request) => Result::Ok(
            ToggleRequest { pane_id: request.0, command: request.1 },
        ),
    }
}

/// Decode a close request: `{pane_id}`, exactly as
/// `spec_decode_close_request` decides on the payload.
pub fn decode_close(payload: &str) -> (r: Result<CloseRequest, String>)
    ensures
        match r {
            Result::Ok(request) => spec_decode_close_request(payload@) == Result::<
                Seq<char>,
                Seq<char>,
            >::Ok(request.pane_id@),
            Result::Err(message) => spec_decode_close_request(payload@) == Result::<
                Seq<char>,
                Seq<char>,
            >::Err(message@),
        },
{
    let value = match parse_json_value(payload) {
        Result::Err(detail) => {
            return Result::Err(detail);
        },
        Result::Ok(value) => value,
    };
    let pane_id = classify_member(&value, "pane_id");
    match pane_id_from_field(pane_id) {
        Result::Err(message) => Result::Err(message),
        Result::Ok(text) => Result::Ok(CloseRequest { pane_id: text }),
    }
}

} // verus!
