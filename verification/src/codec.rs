//! The command protocol codec: decodes one line of text into a typed
//! command, and encodes a response as exactly one output line.
//!
//! A request line is a JSON object with an `action` discriminator:
//! `{"action":"show","content":...,"timer":...}` or `{"action":"hide"}`,
//! where `timer` is optional and defaults to false. A response line is
//! `{"status":...,"message":...}` with status `success` or `error`.

use vstd::prelude::*;
use vstd::string::StrSliceExecFns;
use vstd::string::StringExecFns;
use crate::json::{
    Field, FieldV, Json, JsonV, fields_view, get_field, json_object_fields, lookup_field,
    parse_object_fields,
};
use crate::text::{push_char, str_eq};

verus! {

/// One decoded client request.
#[derive(Debug, PartialEq, Clone)]
pub enum Command {
    Show { content: String, timer: bool },
    Hide,
}

/// The mathematical view of a command.
#[verifier::ext_equal]
pub enum CommandV {
    Show { content: Seq<char>, timer: bool },
    Hide,
}

impl View for Command {
    type V = CommandV;

    open spec fn view(&self) -> CommandV {
        match self {
            Command::Show { content, timer } => CommandV::Show { content: content@, timer: *timer },
            Command::Hide => CommandV::Hide,
        }
    }
}

/// Why a line failed to decode.
#[derive(Debug, PartialEq, Eq, Structural, Clone, Copy)]
pub enum DecodeError {
    /// The line is not valid JSON, or its document is not an object.
    NotObject,
    /// The object has no `action` field.
    MissingAction,
    /// The `action` field is not a string.
    BadAction,
    /// The `action` string is neither `show` nor `hide`.
    UnknownAction,
    /// A `show` request has no `content` field.
    MissingContent,
    /// The `content` field is not a string.
    BadContent,
    /// The `timer` field is not a boolean.
    BadTimer,
}

/// The human-readable description of a decode failure.
pub open spec fn decode_error_text(e: DecodeError) -> Seq<char> {
    match e {
        DecodeError::NotObject => "Invalid JSON command: the line is not a JSON object"@,
        DecodeError::MissingAction => "Invalid JSON command: missing field `action`"@,
        DecodeError::BadAction => "Invalid JSON command: field `action` must be a string"@,
        DecodeError::UnknownAction => "Invalid JSON command: unknown action, expected `show` or `hide`"@,
        DecodeError::MissingContent => "Invalid JSON command: missing field `content`"@,
        DecodeError::BadContent => "Invalid JSON command: field `content` must be a string"@,
        DecodeError::BadTimer => "Invalid JSON command: field `timer` must be a boolean"@,
    }
}

/// The description of a decode failure, as one text value.
pub fn decode_error_message(e: DecodeError) -> (r: String)
    ensures
        r@ == decode_error_text(e),
{
    match e {
        DecodeError::NotObject => String::from_str(
            "Invalid JSON command: the line is not a JSON object",
        ),
        DecodeError::MissingAction => String::from_str(
            "Invalid JSON command: missing field `action`",
        ),
        DecodeError::BadAction => String::from_str(
            "Invalid JSON command: field `action` must be a string",
        ),
        DecodeError::UnknownAction => String::from_str(
            "Invalid JSON command: unknown action, expected `show` or `hide`",
        ),
        DecodeError::MissingContent => String::from_str(
            "Invalid JSON command: missing field `content`",
        ),
        DecodeError::BadContent => String::from_str(
            "Invalid JSON command: field `content` must be a string",
        ),
        DecodeError::BadTimer => String::from_str(
            "Invalid JSON command: field `timer` must be a boolean",
        ),
    }
}

/// What a `show` request means, given the fields of its object: `content`
/// must be a string, and `timer`, when present, a boolean.
pub open spec fn decode_show_spec(fields: Seq<FieldV>) -> Result<CommandV, DecodeError> {
    match lookup_field(fields, "content"@) {
        Some(JsonV::Str(content)) => match lookup_field(fields, "timer"@) {
            None => Ok(CommandV::Show { content, timer: false }),
            Some(JsonV::Bool(timer)) => Ok(CommandV::Show { content, timer }),
            Some(_) => Err(DecodeError::BadTimer),
        },
        Some(_) => Err(DecodeError::BadContent),
        None => Err(DecodeError::MissingContent),
    }
}

/// What the fields of a request object decode to: the `action` field picks
/// the command, and the other fields are read as that command asks.
pub open spec fn decode_fields_spec(fields: Seq<FieldV>) -> Result<CommandV, DecodeError> {
    match lookup_field(fields, "action"@) {
        Some(JsonV::Str(action)) => if action == "show"@ {
            decode_show_spec(fields)
        } else if action == "hide"@ {
            Ok(CommandV::Hide)
        } else {
            Err(DecodeError::UnknownAction)
        },
        Some(_) => Err(DecodeError::BadAction),
        None => Err(DecodeError::MissingAction),
    }
}

/// What one line of text decodes to.
pub open spec fn decode_spec(line: Seq<char>) -> Result<CommandV, DecodeError> {
    match json_object_fields(line) {
        Some(fields) => decode_fields_spec(fields),
        None => Err(DecodeError::NotObject),
    }
}

/// Decodes the fields of a request object, as `decode_fields_spec`
/// describes.
pub fn decode_fields(fields: &Vec<Field>) -> (r: Result<Command, DecodeError>)
    ensures
        match r {
            Ok(c) => decode_fields_spec(fields_view(fields@)) == Ok::<CommandV, DecodeError>(c@),
            Err(e) => decode_fields_spec(fields_view(fields@)) == Err::<CommandV, DecodeError>(e),
        },
{
    match get_field(fields, "action") {
        Some(Json::Str(action)) => {
            if str_eq(action.as_str(), "show") {
                match get_field(fields, "content") {
                    Some(Json::Str(content)) => {
                        match get_field(fields, "timer") {
                            None => Ok(Command::Show { content: content.clone(), timer: false }),
                            Some(Json::Bool(timer)) => Ok(
                                Command::Show { content: content.clone(), timer: *timer },
                            ),
                            Some(_) => Err(DecodeError::BadTimer),
                        }
                    },
                    Some(_) => Err(DecodeError::BadContent),
                    None => Err(DecodeError::MissingContent),
                }
            } else if str_eq(action.as_str(), "hide") {
                Ok(Command::Hide)
            } else {
                Err(DecodeError::UnknownAction)
            }
        },
        Some(_) => Err(DecodeError::BadAction),
        None => Err(DecodeError::MissingAction),
    }
}

/// Decodes one line of text into a command, as `decode_spec` describes:
/// the line must hold a JSON object whose `action` field names the
/// command. The line is expected with surrounding white space and the
/// trailing newline already removed.
pub fn decode(line: &str) -> (r: Result<Command, DecodeError>)
    ensures
        match r {
            Ok(c) => decode_spec(line@) == Ok::<CommandV, DecodeError>(c@),
            Err(e) => decode_spec(line@) == Err::<CommandV, DecodeError>(e),
        },
{
    match parse_object_fields(line) {
        Some(fields) => decode_fields(&fields),
        None => Err(DecodeError::NotObject),
    }
}

/// The request-schema object that carries a command on the wire: the
/// fields that `decode_fields_spec` reads back.
pub open spec fn command_fields_spec(c: CommandV) -> Seq<FieldV> {
    match c {
        CommandV::Show { content, timer } => seq![
            FieldV { name: "action"@, value: JsonV::Str("show"@) },
            FieldV { name: "content"@, value: JsonV::Str(content) },
            FieldV { name: "timer"@, value: JsonV::Bool(timer) },
        ],
        CommandV::Hide => seq![FieldV { name: "action"@, value: JsonV::Str("hide"@) }],
    }
}

/// Builds the request-schema object for a command, as
/// `command_fields_spec` describes.
pub fn command_fields(c: &Command) -> (r: Vec<Field>)
    ensures
        fields_view(r@) == command_fields_spec(c@),
{
    let mut out: Vec<Field> = Vec::new();
    match c {
        Command::Show { content, timer } => {
            out.push(Field { name: String::from_str("action"), value: Json::Str(String::from_str("show")) });
            out.push(Field { name: String::from_str("content"), value: Json::Str(content.clone()) });
            out.push(Field { name: String::from_str("timer"), value: Json::Bool(*timer) });
        },
        Command::Hide => {
            out.push(Field { name: String::from_str("action"), value: Json::Str(String::from_str("hide")) });
        },
    }
    proof {
        assert(fields_view(out@) =~= command_fields_spec(c@));
    }
    out
}

/// Round trip: the request-schema object of any command decodes back to
/// that same command.
pub proof fn lemma_command_round_trip(c: CommandV)
    ensures
        decode_fields_spec(command_fields_spec(c)) == Ok::<CommandV, DecodeError>(c),
{
    reveal_strlit("action");
    reveal_strlit("content");
    reveal_strlit("timer");
    reveal_strlit("show");
    reveal_strlit("hide");
    assert("show"@ != "hide"@) by {
        if "show"@ == "hide"@ {
            assert("show"@[0] == "hide"@[0]);
        }
    }
    assert("action"@.len() == 6);
    assert("content"@.len() == 7);
    assert("timer"@.len() == 5);
    assert("action"@ != "content"@);
    assert("action"@ != "timer"@);
    assert("content"@ != "timer"@);
    let fields = command_fields_spec(c);
    match c {
        CommandV::Show { content, timer } => {
            let content_field = FieldV { name: "content"@, value: JsonV::Str(content) };
            let timer_field = FieldV { name: "timer"@, value: JsonV::Bool(timer) };
            assert(fields.drop_first() =~= seq![content_field, timer_field]);
            assert(fields.drop_first().drop_first() =~= seq![timer_field]);
            assert(lookup_field(fields, "action"@) == Some(JsonV::Str("show"@)));
            assert(lookup_field(fields, "content"@) == lookup_field(
                fields.drop_first(),
                "content"@,
            ));
            assert(lookup_field(fields, "content"@) == Some(JsonV::Str(content)));
            assert(lookup_field(fields, "timer"@) == lookup_field(fields.drop_first(), "timer"@));
            assert(lookup_field(fields.drop_first(), "timer"@) == lookup_field(
                fields.drop_first().drop_first(),
                "timer"@,
            ));
            assert(lookup_field(fields, "timer"@) == Some(JsonV::Bool(timer)));
        },
        CommandV::Hide => {
            assert(lookup_field(fields, "action"@) == Some(JsonV::Str("hide"@)));
        },
    }
}

/// Whether a response reports success or an error.
#[derive(Debug, PartialEq, Eq, Structural, Clone, Copy)]
pub enum Status {
    Success,
    Error,
}

/// One reply line: a status and a human-readable message.
#[derive(Debug, PartialEq)]
pub struct Response {
    pub status: Status,
    pub message: String,
}

/// The mathematical view of a response.
#[verifier::ext_equal]
pub struct ResponseV {
    pub status: Status,
    pub message: Seq<char>,
}

impl View for Response {
    type V = ResponseV;

    open spec fn view(&self) -> ResponseV {
        ResponseV { status: self.status, message: self.message@ }
    }
}

/// The wire text of a status.
pub open spec fn status_text(s: Status) -> Seq<char> {
    match s {
        Status::Success => "success"@,
        Status::Error => "error"@,
    }
}

/// The wire text of a status.
pub fn status_str(s: Status) -> (r: &'static str)
    ensures
        r@ == status_text(s),
{
    match s {
        Status::Success => "success",
        Status::Error => "error",
    }
}

/// The 16 hexadecimal digit characters.
pub open spec fn hex_digit(n: int) -> char {
    if n == 0 { '0' }
    else if n == 1 { '1' }
    else if n == 2 { '2' }
    else if n == 3 { '3' }
    else if n == 4 { '4' }
    else if n == 5 { '5' }
    else if n == 6 { '6' }
    else if n == 7 { '7' }
    else if n == 8 { '8' }
    else if n == 9 { '9' }
    else if n == 10 { 'a' }
    else if n == 11 { 'b' }
    else if n == 12 { 'c' }
    else if n == 13 { 'd' }
    else if n == 14 { 'e' }
    else { 'f' }
}

/// How one character appears inside a JSON string: quotes and backslashes
/// get a backslash escape, control characters a `\u00..` escape, and every
/// other character stands as itself.
pub open spec fn escape_char(c: char) -> Seq<char> {
    if c == '"' {
        seq!['\\', '"']
    } else if c == '\\' {
        seq!['\\', '\\']
    } else if (c as u32) < 0x20 {
        seq!['\\', 'u', '0', '0', hex_digit(c as u32 as int / 16), hex_digit(c as u32 as int % 16)]
    } else {
        seq![c]
    }
}

/// How a text appears inside a JSON string.
pub open spec fn escape_text(s: Seq<char>) -> Seq<char>
    decreases s.len(),
{
    if s.len() == 0 {
        Seq::empty()
    } else {
        escape_char(s[0]) + escape_text(s.drop_first())
    }
}

/// A text with no newline in it: it fits on one output line.
pub open spec fn single_line(s: Seq<char>) -> bool {
    forall|i: int| 0 <= i < s.len() ==> s[i] != '\n'
}

/// Escaping one more character extends the escaped text at its end.
proof fn lemma_escape_text_push(s: Seq<char>, c: char)
    ensures
        escape_text(s.push(c)) == escape_text(s) + escape_char(c),
    decreases s.len(),
{
    if s.len() == 0 {
        assert(s.push(c)[0] == c);
        assert(s.push(c).drop_first() =~= Seq::<char>::empty());
        assert(escape_text(s.push(c).drop_first()) == Seq::<char>::empty());
        assert(escape_text(s.push(c)) == escape_char(c) + escape_text(s.push(c).drop_first()));
        assert(escape_char(c) + Seq::<char>::empty() =~= escape_char(c));
        assert(escape_text(s) == Seq::<char>::empty());
        assert(Seq::<char>::empty() + escape_char(c) =~= escape_char(c));
    } else {
        lemma_escape_text_push(s.drop_first(), c);
        assert(s.push(c).drop_first() =~= s.drop_first().push(c));
        assert(s.push(c)[0] == s[0]);
        assert(escape_text(s.push(c)) == escape_char(s[0]) + escape_text(s.drop_first().push(c)));
        assert(escape_text(s.push(c)) == escape_char(s[0]) + (escape_text(s.drop_first())
            + escape_char(c)));
        assert(escape_text(s) == escape_char(s[0]) + escape_text(s.drop_first()));
        assert(escape_char(s[0]) + (escape_text(s.drop_first()) + escape_char(c)) =~= (escape_char(
            s[0],
        ) + escape_text(s.drop_first())) + escape_char(c));
    }
}

/// No escaped character contains a newline.
proof fn lemma_escape_char_single_line(c: char)
    ensures
        single_line(escape_char(c)),
{
    if c != '"' && c != '\\' && (c as u32) >= 0x20 {
        assert('\n' as u32 == 0x0a);
        assert(escape_char(c) == seq![c]);
    }
}

/// No escaped text contains a newline, whatever text went in.
pub proof fn lemma_escape_single_line(s: Seq<char>)
    ensures
        single_line(escape_text(s)),
    decreases s.len(),
{
    if s.len() > 0 {
        lemma_escape_char_single_line(s[0]);
        lemma_escape_single_line(s.drop_first());
    }
}

/// Appends the escaped form of a text, as `escape_text` describes.
fn escape_onto(out: &mut String, s: &str)
    ensures
        final(out)@ == old(out)@ + escape_text(s@),
{
    let n = s.unicode_len();
    let mut i: usize = 0;
    proof {
        assert(s@.take(0) =~= Seq::<char>::empty());
        assert(old(out)@ + escape_text(s@.take(0)) =~= old(out)@);
    }
    while i < n
        invariant
            n == s@.len(),
            i <= n,
            out@ == old(out)@ + escape_text(s@.take(i as int)),
        decreases n - i,
    {
        let c = s.get_char(i);
        if c == '"' {
            push_char(out, '\\');
            push_char(out, '"');
        } else if c == '\\' {
            push_char(out, '\\');
            push_char(out, '\\');
        } else if (c as u32) < 0x20 {
            let code = c as u32;
            push_char(out, '\\');
            push_char(out, 'u');
            push_char(out, '0');
            push_char(out, '0');
            push_char(out, hex_char(code / 16));
            push_char(out, hex_char(code % 16));
        } else {
            push_char(out, c);
        }
        proof {
            lemma_escape_text_push(s@.take(i as int), c);
            assert(s@.take(i as int).push(c) =~= s@.take(i as int + 1));
            assert(out@ =~= old(out)@ + escape_text(s@.take(i as int + 1)));
        }
        i += 1;
    }
    proof {
        assert(s@.take(n as int) =~= s@);
    }
}

/// The hexadecimal digit character for a value below 16.
fn hex_char(n: u32) -> (c: char)
    requires
        n < 16,
    ensures
        c == hex_digit(n as int),
{
    if n == 0 { '0' }
    else if n == 1 { '1' }
    else if n == 2 { '2' }
    else if n == 3 { '3' }
    else if n == 4 { '4' }
    else if n == 5 { '5' }
    else if n == 6 { '6' }
    else if n == 7 { '7' }
    else if n == 8 { '8' }
    else if n == 9 { '9' }
    else if n == 10 { 'a' }
    else if n == 11 { 'b' }
    else if n == 12 { 'c' }
    else if n == 13 { 'd' }
    else if n == 14 { 'e' }
    else { 'f' }
}

/// The one line that carries a response on the wire, without its trailing
/// newline: a JSON object with the status and the escaped message.
pub open spec fn encode_spec(r: ResponseV) -> Seq<char> {
    "{\"status\":\""@ + escape_text(status_text(r.status)) + "\",\"message\":\""@ + escape_text(
        r.message,
    ) + "\"}"@
}

/// Encodes a response as exactly one line: the text of `encode_spec`,
/// which holds no newline, terminated by a single newline.
pub fn encode(resp: &Response) -> (out: String)
    ensures
        out@ == encode_spec(resp@).push('\n'),
        out@.len() > 0,
        out@.last() == '\n',
{
    let mut out = String::from_str("{\"status\":\"");
    escape_onto(&mut out, status_str(resp.status));
    out.append("\",\"message\":\"");
    escape_onto(&mut out, resp.message.as_str());
    out.append("\"}");
    push_char(&mut out, '\n');
    proof {
        assert(out@ =~= encode_spec(resp@).push('\n'));
    }
    out
}

/// An encoded response body holds no newline: the newline that `encode`
/// appends is the only one on the wire.
pub proof fn lemma_encode_single_line(r: ResponseV)
    ensures
        single_line(encode_spec(r)),
{
    reveal_strlit("{\"status\":\"");
    reveal_strlit("\",\"message\":\"");
    reveal_strlit("\"}");
    lemma_escape_single_line(status_text(r.status));
    lemma_escape_single_line(r.message);
    assert(single_line("{\"status\":\""@));
    assert(single_line("\",\"message\":\""@));
    assert(single_line("\"}"@));
}

} // verus!

