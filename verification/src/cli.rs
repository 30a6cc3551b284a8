//! The command line and the foreign-function interface: which mode a command
//! line asks for, whether it asks for help, the argument list that arrives
//! as JSON, and the JSON replies.

use vstd::prelude::*;
use vstd::string::*;
use vstd::utf8::*;

use crate::json::{
    escape_json, json_escape, json_unescape, lemma_escape_round_trip, lemma_escape_valid,
    valid_string_body,
};

verus! {

/// What the program was asked to do.
#[derive(Debug, Clone, Copy, PartialEq, Eq, Structural)]
pub enum RunMode {
    /// Run a measurement as a client.
    Client,
    /// Run a measurement server.
    Server,
    /// Print the usage; `invalid` when the arguments were not a request for
    /// help.
    Usage { invalid: bool },
}

/// Whether the argument list holds `-h` or `--help`.
pub open spec fn asks_for_help(args: Seq<String>) -> bool {
    exists|i: int| 0 <= i < args.len() && (args[i]@ == "-h"@ || args[i]@ == "--help"@)
}

/// Help is asked for by a list of two parts exactly when one of the parts
/// asks for it; a single argument asks for it exactly when it is `-h` or
/// `--help`; no arguments do not.
pub proof fn lemma_help_anywhere(a: Seq<String>, b: Seq<String>, s: String)
    ensures
        asks_for_help(a + b) <==> asks_for_help(a) || asks_for_help(b),
        asks_for_help(seq![s]) <==> (s@ == "-h"@ || s@ == "--help"@),
        !asks_for_help(Seq::<String>::empty()),
{
    let ab = a + b;
    if asks_for_help(ab) {
        let i = choose|i: int| 0 <= i < ab.len() && (ab[i]@ == "-h"@ || ab[i]@ == "--help"@);
        if i < a.len() {
            assert(a[i] == ab[i]);
        } else {
            assert(b[i - a.len()] == ab[i]);
        }
    }
    if asks_for_help(a) {
        let i = choose|i: int| 0 <= i < a.len() && (a[i]@ == "-h"@ || a[i]@ == "--help"@);
        assert(ab[i] == a[i]);
    }
    if asks_for_help(b) {
        let i = choose|i: int| 0 <= i < b.len() && (b[i]@ == "-h"@ || b[i]@ == "--help"@);
        assert(ab[a.len() + i] == b[i]);
    }
    if s@ == "-h"@ || s@ == "--help"@ {
        assert(seq![s][0] == s);
    }
}

/// Whether the argument list holds `-h` or `--help`.
pub fn wants_help(args: &Vec<String>) -> (b: bool)
    ensures
        b == asks_for_help(args@),
{
    let short = "-h".to_owned();
    let long = "--help".to_owned();
    let n = args.len();
    for i in 0..n
        invariant
            n == args.len(),
            short@ == "-h"@,
            long@ == "--help"@,
            forall|j: int| 0 <= j < i ==> !(args@[j]@ == "-h"@ || args@[j]@ == "--help"@),
    {
        if args[i] == short || args[i] == long {
            return true;
        }
    }
    false
}

/// The mode that a command line asks for. Its first argument is the
/// program; with nothing after it, or with `-c` next, a client runs; with
/// `-s` next, a server; anything else prints the usage, flagged invalid
/// unless it was `-h` or `--help`.
pub open spec fn mode_of(args: Seq<String>) -> RunMode {
    if args.len() == 1 || args[1]@ == "-c"@ {
        RunMode::Client
    } else if args[1]@ == "-s"@ {
        RunMode::Server
    } else {
        RunMode::Usage { invalid: args[1]@ != "-h"@ && args[1]@ != "--help"@ }
    }
}

/// Only the first argument after the program decides the mode: what follows
/// it does not change the mode, and the program alone runs a client.
pub proof fn lemma_mode_from_first_argument(a: Seq<String>, b: Seq<String>)
    requires
        a.len() >= 2,
    ensures
        mode_of(a + b) == mode_of(a),
        mode_of(a.take(1)) == RunMode::Client,
{
    assert((a + b)[1] == a[1]);
    assert(a.take(1).len() == 1);
}

/// The mode that a command line asks for; its first argument is the
/// program.
pub fn select_mode(args: &Vec<String>) -> (m: RunMode)
    requires
        args.len() >= 1,
    ensures
        m == mode_of(args@),
{
    if args.len() == 1 || args[1] == "-c".to_owned() {
        RunMode::Client
    } else if args[1] == "-s".to_owned() {
        RunMode::Server
    } else {
        let help = args[1] == "-h".to_owned() || args[1] == "--help".to_owned();
        RunMode::Usage { invalid: !help }
    }
}

/// What `serde_json` reads from `text` as an array of strings: the strings'
/// characters, or none when `text` is not such an array.
pub uninterp spec fn json_string_array(text: Seq<char>) -> Option<Seq<Seq<char>>>;

/// The characters of each string of a list.
pub open spec fn string_views(v: Seq<String>) -> Seq<Seq<char>> {
    v.map_values(|s: String| s@)
}

/// The message that `serde_json` gives, through its error's `Display`,
/// when it cannot read `text` as an array of strings.
pub uninterp spec fn json_error_message(text: Seq<char>) -> Seq<char>;

/// Reads `text` as a JSON array of strings with `serde_json::from_str`,
/// handing an error back as its message (`Display`). Trusted: the result is
/// `Ok` with the array's strings exactly when the named reading gives some,
/// and otherwise `Err` with the named message; both are functions of the
/// text.
#[verifier::external_body]
fn read_json_string_array(text: &str) -> (r: Result<Vec<String>, String>)
    ensures
        match r {
            Ok(v) => json_string_array(text@) == Some(string_views(v@)),
            Err(m) => json_string_array(text@).is_none() && m@ == json_error_message(text@),
        },
        text@ == "[]"@ ==> r is Ok && r->Ok_0@.len() == 0,
{
    match serde_json::from_str::<Vec<String>>(text) {
        Ok(v) => Ok(v),
        Err(e) => Err(e.to_string()),
    }
}

/// The message that `std::str::Utf8Error`'s `Display` gives for `bytes`,
/// which are not UTF-8.
pub uninterp spec fn utf8_error_message(bytes: Seq<u8>) -> Seq<char>;

/// Reads `bytes` as UTF-8 with `std::str::from_utf8`, handing an error back
/// as its message (`Display`). Trusted: the result is the decoded text
/// exactly when the bytes are UTF-8, and otherwise the named message, a
/// function of the bytes.
#[verifier::external_body]
fn read_utf8(bytes: &[u8]) -> (r: Result<&str, String>)
    ensures
        match r {
            Ok(t) => valid_utf8(bytes@) && t@ == decode_utf8(bytes@),
            Err(m) => !valid_utf8(bytes@) && m@ == utf8_error_message(bytes@),
        },
{
    match std::str::from_utf8(bytes) {
        Ok(t) => Ok(t),
        Err(e) => Err(e.to_string()),
    }
}

/// The reply `{"error": "<message>"}`, the message escaped for a JSON
/// string.
pub open spec fn error_reply(message: Seq<char>) -> Seq<char> {
    "{\"error\": \""@ + json_escape(message) + "\"}"@
}

/// The reply `{"error": "<message>"}`, the message escaped for a JSON
/// string.
pub fn error_response(message: &str) -> (r: String)
    ensures
        r@ == error_reply(message@),
{
    let mut r = "{\"error\": \"".to_owned();
    let escaped = escape_json(message);
    r.append(escaped.as_str());
    r.append("\"}");
    r
}

/// Every error reply is the JSON object `{"error": "..."}` whose member is a
/// well-formed JSON string: between its quotes stands the message escaped,
/// which holds no bare quote, backslash or control character, and which a
/// JSON reader reads back as the message itself.
pub proof fn lemma_error_reply_is_json(message: Seq<char>)
    ensures
        error_reply(message) == "{\"error\": \""@ + json_escape(message) + "\"}"@,
        valid_string_body(json_escape(message)),
        json_unescape(json_escape(message)) == message,
{
    lemma_escape_valid(message);
    lemma_escape_round_trip(message);
}

/// The reply to a measurement that ran to its end.
pub fn success_response() -> (r: String)
    ensures
        r@ == "{\"success\": true}"@,
{
    "{\"success\": true}".to_owned()
}

/// The reply to a measurement started in the background.
pub fn started_response() -> (r: String)
    ensures
        r@ == "{\"success\": true, \"message\": \"Test started in background\"}"@,
{
    "{\"success\": true, \"message\": \"Test started in background\"}".to_owned()
}

/// The argument list, or the error reply for a list that is not valid JSON:
/// `parsed` is the strings read, or the reader's error message.
pub fn args_or_error_reply(parsed: Result<Vec<String>, String>) -> (r: Result<Vec<String>, String>)
    ensures
        match parsed {
            Ok(v) => r matches Ok(w) && w@ == v@,
            Err(e) => r matches Err(reply) && reply@ == error_reply("Invalid args JSON: "@ + e@),
        },
{
    match parsed {
        Ok(v) => Ok(v),
        Err(e) => {
            let mut message = "Invalid args JSON: ".to_owned();
            message.append(e.as_str());
            Err(error_response(message.as_str()))
        },
    }
}

/// The argument list that arrives as the JSON array of strings `text`, or
/// the error reply that carries the reader's message.
pub fn parse_args_json(text: &str) -> (r: Result<Vec<String>, String>)
    ensures
        match json_string_array(text@) {
            Some(a) => r matches Ok(v) && string_views(v@) == a,
            None => r matches Err(reply) && reply@ == error_reply(
                "Invalid args JSON: "@ + json_error_message(text@),
            ),
        },
        text@ == "[]"@ ==> (r matches Ok(v) && v@.len() == 0),
{
    args_or_error_reply(read_json_string_array(text))
}

/// The bytes of `[]`.
pub open spec fn empty_array_bytes() -> Seq<u8> {
    seq![0x5bu8, 0x5du8]
}

/// The bytes of `[]` are UTF-8 for the text `[]`.
pub proof fn lemma_empty_array_bytes()
    ensures
        valid_utf8(empty_array_bytes()),
        decode_utf8(empty_array_bytes()) == "[]"@,
{
    reveal_strlit("[]");
    let b = empty_array_bytes();
    let rest = b.subrange(1, 2);
    let none = rest.subrange(1, 1);
    assert(0x5bu8 & 0x7F == 0x5bu8) by (bit_vector);
    assert(0x5du8 & 0x7F == 0x5du8) by (bit_vector);
    assert(rest =~= seq![0x5du8]);
    assert(none =~= Seq::<u8>::empty());
    assert(pop_first_scalar(b) == rest);
    assert(pop_first_scalar(rest) == none);
    assert(valid_utf8(none));
    assert(valid_utf8(rest));
    assert(valid_utf8(b));
    assert(decode_utf8(none) =~= Seq::<char>::empty());
    assert(decode_utf8(rest) =~= seq![']']);
    assert(decode_utf8(b) =~= seq!['[', ']']);
}

/// The argument list that arrives through the C interface as the bytes of
/// a JSON array of strings: empty when no text arrives; the error reply
/// with the UTF-8 reader's message when the bytes are not UTF-8; else as
/// [`parse_args_json`] reads the decoded text. No text and the text `[]`
/// give the same, empty, list.
pub fn args_from_c(bytes: Option<&[u8]>) -> (r: Result<Vec<String>, String>)
    ensures
        match bytes {
            None => r matches Ok(v) && v@.len() == 0,
            Some(b) => if !valid_utf8(b@) {
                r matches Err(reply) && reply@ == error_reply(
                    "Failed to parse args JSON: "@ + utf8_error_message(b@),
                )
            } else {
                match json_string_array(decode_utf8(b@)) {
                    Some(a) => r matches Ok(v) && string_views(v@) == a,
                    None => r matches Err(reply) && reply@ == error_reply(
                        "Invalid args JSON: "@ + json_error_message(decode_utf8(b@)),
                    ),
                }
            },
        },
        bytes is None || (bytes matches Some(b) && b@ == empty_array_bytes()) ==> (r matches Ok(v)
            && v@.len() == 0),
{
    proof {
        lemma_empty_array_bytes();
    }
    match bytes {
        None => Ok(Vec::new()),
        Some(b) => match read_utf8(b) {
            Ok(text) => parse_args_json(text),
            Err(m) => {
                let mut message = "Failed to parse args JSON: ".to_owned();
                message.append(m.as_str());
                Err(error_response(message.as_str()))
            },
        },
    }
}

} // verus!
