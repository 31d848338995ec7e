//! Calls of the Firecracker API, which are made with `curl`.

use vstd::prelude::*;
use vstd::string::*;

use crate::effect::Reply;
use crate::error::{Failure, OsError, OsResult};
use crate::json;
use crate::json::Json;
use crate::text;

verus! {

// ---------------------------------------------------------------------------
// Requests
// ---------------------------------------------------------------------------
/// The arguments of `curl` that send `body` to `path` of the API at `socket`.
pub open spec fn put_words(socket: Seq<char>, path: Seq<char>, body: Seq<char>) -> Seq<Seq<char>> {
    seq![
        "--silent"@,
        "--show-error"@,
        "-X"@,
        "PUT"@,
        "--unix-socket"@,
        socket,
        "--data"@,
        body,
        "-H"@,
        "Content-Type: application/json"@,
        "http://localhost"@ + path,
    ]
}

/// The arguments of `curl` that PUT a JSON value.
pub fn api_put_args(socket: &str, path: &str, body: &serde_json::Value) -> (r: OsResult<
    Vec<String>,
>)
    ensures
        r is Ok,
        r matches Ok(args) ==> args.deep_view() == put_words(
            socket@,
            path@,
            json::written(json::json_of(*body)),
        ),
{
    match json::write(body) {
        Ok(data) => Ok(put_argv(socket, path, data)),
        Err(e) => Err(OsError::Json(e)),
    }
}

/// The arguments of `curl` that PUT a body which is already written.
pub fn put_argv(socket: &str, path: &str, data: String) -> (r: Vec<String>)
    ensures
        r.deep_view() == put_words(socket@, path@, data@),
        r.deep_view() == seq![
            "--silent"@,
            "--show-error"@,
            "-X"@,
            "PUT"@,
            "--unix-socket"@,
            socket@,
            "--data"@,
            data@,
            "-H"@,
            "Content-Type: application/json"@,
            "http://localhost"@ + path@,
        ],
{
    let mut url = "http://localhost".to_string();
    url.append(path);
    let args = vec![
        "--silent".to_string(),
        "--show-error".to_string(),
        "-X".to_string(),
        "PUT".to_string(),
        "--unix-socket".to_string(),
        socket.to_string(),
        "--data".to_string(),
        data,
        "-H".to_string(),
        "Content-Type: application/json".to_string(),
        url,
    ];
    assert(args.deep_view() =~= put_words(socket@, path@, data@));
    args
}

/// The payload of the actions call.
pub open spec fn action_payload(action_type: Seq<char>) -> Json {
    Json::Object(map!["action_type"@ => Json::Text(action_type)])
}

pub(crate) fn action(action_type: &str) -> (r: serde_json::Value)
    ensures
        json::json_of(r) == action_payload(action_type@),
{
    let mut payload = json::no_fields();
    json::put(&mut payload, "action_type", json::text(action_type));
    json::object(payload)
}

// ---------------------------------------------------------------------------
// Replies
// ---------------------------------------------------------------------------
/// What a run of `curl` left behind.
#[derive(Debug)]
pub struct CurlOutput {
    /// Did it exit with status zero?
    pub success: bool,
    /// Its exit status, unless a signal ended it.
    pub code: Option<i32>,
    pub stdout: Vec<u8>,
    pub stderr: Vec<u8>,
}

/// The text that `String::from_utf8_lossy` makes of bytes.
pub uninterp spec fn lossy(bytes: Seq<u8>) -> Seq<char>;

/// Calls `String::from_utf8_lossy`: the text is determined by the bytes, and
/// is the text they encode where they are valid UTF-8.
#[verifier::external_body]
fn lossy_text(bytes: &Vec<u8>) -> (r: String)
    ensures
        r@ == lossy(bytes@),
        vstd::utf8::valid_utf8(bytes@) ==> vstd::utf8::encode_utf8(r@) == bytes@,
{
    String::from_utf8_lossy(bytes).into_owned()
}

/// An exit status as the low 16 bits of the number; -1 stands for none.
pub open spec fn status_of(code: Option<i32>) -> u16 {
    match code {
        Some(code) => (code as int % 0x1_0000) as u16,
        None => 0xFFFF,
    }
}

/// What is wrong with a reply, by the texts that `curl` wrote.
pub open spec fn reply_fault(
    success: bool,
    code: Option<i32>,
    stdout: Seq<char>,
    stderr: Seq<char>,
) -> Option<Failure> {
    if !success {
        Some(Failure::FirecrackerApi { status: status_of(code), body: stderr })
    } else if text::occurs("\"fault_message\""@, stdout) {
        Some(Failure::FirecrackerApi { status: 400, body: stdout })
    } else {
        None
    }
}

impl CurlOutput {
    /// What is wrong with the reply.
    pub open spec fn fault(self) -> Option<Failure> {
        reply_fault(self.success, self.code, lossy(self.stdout@), lossy(self.stderr@))
    }
}

fn low_bits(code: i32) -> (r: u16)
    ensures
        r == code as int % 0x1_0000,
{
    ((code as i64 + 0x1_0000_0000) % 0x1_0000) as u16
}

/// Judges a reply by the texts that `curl` wrote.
pub fn judge_reply(success: bool, code: Option<i32>, stdout: String, stderr: String) -> (r:
    OsResult<()>)
    ensures
        match r {
            Ok(_) => reply_fault(success, code, stdout@, stderr@) is None,
            Err(e) => reply_fault(success, code, stdout@, stderr@) == Some(e@),
        },
        r is Ok <==> success && !text::occurs("\"fault_message\""@, stdout@),
        r matches Err(e) ==> match e@ {
            Failure::FirecrackerApi { status, body } => if success {
                status == 400 && body == stdout@
            } else {
                &&& body == stderr@
                &&& match code {
                    Some(code) => status == code as int % 65536,
                    None => status == 65535,
                }
            },
            _ => false,
        },
{
    if !success {
        let status = match code {
            Some(code) => low_bits(code),
            None => 0xFFFF,
        };
        return Err(OsError::FirecrackerApi { status, body: stderr });
    }
    if text::holds_text(stdout.as_str(), "\"fault_message\"") {
        return Err(OsError::FirecrackerApi { status: 400, body: stdout });
    }
    Ok(())
}

/// Judges what a run of `curl` left behind.
pub fn api_put_result(output: &CurlOutput) -> (r: OsResult<()>)
    ensures
        match r {
            Ok(_) => output.fault() is None,
            Err(e) => output.fault() == Some(e@),
        },
{
    let stdout = lossy_text(&output.stdout);
    let stderr = lossy_text(&output.stderr);
    judge_reply(output.success, output.code, stdout, stderr)
}

impl Reply {
    /// What is wrong with the reply to a PUT request. Only what `curl` left
    /// behind can be right.
    pub open spec fn put_fault(self) -> Option<Failure> {
        match self {
            Reply::Output(output) => output.fault(),
            _ => Some(self.misfit()),
        }
    }

    /// Judges the reply to a PUT request.
    pub fn put_done(self) -> (r: OsResult<()>)
        ensures
            match r {
                Ok(_) => self.put_fault() is None,
                Err(e) => self.put_fault() == Some(e@),
            },
    {
        match self {
            Reply::Output(output) => api_put_result(&output),
            other => Err(other.refuse()),
        }
    }
}

// ---------------------------------------------------------------------------
// Laws
// ---------------------------------------------------------------------------
/// A run of `curl` that failed is always reported as an error.
pub proof fn law_failed_request_is_an_error(output: CurlOutput)
    requires
        !output.success,
    ensures
        output.fault() is Some,
{
}

/// A reply in which Firecracker names a fault is an error, although `curl` succeeded.
pub proof fn law_named_fault_is_an_error(
    code: Option<i32>,
    before: Seq<char>,
    after: Seq<char>,
    stderr: Seq<char>,
)
    ensures
        reply_fault(true, code, before + "\"fault_message\""@ + after, stderr) == Some(
            Failure::FirecrackerApi {
                status: 400,
                body: before + "\"fault_message\""@ + after,
            },
        ),
{
    let name = "\"fault_message\""@;
    let stdout = before + name + after;
    let i = before.len() as int;
    assert(stdout.subrange(i, i + name.len()) =~= name);
}

/// The arguments with which `curl` is called for a request.
pub proof fn law_request_arguments(socket: Seq<char>, path: Seq<char>, body: Seq<char>)
    ensures
        put_words(socket, path, body) == seq![
            "--silent"@,
            "--show-error"@,
            "-X"@,
            "PUT"@,
            "--unix-socket"@,
            socket,
            "--data"@,
            body,
            "-H"@,
            "Content-Type: application/json"@,
            "http://localhost"@ + path,
        ],
        action_payload(body).member("action_type"@) == Some(Json::Text(body)),
        forall|key: Seq<char>| #[trigger]
            action_payload(body).member(key) is Some ==> key == "action_type"@,
{
}

/// A reply is right if and only if `curl` succeeded and wrote no fault message.
/// A failed run is reported with the low 16 bits of its exit status and what it
/// wrote of the error, a fault that Firecracker names with its whole answer.
pub proof fn law_faults_of_replies(
    success: bool,
    code: Option<i32>,
    stdout: Seq<char>,
    stderr: Seq<char>,
)
    ensures
        ({
            let fault = reply_fault(success, code, stdout, stderr);
            &&& fault is None <==> success && !text::occurs("\"fault_message\""@, stdout)
            &&& fault matches Some(fault) ==> (fault matches Failure::FirecrackerApi { status, body }
                && (success ==> status == 400 && body == stdout) && (!success ==> body == stderr)
                && (!success && code is None ==> status == 65535) && (!success && code is Some
                ==> status == code->0 as int % 65536))
        }),
{
}

/// A reply to a request is judged by what `curl` wrote. Any other reply is an error.
pub proof fn law_requests_are_judged_by_output(reply: Reply)
    ensures
        reply.put_fault() is None <==> (reply matches Reply::Output(output) && output.success
            && !text::occurs("\"fault_message\""@, lossy(output.stdout@))),
{
}

} // verus!
