//! The request handler: three configuration lookups, three prepared log
//! lines, and one fixed-format plain-text response. The inbound request is
//! accepted but none of its contents matter.

use vstd::prelude::*;
use vstd::string::StringExecFns;
use crate::config::{ConfigError, ConfigStore};

verus! {

/// An inbound HTTP request. The handler inspects none of these fields; they
/// are carried so that a host can hand the whole request over.
#[derive(Debug)]
pub struct Request {
    pub method: String,
    pub path: String,
    pub body: Vec<u8>,
}

/// The mathematical content of a request.
pub ghost struct RequestView {
    pub method: Seq<char>,
    pub path: Seq<char>,
    pub body: Seq<u8>,
}

impl View for Request {
    type V = RequestView;

    open spec fn view(&self) -> RequestView {
        RequestView { method: self.method@, path: self.path@, body: self.body@ }
    }
}

/// An outbound HTTP response: a status code, headers as name-value pairs,
/// and a text body.
#[derive(Debug)]
pub struct Response {
    pub status: u16,
    pub headers: Vec<(String, String)>,
    pub body: String,
}

/// The mathematical content of a response.
#[verifier::ext_equal]
pub ghost struct ResponseView {
    pub status: int,
    pub headers: Seq<(Seq<char>, Seq<char>)>,
    pub body: Seq<char>,
}

impl View for Response {
    type V = ResponseView;

    open spec fn view(&self) -> ResponseView {
        ResponseView {
            status: self.status as int,
            headers: self.headers@.map_values(|h: (String, String)| (h.0@, h.1@)),
            body: self.body@,
        }
    }
}

/// Everything one handler invocation produces on success: the log lines to
/// emit, in order, and the response to send.
#[derive(Debug)]
pub struct HandlerOutput {
    pub logs: Vec<String>,
    pub response: Response,
}

/// The mathematical content of a handler invocation's output.
#[verifier::ext_equal]
pub ghost struct HandlerOutputView {
    pub logs: Seq<Seq<char>>,
    pub response: ResponseView,
}

impl View for HandlerOutput {
    type V = HandlerOutputView;

    open spec fn view(&self) -> HandlerOutputView {
        HandlerOutputView {
            logs: self.logs@.map_values(|l: String| l@),
            response: self.response@,
        }
    }
}

/// One log line in the literal format `# <Label>: <value>`.
pub open spec fn log_line(label: Seq<char>, value: Seq<char>) -> Seq<char> {
    "# "@ + label + ": "@ + value
}

/// What a successful invocation produces, as a function of the
/// configuration mapping alone.
pub open spec fn success_output(config: Map<Seq<char>, Seq<char>>) -> HandlerOutputView {
    HandlerOutputView {
        logs: seq![
            log_line("Log Level"@, config["log_level"@]),
            log_line("Platform name"@, config["platform_name"@]),
            log_line("DB Password"@, config["db_password"@]),
        ],
        response: ResponseView {
            status: 200,
            headers: seq![("content-type"@, "text/plain"@)],
            body: "Hell from "@ + config["platform_name"@],
        },
    }
}

/// The handler's whole behaviour: it looks up `log_level`, `platform_name`
/// and `db_password` in that order, fails on the first key the mapping is
/// missing, and otherwise produces `success_output`. The request is ignored.
pub open spec fn spec_handle(
    config: Map<Seq<char>, Seq<char>>,
    request: RequestView,
) -> Result<HandlerOutputView, Seq<char>> {
    if !config.contains_key("log_level"@) {
        Err("log_level"@)
    } else if !config.contains_key("platform_name"@) {
        Err("platform_name"@)
    } else if !config.contains_key("db_password"@) {
        Err("db_password"@)
    } else {
        Ok(success_output(config))
    }
}

/// Builds one log line in the literal format `# <label>: <value>`.
pub fn format_log_line(label: &str, value: &str) -> (r: String)
    ensures
        r@ == log_line(label@, value@),
{
    String::from_str("# ").concat(label).concat(": ").concat(value)
}

/// Handles one request: looks up the three configuration variables, prepares
/// one log line for each, and builds the plain-text response. On the first
/// lookup that fails it returns the error, naming the missing key.
pub fn handle(store: &ConfigStore, request: &Request) -> (r: Result<HandlerOutput, ConfigError>)
    ensures
        match r {
            Ok(out) => spec_handle(store@, request@) == Ok::<HandlerOutputView, Seq<char>>(out@),
            Err(e) => spec_handle(store@, request@) == Err::<HandlerOutputView, Seq<char>>(
                e.key@,
            ),
        },
{
    let log_level = match store.get("log_level") {
        Ok(v) => v,
        Err(e) => {
            return Err(e);
        },
    };
    let platform_name = match store.get("platform_name") {
        Ok(v) => v,
        Err(e) => {
            return Err(e);
        },
    };
    let db_password = match store.get("db_password") {
        Ok(v) => v,
        Err(e) => {
            return Err(e);
        },
    };
    let mut logs: Vec<String> = Vec::new();
    logs.push(format_log_line("Log Level", log_level.as_str()));
    logs.push(format_log_line("Platform name", platform_name.as_str()));
    logs.push(format_log_line("DB Password", db_password.as_str()));
    let mut headers: Vec<(String, String)> = Vec::new();
    headers.push((String::from_str("content-type"), String::from_str("text/plain")));
    let body = String::from_str("Hell from ").concat(platform_name.as_str());
    let out = HandlerOutput { logs, response: Response { status: 200, headers, body } };
    proof {
        assert(out@ =~~= success_output(store@));
    }
    Ok(out)
}

/// The handler's outcome is a function of the configuration store alone:
/// with one store, any two requests — whatever their contents — are answered
/// identically.
pub proof fn lemma_request_irrelevant(
    config: Map<Seq<char>, Seq<char>>,
    first: RequestView,
    second: RequestView,
)
    ensures
        spec_handle(config, first) == spec_handle(config, second),
{
}

/// The handler succeeds exactly when all three variables are present, and
/// every failure names a key that the store is missing.
pub proof fn lemma_failure_names_missing_key(config: Map<Seq<char>, Seq<char>>, request: RequestView)
    ensures
        spec_handle(config, request) is Ok <==> (config.contains_key("log_level"@)
            && config.contains_key("platform_name"@) && config.contains_key("db_password"@)),
        spec_handle(config, request) is Err ==> !config.contains_key(
            spec_handle(config, request)->Err_0,
        ),
{
}

/// A store missing only the last variable to be looked up still makes the
/// handler fail, naming that variable: the two earlier lookups do not let it
/// slip through to a response.
pub proof fn lemma_last_lookup_still_fails(config: Map<Seq<char>, Seq<char>>, request: RequestView)
    requires
        config.contains_key("log_level"@),
        config.contains_key("platform_name"@),
        !config.contains_key("db_password"@),
    ensures
        spec_handle(config, request) == Err::<HandlerOutputView, Seq<char>>("db_password"@),
{
}

/// On the success path the log lines come in lookup order — log level,
/// platform name, secret — each in the literal `# <Label>: <value>` format.
pub proof fn lemma_log_order(config: Map<Seq<char>, Seq<char>>, request: RequestView)
    requires
        spec_handle(config, request) is Ok,
    ensures
        (spec_handle(config, request)->Ok_0).logs =~= seq![
            log_line("Log Level"@, config["log_level"@]),
            log_line("Platform name"@, config["platform_name"@]),
            log_line("DB Password"@, config["db_password"@]),
        ],
{
}

/// On the success path the response has status 200, carries exactly one
/// header — the plain-text content type — and its body is the literal
/// `Hell from ` followed by the platform name.
pub proof fn lemma_success_response_shape(
    config: Map<Seq<char>, Seq<char>>,
    request: RequestView,
)
    requires
        spec_handle(config, request) is Ok,
    ensures
        (spec_handle(config, request)->Ok_0).response.status == 200,
        (spec_handle(config, request)->Ok_0).response.headers.len() == 1,
        (spec_handle(config, request)->Ok_0).response.headers[0] == ("content-type"@, "text/plain"@),
        (spec_handle(config, request)->Ok_0).response.body == "Hell from "@ + config["platform_name"@],
{
}

} // verus!
