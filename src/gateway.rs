use vstd::prelude::*;

verus! {

/// Seconds the remote side may hold a batch request open while it has nothing to return.
pub const POLL_WAIT_SECS: u64 = 60;

/// Per-call timeout of a batch request: the wait plus a margin.
pub const POLL_TIMEOUT_SECS: u64 = 90;

/// Per-call timeout of every other request.
pub const CALL_TIMEOUT_SECS: u64 = 10;

/// A failed remote call.
#[derive(Clone, Debug)]
pub enum GatewayError {
    /// The request did not complete: no connection, a timeout, or an HTTP error status.
    Transport(String),
    /// The remote service answered but reported a failure; holds its raw reply.
    Remote(String),
    /// A reference could not be resolved to a stored artifact.
    NotFound,
}

/// The remote methods this client calls.
#[derive(Clone, Copy, Debug, PartialEq, Eq, Structural)]
pub enum Method {
    GetUpdates,
    GetFile,
    SendPhoto,
}

impl Method {
    pub open spec fn spec_timeout_secs(self) -> u64 {
        match self {
            Method::GetUpdates => POLL_TIMEOUT_SECS,
            _ => CALL_TIMEOUT_SECS,
        }
    }

    pub open spec fn spec_name(self) -> Seq<char> {
        match self {
            Method::GetUpdates => "getUpdates"@,
            Method::GetFile => "getFile"@,
            Method::SendPhoto => "sendPhoto"@,
        }
    }

    /// The method's name on the wire.
    pub fn name(self) -> (r: &'static str)
        ensures
            r@ == self.spec_name(),
    {
        match self {
            Method::GetUpdates => "getUpdates",
            Method::GetFile => "getFile",
            Method::SendPhoto => "sendPhoto",
        }
    }

    /// The per-call timeout of a request for this method.
    pub fn timeout_secs(self) -> (r: u64)
        ensures
            r == self.spec_timeout_secs(),
            self == Method::GetUpdates ==> r > POLL_WAIT_SECS,
    {
        match self {
            Method::GetUpdates => POLL_TIMEOUT_SECS,
            _ => CALL_TIMEOUT_SECS,
        }
    }
}

/// Where method calls go: the bot path of the API host.
pub open spec fn method_url_text(token: Seq<char>, name: Seq<char>) -> Seq<char> {
    "https://api.telegram.org/bot"@ + token + seq!['/'] + name
}

/// Where a stored file is downloaded from, once its path is known.
pub open spec fn file_url_text(token: Seq<char>, path: Seq<char>) -> Seq<char> {
    "https://api.telegram.org/file/bot"@ + token + seq!['/'] + path
}

/// The remote endpoint, identified by the credential that authenticates every call.
pub struct Endpoint {
    token: String,
}

impl Endpoint {
    pub closed spec fn spec_token(&self) -> Seq<char> {
        self.token@
    }

    pub fn new(token: String) -> (r: Endpoint)
        ensures
            r.spec_token() == token@,
    {
        Endpoint { token }
    }

    /// The URL that a call of `method` is posted to.
    pub fn method_url(&self, method: Method) -> (r: String)
        ensures
            r@ == method_url_text(self.spec_token(), method.spec_name()),
    {
        let mut url = String::from_str("https://api.telegram.org/bot");
        url.append(self.token.as_str());
        url.append("/");
        url.append(method.name());
        proof {
            reveal_strlit("/");
            assert(url@ == method_url_text(self.spec_token(), method.spec_name()));
        }
        url
    }

    /// Where to download an artifact from: the path that resolving its reference gave, or
    /// `NotFound` when resolving gave none.
    pub fn artifact_url(&self, file_path: Option<&str>) -> (r: Result<String, GatewayError>)
        ensures
            file_path is None <==> r matches Err(GatewayError::NotFound),
            file_path matches Some(p) ==> (r matches Ok(u) && u@ == file_url_text(
                self.spec_token(),
                p@,
            )),
    {
        match file_path {
            Some(p) => {
                let mut url = String::from_str("https://api.telegram.org/file/bot");
                url.append(self.token.as_str());
                url.append("/");
                url.append(p);
                proof {
                    reveal_strlit("/");
                    assert(url@ == file_url_text(self.spec_token(), p@));
                }
                Ok(url)
            },
            None => Err(GatewayError::NotFound),
        }
    }
}

/// Reads the status of a reply: a call succeeded when the reply's status flag is true and it
/// holds a result; any other reply is a remote failure that carries the raw reply.
pub fn interpret_reply(ok: Option<bool>, has_result: bool, raw: String) -> (r: Result<
    (),
    GatewayError,
>)
    ensures
        r is Ok <==> (ok == Some(true) && has_result),
        r is Err ==> (r matches Err(GatewayError::Remote(s)) && s@ == raw@),
{
    match ok {
        Some(true) => if has_result {
            Ok(())
        } else {
            Err(GatewayError::Remote(raw))
        },
        _ => Err(GatewayError::Remote(raw)),
    }
}

} // verus!
