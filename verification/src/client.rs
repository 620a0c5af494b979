use vstd::prelude::*;
use vstd::string::StringExecFns;
use crate::digits::dec_rep;
use crate::digits::lemma_dec_rep_header_ok;
use crate::digits::u8_to_dec;
use crate::headers::check_header_value;
use crate::headers::header_value_ok;
use crate::headers::header_values_ok;
use crate::headers::make_header;
use crate::headers::valid_header_char;
use crate::headers::Header;

verus! {

/// Externally owned configuration: the API host every composed URL targets.
#[derive(Clone, Debug)]
pub struct Config {
    pub base_url: String,
}

/// The single undifferentiated error kind of the core: connection failures,
/// bodies that do not parse, and header-encoding failures are all reported
/// through it.  The detail string is for the caller to inspect.
#[derive(Clone, Debug)]
pub struct TransportError {
    pub detail: String,
}

/// The error a signed operation reports when a credential or token cannot
/// be carried as an HTTP header value.
pub fn header_encoding_error() -> (e: TransportError)
    ensures
        e.detail@ == "invalid header value"@,
{
    TransportError { detail: "invalid header value".to_owned() }
}

/// The login payload sent to the session endpoint.
#[derive(Debug)]
pub struct LoginBody {
    pub identifier: String,
    pub password: String,
}

/// The nested field of a session token that carries the access token.
#[derive(Debug)]
pub struct OauthToken {
    pub access_token: String,
}

/// A session token as the login endpoint returns it: a transient, per-call
/// value, acquired fresh on every signed operation and never reused.
#[derive(Debug)]
pub struct SessionToken {
    pub oauth_token: OauthToken,
}

/// The HTTP method a planned request carries on the wire.  A signed delete
/// is tunneled as a POST, so no delete method appears here.
#[derive(Clone, Copy, Debug, PartialEq, Eq)]
pub enum Method {
    Get,
    Post,
    Put,
}

/// How the caller's optional body rides on a signed business call.
#[derive(Clone, Copy, Debug, PartialEq, Eq)]
pub enum BodyMode {
    Empty,
    Query,
    Json,
}

/// The four verb-shaped operations the client exposes.
#[derive(Clone, Copy, Debug, PartialEq, Eq)]
pub enum Verb {
    Get,
    Post,
    Put,
    Delete,
}

/// The session-acquisition call, planned as plain data: always a POST to
/// the fixed session path, carrying the login payload as a JSON body.
#[derive(Debug)]
pub struct LoginRequest {
    pub url: String,
    pub headers: Vec<Header>,
    pub body: LoginBody,
}

/// One signed business call, planned as plain data.  The caller's optional
/// body itself is opaque to the core; the plan only fixes how it rides.
#[derive(Debug)]
pub struct WireRequest {
    pub method: Method,
    pub url: String,
    pub headers: Vec<Header>,
    pub body: BodyMode,
}

/// The composed target URL: scheme fixed to https, then the host, then the
/// endpoint path, unchanged.
pub open spec fn url_of(host: Seq<char>, path: Seq<char>) -> Seq<char> {
    "https://"@ + host + path
}

/// Whether a header has exactly the given name and value.
pub open spec fn header_is(h: Header, name: Seq<char>, value: Seq<char>) -> bool {
    h.name@ == name && h.value@ == value
}

/// The exact header set of the session-acquisition call, in composition
/// order: the API key, the account, and the fixed login protocol version.
pub open spec fn login_headers_of(hs: Seq<Header>, account_id: Seq<char>, api_key: Seq<char>) -> bool {
    &&& hs.len() == 3
    &&& header_is(hs[0], "X-IG-API-KEY"@, api_key)
    &&& header_is(hs[1], "IG-ACCOUNT-ID"@, account_id)
    &&& header_is(hs[2], "VERSION"@, "3"@)
}

/// The exact header set of every signed business call, in composition
/// order: the account, the API key, the bearer authorization built from the
/// fresh token, and the caller-chosen version, stringified — no more, no
/// fewer.
pub open spec fn signed_headers_of(
    hs: Seq<Header>,
    account_id: Seq<char>,
    api_key: Seq<char>,
    token: Seq<char>,
    version: u8,
) -> bool {
    &&& hs.len() == 4
    &&& header_is(hs[0], "IG-ACCOUNT-ID"@, account_id)
    &&& header_is(hs[1], "X-IG-API-KEY"@, api_key)
    &&& header_is(hs[2], "Authorization"@, "Bearer "@ + token)
    &&& header_is(hs[3], "VERSION"@, dec_rep(version))
}

/// The exact header sequence of a planned business call: the four signing
/// headers, and for a delete the tunneling override as a fifth.
pub open spec fn wire_headers_of(
    hs: Seq<Header>,
    account_id: Seq<char>,
    api_key: Seq<char>,
    token: Seq<char>,
    version: u8,
    verb: Verb,
) -> bool {
    match verb {
        Verb::Delete => {
            &&& hs.len() == 5
            &&& signed_headers_of(hs.take(4), account_id, api_key, token, version)
            &&& header_is(hs[4], "_method"@, "DELETE"@)
        },
        _ => signed_headers_of(hs, account_id, api_key, token, version),
    }
}

/// The method a verb puts on the wire: a delete is tunneled as a POST.
pub open spec fn wire_method_of(verb: Verb) -> Method {
    match verb {
        Verb::Get => Method::Get,
        Verb::Post => Method::Post,
        Verb::Put => Method::Put,
        Verb::Delete => Method::Post,
    }
}

/// How a verb carries the caller's optional body: a GET as query
/// parameters, the other verbs as a JSON body; nothing when none is given.
pub open spec fn body_mode_of(verb: Verb, has_body: bool) -> BodyMode {
    if !has_body {
        BodyMode::Empty
    } else {
        match verb {
            Verb::Get => BodyMode::Query,
            _ => BodyMode::Json,
        }
    }
}

/// A bearer authorization value can be carried as a header value iff the
/// token itself can: the fixed prefix consists of acceptable characters.
pub proof fn lemma_bearer_ok(token: Seq<char>)
    ensures
        header_value_ok("Bearer "@ + token) <==> header_value_ok(token),
{
    reveal_strlit("Bearer ");
    let p = "Bearer "@;
    let s = p + token;
    assert forall|i: int| 0 <= i < p.len() implies valid_header_char(p[i]) by {
        assert(('B' as u32) == 66);
        assert(('e' as u32) == 101);
        assert(('a' as u32) == 97);
        assert(('r' as u32) == 114);
        assert((' ' as u32) == 32);
    }
    if header_value_ok(token) {
        assert forall|i: int| 0 <= i < s.len() implies valid_header_char(s[i]) by {
            if i < p.len() {
                assert(s[i] == p[i]);
            } else {
                assert(s[i] == token[i - p.len()]);
            }
        }
    }
    if header_value_ok(s) {
        assert forall|i: int| 0 <= i < token.len() implies valid_header_char(token[i]) by {
            assert(token[i] == s[i + p.len()]);
        }
    }
}

/// Composes the target URL for an endpoint path: `https://{host}{path}`,
/// with no escaping, normalization, or validation of the path.  Malformed
/// paths surface as downstream transport errors, never as composition
/// errors.
pub fn get_url(config: &Config, endpoint: &String) -> (r: String)
    ensures
        r@ == url_of(config.base_url@, endpoint@),
{
    let mut s = String::from_str("https://");
    s.append(config.base_url.as_str());
    s.append(endpoint.as_str());
    proof {
        assert(s@ =~= url_of(config.base_url@, endpoint@));
    }
    s
}

/// The signed client core: owns the four immutable credentials and a copy
/// of the configuration, and plans every wire call of a signed operation.
/// Cloning it yields an independent logical client; the credentials are
/// never mutated.  The transport handle that carries the planned calls is
/// owned by the unverified shell around the core.
#[derive(Clone, Debug)]
pub struct Client {
    pub account_id: String,
    pub api_key: String,
    pub username: String,
    pub password: String,
    pub config: Config,
}

/// The kind of one wire call a signed operation performs.
#[derive(Clone, Copy, Debug, PartialEq, Eq)]
pub enum CallKind {
    LoginCall,
    BusinessCall,
}

/// How many entries of a call sequence have the given kind.
pub open spec fn count_kind(calls: Seq<CallKind>, k: CallKind) -> nat
    decreases calls.len(),
{
    if calls.len() == 0 {
        0
    } else {
        count_kind(calls.drop_last(), k) + (if calls.last() == k {
            1nat
        } else {
            0nat
        })
    }
}

impl Client {
    /// Whether both immutable credentials that ride as headers on every
    /// wire call can be carried as header values.
    pub open spec fn creds_encodable(self) -> bool {
        header_value_ok(self.account_id@) && header_value_ok(self.api_key@)
    }

    /// Whether the full signing header set for a given access token can be
    /// carried: the credentials, and the token itself.
    pub open spec fn signing_encodable(self, token: Seq<char>) -> bool {
        self.creds_encodable() && header_value_ok(token)
    }

    /// Everything the plan of one signed business call must satisfy: the
    /// composed URL, the tunneled wire method, the exact header sequence,
    /// and the body placement.
    pub open spec fn planned_request_ok(
        self,
        verb: Verb,
        endpoint: Seq<char>,
        version: u8,
        token: Seq<char>,
        has_body: bool,
        req: WireRequest,
    ) -> bool {
        &&& req.url@ == url_of(self.config.base_url@, endpoint)
        &&& req.method == wire_method_of(verb)
        &&& wire_headers_of(req.headers@, self.account_id@, self.api_key@, token, version, verb)
        &&& header_values_ok(req.headers@)
        &&& req.body == body_mode_of(verb, has_body)
    }

    /// Builds a client core owning the given credentials and the
    /// configuration copy.
    pub fn new(
        account_id: String,
        api_key: String,
        username: String,
        password: String,
        config: Config,
    ) -> (c: Client)
        ensures
            c.account_id == account_id,
            c.api_key == api_key,
            c.username == username,
            c.password == password,
            c.config == config,
    {
        Client { account_id, api_key, username, password, config }
    }

    /// Plans the session-acquisition call: a POST to the fixed session path
    /// carrying the login payload built from the username and password, and
    /// exactly the three acquisition headers.  It fails, before anything
    /// goes on the wire, exactly when a credential cannot be carried as a
    /// header value.
    pub fn login_request(&self) -> (r: Result<LoginRequest, TransportError>)
        ensures
            r is Ok <==> self.creds_encodable(),
            r matches Ok(lr) ==> {
                &&& lr.url@ == url_of(self.config.base_url@, "/session"@)
                &&& login_headers_of(lr.headers@, self.account_id@, self.api_key@)
                &&& header_values_ok(lr.headers@)
                &&& lr.body.identifier@ == self.username@
                &&& lr.body.password@ == self.password@
            },
            r matches Err(e) ==> e.detail@ == "invalid header value"@,
    {
        if !check_header_value(self.api_key.as_str()) || !check_header_value(
            self.account_id.as_str(),
        ) {
            return Err(header_encoding_error());
        }
        let mut hs: Vec<Header> = Vec::new();
        hs.push(make_header("X-IG-API-KEY", self.api_key.clone()));
        hs.push(make_header("IG-ACCOUNT-ID", self.account_id.clone()));
        hs.push(make_header("VERSION", String::from_str("3")));
        proof {
            reveal_strlit("3");
            assert(('3' as u32) == 51);
        }
        let url = get_url(&self.config, &String::from_str("/session"));
        Ok(
            LoginRequest {
                url,
                headers: hs,
                body: LoginBody {
                    identifier: self.username.clone(),
                    password: self.password.clone(),
                },
            },
        )
    }

    /// Composes the four signing headers for one business call from the
    /// freshly acquired session token.  It fails exactly when a credential
    /// or the token cannot be carried as a header value.
    pub fn signed_headers(&self, token: &SessionToken, version: u8) -> (r: Result<
        Vec<Header>,
        TransportError,
    >)
        ensures
            r is Ok <==> self.signing_encodable(token.oauth_token.access_token@),
            r matches Ok(hs) ==> signed_headers_of(
                hs@,
                self.account_id@,
                self.api_key@,
                token.oauth_token.access_token@,
                version,
            ),
            r matches Ok(hs) ==> header_values_ok(hs@),
            r matches Err(e) ==> e.detail@ == "invalid header value"@,
    {
        let mut authorization = String::from_str("Bearer ");
        authorization.append(token.oauth_token.access_token.as_str());
        proof {
            lemma_bearer_ok(token.oauth_token.access_token@);
        }
        if !check_header_value(self.account_id.as_str()) || !check_header_value(
            self.api_key.as_str(),
        ) || !check_header_value(authorization.as_str()) {
            return Err(header_encoding_error());
        }
        let mut hs: Vec<Header> = Vec::new();
        hs.push(make_header("IG-ACCOUNT-ID", self.account_id.clone()));
        hs.push(make_header("X-IG-API-KEY", self.api_key.clone()));
        hs.push(make_header("Authorization", authorization));
        hs.push(make_header("VERSION", u8_to_dec(version)));
        proof {
            lemma_dec_rep_header_ok(version);
        }
        Ok(hs)
    }

    /// Plans one signed business call from the verb, the endpoint path, the
    /// caller-chosen version, the freshly acquired session token, and
    /// whether the caller supplied a body.  A delete is planned as a POST
    /// carrying the tunneling override header, never as a literal DELETE.
    pub fn signed_request(
        &self,
        verb: Verb,
        endpoint: &String,
        version: u8,
        token: &SessionToken,
        has_body: bool,
    ) -> (r: Result<WireRequest, TransportError>)
        ensures
            r is Ok <==> self.signing_encodable(token.oauth_token.access_token@),
            r matches Ok(req) ==> self.planned_request_ok(
                verb,
                endpoint@,
                version,
                token.oauth_token.access_token@,
                has_body,
                req,
            ),
            r matches Err(e) ==> e.detail@ == "invalid header value"@,
    {
        let url = get_url(&self.config, endpoint);
        let mut hs = match self.signed_headers(token, version) {
            Ok(h) => h,
            Err(e) => {
                return Err(e);
            },
        };
        let method = match verb {
            Verb::Get => Method::Get,
            Verb::Post => Method::Post,
            Verb::Put => Method::Put,
            Verb::Delete => Method::Post,
        };
        match verb {
            Verb::Delete => {
                let ghost before = hs@;
                hs.push(make_header("_method", String::from_str("DELETE")));
                proof {
                    assert(hs@.take(4) =~= before);
                    reveal_strlit("DELETE");
                    assert(('D' as u32) == 68 && ('E' as u32) == 69 && ('L' as u32) == 76 && ('T'
                        as u32) == 84);
                }
            },
            _ => {},
        }
        let body = if !has_body {
            BodyMode::Empty
        } else {
            match verb {
                Verb::Get => BodyMode::Query,
                _ => BodyMode::Json,
            }
        };
        Ok(WireRequest { method, url, headers: hs, body })
    }

    /// Drives a signed operation past session acquisition: a failed
    /// acquisition fails the whole operation with the transport's own
    /// error, unchanged, before any business call is planned; a successful
    /// one yields the planned signed business call.
    pub fn after_login(
        &self,
        verb: Verb,
        endpoint: &String,
        version: u8,
        has_body: bool,
        outcome: Result<SessionToken, TransportError>,
    ) -> (r: Result<WireRequest, TransportError>)
        ensures
            match outcome {
                Result::Err(e) => r == Result::<WireRequest, TransportError>::Err(e),
                Result::Ok(token) => {
                    &&& (r is Ok <==> self.signing_encodable(token.oauth_token.access_token@))
                    &&& (r matches Ok(req) ==> self.planned_request_ok(
                        verb,
                        endpoint@,
                        version,
                        token.oauth_token.access_token@,
                        has_body,
                        req,
                    ))
                    &&& (r matches Err(e2) ==> e2.detail@ == "invalid header value"@)
                },
            },
    {
        match outcome {
            Err(e) => Err(e),
            Ok(token) => self.signed_request(verb, endpoint, version, &token, has_body),
        }
    }

    /// The wire calls one signed operation performs, in order, as a
    /// function of the session-acquisition outcome; the same for every
    /// verb.  Nothing goes on the wire when a credential cannot be carried
    /// as a header value; otherwise the operation performs its one
    /// session-acquisition call, and the business call follows only when
    /// acquisition succeeded and the fresh token itself can be carried.
    pub open spec fn op_calls(self, outcome: Result<SessionToken, TransportError>) -> Seq<
        CallKind,
    > {
        if !self.creds_encodable() {
            Seq::<CallKind>::empty()
        } else {
            seq![CallKind::LoginCall] + (match outcome {
                Result::Err(_) => Seq::<CallKind>::empty(),
                Result::Ok(t) => {
                    if header_value_ok(t.oauth_token.access_token@) {
                        seq![CallKind::BusinessCall]
                    } else {
                        Seq::<CallKind>::empty()
                    }
                },
            })
        }
    }

    /// Law: a signed operation acquires a session token exactly once — or
    /// not at all when it fails before the wire because a credential cannot
    /// be carried as a header value.  No operation ever acquires two
    /// tokens, whatever the outcome.
    pub proof fn lemma_single_acquisition(self, outcome: Result<SessionToken, TransportError>)
        ensures
            count_kind(self.op_calls(outcome), CallKind::LoginCall) == (if self.creds_encodable() {
                1nat
            } else {
                0nat
            }),
    {
        reveal_with_fuel(count_kind, 4);
        let calls = self.op_calls(outcome);
        if self.creds_encodable() {
            if calls.len() == 1 {
                assert(calls.last() == CallKind::LoginCall);
                assert(calls.drop_last() =~= Seq::<CallKind>::empty());
            } else {
                assert(calls.len() == 2);
                assert(calls.last() == CallKind::BusinessCall);
                assert(calls.drop_last() =~= seq![CallKind::LoginCall]);
                assert(seq![CallKind::LoginCall].drop_last() =~= Seq::<CallKind>::empty());
            }
        }
    }

    /// Law: a failed session acquisition fails the operation with no
    /// business call ever put on the wire.
    pub proof fn lemma_failed_acquisition_stops(self, e: TransportError)
        ensures
            count_kind(self.op_calls(Result::Err(e)), CallKind::BusinessCall) == 0,
    {
        reveal_with_fuel(count_kind, 4);
        let calls = self.op_calls(Result::<SessionToken, TransportError>::Err(e));
        if self.creds_encodable() {
            assert(calls =~= seq![CallKind::LoginCall]);
            assert(calls.last() == CallKind::LoginCall);
            assert(calls.drop_last() =~= Seq::<CallKind>::empty());
        }
    }

    /// Law: the business call goes on the wire exactly when the signed plan
    /// is handed out, i.e. when the credentials and the freshly acquired
    /// token all encode as header values.
    pub proof fn lemma_business_call_iff(self, token: SessionToken)
        ensures
            count_kind(
                self.op_calls(Result::Ok(token)),
                CallKind::BusinessCall,
            ) == (if self.signing_encodable(token.oauth_token.access_token@) {
                1nat
            } else {
                0nat
            }),
    {
        reveal_with_fuel(count_kind, 4);
        let calls = self.op_calls(Result::<SessionToken, TransportError>::Ok(token));
        if self.creds_encodable() {
            if header_value_ok(token.oauth_token.access_token@) {
                assert(calls.last() == CallKind::BusinessCall);
                assert(calls.drop_last() =~= seq![CallKind::LoginCall]);
                assert(seq![CallKind::LoginCall].drop_last() =~= Seq::<CallKind>::empty());
            } else {
                assert(calls =~= seq![CallKind::LoginCall]);
                assert(calls.last() == CallKind::LoginCall);
                assert(calls.drop_last() =~= Seq::<CallKind>::empty());
            }
        }
    }
}

} // verus!
