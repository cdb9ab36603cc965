//! The credential exchange, without its transport: what is sent to the
//! remote service, and how what comes back is classified.
//!
//! One exchange is one `POST` of a JSON object with the keys `username` and
//! `password` to `/login` on a configured host and port. The caller performs
//! the request described by [`request`] and reports what happened as a
//! [`Reply`]; [`outcome`] turns the reply into a token or a classified
//! failure. Nothing is retried.

use vstd::prelude::*;
use vstd::string::StringExecFns;

verus! {

/// The mathematical value of [`Credentials`].
#[verifier::ext_equal]
pub struct CredentialsView {
    pub username: Seq<char>,
    pub password: Seq<char>,
}

/// A username and a password, in plain text.
#[derive(Debug, PartialEq, Eq)]
pub struct Credentials {
    pub username: String,
    pub password: String,
}

impl View for Credentials {
    type V = CredentialsView;

    open spec fn view(&self) -> CredentialsView {
        CredentialsView { username: self.username@, password: self.password@ }
    }
}

/// An authentication credential handed out by the remote service.
#[derive(Clone, Debug, PartialEq, Eq)]
pub struct Token(pub String);

impl View for Token {
    type V = Seq<char>;

    open spec fn view(&self) -> Seq<char> {
        self.0@
    }
}

/// Why an exchange gave no token.
#[derive(Clone, Debug, PartialEq, Eq)]
pub enum AuthError {
    /// The service answered with a status outside the success range.
    InvalidCredentials,
    /// The request got no answer; the text describes the cause.
    TransportError(String),
    /// The service reported success, but its body held no usable `token`
    /// field; the text describes what was wrong with it.
    DeserializationError(String),
}

/// The text shown when the service rejects the credentials.
pub open spec fn rejected_text() -> Seq<char> {
    "Unable to log in with the provided credentials"@
}

impl AuthError {
    /// The description of this failure that a user gets to read.
    pub open spec fn message_spec(self) -> Seq<char> {
        match self {
            AuthError::InvalidCredentials => rejected_text(),
            AuthError::TransportError(cause) => cause@,
            AuthError::DeserializationError(cause) => cause@,
        }
    }

    /// The description of this failure that a user gets to read.
    pub fn message(&self) -> (text: String)
        ensures
            text@ == self.message_spec(),
    {
        match self {
            AuthError::InvalidCredentials => {
                "Unable to log in with the provided credentials".to_owned()
            },
            AuthError::TransportError(cause) => cause.clone(),
            AuthError::DeserializationError(cause) => cause.clone(),
        }
    }
}

/// The status message that a completed exchange leaves behind: the token on
/// success, the failure's description otherwise.
pub open spec fn status_text_spec(result: Result<Token, AuthError>) -> Seq<char> {
    match result {
        Ok(token) => token@,
        Err(error) => error.message_spec(),
    }
}

/// The status message that a completed exchange leaves behind.
pub fn status_text(result: &Result<Token, AuthError>) -> (text: String)
    ensures
        text@ == status_text_spec(*result),
{
    match result {
        Ok(token) => token.0.clone(),
        Err(error) => error.message(),
    }
}

/// What the transport observed of one request.
#[derive(Debug, PartialEq, Eq)]
pub enum Reply {
    /// No answer arrived: the connection was refused, timed out, or the host
    /// could not be resolved. `cause` describes the failure.
    Unreachable { cause: String },
    /// The service answered with the HTTP status `status`. `token` is the
    /// `token` field of the JSON body, or a description of why the body held
    /// none; it is looked at only when the status is a success.
    Answered { status: u16, token: Result<String, String> },
}

/// Whether an HTTP status code is in the success range, 200 to 299.
pub open spec fn is_success_spec(status: u16) -> bool {
    200 <= status <= 299
}

impl Reply {
    /// Whether this reply grants a token: the service answered with a
    /// success status and its body gave one.
    pub open spec fn grants_token(self) -> bool {
        self matches Reply::Answered { status, token } && is_success_spec(status) && token.is_ok()
    }
}

/// Whether an HTTP status code is in the success range, 200 to 299.
pub fn is_success(status: u16) -> (success: bool)
    ensures
        success == is_success_spec(status),
{
    200 <= status && status <= 299
}

/// Classifies what came back from one request.
///
/// No answer is a transport error that carries the cause. An answer outside
/// the success range means the credentials were rejected, whatever the body
/// held. A success whose body gave a token yields that token; a success with
/// an unusable body is a deserialization error.
pub fn outcome(reply: Reply) -> (result: Result<Token, AuthError>)
    ensures
        result.is_ok() <==> reply.grants_token(),
        match reply {
            Reply::Unreachable { cause } => {
                result matches Err(AuthError::TransportError(text)) && text@ == cause@
            },
            Reply::Answered { status, token } => {
                if !is_success_spec(status) {
                    result matches Err(AuthError::InvalidCredentials)
                } else {
                    match token {
                        Ok(value) => result matches Ok(granted) && granted@ == value@,
                        Err(why) => {
                            result matches Err(AuthError::DeserializationError(text)) && text@
                                == why@
                        },
                    }
                }
            },
        },
{
    match reply {
        Reply::Unreachable { cause } => Err(AuthError::TransportError(cause)),
        Reply::Answered { status, token } => {
            if !is_success(status) {
                Err(AuthError::InvalidCredentials)
            } else {
                match token {
                    Ok(value) => Ok(Token(value)),
                    Err(why) => Err(AuthError::DeserializationError(why)),
                }
            }
        },
    }
}

/// The decimal digit for a number below ten.
pub open spec fn digit(d: nat) -> char {
    if d == 0 {
        '0'
    } else if d == 1 {
        '1'
    } else if d == 2 {
        '2'
    } else if d == 3 {
        '3'
    } else if d == 4 {
        '4'
    } else if d == 5 {
        '5'
    } else if d == 6 {
        '6'
    } else if d == 7 {
        '7'
    } else if d == 8 {
        '8'
    } else {
        '9'
    }
}

/// The decimal numeral of `n`, without leading zeros.
pub open spec fn decimal(n: nat) -> Seq<char>
    decreases n,
{
    if n < 10 {
        seq![digit(n)]
    } else {
        decimal(n / 10).push(digit(n % 10))
    }
}

fn digit_char(d: u16) -> (c: char)
    requires
        d < 10,
    ensures
        c == digit(d as nat),
{
    if d == 0 {
        '0'
    } else if d == 1 {
        '1'
    } else if d == 2 {
        '2'
    } else if d == 3 {
        '3'
    } else if d == 4 {
        '4'
    } else if d == 5 {
        '5'
    } else if d == 6 {
        '6'
    } else if d == 7 {
        '7'
    } else if d == 8 {
        '8'
    } else {
        '9'
    }
}

fn push_decimal(out: &mut String, n: u16)
    ensures
        final(out)@ == old(out)@ + decimal(n as nat),
    decreases n,
{
    if n >= 10 {
        push_decimal(out, n / 10);
    }
    out.push(digit_char(n % 10));
}

/// Where the remote service listens.
#[derive(Debug, PartialEq, Eq)]
pub struct Endpoint {
    pub host: String,
    pub port: u16,
}

impl Endpoint {
    /// The address that login requests go to: `http://`, the host, a colon,
    /// the port in decimal, and `/login`.
    pub open spec fn url_spec(self) -> Seq<char> {
        "http://"@ + self.host@ + seq![':'] + decimal(self.port as nat) + "/login"@
    }

    /// The service on `host` at `port`.
    pub fn new(host: String, port: u16) -> (endpoint: Endpoint)
        ensures
            endpoint.host@ == host@,
            endpoint.port == port,
    {
        Endpoint { host, port }
    }

    /// The address that login requests go to.
    pub fn login_url(&self) -> (url: String)
        ensures
            url@ == self.url_spec(),
    {
        let mut url = "http://".to_owned();
        url.append(self.host.as_str());
        url.push(':');
        push_decimal(&mut url, self.port);
        url.append("/login");
        url
    }
}

impl Default for Endpoint {
    /// The service on this machine, port 8000.
    fn default() -> (endpoint: Endpoint)
        ensures
            endpoint.host@ == "localhost"@,
            endpoint.port == 8000,
    {
        Endpoint { host: "localhost".to_owned(), port: 8000 }
    }
}

/// One entry of a request's JSON object.
#[derive(Debug, PartialEq, Eq)]
pub struct BodyField {
    pub name: String,
    pub value: String,
}

/// The HTTP method of a request.
#[derive(Clone, Copy, Debug, PartialEq, Eq, Structural)]
pub enum Method {
    Post,
}

/// A login request: `method` on `url`, with the JSON object made of `body`'s
/// entries, all of them strings, as its body.
#[derive(Debug, PartialEq, Eq)]
pub struct ExchangeRequest {
    pub method: Method,
    pub url: String,
    pub body: Vec<BodyField>,
}

/// The request that exchanges `credentials` for a token at `endpoint`: a
/// `POST` to the endpoint's login address. The body holds the two values as
/// they are, under the keys `username` and `password`.
pub fn request(endpoint: &Endpoint, credentials: &Credentials) -> (request: ExchangeRequest)
    ensures
        request.method == Method::Post,
        request.url@ == endpoint.url_spec(),
        request.body@.len() == 2,
        request.body@[0].name@ == "username"@,
        request.body@[0].value@ == credentials@.username,
        request.body@[1].name@ == "password"@,
        request.body@[1].value@ == credentials@.password,
{
    let mut body: Vec<BodyField> = Vec::new();
    body.push(BodyField { name: "username".to_owned(), value: credentials.username.clone() });
    body.push(BodyField { name: "password".to_owned(), value: credentials.password.clone() });
    ExchangeRequest { method: Method::Post, url: endpoint.login_url(), body }
}

} // verus!
