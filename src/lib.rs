//! Bindings for the top.gg bot-listing API.
//!
//! The library holds what a client of the API decides for itself: the
//! identifiers and their text form, the records that the API exchanges, the
//! search filter and widget parameters, the endpoint addresses, and what a
//! response's status asks of the caller. Sending requests and decoding JSON
//! is left to the caller's HTTP stack, which is handed the plain values built
//! here.
use vstd::prelude::*;

pub mod decimal;
pub mod error;
pub mod model;
pub mod params;
pub mod types;
pub mod widget;

pub use error::Error;

use reqwest::Client as HttpClient;
use reqwest::Error as HttpError;
use url::ParseError;
use url::Url;

use crate::decimal::{decimal, push_decimal};
use crate::params::{pair_view, ParamView};
use crate::types::{BotId, Filter, UserId};

verus! {

#[verifier::external_type_specification]
#[verifier::external_body]
pub struct ExHttpClient(HttpClient);

#[verifier::external_type_specification]
#[verifier::external_body]
pub struct ExUrl(Url);

/// Whether `url::Url::parse` accepts the text as an absolute URL.
pub uninterp spec fn url_accepts(s: Seq<char>) -> bool;

/// Whether `url::Url::parse_with_params` accepts the text as an absolute URL
/// with the pairs in its query.
pub uninterp spec fn url_with_params_accepts(s: Seq<char>, pairs: Seq<ParamView>) -> bool;

/// Relies on url::Url::parse: it either parses the text or fails, and which
/// of the two depends on the text alone.
#[verifier::external_body]
pub(crate) fn parse_url(s: &str) -> (r: Result<Url, ParseError>)
    ensures
        r is Ok == url_accepts(s@),
{
    Url::parse(s)
}

/// Relies on url::Url::parse_with_params: it parses the text and appends the
/// pairs to the query; whether it fails depends on the text alone.
#[verifier::external_body]
pub(crate) fn parse_url_with_params(s: &str, pairs: &Vec<(String, String)>) -> (r: Result<
    Url,
    ParseError,
>)
    ensures
        r is Ok == url_with_params_accepts(s@, pairs@.map_values(|p: (String, String)| pair_view(p))),
{
    Url::parse_with_params(s, pairs)
}

/// Relies on reqwest::Client::builder and reqwest::ClientBuilder::build, to
/// make an HTTP client with the default settings.
#[verifier::external_body]
fn build_http_client() -> (r: Result<HttpClient, HttpError>) {
    HttpClient::builder().build()
}

/// Relies on the `Clone` impl of reqwest::Client, which shares the
/// connection pool.
#[verifier::external_body]
fn clone_http_client(c: &HttpClient) -> (r: HttpClient) {
    c.clone()
}

/// Endpoint interface to the API: an HTTP client and the token that
/// authorizes its calls.
pub struct Client {
    client: HttpClient,
    token: String,
}

impl Client {
    /// The token sent with each call.
    pub closed spec fn token_view(&self) -> Seq<char> {
        self.token@
    }

    /// A client with a new HTTP client of default settings.
    pub fn new(token: String) -> (r: Result<Client, Error>)
        ensures
            r matches Ok(c) ==> c.token_view() == token@,
            r matches Err(e) ==> e is Reqwest,
    {
        match build_http_client() {
            Ok(client) => Ok(Client { client, token }),
            Err(e) => Err(error::from(e)),
        }
    }

    /// A client over a given HTTP client.
    pub fn new_with_client(client: HttpClient, token: String) -> (r: Client)
        ensures
            r.token_view() == token@,
    {
        Client { client, token }
    }

    /// The token sent in the `Authorization` header.
    pub fn token(&self) -> (r: &str)
        ensures
            r@ == self.token_view(),
    {
        self.token.as_str()
    }

    /// The HTTP client that carries the calls.
    pub fn http(&self) -> &HttpClient {
        &self.client
    }
}

impl Clone for Client {
    fn clone(&self) -> (r: Client)
        ensures
            r.token_view() == self.token_view(),
    {
        Client { client: clone_http_client(&self.client), token: self.token.clone() }
    }
}

/// `prefix`, the decimal text of `id`, then `suffix`.
fn id_address(prefix: &str, id: u64, suffix: &str) -> (r: String)
    ensures
        r@ == prefix@ + decimal(id as nat) + suffix@,
{
    let mut s = String::from_str(prefix);
    push_decimal(&mut s, id);
    s.append(suffix);
    s
}

/// The address of a bot's information.
pub fn bot_url(bot: BotId) -> (r: String)
    ensures
        r@ == "https://top.gg/api/bots/"@ + decimal(bot.0 as nat),
{
    let r = id_address("https://top.gg/api/bots/", bot.0, "");
    proof {
        reveal_strlit("");
        assert(r@ =~= "https://top.gg/api/bots/"@ + decimal(bot.0 as nat));
    }
    r
}

/// The address of a bot's stats, to read or to update.
pub fn stats_url(bot: BotId) -> (r: String)
    ensures
        r@ == "https://top.gg/api/bots/"@ + decimal(bot.0 as nat) + "/stats"@,
{
    id_address("https://top.gg/api/bots/", bot.0, "/stats")
}

/// The address of a bot's last 1000 votes.
pub fn votes_url(bot: BotId) -> (r: String)
    ensures
        r@ == "https://top.gg/api/bots/"@ + decimal(bot.0 as nat) + "/votes"@,
{
    id_address("https://top.gg/api/bots/", bot.0, "/votes")
}

/// The address that tells whether a user voted for a bot in the past 24 hours.
pub fn check_url(bot: BotId, user: UserId) -> (r: String)
    ensures
        r@ == "https://top.gg/api/bots/"@ + decimal(bot.0 as nat) + "/check?userId="@ + decimal(
            user.0 as nat,
        ),
{
    let mut s = id_address("https://top.gg/api/bots/", bot.0, "/check?userId=");
    push_decimal(&mut s, user.0);
    s
}

/// The address of a user's information.
pub fn user_url(user: UserId) -> (r: String)
    ensures
        r@ == "https://top.gg/api/users/"@ + decimal(user.0 as nat),
{
    let r = id_address("https://top.gg/api/users/", user.0, "");
    proof {
        reveal_strlit("");
        assert(r@ =~= "https://top.gg/api/users/"@ + decimal(user.0 as nat));
    }
    r
}

/// The address of a bot search with the filter's parameters in its query.
pub fn search_url(filter: &Filter) -> (r: Result<Url, Error>)
    ensures
        r is Ok == url_with_params_accepts("https://top.gg/api/bots"@, filter@),
        r matches Err(e) ==> e is Url,
{
    match parse_url_with_params("https://top.gg/api/bots", filter.params().pairs()) {
        Ok(url) => Ok(url),
        Err(e) => Err(Error::Url(e)),
    }
}

/// What a response's status asks of the caller.
#[derive(Debug, Clone, Copy, PartialEq, Eq, Structural)]
pub enum StatusAction {
    /// Rate limited: read the wait from the body and fail with it.
    Ratelimited,
    /// A client or server error: fail with the HTTP error.
    Failed,
    /// Anything else: decode the body.
    Accepted,
}

/// A client error (4xx) or a server error (5xx).
pub open spec fn is_error_status(status: u16) -> bool {
    400 <= status <= 599
}

pub open spec fn action_of(status: u16) -> StatusAction {
    if status == error::TOO_MANY_REQUESTS {
        StatusAction::Ratelimited
    } else if is_error_status(status) {
        StatusAction::Failed
    } else {
        StatusAction::Accepted
    }
}

/// Dispatches on a response's status: 429 is a rate limit, any other 4xx or
/// 5xx an error, and everything else a body to decode.
pub fn status_action(status: u16) -> (r: StatusAction)
    ensures
        r == action_of(status),
{
    if status == error::TOO_MANY_REQUESTS {
        StatusAction::Ratelimited
    } else if 400 <= status && status <= 599 {
        StatusAction::Failed
    } else {
        StatusAction::Accepted
    }
}

/// Every successful (2xx) status asks for the body to be decoded, and only
/// 429 asks for a rate limit.
pub proof fn lemma_status_actions(status: u16)
    ensures
        200 <= status <= 299 ==> action_of(status) == StatusAction::Accepted,
        action_of(status) == StatusAction::Ratelimited <==> status == 429,
        action_of(status) == StatusAction::Failed ==> is_error_status(status) && status != 429,
{
}

/// The error that the body of a rate-limited response gives.
pub fn ratelimited(body: &types::Ratelimit) -> (r: Error)
    ensures
        r == (Error::Ratelimit { retry_after: body.retry_after }),
{
    error::ratelimit(body.retry_after)
}

} // verus!
