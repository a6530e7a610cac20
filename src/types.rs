//! Identifiers, the records that the API exchanges, and the search filter.
use vstd::prelude::*;

use crate::decimal::{decimal, parse_u64, parsed_u64, to_decimal};
use crate::params::{set_param, ParamView, QueryParams};

verus! {

/// Identifier of one of the listed bots; it travels as its decimal text.
#[derive(Debug, Clone, Copy, PartialEq, Eq, Structural)]
pub struct BotId(pub u64);

impl BotId {
    pub fn as_u64(&self) -> (r: u64)
        ensures
            r == self.0,
    {
        self.0
    }

    /// The decimal text that stands for this identifier.
    pub fn to_string(&self) -> (r: String)
        ensures
            r@ == decimal(self.0 as nat),
    {
        to_decimal(self.0)
    }

    /// Reads an identifier from its text; `None` where the text is no `u64`.
    pub fn from_text(s: &str) -> (r: Option<BotId>)
        ensures
            r == (match parsed_u64(s@) {
                Some(v) => Some(BotId(v)),
                None => None,
            }),
    {
        match parse_u64(s) {
            Some(v) => Some(BotId(v)),
            None => None,
        }
    }
}

impl From<u64> for BotId {
    fn from(v: u64) -> (r: BotId)
        ensures
            r == BotId(v),
    {
        BotId(v)
    }
}

impl vstd::std_specs::convert::FromSpecImpl<u64> for BotId {
    open spec fn obeys_from_spec() -> bool {
        true
    }

    open spec fn from_spec(v: u64) -> BotId {
        BotId(v)
    }
}

/// Identifier of one of the listed users; it travels as its decimal text.
#[derive(Debug, Clone, Copy, PartialEq, Eq, Structural)]
pub struct UserId(pub u64);

impl UserId {
    pub fn as_u64(&self) -> (r: u64)
        ensures
            r == self.0,
    {
        self.0
    }

    /// The decimal text that stands for this identifier.
    pub fn to_string(&self) -> (r: String)
        ensures
            r@ == decimal(self.0 as nat),
    {
        to_decimal(self.0)
    }

    /// Reads an identifier from its text; `None` where the text is no `u64`.
    pub fn from_text(s: &str) -> (r: Option<UserId>)
        ensures
            r == (match parsed_u64(s@) {
                Some(v) => Some(UserId(v)),
                None => None,
            }),
    {
        match parse_u64(s) {
            Some(v) => Some(UserId(v)),
            None => None,
        }
    }
}

impl From<u64> for UserId {
    fn from(v: u64) -> (r: UserId)
        ensures
            r == UserId(v),
    {
        UserId(v)
    }
}

impl vstd::std_specs::convert::FromSpecImpl<u64> for UserId {
    open spec fn obeys_from_spec() -> bool {
        true
    }

    open spec fn from_spec(v: u64) -> UserId {
        UserId(v)
    }
}

/// Identifier of one of the listed guilds; it travels as its decimal text.
#[derive(Debug, Clone, Copy, PartialEq, Eq, Structural)]
pub struct GuildId(pub u64);

impl GuildId {
    pub fn as_u64(&self) -> (r: u64)
        ensures
            r == self.0,
    {
        self.0
    }

    /// The decimal text that stands for this identifier.
    pub fn to_string(&self) -> (r: String)
        ensures
            r@ == decimal(self.0 as nat),
    {
        to_decimal(self.0)
    }

    /// Reads an identifier from its text; `None` where the text is no `u64`.
    pub fn from_text(s: &str) -> (r: Option<GuildId>)
        ensures
            r == (match parsed_u64(s@) {
                Some(v) => Some(GuildId(v)),
                None => None,
            }),
    {
        match parse_u64(s) {
            Some(v) => Some(GuildId(v)),
            None => None,
        }
    }
}

impl From<u64> for GuildId {
    fn from(v: u64) -> (r: GuildId)
        ensures
            r == GuildId(v),
    {
        GuildId(v)
    }
}

impl vstd::std_specs::convert::FromSpecImpl<u64> for GuildId {
    open spec fn obeys_from_spec() -> bool {
        true
    }

    open spec fn from_spec(v: u64) -> GuildId {
        GuildId(v)
    }
}

/// Basic user information, as in the list of a bot's voters.
#[derive(Debug)]
pub struct User {
    pub id: UserId,
    pub username: String,
    pub discriminator: String,
    pub avatar: Option<String>,
}

/// Detailed user information.
#[derive(Debug)]
pub struct DetailedUser {
    pub id: UserId,
    pub username: String,
    pub discriminator: String,
    pub avatar: Option<String>,
    pub default_avatar: String,
    pub bio: Option<String>,
    pub banner: Option<String>,
    pub social: Social,
    pub color: Option<String>,
    pub supporter: bool,
    pub certified_dev: bool,
    pub mod_: bool,
    pub web_mod: bool,
    pub admin: bool,
}

/// Social media accounts of a user.
#[derive(Debug)]
pub struct Social {
    pub github: String,
    pub instagram: String,
    pub reddit: String,
    pub twitter: String,
    pub youtube: String,
}

/// Information about a bot.
#[derive(Debug)]
pub struct Bot {
    pub id: BotId,
    pub username: String,
    pub discriminator: String,
    pub avatar: Option<String>,
    pub default_avatar: String,
    pub clientid: String,
    pub lib: String,
    pub prefix: String,
    pub short_desc: String,
    pub long_desc: Option<String>,
    pub tags: Vec<String>,
    pub website: Option<String>,
    pub support: Option<String>,
    pub github: Option<String>,
    pub owners: Vec<UserId>,
    pub guilds: Vec<GuildId>,
    pub invite: Option<String>,
    pub date: String,
    pub certified_bot: bool,
    pub vanity: Option<String>,
    pub shards: Vec<u64>,
    pub points: u64,
    pub monthly_points: u64,
}

/// A bot's sharding stats.
#[derive(Debug)]
pub struct Stats {
    pub server_count: Option<u64>,
    pub shards: Vec<u64>,
    pub shard_count: Option<u64>,
}

/// An update of one or more sharding stats.
#[derive(Debug)]
#[allow(inconsistent_fields)]
pub enum ShardStats {
    Cumulative { server_count: u64, shard_count: Option<u64> },
    Shard { server_count: u64, shard_id: u64, shard_count: u64 },
    Shards { shards: Vec<u64> },
}

/// A page of bot search results.
#[derive(Debug)]
pub struct Listing {
    pub results: Vec<Bot>,
    pub limit: u64,
    pub offset: u64,
    pub count: u64,
    pub total: u64,
}

impl Listing {
    /// The result at `index`.
    pub fn index(&self, index: usize) -> (r: &Bot)
        requires
            index < self.results@.len(),
        ensures
            *r == self.results@[index as int],
    {
        &self.results[index]
    }

    /// The results, in order.
    pub fn into_results(self) -> (r: Vec<Bot>)
        ensures
            r@ == self.results@,
    {
        self.results
    }
}

/// A vote received through the webhook.
#[derive(Debug)]
pub struct Webhook {
    pub bot: BotId,
    pub user: UserId,
    pub kind: WebhookType,
    pub is_weekend: bool,
    pub query: Option<String>,
}

/// What kind of vote a webhook delivers.
#[derive(Debug, Clone, Copy, PartialEq, Eq, Structural)]
pub enum WebhookType {
    Upvote,
    Test,
}

impl Webhook {
    /// Whether this is a test delivery rather than a real vote.
    pub fn is_test(&self) -> (r: bool)
        ensures
            r == (self.kind == WebhookType::Test),
    {
        matches!(self.kind, WebhookType::Test)
    }
}

/// The answer to whether a user has voted.
#[derive(Debug)]
pub struct UserVoted {
    pub voted: u64,
}

impl UserVoted {
    /// A positive count means that the user has voted.
    pub fn has_voted(&self) -> (r: bool)
        ensures
            r == (self.voted > 0),
    {
        self.voted > 0
    }
}

/// The body of a rate-limited response.
#[derive(Debug)]
pub struct Ratelimit {
    pub retry_after: u32,
}

/// The largest page size that a search asks for.
pub const MAX_LIMIT: u16 = 500;

pub open spec fn min_limit(limit: u16) -> nat {
    if limit > MAX_LIMIT {
        MAX_LIMIT as nat
    } else {
        limit as nat
    }
}

/// The text of a sort order: the field, after a `-` where descending.
pub open spec fn sort_text(field: Seq<char>, ascending: bool) -> Seq<char> {
    if ascending {
        field
    } else {
        seq!['-'] + field
    }
}

/// Parameters of a bot search.
pub struct Filter {
    params: QueryParams,
}

impl View for Filter {
    type V = Seq<ParamView>;

    closed spec fn view(&self) -> Seq<ParamView> {
        self.params@
    }
}

impl Filter {
    pub closed spec fn wf(&self) -> bool {
        self.params.wf()
    }

    /// A filter that sets nothing.
    pub fn new() -> (r: Filter)
        ensures
            r@ == Seq::<ParamView>::empty(),
            r.wf(),
    {
        Filter { params: QueryParams::new() }
    }

    /// Sets the page size, at most 500.
    pub fn limit(self, limit: u16) -> (r: Filter)
        requires
            self.wf(),
        ensures
            r@ == set_param(self@, "limit"@, decimal(min_limit(limit))),
            r.wf(),
    {
        let mut limit = limit;
        if limit > MAX_LIMIT {
            limit = MAX_LIMIT;
        }
        let mut f = self;
        f.params.set("limit", to_decimal(limit as u64));
        f
    }

    /// Sets how many results to skip.
    pub fn offset(self, offset: u16) -> (r: Filter)
        requires
            self.wf(),
        ensures
            r@ == set_param(self@, "offset"@, decimal(offset as nat)),
            r.wf(),
    {
        let mut f = self;
        f.params.set("offset", to_decimal(offset as u64));
        f
    }

    /// Sorts by `field`, in ascending or descending order.
    pub fn sort(self, field: &str, ascending: bool) -> (r: Filter)
        requires
            self.wf(),
        ensures
            r@ == set_param(self@, "sort"@, sort_text(field@, ascending)),
            r.wf(),
    {
        let mut buf = String::new();
        if !ascending {
            buf.append("-");
        }
        buf.append(field);
        proof {
            reveal_strlit("-");
            assert(buf@ =~= sort_text(field@, ascending));
        }
        let mut f = self;
        f.params.set("sort", buf);
        f
    }

    /// Sets the search text, such as `lib:serenity mod`.
    pub fn search(self, search: &str) -> (r: Filter)
        requires
            self.wf(),
        ensures
            r@ == set_param(self@, "search"@, search@),
            r.wf(),
    {
        let mut f = self;
        f.params.set("search", String::from_str(search));
        f
    }

    /// The parameters of the query string, in the order first set.
    pub fn params(&self) -> (r: &QueryParams)
        ensures
            r@ == self@,
    {
        &self.params
    }
}

impl Default for Filter {
    fn default() -> (r: Filter)
        ensures
            r@ == Seq::<ParamView>::empty(),
            r.wf(),
    {
        Filter::new()
    }
}

} // verus!
