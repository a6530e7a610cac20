use dbl::error::{from, ratelimit};
use dbl::types::{
    Bot, BotId, Filter, Listing, Ratelimit, UserId, UserVoted, Webhook, WebhookType,
};
use dbl::widget::{Badge, LargeWidget, SmallWidget};
use dbl::{
    bot_url, check_url, ratelimited, search_url, stats_url, status_action, user_url, votes_url,
    Client, Error, StatusAction,
};

fn pairs(f: &Filter) -> Vec<(String, String)> {
    f.params().pairs().clone()
}

fn pair(k: &str, v: &str) -> (String, String) {
    (k.to_string(), v.to_string())
}

#[test]
fn endpoint_addresses() {
    assert_eq!(bot_url(BotId(42)), "https://top.gg/api/bots/42");
    assert_eq!(stats_url(BotId(42)), "https://top.gg/api/bots/42/stats");
    assert_eq!(votes_url(BotId(42)), "https://top.gg/api/bots/42/votes");
    assert_eq!(
        check_url(BotId(42), UserId(7)),
        "https://top.gg/api/bots/42/check?userId=7"
    );
    assert_eq!(user_url(UserId(123)), "https://top.gg/api/users/123");
}

#[test]
fn filter_limit_is_capped() {
    assert_eq!(pairs(&Filter::new().limit(1000)), vec![pair("limit", "500")]);
    assert_eq!(pairs(&Filter::new().limit(500)), vec![pair("limit", "500")]);
    assert_eq!(pairs(&Filter::new().limit(20)), vec![pair("limit", "20")]);
}

#[test]
fn filter_sort_order() {
    assert_eq!(pairs(&Filter::new().sort("points", true)), vec![pair("sort", "points")]);
    assert_eq!(pairs(&Filter::new().sort("points", false)), vec![pair("sort", "-points")]);
}

#[test]
fn filter_setting_twice_keeps_last() {
    let f = Filter::new().limit(5).search("a").offset(3).limit(9);
    assert_eq!(pairs(&f), vec![pair("limit", "9"), pair("search", "a"), pair("offset", "3")]);
    assert_eq!(f.params().len(), 3);
}

#[test]
fn filter_default_is_empty() {
    let f: Filter = Default::default();
    assert_eq!(f.params().len(), 0);
}

#[test]
fn search_address_holds_the_query() {
    let f = Filter::new().search("lib:serenity foobar").offset(10);
    let url = search_url(&f).expect("search address");
    assert_eq!(
        url.as_str(),
        "https://top.gg/api/bots?search=lib%3Aserenity+foobar&offset=10"
    );
    let url = search_url(&Filter::new()).expect("search address");
    assert_eq!(url.as_str(), "https://top.gg/api/bots?");
}

#[test]
fn status_dispatch() {
    assert_eq!(status_action(429), StatusAction::Ratelimited);
    assert_eq!(status_action(400), StatusAction::Failed);
    assert_eq!(status_action(404), StatusAction::Failed);
    assert_eq!(status_action(500), StatusAction::Failed);
    assert_eq!(status_action(599), StatusAction::Failed);
    assert_eq!(status_action(200), StatusAction::Accepted);
    assert_eq!(status_action(204), StatusAction::Accepted);
    assert_eq!(status_action(302), StatusAction::Accepted);
    assert_eq!(status_action(600), StatusAction::Accepted);
}

#[test]
fn ratelimit_error_carries_the_wait() {
    let e = ratelimited(&Ratelimit { retry_after: 30 });
    assert!(matches!(e, Error::Ratelimit { retry_after: 30 }));
    assert!(e.is_ratelimit());
    assert_eq!(e.status(), Some(429));
    assert_eq!(e.to_string(), "Ratelimit reached, retry after: 30");
    assert!(ratelimit(0).is_ratelimit());
}

#[test]
fn url_error_has_no_status() {
    let e = Error::Url(url::ParseError::EmptyHost);
    assert!(!e.is_ratelimit());
    assert_eq!(e.status(), None);
    assert_eq!(e.to_string(), "empty host");
}

#[test]
fn http_error_is_wrapped() {
    let client = reqwest::Client::new();
    let req = client.get("not a url").build();
    let e = from(req.expect_err("relative address"));
    assert!(!e.is_ratelimit());
    assert_eq!(e.status(), None);
    assert!(matches!(e, Error::Reqwest(_)));
}

#[test]
fn badge_addresses() {
    assert_eq!(
        Badge::Owner.address(BotId(1), false),
        "https://top.gg/api/widget/owner/1.svg?noavatar=true"
    );
    assert_eq!(Badge::Library.address(BotId(1), true), "https://top.gg/api/widget/lib/1.svg");
    assert_eq!(
        Badge::Servers.build(BotId(2), true).unwrap().as_str(),
        "https://top.gg/api/widget/servers/2.svg"
    );
    assert_eq!(
        Badge::Upvotes.build(BotId(3), false).unwrap().as_str(),
        "https://top.gg/api/widget/upvotes/3.svg?noavatar=true"
    );
    assert_eq!(Badge::Status.address(BotId(4), true), "https://top.gg/api/widget/status/4.svg");
}

#[test]
fn widget_addresses() {
    let url = LargeWidget::new().top_color("fff").label_color("000").build(BotId(2)).unwrap();
    assert_eq!(url.as_str(), "https://top.gg/api/widget/2.svg?topcolor=fff&labelcolor=000");
    let url = SmallWidget::new().left_color("a").left_color("b").build(BotId(5)).unwrap();
    assert_eq!(url.as_str(), "https://top.gg/api/widget/5.svg?leftcolor=b");
}

#[test]
fn webhook_kind() {
    let mut w = Webhook {
        bot: BotId(1),
        user: UserId(2),
        kind: WebhookType::Test,
        is_weekend: false,
        query: None,
    };
    assert!(w.is_test());
    w.kind = WebhookType::Upvote;
    assert!(!w.is_test());
}

#[test]
fn vote_count() {
    assert!(UserVoted { voted: 1 }.has_voted());
    assert!(!UserVoted { voted: 0 }.has_voted());
}

fn bot(id: u64) -> Bot {
    Bot {
        id: BotId(id),
        username: "b".to_string(),
        discriminator: "0001".to_string(),
        avatar: None,
        default_avatar: String::new(),
        clientid: id.to_string(),
        lib: "serenity".to_string(),
        prefix: "!".to_string(),
        short_desc: String::new(),
        long_desc: None,
        tags: vec![],
        website: None,
        support: None,
        github: None,
        owners: vec![UserId(9)],
        guilds: vec![],
        invite: None,
        date: String::new(),
        certified_bot: false,
        vanity: None,
        shards: vec![],
        points: 0,
        monthly_points: 0,
    }
}

#[test]
fn listing_results() {
    let listing = Listing { results: vec![bot(1), bot(2)], limit: 2, offset: 0, count: 2, total: 2 };
    assert_eq!(listing.index(1).id, BotId(2));
    let ids: Vec<u64> = listing.into_results().iter().map(|b| b.id.as_u64()).collect();
    assert_eq!(ids, vec![1, 2]);
}

#[test]
fn client_keeps_token() {
    let c = Client::new("secret".to_string()).expect("client");
    assert_eq!(c.token(), "secret");
    let d = c.clone();
    assert_eq!(d.token(), "secret");
    let e = Client::new_with_client(reqwest::Client::new(), "other".to_string());
    assert_eq!(e.token(), "other");
}
