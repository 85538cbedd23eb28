use boticordrs::client::{ApiRequest, HttpMethod, RequestBody};
use boticordrs::types::{BotStats, ServerStats, ShortenerBody};
use boticordrs::BoticordClient;

fn client() -> BoticordClient {
    BoticordClient::new("secret token".to_string(), 2)
}

fn expect_get(r: ApiRequest, url: &str) {
    assert_eq!(r.method, HttpMethod::Get);
    assert_eq!(r.url, url);
    assert_eq!(r.authorization, "secret token");
    assert_eq!(r.body, RequestBody::Nothing);
}

fn expect_post(r: ApiRequest, url: &str, body: RequestBody) {
    assert_eq!(r.method, HttpMethod::Post);
    assert_eq!(r.url, url);
    assert_eq!(r.authorization, "secret token");
    assert_eq!(r.body, body);
}

fn shortener() -> ShortenerBody {
    ShortenerBody { code: "abc".to_string(), link: Some("https://example.org".to_string()), domain: Some(1) }
}

#[test]
fn new_keeps_token_and_version() {
    let c = BoticordClient::new("tok".to_string(), 7);
    assert_eq!(c.token(), "tok");
    assert_eq!(c.version(), 7);
}

#[test]
fn bot_info_request() {
    let r = client().get_bot_info("724663360934772797".to_string()).unwrap();
    expect_get(r, "https://api.boticord.top/v2/bot/724663360934772797");
}

#[test]
fn bot_info_id_is_not_encoded() {
    let r = client().get_bot_info("a b/c".to_string()).unwrap();
    expect_get(r, "https://api.boticord.top/v2/bot/a b/c");
}

#[test]
fn bot_info_empty_id() {
    let r = client().get_bot_info(String::new()).unwrap();
    expect_get(r, "https://api.boticord.top/v2/bot/");
}

#[test]
fn server_info_request() {
    let r = client().get_server_info("722424773233213460".to_string()).unwrap();
    expect_get(r, "https://api.boticord.top/v2/server/722424773233213460");
}

#[test]
fn user_info_request() {
    let r = client().get_user_info("585766846268047370".to_string()).unwrap();
    expect_get(r, "https://api.boticord.top/v2/profile/585766846268047370");
}

#[test]
fn comment_requests() {
    let c = client();
    expect_get(c.get_bot_comments("1".to_string()).unwrap(), "https://api.boticord.top/v2/bot/1/comments");
    expect_get(c.get_server_comments("2".to_string()).unwrap(), "https://api.boticord.top/v2/server/2/comments");
    expect_get(c.get_user_comments("3".to_string()).unwrap(), "https://api.boticord.top/v2/profile/3/comments");
}

#[test]
fn user_bots_request() {
    let r = client().get_user_bots("42".to_string()).unwrap();
    expect_get(r, "https://api.boticord.top/v2/bots/42");
}

#[test]
fn shortener_requests() {
    let c = client();
    expect_post(c.get_my_shorted_links().unwrap(), "https://api.boticord.top/v2/links/get", RequestBody::Empty);
    expect_post(
        c.search_for_shorted_link(shortener()).unwrap(),
        "https://api.boticord.top/v2/links/get",
        RequestBody::Shortener(shortener()),
    );
    expect_post(
        c.create_shorted_link(shortener()).unwrap(),
        "https://api.boticord.top/v2/links/create",
        RequestBody::Shortener(shortener()),
    );
    expect_post(
        c.delete_shorted_link(shortener()).unwrap(),
        "https://api.boticord.top/v2/links/delete",
        RequestBody::Shortener(shortener()),
    );
}

#[test]
fn bot_stats_request_carries_exactly_the_stats() {
    let stats = BotStats { servers: 2514, shards: 3, users: 338250 };
    let r = client().post_bot_stats(stats).unwrap();
    expect_post(
        r,
        "https://api.boticord.top/v2/stats",
        RequestBody::BotStats(BotStats { servers: 2514, shards: 3, users: 338250 }),
    );
}

#[test]
fn server_stats_request() {
    let stats = ServerStats {
        server_id: "722424773233213460".to_string(),
        up: 1,
        status: 1,
        server_name: Some("Guild".to_string()),
        server_avatar: None,
        server_members_all_count: Some(120),
        server_members_online_count: Some(12),
        server_owner_id: None,
    };
    let r = client().post_server_stats(stats.clone()).unwrap();
    expect_post(r, "https://api.boticord.top/v2/server", RequestBody::ServerStats(stats));
}

#[test]
fn version_zero_and_largest() {
    let r = BoticordClient::new("t".to_string(), 0).get_user_bots("x".to_string()).unwrap();
    assert_eq!(r.url, "https://api.boticord.top/v0/bots/x");
    let r = BoticordClient::new("t".to_string(), u64::MAX).get_user_bots("x".to_string()).unwrap();
    assert_eq!(r.url, "https://api.boticord.top/v18446744073709551615/bots/x");
    let r = BoticordClient::new("t".to_string(), 10).get_user_bots("x".to_string()).unwrap();
    assert_eq!(r.url, "https://api.boticord.top/v10/bots/x");
}

#[test]
fn different_endpoints_get_different_urls() {
    let c = client();
    let a = c.get_bot_info("1".to_string()).unwrap();
    let b = c.get_server_info("1".to_string()).unwrap();
    let d = c.get_bot_comments("1".to_string()).unwrap();
    assert_ne!(a.url, b.url);
    assert_ne!(a.url, d.url);
    assert_ne!(b.url, d.url);
    assert_eq!(c.token(), "secret token");
    assert_eq!(c.version(), 2);
}
