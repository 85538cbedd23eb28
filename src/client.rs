//! The client: one method per endpoint, each describing the request to send.
use vstd::prelude::*;
use vstd::string::*;

use crate::errors::BoticordError;
use crate::route::{endpoint, endpoint_url, parse_failure, url_accepts};
use crate::types::{BotStats, ServerStats, ShortenerBody};

verus! {

/// HTTP method of a request.
#[derive(Clone, Copy, Debug, PartialEq, Eq)]
pub enum HttpMethod {
    Get,
    Post,
}

/// JSON body sent with a request.
#[derive(Clone, Debug, PartialEq)]
pub enum RequestBody {
    /// No body at all.
    Nothing,
    /// An empty JSON object, `{}`.
    Empty,
    BotStats(BotStats),
    ServerStats(ServerStats),
    Shortener(ShortenerBody),
}

/// One HTTP request, as the transport is to send it.
#[derive(Clone, Debug, PartialEq)]
pub struct ApiRequest {
    pub method: HttpMethod,
    /// Full URL of the endpoint.
    pub url: String,
    /// Value of the `Authorization` header.
    pub authorization: String,
    pub body: RequestBody,
}

/// You can use it to make it much easier to use the Boticord API.
#[derive(Clone, Debug)]
pub struct BoticordClient {
    token: String,
    version: u64,
}

/// What a client holds: its token and the API version it addresses.
pub struct ClientView {
    pub token: Seq<char>,
    pub version: u64,
}

impl View for BoticordClient {
    type V = ClientView;

    closed spec fn view(&self) -> ClientView {
        ClientView { token: self.token@, version: self.version }
    }
}

/// `r` is what a call to the endpoint at `path` gives: the request, with the
/// client's token as authorization, when the URL parser accepts the full URL,
/// and a URL error when it does not.
pub open spec fn request_for(
    client: ClientView,
    method: HttpMethod,
    path: Seq<char>,
    body: RequestBody,
    r: Result<ApiRequest, BoticordError>,
) -> bool {
    let url = endpoint_url(client.version, path);
    match r {
        Ok(req) => {
            &&& url_accepts(url)
            &&& req.method == method
            &&& req.url@ == url
            &&& req.authorization@ == client.token
            &&& req.body == body
        },
        Err(e) => !url_accepts(url) && e is Url,
    }
}

/// `prefix`, then `id`, then `suffix`.
fn path_with(prefix: &str, id: &String, suffix: &str) -> (r: String)
    ensures
        r@ == prefix@ + id@ + suffix@,
{
    let mut r = String::from_str(prefix);
    r.append(id.as_str());
    r.append(suffix);
    r
}

impl BoticordClient {
    /// Constructs a new Client.
    ///
    /// * `token` - Your BotiCord token
    /// * `version` - Version of BotiCord API
    pub fn new(token: String, version: u64) -> (r: Self)
        ensures
            r@.token == token@,
            r@.version == version,
    {
        BoticordClient { token, version }
    }

    /// The token sent as authorization with every request.
    pub fn token(&self) -> (r: &String)
        ensures
            r@ == self@.token,
    {
        &self.token
    }

    /// The API version every request addresses.
    pub fn version(&self) -> (r: u64)
        ensures
            r == self@.version,
    {
        self.version
    }

    fn request(&self, method: HttpMethod, path: &str, body: RequestBody) -> (r: Result<ApiRequest, BoticordError>)
        ensures
            request_for(self@, method, path@, body, r),
    {
        let url = endpoint(self.version, path);
        match parse_failure(url.as_str()) {
            Some(e) => Err(BoticordError::Url(e)),
            None => Ok(ApiRequest { method, url, authorization: self.token.clone(), body }),
        }
    }

    /// Get information about a specific bot.
    ///
    /// * `bot` - Id of bot.
    pub fn get_bot_info(&self, bot: String) -> (r: Result<ApiRequest, BoticordError>)
        ensures
            request_for(self@, HttpMethod::Get, "/bot/"@ + bot@, RequestBody::Nothing, r),
    {
        let path = path_with("/bot/", &bot, "");
        proof { reveal_strlit(""); }
        assert(path@ =~= "/bot/"@ + bot@);
        self.request(HttpMethod::Get, path.as_str(), RequestBody::Nothing)
    }
    /// Get information about a specific server.
    ///
    /// * `server` - Id of server.
    pub fn get_server_info(&self, server: String) -> (r: Result<ApiRequest, BoticordError>)
        ensures
            request_for(self@, HttpMethod::Get, "/server/"@ + server@, RequestBody::Nothing, r),
    {
        let path = path_with("/server/", &server, "");
        proof { reveal_strlit(""); }
        assert(path@ =~= "/server/"@ + server@);
        self.request(HttpMethod::Get, path.as_str(), RequestBody::Nothing)
    }

    /// Get information about a specific user.
    ///
    /// * `user` - Id of user.
    pub fn get_user_info(&self, user: String) -> (r: Result<ApiRequest, BoticordError>)
        ensures
            request_for(self@, HttpMethod::Get, "/profile/"@ + user@, RequestBody::Nothing, r),
    {
        let path = path_with("/profile/", &user, "");
        proof { reveal_strlit(""); }
        assert(path@ =~= "/profile/"@ + user@);
        self.request(HttpMethod::Get, path.as_str(), RequestBody::Nothing)
    }

    /// Get the comments on a bot's page.
    ///
    /// * `bot` - Id of bot.
    pub fn get_bot_comments(&self, bot: String) -> (r: Result<ApiRequest, BoticordError>)
        ensures
            request_for(self@, HttpMethod::Get, "/bot/"@ + bot@ + "/comments"@, RequestBody::Nothing, r),
    {
        let path = path_with("/bot/", &bot, "/comments");
        assert(path@ =~= "/bot/"@ + bot@ + "/comments"@);
        self.request(HttpMethod::Get, path.as_str(), RequestBody::Nothing)
    }

    /// Get the comments on a server's page.
    ///
    /// * `server` - Id of server.
    pub fn get_server_comments(&self, server: String) -> (r: Result<ApiRequest, BoticordError>)
        ensures
            request_for(self@, HttpMethod::Get, "/server/"@ + server@ + "/comments"@, RequestBody::Nothing, r),
    {
        let path = path_with("/server/", &server, "/comments");
        assert(path@ =~= "/server/"@ + server@ + "/comments"@);
        self.request(HttpMethod::Get, path.as_str(), RequestBody::Nothing)
    }

    /// Get the comments a user left.
    ///
    /// * `user` - Id of user.
    pub fn get_user_comments(&self, user: String) -> (r: Result<ApiRequest, BoticordError>)
        ensures
            request_for(self@, HttpMethod::Get, "/profile/"@ + user@ + "/comments"@, RequestBody::Nothing, r),
    {
        let path = path_with("/profile/", &user, "/comments");
        assert(path@ =~= "/profile/"@ + user@ + "/comments"@);
        self.request(HttpMethod::Get, path.as_str(), RequestBody::Nothing)
    }

    /// Get the bots of a user.
    ///
    /// * `user` - Id of user.
    pub fn get_user_bots(&self, user: String) -> (r: Result<ApiRequest, BoticordError>)
        ensures
            request_for(self@, HttpMethod::Get, "/bots/"@ + user@, RequestBody::Nothing, r),
    {
        let path = path_with("/bots/", &user, "");
        proof { reveal_strlit(""); }
        assert(path@ =~= "/bots/"@ + user@);
        self.request(HttpMethod::Get, path.as_str(), RequestBody::Nothing)
    }

    /// Get the links the current user has shortened.
    pub fn get_my_shorted_links(&self) -> (r: Result<ApiRequest, BoticordError>)
        ensures
            request_for(self@, HttpMethod::Post, "/links/get"@, RequestBody::Empty, r),
    {
        self.request(HttpMethod::Post, "/links/get", RequestBody::Empty)
    }

    /// Get the links the current user has shortened under the given code.
    ///
    /// * `shortener_body` - Short information about the link to search for.
    pub fn search_for_shorted_link(&self, shortener_body: ShortenerBody) -> (r: Result<ApiRequest, BoticordError>)
        ensures
            request_for(self@, HttpMethod::Post, "/links/get"@, RequestBody::Shortener(shortener_body), r),
    {
        self.request(HttpMethod::Post, "/links/get", RequestBody::Shortener(shortener_body))
    }

    /// Creates a new shortened link.
    ///
    /// * `shortener_body` - Information about the link to create.
    pub fn create_shorted_link(&self, shortener_body: ShortenerBody) -> (r: Result<ApiRequest, BoticordError>)
        ensures
            request_for(self@, HttpMethod::Post, "/links/create"@, RequestBody::Shortener(shortener_body), r),
    {
        self.request(HttpMethod::Post, "/links/create", RequestBody::Shortener(shortener_body))
    }

    /// Deletes a shortened link.
    ///
    /// * `shortener_body` - Information about the link to delete.
    pub fn delete_shorted_link(&self, shortener_body: ShortenerBody) -> (r: Result<ApiRequest, BoticordError>)
        ensures
            request_for(self@, HttpMethod::Post, "/links/delete"@, RequestBody::Shortener(shortener_body), r),
    {
        self.request(HttpMethod::Post, "/links/delete", RequestBody::Shortener(shortener_body))
    }

    /// Post current bot's stats.
    ///
    /// * `stats` - Stats to post.
    pub fn post_bot_stats(&self, stats: BotStats) -> (r: Result<ApiRequest, BoticordError>)
        ensures
            request_for(self@, HttpMethod::Post, "/stats"@, RequestBody::BotStats(stats), r),
    {
        self.request(HttpMethod::Post, "/stats", RequestBody::BotStats(stats))
    }

    /// Post a server's stats.
    ///
    /// Only BotiCord's own service bots may do this globally; other tokens get
    /// a 403 answer.
    ///
    /// * `stats` - Stats to post.
    pub fn post_server_stats(&self, stats: ServerStats) -> (r: Result<ApiRequest, BoticordError>)
        ensures
            request_for(self@, HttpMethod::Post, "/server"@, RequestBody::ServerStats(stats), r),
    {
        self.request(HttpMethod::Post, "/server", RequestBody::ServerStats(stats))
    }
}

} // verus!
