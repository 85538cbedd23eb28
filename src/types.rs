//! The records exchanged with the API. Field names are the canonical ones;
//! the wire names (`shortDescription`, `userID`, ...) are the transport's
//! concern.
use vstd::prelude::*;

verus! {

/// Id of a bot.
#[derive(Clone, Debug, Eq, Hash, Ord, PartialEq, PartialOrd)]
pub struct BotId(pub String);

/// Id of a server.
#[derive(Clone, Debug, Eq, Hash, Ord, PartialEq, PartialOrd)]
pub struct ServerId(pub String);

/// Id of a user.
#[derive(Clone, Debug, Eq, Hash, Ord, PartialEq, PartialOrd)]
pub struct UserId(pub String);

/// This model represents information about the server that attached to the bot.
#[derive(Clone, Debug, PartialEq)]
pub struct BotServer {
    /// Id of server.
    pub id: ServerId,
    /// Is server approved?
    pub approved: bool,
}

/// This model represents Bot's stats.
#[derive(Clone, Debug, PartialEq)]
pub struct BotStats {
    /// Count of cached servers.
    pub servers: u64,
    /// Bot's shards count.
    pub shards: u64,
    /// Count of cached users.
    pub users: u64,
}

/// This model represents Server stats.
#[derive(Clone, Debug, PartialEq)]
pub struct ServerStats {
    /// Server Id (wire name `serverID`).
    pub server_id: String,
    /// Is this bump request? (`1` - yes, `0` - no)
    pub up: u64,
    /// Is bot in server members list? (`1` - yes, `0` - no)
    pub status: u64,
    /// Server Name (wire name `serverName`).
    pub server_name: Option<String>,
    /// Server Icon (wire name `serverAvatar`).
    pub server_avatar: Option<String>,
    /// Server Members count, total, cached by the bot (wire name `serverMembersAllCount`).
    pub server_members_all_count: Option<u64>,
    /// Online Server Members count (wire name `serverMembersOnlineCount`).
    pub server_members_online_count: Option<u64>,
    /// Server's Owner Id (wire name `serverOwnerID`).
    pub server_owner_id: Option<String>,
}

/// This model represents Bot's social medias.
#[derive(Clone, Debug, PartialEq)]
pub struct BotLinks {
    /// Bot's support server.
    pub discord: Option<String>,
    /// Bot's github repo.
    pub github: Option<String>,
    /// Bot's website.
    pub site: Option<String>,
}

/// This model represents Server's social medias.
#[derive(Clone, Debug, PartialEq)]
pub struct ServerLinks {
    /// Server's invite.
    pub invite: Option<String>,
    /// Server's website.
    pub site: Option<String>,
    /// Server's youtube channel.
    pub youtube: Option<String>,
    /// Server's twitch channel.
    pub twitch: Option<String>,
    /// Server's steam profile.
    pub steam: Option<String>,
    /// Server's VK group.
    pub vk: Option<String>,
}

/// This model represents Information about the bot.
#[derive(Clone, Debug, PartialEq)]
pub struct BotInformation {
    /// Bumps count.
    pub bumps: u64,
    /// How many times users have added the bot?
    pub added: u64,
    /// Bot's prefix.
    pub prefix: String,
    /// Bot's permissions.
    pub permissions: u64,
    /// Bot's search-tags.
    pub tags: Vec<String>,
    /// Bot's developers.
    pub developers: Vec<UserId>,
    /// Bot's social media.
    pub links: BotLinks,
    /// Bot's library.
    pub library: Option<String>,
    /// Bot's short description (wire name `shortDescription`).
    pub short_description: Option<String>,
    /// Bot's long description (wire name `longDescription`).
    pub long_description: Option<String>,
    /// Bot's badge.
    pub badge: Option<String>,
    /// Bot's stats.
    pub stats: BotStats,
    /// Bot's approval status.
    pub status: String,
}

/// This model represents Information about the server.
#[derive(Clone, Debug, PartialEq)]
pub struct ServerInformation {
    /// Server's name.
    pub name: String,
    /// Server's avatar.
    pub avatar: Option<String>,
    /// Server's members count.
    pub members: Option<Vec<u64>>,
    /// Server's owner.
    pub owner: Option<UserId>,
    /// Bumps count.
    pub bumps: u64,
    /// Server's search-tags.
    pub tags: Vec<String>,
    /// Server's social media.
    pub links: Option<ServerLinks>,
    /// Server's short description (wire name `shortDescription`).
    pub short_description: Option<String>,
    /// Server's long description (wire name `longDescription`).
    pub long_description: Option<String>,
    /// Server's badge.
    pub badge: Option<String>,
}

/// Model that represents a bot.
#[derive(Clone, Debug, PartialEq)]
pub struct Bot {
    /// Bot's Id.
    pub id: BotId,
    /// Bot's page short code (wire name `shortCode`).
    pub short_code: Option<String>,
    /// Bot's page links.
    pub links: Option<Vec<String>>,
    /// Bot's server.
    pub server: Option<BotServer>,
    /// Bot's information.
    pub information: BotInformation,
}

/// Model that represents a server.
#[derive(Clone, Debug, PartialEq)]
pub struct Server {
    /// Server's Id.
    pub id: ServerId,
    /// Server's page short code (wire name `shortCode`).
    pub short_code: Option<String>,
    /// Server's page links.
    pub links: Option<Vec<String>>,
    /// Server's status.
    pub status: String,
    /// Information about the server.
    pub information: ServerInformation,
}

/// This model represents single comment.
#[derive(Clone, Debug, PartialEq)]
pub struct SingleComment {
    /// Comment author Id (wire name `userID`).
    pub user_id: String,
    /// Comment content.
    pub text: String,
    /// Comment vote.
    pub vote: u64,
    /// Was comment updated? (wire name `isUpdated`)
    pub is_updated: bool,
    /// Comment creation timestamp.
    pub created_at: Option<u64>,
    /// Last edit timestamp.
    pub updated_at: Option<u64>,
}

/// This model represents single bot.
#[derive(Clone, Debug, PartialEq)]
pub struct SingleUserBot {
    /// Bot's id.
    pub id: BotId,
    /// Bot's page shortcode (wire name `shortCode`).
    pub short_code: Option<String>,
}

/// This model represents information about user.
#[derive(Clone, Debug, PartialEq)]
pub struct UserInformation {
    /// Id of user.
    pub id: UserId,
    /// Custom status.
    pub status: Option<String>,
    /// User badge.
    pub badge: Option<String>,
    /// User Page shortcode (wire name `shortCode`).
    pub short_code: Option<String>,
    /// User's Website.
    pub site: Option<String>,
    /// User's VK page.
    pub vk: Option<String>,
    /// User's steam profile.
    pub steam: Option<String>,
    /// User's youtube channel.
    pub youtube: Option<String>,
    /// User's twitch account.
    pub twitch: Option<String>,
    /// User's github profile.
    pub git: Option<String>,
}

/// This model represents user's comments.
#[derive(Clone, Debug, PartialEq)]
pub struct UserComments {
    /// Comments on bots pages.
    pub bots: Option<Vec<SingleComment>>,
    /// Comments on server pages.
    pub servers: Option<Vec<SingleComment>>,
}

/// A link made by the link shortener.
#[derive(Clone, Debug, PartialEq)]
pub struct ShortedLink {
    /// Link's id.
    pub id: u64,
    /// Short code of the link.
    pub code: String,
    /// Id of the user who made it (wire name `ownerID`).
    pub owner_id: String,
    /// Domain the short link lives on.
    pub domain: String,
    /// How many times the link was opened.
    pub views: u64,
    /// Creation timestamp.
    pub date: u64,
    /// The address the link leads to.
    pub link: String,
}

/// What the link shortener is asked about: a code, and for creation the
/// address and the domain.
#[derive(Clone, Debug, PartialEq)]
pub struct ShortenerBody {
    /// Short code of the link.
    pub code: String,
    /// The address the link leads to.
    pub link: Option<String>,
    /// Domain the short link lives on.
    pub domain: Option<u64>,
}

} // verus!
