//! The records of the API under their older module path.
pub use crate::types::{
    Bot, BotId, DetailedUser, GuildId, Listing, ShardStats, Social, Stats, User, UserId, Webhook,
    WebhookType,
};
