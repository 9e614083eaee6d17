//! The settings that the client runs with.
use vstd::prelude::*;
use vstd::string::*;

verus! {

#[derive(Debug, Clone, PartialEq, Eq)]
pub struct AppConfig {
    pub channel_name: String,
    pub bot_user_name: String,
    pub twitch_client_id: String,
    pub twitch_client_secret: String,
}

impl AppConfig {
    /// Settings from their values; the channel defaults to `captaincallback`.
    pub fn from_values(
        channel_name: Option<String>,
        bot_user_name: String,
        twitch_client_id: String,
        twitch_client_secret: String,
    ) -> (r: Self)
        ensures
            r.channel_name@ == match channel_name {
                Some(c) => c@,
                None => "captaincallback"@,
            },
            r.bot_user_name == bot_user_name,
            r.twitch_client_id == twitch_client_id,
            r.twitch_client_secret == twitch_client_secret,
    {
        let channel_name = match channel_name {
            Some(c) => c,
            None => String::from_str("captaincallback"),
        };
        AppConfig { channel_name, bot_user_name, twitch_client_id, twitch_client_secret }
    }

    /// The channel to join.
    pub fn channel_name(&self) -> (r: &str)
        ensures
            r@ == self.channel_name@,
    {
        self.channel_name.as_str()
    }

    /// The user name that the bot logs in with.
    pub fn bot_user_name(&self) -> (r: &str)
        ensures
            r@ == self.bot_user_name@,
    {
        self.bot_user_name.as_str()
    }

    /// The OAuth2 client id.
    pub fn twitch_client_id(&self) -> (r: &str)
        ensures
            r@ == self.twitch_client_id@,
    {
        self.twitch_client_id.as_str()
    }

    /// The OAuth2 client secret.
    pub fn twitch_client_secret(&self) -> (r: &str)
        ensures
            r@ == self.twitch_client_secret@,
    {
        self.twitch_client_secret.as_str()
    }
}

} // verus!
