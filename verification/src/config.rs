use vstd::prelude::*;

verus! {

/// Credentials for the social-feed account.
pub struct ConfigMastodon {
    pub account_id: String,
    pub client_key: String,
    pub client_secret: String,
    pub access_token: String,
}

impl ConfigMastodon {
    pub fn new(
        account_id: String,
        client_key: String,
        client_secret: String,
        access_token: String,
    ) -> (c: ConfigMastodon)
        ensures
            c == (ConfigMastodon { account_id, client_key, client_secret, access_token }),
    {
        ConfigMastodon { account_id, client_key, client_secret, access_token }
    }

    pub fn account_id(&self) -> (r: &str)
        ensures
            r@ == self.account_id@,
    {
        self.account_id.as_str()
    }

    pub fn client_key(&self) -> (r: &str)
        ensures
            r@ == self.client_key@,
    {
        self.client_key.as_str()
    }

    pub fn client_secret(&self) -> (r: &str)
        ensures
            r@ == self.client_secret@,
    {
        self.client_secret.as_str()
    }

    pub fn access_token(&self) -> (r: &str)
        ensures
            r@ == self.access_token@,
    {
        self.access_token.as_str()
    }
}

impl Clone for ConfigMastodon {
    fn clone(&self) -> (r: ConfigMastodon)
        ensures
            r == *self,
    {
        ConfigMastodon {
            account_id: self.account_id.clone(),
            client_key: self.client_key.clone(),
            client_secret: self.client_secret.clone(),
            access_token: self.access_token.clone(),
        }
    }
}

/// Where the short-status feed is fetched from.
pub struct ConfigStatusLol {
    pub url: String,
}

impl ConfigStatusLol {
    pub fn new(url: String) -> (c: ConfigStatusLol)
        ensures
            c == (ConfigStatusLol { url }),
    {
        ConfigStatusLol { url }
    }

    pub fn url(&self) -> (r: &str)
        ensures
            r@ == self.url@,
    {
        self.url.as_str()
    }
}

impl Clone for ConfigStatusLol {
    fn clone(&self) -> (r: ConfigStatusLol)
        ensures
            r == *self,
    {
        ConfigStatusLol { url: self.url.clone() }
    }
}

/// Credentials for the game-library provider.
pub struct ConfigSteam {
    pub api_key: String,
    pub steam_id: String,
}

impl ConfigSteam {
    pub fn new(api_key: String, steam_id: String) -> (c: ConfigSteam)
        ensures
            c == (ConfigSteam { api_key, steam_id }),
    {
        ConfigSteam { api_key, steam_id }
    }

    pub fn api_key(&self) -> (r: &str)
        ensures
            r@ == self.api_key@,
    {
        self.api_key.as_str()
    }

    pub fn steam_id(&self) -> (r: &str)
        ensures
            r@ == self.steam_id@,
    {
        self.steam_id.as_str()
    }
}

impl Clone for ConfigSteam {
    fn clone(&self) -> (r: ConfigSteam)
        ensures
            r == *self,
    {
        ConfigSteam { api_key: self.api_key.clone(), steam_id: self.steam_id.clone() }
    }
}

/// Credentials for the toy-collection catalog.
pub struct ConfigBrickset {
    pub api_key: String,
    pub username: String,
    pub password: String,
}

impl ConfigBrickset {
    pub fn new(api_key: String, username: String, password: String) -> (c: ConfigBrickset)
        ensures
            c == (ConfigBrickset { api_key, username, password }),
    {
        ConfigBrickset { api_key, username, password }
    }

    pub fn api_key(&self) -> (r: &str)
        ensures
            r@ == self.api_key@,
    {
        self.api_key.as_str()
    }

    pub fn username(&self) -> (r: &str)
        ensures
            r@ == self.username@,
    {
        self.username.as_str()
    }

    pub fn password(&self) -> (r: &str)
        ensures
            r@ == self.password@,
    {
        self.password.as_str()
    }
}

impl Clone for ConfigBrickset {
    fn clone(&self) -> (r: ConfigBrickset)
        ensures
            r == *self,
    {
        ConfigBrickset {
            api_key: self.api_key.clone(),
            username: self.username.clone(),
            password: self.password.clone(),
        }
    }
}

/// Process configuration: loaded once at startup, read-only thereafter.
pub struct Config {
    pub cache_dir: String,
    pub mastodon: ConfigMastodon,
    pub status_lol: ConfigStatusLol,
    pub steam: ConfigSteam,
    pub brickset: ConfigBrickset,
}

impl Clone for Config {
    fn clone(&self) -> (r: Config)
        ensures
            r == *self,
    {
        Config {
            cache_dir: self.cache_dir.clone(),
            mastodon: self.mastodon.clone(),
            status_lol: self.status_lol.clone(),
            steam: self.steam.clone(),
            brickset: self.brickset.clone(),
        }
    }
}

impl Config {
    pub fn new(
        cache_dir: String,
        mastodon: ConfigMastodon,
        status_lol: ConfigStatusLol,
        steam: ConfigSteam,
        brickset: ConfigBrickset,
    ) -> (c: Config)
        ensures
            c == (Config { cache_dir, mastodon, status_lol, steam, brickset }),
    {
        Config { cache_dir, mastodon, status_lol, steam, brickset }
    }

    pub fn cache_dir(&self) -> (r: &str)
        ensures
            r@ == self.cache_dir@,
    {
        self.cache_dir.as_str()
    }

    pub fn mastodon(&self) -> (r: &ConfigMastodon)
        ensures
            r == &self.mastodon,
    {
        &self.mastodon
    }

    pub fn status_lol(&self) -> (r: &ConfigStatusLol)
        ensures
            r == &self.status_lol,
    {
        &self.status_lol
    }

    pub fn steam(&self) -> (r: &ConfigSteam)
        ensures
            r == &self.steam,
    {
        &self.steam
    }

    pub fn brickset(&self) -> (r: &ConfigBrickset)
        ensures
            r == &self.brickset,
    {
        &self.brickset
    }
}

} // verus!
