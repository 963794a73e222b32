use vstd::prelude::*;
use crate::chars::{owned, same_text};
use crate::config::Config;

verus! {

/// Tokens returned by a token exchange.
#[derive(Debug, Clone)]
pub struct Tokens {
    pub access_token: String,
    pub refresh_token: Option<String>,
    pub expires_in: Option<u64>,
}

/// Non-secret cached access token and its absolute expiry (epoch seconds).
#[derive(Debug, Clone)]
pub struct TokensFile {
    pub access_token: Option<String>,
    pub expires_at_epoch: Option<i64>,
}

/// Identity and client settings used to obtain access tokens.
#[derive(Debug, Clone)]
pub struct TokenManager {
    pub client_id: String,
    pub client_secret: Option<String>,
    pub redirect_uri: String,
    pub user_email: String,
}

/// Why a [`TokenManager`] could not be made from a configuration.
#[derive(Debug, Clone, Copy, PartialEq, Eq, Structural)]
pub enum ConfigError {
    /// The configuration names no user e-mail address.
    MissingUserEmail,
}

/// What the token manager was told since its last step: the outcome of the
/// action it asked for. Failures carry their cause's text.
#[derive(Debug)]
pub enum TokenEvent {
    /// The token cache was read (this starts every request for a token).
    CacheRead(Result<Option<TokensFile>, String>),
    /// The credential store was asked for the user's refresh token.
    RefreshTokenLoaded(Result<Option<String>, String>),
    /// The refresh exchange finished.
    RefreshExchanged(Result<Tokens, String>),
    /// The interactive consent flow finished.
    ConsentFinished(Result<Tokens, String>),
    /// The new tokens were stored, or storing them failed; either way the
    /// access token is handed out.
    Persisted(String),
}

/// The next action of the token manager.
#[derive(Debug, Clone, PartialEq, Eq)]
pub enum TokenStep {
    /// Hand out this access token: the request is done.
    Return(String),
    /// Load the refresh token of `user_email` from the credential store.
    LoadRefreshToken,
    /// Exchange this refresh token for a new access token.
    Refresh(String),
    /// Run the interactive consent flow.
    Consent,
    /// Store `access_token` with its absolute expiry in the token cache and,
    /// where one came back, `refresh_token` in the credential store under
    /// `user_email`; failures to store are only warnings. Then report
    /// [`TokenEvent::Persisted`] with `access_token`.
    Persist { access_token: String, expires_at: i64, refresh_token: Option<String>, user_email: String },
    /// The request fails with this error.
    Fail(String),
}

/// Seconds an access token is taken to live when the provider omits its lifetime.
pub const FALLBACK_LIFETIME_SECS: i64 = 3500;

/// Redirect URI used when the configuration names none.
pub open spec fn default_redirect_uri() -> Seq<char> {
    "http://127.0.0.1:8080/callback"@
}

/// The cached token is present, with an expiry, and `now` is before it.
pub open spec fn cache_is_valid(now: i64, cached: Option<TokensFile>) -> bool {
    match cached {
        Some(tf) => tf.access_token is Some && tf.expires_at_epoch is Some && now
            < tf.expires_at_epoch->0,
        None => false,
    }
}

impl TokenManager {
    /// Token settings from `cfg`; `client_secret` is the secret found in the
    /// credential store or the environment, if any.
    pub fn from_config(cfg: &Config, client_secret: Option<String>) -> (r: Result<
        TokenManager,
        ConfigError,
    >)
        ensures
            match r {
                Ok(tm) => cfg.user_email matches Some(e) && tm.user_email == e && tm.client_id
                    == cfg.client_id && tm.client_secret == client_secret && match cfg.redirect_uri {
                    Some(u) => tm.redirect_uri == u,
                    None => tm.redirect_uri@ == default_redirect_uri(),
                },
                Err(e) => e == ConfigError::MissingUserEmail && cfg.user_email is None,
            },
    {
        let user_email = match &cfg.user_email {
            Some(e) => e.clone(),
            None => {
                return Err(ConfigError::MissingUserEmail);
            },
        };
        let redirect_uri = match &cfg.redirect_uri {
            Some(u) => u.clone(),
            None => owned("http://127.0.0.1:8080/callback"),
        };
        Ok(TokenManager { client_id: cfg.client_id.clone(), client_secret, redirect_uri, user_email })
    }

    /// The step that stores freshly exchanged `t`.
    pub open spec fn persist_step(&self, now: i64, t: Tokens) -> TokenStep {
        TokenStep::Persist {
            access_token: t.access_token,
            expires_at: expiry_of(now, t.expires_in) as i64,
            refresh_token: t.refresh_token,
            user_email: self.user_email,
        }
    }

    fn persist(&self, now: i64, t: Tokens) -> (r: TokenStep)
        ensures
            r == self.persist_step(now, t),
    {
        let expires_at = expiry_epoch(now, t.expires_in);
        TokenStep::Persist {
            access_token: t.access_token,
            expires_at,
            refresh_token: t.refresh_token,
            user_email: self.user_email.clone(),
        }
    }

    /// One step of obtaining a valid access token at time `now`, in strict
    /// precedence: the cached token while `now` is before its expiry (an
    /// unreadable cache counts as empty); else a refresh exchange when the
    /// credential store holds a refresh token; else, and also when the
    /// refresh exchange fails, the interactive consent flow. A successful
    /// exchange is stored (access token with `expiry_of(now, expires_in)`,
    /// and a returned refresh token) and then handed out whether or not
    /// storing worked; a failed consent flow fails the request with nothing
    /// stored.
    pub fn get_access_token(&self, now: i64, event: TokenEvent) -> (r: TokenStep)
        ensures
            match event {
                TokenEvent::CacheRead(Ok(cached)) => if cache_is_valid(now, cached) {
                    r == TokenStep::Return(cached->0.access_token->0)
                } else {
                    r == TokenStep::LoadRefreshToken
                },
                TokenEvent::CacheRead(Err(_)) => r == TokenStep::LoadRefreshToken,
                TokenEvent::RefreshTokenLoaded(Ok(Some(rt))) => r == TokenStep::Refresh(rt),
                TokenEvent::RefreshTokenLoaded(_) => r == TokenStep::Consent,
                TokenEvent::RefreshExchanged(Ok(t)) => r == self.persist_step(now, t),
                TokenEvent::RefreshExchanged(Err(_)) => r == TokenStep::Consent,
                TokenEvent::ConsentFinished(Ok(t)) => r == self.persist_step(now, t),
                TokenEvent::ConsentFinished(Err(e)) => r == TokenStep::Fail(e),
                TokenEvent::Persisted(at) => r == TokenStep::Return(at),
            },
    {
        match event {
            TokenEvent::CacheRead(Ok(cached)) => {
                if let Some(tf) = cached {
                    if let (Some(at), Some(exp)) = (tf.access_token, tf.expires_at_epoch) {
                        if now < exp {
                            return TokenStep::Return(at);
                        }
                    }
                }
                TokenStep::LoadRefreshToken
            },
            TokenEvent::CacheRead(Err(_)) => TokenStep::LoadRefreshToken,
            TokenEvent::RefreshTokenLoaded(Ok(Some(rt))) => TokenStep::Refresh(rt),
            TokenEvent::RefreshTokenLoaded(_) => TokenStep::Consent,
            TokenEvent::RefreshExchanged(Ok(t)) => self.persist(now, t),
            TokenEvent::RefreshExchanged(Err(_)) => TokenStep::Consent,
            TokenEvent::ConsentFinished(Ok(t)) => self.persist(now, t),
            TokenEvent::ConsentFinished(Err(e)) => TokenStep::Fail(e),
            TokenEvent::Persisted(at) => TokenStep::Return(at),
        }
    }
}

/// `now + expires_in`, or `now` plus [`FALLBACK_LIFETIME_SECS`] when the
/// provider gave no lifetime, saturating at the largest `i64`.
pub open spec fn expiry_of(now: i64, expires_in: Option<u64>) -> int {
    let want = match expires_in {
        Some(s) => now + s,
        None => now + FALLBACK_LIFETIME_SECS,
    };
    if want > i64::MAX {
        i64::MAX as int
    } else {
        want
    }
}

/// Absolute expiry of a token obtained at `now`: `now + expires_in`, or `now`
/// plus [`FALLBACK_LIFETIME_SECS`] when the provider gave no lifetime;
/// saturating at the largest representable instant.
pub fn expiry_epoch(now: i64, expires_in: Option<u64>) -> (r: i64)
    ensures
        r == expiry_of(now, expires_in),
{
    let lifetime: u64 = match expires_in {
        Some(s) => s,
        None => FALLBACK_LIFETIME_SECS as u64,
    };
    if lifetime > i64::MAX as u64 {
        if now >= 0 {
            return i64::MAX;
        }
        let room: u64 = (i64::MAX as u64) + ((-(now as i128)) as u64);
        if lifetime >= room {
            return i64::MAX;
        }
        return (lifetime - ((-(now as i128)) as u64)) as i64;
    }
    let l = lifetime as i64;
    if now > i64::MAX - l {
        i64::MAX
    } else {
        now + l
    }
}

/// `localhost` or `127.0.0.1`: the hosts a consent callback listener binds
/// to the IPv4 loopback address for.
pub open spec fn is_loopback_name(host: Seq<char>) -> bool {
    host == "localhost"@ || host == "127.0.0.1"@
}

/// Address the consent callback listener binds to for a redirect URI's host:
/// loopback names become `127.0.0.1`; any other host is used as it is.
pub fn callback_bind_host(host: &str) -> (r: String)
    ensures
        is_loopback_name(host@) ==> r@ == "127.0.0.1"@,
        !is_loopback_name(host@) ==> r@ == host@,
{
    let mut r = String::new();
    if same_text(host, "localhost") || same_text(host, "127.0.0.1") {
        r.append("127.0.0.1");
    } else {
        r.append(host);
    }
    assert(r@ =~= if is_loopback_name(host@) {
        "127.0.0.1"@
    } else {
        host@
    });
    r
}

/// The authorization code a consent callback carries: the value of the last
/// `code` pair of its query string, if any.
pub open spec fn code_in(pairs: Seq<(Seq<char>, Seq<char>)>) -> Option<Seq<char>>
    decreases pairs.len(),
{
    if pairs.len() == 0 {
        None
    } else if pairs.last().0 == "code"@ {
        Some(pairs.last().1)
    } else {
        code_in(pairs.drop_last())
    }
}

/// The authorization code among a callback's decoded query pairs; a callback
/// without one is answered with a diagnostic and the wait goes on.
pub fn code_from_query(pairs: &Vec<(String, String)>) -> (r: Option<String>)
    ensures
        match r {
            Some(c) => code_in(pairs@.map_values(|p: (String, String)| (p.0@, p.1@))) == Some(c@),
            None => code_in(pairs@.map_values(|p: (String, String)| (p.0@, p.1@))) is None,
        },
{
    let ghost pv = pairs@.map_values(|p: (String, String)| (p.0@, p.1@));
    let mut code: Option<String> = None;
    let mut i: usize = 0;
    while i < pairs.len()
        invariant
            0 <= i <= pairs@.len(),
            pv == pairs@.map_values(|p: (String, String)| (p.0@, p.1@)),
            match code {
                Some(c) => code_in(pv.take(i as int)) == Some(c@),
                None => code_in(pv.take(i as int)) is None,
            },
        decreases pairs.len() - i,
    {
        assert(pv.take(i + 1).drop_last() =~= pv.take(i as int));
        assert(pv.take(i + 1).last() == pv[i as int]);
        if same_text(pairs[i].0.as_str(), "code") {
            code = Some(pairs[i].1.clone());
        }
        i = i + 1;
    }
    assert(pv.take(pairs@.len() as int) =~= pv);
    code
}

} // verus!
