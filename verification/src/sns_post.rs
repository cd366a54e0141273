//! Cross-posting to SNS services: the OAuth2 tokens kept per server and
//! service, when they must be refreshed, and how a login callback picks the
//! client that completes it.

use vstd::prelude::*;

use crate::text::str_eq;
use crate::time::{
    expiry_at, expiry_spec, lifetime_in_range, local_now,
    ExpiryError, Lifetime, UnixTime, DATETIME_MAX_TIMESTAMP, DATETIME_MIN_TIMESTAMP,
};

verus! {

/// The OAuth2 tokens of one server for one service.
pub struct Token {
    /// The refresh token, when the service gave one.
    pub refresh: Option<String>,
    /// The bearer (access) token.
    pub bearer: String,
    /// The Unix time at which the bearer token expires, when it does.
    pub expires: Option<i64>,
}

/// Why a token could not be built or refreshed.
#[derive(Clone, Copy, Debug, PartialEq, Eq)]
pub enum TokenError {
    /// The token's lifetime is more than chrono can hold.
    LifetimeOutOfRange,
    /// The expiry lies beyond what chrono can hold.
    ExpiryOutOfRange,
    /// The bearer token expires, but there is no refresh token.
    MissingRefreshToken,
}

pub open spec fn token_error_of(e: ExpiryError) -> TokenError {
    match e {
        ExpiryError::LifetimeOutOfRange => TokenError::LifetimeOutOfRange,
        ExpiryError::ExpiryOutOfRange => TokenError::ExpiryOutOfRange,
    }
}

fn token_error(e: ExpiryError) -> (res: TokenError)
    ensures
        res == token_error_of(e),
{
    match e {
        ExpiryError::LifetimeOutOfRange => TokenError::LifetimeOutOfRange,
        ExpiryError::ExpiryOutOfRange => TokenError::ExpiryOutOfRange,
    }
}

/// The expiry that a lifetime gives when counted from `now`: none without a
/// lifetime, `now + d` in whole seconds otherwise; a lifetime chrono cannot
/// hold, or a sum beyond what chrono can hold, is an error.
pub open spec fn expires_outcome(now: UnixTime, expires_in: Option<Lifetime>) -> Result<Option<i64>, TokenError> {
    match expires_in {
        None => Ok(None),
        Some(d) => if !lifetime_in_range(d) {
            Err(TokenError::LifetimeOutOfRange)
        } else if expiry_spec(now, d) > DATETIME_MAX_TIMESTAMP {
            Err(TokenError::ExpiryOutOfRange)
        } else {
            Ok(Some(expiry_spec(now, d) as i64))
        },
    }
}

/// `res` is what building a token from `refresh`, `bearer` and `expires_in`
/// at `now`, an instant chrono can hold, gives.
pub open spec fn token_built_at(
    now: UnixTime,
    refresh: Option<String>,
    bearer: String,
    expires_in: Option<Lifetime>,
    res: Result<Token, TokenError>,
) -> bool {
    now.wf() && match expires_outcome(now, expires_in) {
        Ok(e) => res matches Ok(t) && t.refresh == refresh && t.bearer == bearer && t.expires == e,
        Err(err) => res == Err::<Token, TokenError>(err),
    }
}

/// `res` and the expiry `after` are what setting the expiry from `expires_in`
/// at `now`, an instant chrono can hold, gives, the expiry having been
/// `before`: on an error the expiry stays as it was.
pub open spec fn expiry_update_at(
    now: UnixTime,
    expires_in: Option<Lifetime>,
    before: Option<i64>,
    after: Option<i64>,
    res: Result<(), TokenError>,
) -> bool {
    now.wf() && match expires_outcome(now, expires_in) {
        Ok(e) => res is Ok && after == e,
        Err(err) => res == Err::<(), TokenError>(err) && after == before,
    }
}

/// What a token is to be refreshed with: the stored refresh token.
pub open spec fn refresh_plan_spec(t: Token, now: i64) -> Result<Option<Seq<char>>, TokenError> {
    match t.expires {
        None => Ok(None),
        Some(e) => match t.refresh {
            None => Err(TokenError::MissingRefreshToken),
            Some(r) => if now > e {
                Ok(Some(r@))
            } else {
                Ok(None)
            },
        },
    }
}

/// `res` is what deciding on a refresh of `t` at `now` gives.
pub open spec fn refresh_plan_matches(t: Token, now: i64, res: Result<Option<String>, TokenError>) -> bool {
    match refresh_plan_spec(t, now) {
        Ok(None) => res matches Ok(None),
        Ok(Some(r)) => res matches Ok(Some(s)) && s@ == r,
        Err(e) => res == Err::<Option<String>, TokenError>(e),
    }
}

impl Token {
    /// A token from what the OAuth2 server answered, with its expiry counted
    /// from `now`.
    pub fn new_at(
        refresh: Option<String>,
        bearer: String,
        expires_in: Option<Lifetime>,
        now: UnixTime,
    ) -> (res: Result<Token, TokenError>)
        requires
            now.wf(),
            expires_in matches Some(d) ==> d.wf(),
        ensures
            token_built_at(now, refresh, bearer, expires_in, res),
    {
        let mut result = Token { refresh, bearer, expires: None };
        if let Some(d) = expires_in {
            match expiry_at(now, d) {
                Ok(e) => result.expires = Some(e),
                Err(e) => return Err(token_error(e)),
            }
        }
        Ok(result)
    }

    /// A token from what the OAuth2 server answered, with its expiry counted
    /// from the current time: what `new_at` gives at the instant chrono's
    /// clock reads, which is the clock's to say. Without a lifetime, or with
    /// one chrono cannot hold, the answer does not depend on the clock.
    pub fn new(refresh: Option<String>, bearer: String, expires_in: Option<Lifetime>) -> (res: Result<
        Token,
        TokenError,
    >)
        requires
            expires_in matches Some(d) ==> d.wf(),
        ensures
            exists|now: UnixTime| #[trigger] token_built_at(now, refresh, bearer, expires_in, res),
            expires_in is None ==> (res matches Ok(t) && t.refresh == refresh && t.bearer == bearer
                && t.expires is None),
            expires_in matches Some(d) && !lifetime_in_range(d) ==> res == Err::<Token, TokenError>(
                TokenError::LifetimeOutOfRange,
            ),
            res == Err::<Token, TokenError>(TokenError::LifetimeOutOfRange) ==> (
            expires_in matches Some(d) && !lifetime_in_range(d)),
            res matches Err(e) ==> expires_in is Some && e != TokenError::MissingRefreshToken,
    {
        let now = local_now();
        let res = Token::new_at(refresh, bearer, expires_in, now);
        proof {
            assert(token_built_at(now, refresh, bearer, expires_in, res));
        }
        res
    }

    /// Sets the expiry to the current time plus `expires_in`: what
    /// `set_expires_at` does at the instant chrono's clock reads. A lifetime
    /// chrono cannot hold is refused whatever the clock says; on any error the
    /// expiry is left as it was.
    pub fn set_expires(&mut self, expires_in: Lifetime) -> (res: Result<(), TokenError>)
        requires
            expires_in.wf(),
        ensures
            final(self).refresh == old(self).refresh,
            final(self).bearer == old(self).bearer,
            exists|now: UnixTime|
                #[trigger] expiry_update_at(
                    now,
                    Some(expires_in),
                    old(self).expires,
                    final(self).expires,
                    res,
                ),
            !lifetime_in_range(expires_in) ==> res == Err::<(), TokenError>(
                TokenError::LifetimeOutOfRange,
            ),
            res == Err::<(), TokenError>(TokenError::LifetimeOutOfRange) ==> !lifetime_in_range(
                expires_in,
            ),
            res is Err ==> final(self).expires == old(self).expires && res != Err::<(), TokenError>(
                TokenError::MissingRefreshToken,
            ),
    {
        let ghost before = self.expires;
        let now = local_now();
        let res = self.set_expires_at(expires_in, now);
        proof {
            assert(expiry_update_at(now, Some(expires_in), before, self.expires, res));
        }
        res
    }

    /// Sets the expiry to `now + expires_in`; on an error the expiry is left
    /// as it was.
    pub fn set_expires_at(&mut self, expires_in: Lifetime, now: UnixTime) -> (res: Result<
        (),
        TokenError,
    >)
        requires
            now.wf(),
            expires_in.wf(),
        ensures
            final(self).refresh == old(self).refresh,
            final(self).bearer == old(self).bearer,
            expiry_update_at(now, Some(expires_in), old(self).expires, final(self).expires, res),
    {
        match expiry_at(now, expires_in) {
            Ok(e) => {
                self.expires = Some(e);
                Ok(())
            },
            Err(e) => Err(token_error(e)),
        }
    }

    /// Whether the bearer token is to be refreshed at `now`, and with which
    /// refresh token. A token that expires must carry a refresh token, whether
    /// or not it has expired yet.
    pub fn refresh_plan_at(&self, now: i64) -> (res: Result<Option<String>, TokenError>)
        ensures
            refresh_plan_matches(*self, now, res),
    {
        match self.expires {
            None => Ok(None),
            Some(e) => match &self.refresh {
                None => Err(TokenError::MissingRefreshToken),
                Some(r) => if now > e {
                    Ok(Some(r.clone()))
                } else {
                    Ok(None)
                },
            },
        }
    }

    /// Whether the bearer token is to be refreshed now: the answer is what
    /// `refresh_plan_at` gives at the current Unix time, which is some second
    /// chrono can hold; which one is the clock's to say. The answer depends on
    /// the clock only when the token expires and has a refresh token, and then
    /// it is never an error.
    pub fn refresh_plan(&self) -> (res: Result<Option<String>, TokenError>)
        ensures
            exists|now: i64|
                DATETIME_MIN_TIMESTAMP <= now <= DATETIME_MAX_TIMESTAMP
                    && #[trigger] refresh_plan_matches(*self, now, res),
            self.expires is None ==> res matches Ok(None),
            self.expires is Some && self.refresh is None ==> res == Err::<Option<String>, TokenError>(
                TokenError::MissingRefreshToken,
            ),
            self.expires is Some && self.refresh is Some ==> res is Ok,
            res matches Ok(Some(s)) ==> self.refresh matches Some(r) && s@ == r@,
    {
        let now = local_now();
        let res = self.refresh_plan_at(now.secs);
        proof {
            assert(refresh_plan_matches(*self, now.secs, res));
        }
        res
    }

    /// Takes in what the OAuth2 server answered to a refresh, at `now`: the new
    /// bearer token, the new refresh token when one came (the old one stays
    /// otherwise), and the new expiry, which stays as it was on an error.
    pub fn apply_refresh_at(
        &mut self,
        bearer: String,
        refresh: Option<String>,
        expires_in: Option<Lifetime>,
        now: UnixTime,
    ) -> (res: Result<(), TokenError>)
        requires
            now.wf(),
            expires_in matches Some(d) ==> d.wf(),
        ensures
            final(self).bearer == bearer,
            final(self).refresh == (match refresh {
                Some(r) => Some(r),
                None => old(self).refresh,
            }),
            expiry_update_at(now, expires_in, old(self).expires, final(self).expires, res),
    {
        self.bearer = bearer;
        if let Some(r) = refresh {
            self.refresh = Some(r);
        }
        match expires_in {
            Some(d) => match expiry_at(now, d) {
                Ok(e) => {
                    self.expires = Some(e);
                    Ok(())
                },
                Err(e) => Err(token_error(e)),
            },
            None => {
                self.expires = None;
                Ok(())
            },
        }
    }

    /// Takes in what the OAuth2 server answered to a refresh, counting the new
    /// expiry from the current time: what `apply_refresh_at` does at the
    /// instant chrono's clock reads.
    pub fn apply_refresh(&mut self, bearer: String, refresh: Option<String>, expires_in: Option<
        Lifetime,
    >) -> (res: Result<(), TokenError>)
        requires
            expires_in matches Some(d) ==> d.wf(),
        ensures
            final(self).bearer == bearer,
            final(self).refresh == (match refresh {
                Some(r) => Some(r),
                None => old(self).refresh,
            }),
            exists|now: UnixTime|
                #[trigger] expiry_update_at(now, expires_in, old(self).expires, final(self).expires, res),
            expires_in is None ==> res is Ok && final(self).expires is None,
            expires_in matches Some(d) && !lifetime_in_range(d) ==> res == Err::<(), TokenError>(
                TokenError::LifetimeOutOfRange,
            ),
            res == Err::<(), TokenError>(TokenError::LifetimeOutOfRange) ==> (
            expires_in matches Some(d) && !lifetime_in_range(d)),
            res is Err ==> final(self).expires == old(self).expires && res != Err::<(), TokenError>(
                TokenError::MissingRefreshToken,
            ),
    {
        let ghost before = self.expires;
        let now = local_now();
        let res = self.apply_refresh_at(bearer, refresh, expires_in, now);
        proof {
            assert(expiry_update_at(now, expires_in, before, self.expires, res));
        }
        res
    }
}

/// A token whose expiry was counted from `now` and its lifetime `d` expires no
/// earlier than `d`'s whole seconds after `now`, and is not refreshed at any
/// time from `now` up to its expiry.
pub proof fn law_fresh_token_is_not_refreshed(t: Token, now: UnixTime, d: Lifetime, at: i64)
    requires
        now.wf(),
        d.wf(),
        lifetime_in_range(d),
        t.refresh is Some,
        t.expires == Some(expiry_spec(now, d) as i64),
        expiry_spec(now, d) <= DATETIME_MAX_TIMESTAMP,
        now.secs <= at <= expiry_spec(now, d),
    ensures
        expiry_spec(now, d) >= now.secs + d.secs,
        refresh_plan_spec(t, at) == Ok::<Option<Seq<char>>, TokenError>(None),
{
}

/// Where the OAuth2 client that completes a login comes from.
pub enum ClientSource {
    /// The bot's own Twitter client.
    Twitter,
    /// A Mastodon client built from the credentials stored with the login.
    Mastodon { client_id: String, client_secret: String },
}

/// Picks the OAuth2 client for a login callback of `service`: Twitter needs
/// the bot to have a Twitter client, Mastodon needs the stored client id and
/// secret; any other service is refused. `None` is a refusal.
pub fn choose_client(
    service: &str,
    has_twitter_client: bool,
    client_id: Option<String>,
    client_secret: Option<String>,
) -> (res: Option<ClientSource>)
    ensures
        service@ == "Twitter"@ ==> (if has_twitter_client {
            res matches Some(ClientSource::Twitter)
        } else {
            res is None
        }),
        service@ == "Mastodon"@ ==> (match (client_id, client_secret) {
            (Some(i), Some(s)) => (res matches Some(ClientSource::Mastodon { client_id, client_secret })
                && client_id == i && client_secret == s),
            _ => res is None,
        }),
        service@ != "Twitter"@ && service@ != "Mastodon"@ ==> res is None,
{
    proof {
        reveal_strlit("Twitter");
        reveal_strlit("Mastodon");
        assert("Twitter"@.len() != "Mastodon"@.len());
        assert("Twitter"@ != "Mastodon"@);
    }
    if str_eq(service, "Twitter") {
        if has_twitter_client {
            Some(ClientSource::Twitter)
        } else {
            None
        }
    } else if str_eq(service, "Mastodon") {
        match (client_id, client_secret) {
            (Some(client_id), Some(client_secret)) => Some(
                ClientSource::Mastodon { client_id, client_secret },
            ),
            _ => None,
        }
    } else {
        None
    }
}

} // verus!
