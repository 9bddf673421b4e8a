//! GitHub as the identity provider: its configuration, the addresses of a
//! login, and the reading of its answers.

use crate::sso::{begin, state_claims, SsoError};
use crate::token::{token_claims, token_signed, TokenConfig, TokenError};
use crate::user::{Connection, Provider};
use vstd::prelude::*;
use vstd::string::StringExecFns;

verus! {

/// The refusals of GitHub's token endpoint.
#[derive(Clone, Copy, Debug, PartialEq, Eq, Structural)]
pub enum TokenAccessError {
    BadVerificationCode,
    RedirectUriMismatch,
    IncorrectClientCredentials,
}

/// Why the exchange with GitHub failed.
#[derive(Clone, Copy, Debug, PartialEq, Eq, Structural)]
pub enum GitHubError {
    /// The token endpoint refused the code.
    TokenAccess(TokenAccessError),
    /// The answer could not be used.
    UnknownError,
}

/// The answer of the token endpoint: an access token, or the code of an
/// error.
#[derive(Clone, Debug, PartialEq, Eq)]
pub struct TokenResponse {
    pub access_token: Option<String>,
    pub error: Option<String>,
}

/// The profile of the user at GitHub, as far as it is kept.
#[derive(Clone, Debug, PartialEq, Eq)]
pub struct User {
    pub login: String,
    pub id: i64,
    pub two_factor_authentication: bool,
}

/// One email address of the user at GitHub.
#[derive(Clone, Debug, PartialEq, Eq)]
pub struct Email {
    pub address: String,
    pub verified: bool,
    pub primary: bool,
}

/// The parameters of the callback.
#[derive(Clone, Debug, PartialEq, Eq)]
pub struct AuthorizedParams {
    pub code: String,
    pub state: String,
}

/// The application's registration at GitHub.
#[derive(Clone, Debug, PartialEq, Eq)]
pub struct GitHub {
    pub client_id: String,
    pub client_secret: String,
    pub redirect_uri: String,
}

/// Where the browser is sent to log in, and the cookie it is given.
#[derive(Clone, Debug, PartialEq, Eq)]
pub struct Redirect {
    pub location: String,
    pub cookie: String,
}

/// The request that exchanges a code for an access token: a form to post.
#[derive(Clone, Debug, PartialEq, Eq)]
pub struct TokenRequest {
    pub url: String,
    pub accept: String,
    pub client_id: String,
    pub client_secret: String,
    pub code: String,
    pub redirect_uri: String,
}

/// A request to GitHub's API on behalf of a user.
#[derive(Clone, Debug, PartialEq, Eq)]
pub struct ApiRequest {
    pub url: String,
    pub accept: String,
    pub authorization: String,
}

/// The error of the URL parser.
#[verifier::external_type_specification]
#[verifier::external_body]
pub struct ExParseError(url::ParseError);

/// The normal form of an absolute URL, or `None` where the text is none.
pub uninterp spec fn url_text(input: Seq<char>) -> Option<Seq<char>>;

/// Parses an absolute URL with `url::Url::parse` and returns the text that
/// the parsed URL stands for. Believed of it: success and text depend on the
/// input alone.
#[verifier::external_body]
fn parse_url(input: &str) -> (r: Result<String, url::ParseError>)
    ensures
        match r {
            Ok(text) => url_text(input@) == Some(text@),
            Err(_) => url_text(input@) is None,
        },
{
    url::Url::parse(input).map(String::from)
}

/// The normal form of the URL that `path` names relative to the absolute
/// URL `base`, or `None` where there is none.
pub uninterp spec fn url_joined(base: Seq<char>, path: Seq<char>) -> Option<Seq<char>>;

/// Parses `base` with `url::Url::parse`, resolves `path` against it with
/// `url::Url::join`, and returns the text of the result. Believed of it:
/// success and text depend on the two inputs alone.
#[verifier::external_body]
fn join_url(base: &str, path: &str) -> (r: Option<String>)
    ensures
        match r {
            Some(text) => url_joined(base@, path@) == Some(text@),
            None => url_joined(base@, path@) is None,
        },
{
    url::Url::parse(base).ok()?.join(path).ok().map(String::from)
}

/// The error that the code of a refusal stands for.
pub open spec fn token_access_error(code: Seq<char>) -> Option<TokenAccessError> {
    if code == "bad_verification_code"@ {
        Some(TokenAccessError::BadVerificationCode)
    } else if code == "redirect_uri_mismatch"@ {
        Some(TokenAccessError::RedirectUriMismatch)
    } else if code == "incorrect_client_credentials"@ {
        Some(TokenAccessError::IncorrectClientCredentials)
    } else {
        None
    }
}

/// An error of the token endpoint in words.
pub open spec fn token_access_text(error: TokenAccessError) -> Seq<char> {
    match error {
        TokenAccessError::BadVerificationCode => "code passed is incorrect or expired"@,
        TokenAccessError::RedirectUriMismatch =>
            "redirect_uri MUST match the registered callback URL for this application"@,
        TokenAccessError::IncorrectClientCredentials =>
            "client_id and/or client_secret passed are incorrect"@,
    }
}

/// An error of the exchange in words.
pub open spec fn github_text(error: GitHubError) -> Seq<char> {
    match error {
        GitHubError::TokenAccess(e) => "access token error: "@ + token_access_text(e),
        GitHubError::UnknownError => "unknown error"@,
    }
}

/// The HTTP status that an error of the exchange is answered with: the
/// refusal of a code is the caller's fault, all else the server's.
pub open spec fn github_status(error: GitHubError) -> u16 {
    match error {
        GitHubError::TokenAccess(TokenAccessError::BadVerificationCode) => 401,
        GitHubError::TokenAccess(TokenAccessError::RedirectUriMismatch) => 401,
        GitHubError::TokenAccess(TokenAccessError::IncorrectClientCredentials) => 500,
        GitHubError::UnknownError => 500,
    }
}

/// What the answer of the token endpoint amounts to: the error it names;
/// else its access token; an unknown error code, or neither, is an unknown
/// error.
pub open spec fn token_outcome(access_token: Option<Seq<char>>, error: Option<Seq<char>>)
    -> Result<Seq<char>, GitHubError> {
    match error {
        Some(code) => match token_access_error(code) {
            Some(e) => Err(GitHubError::TokenAccess(e)),
            None => Err(GitHubError::UnknownError),
        },
        None => match access_token {
            Some(t) => Ok(t),
            None => Err(GitHubError::UnknownError),
        },
    }
}

/// The place of the first email that is primary and verified, or the length
/// where there is none.
pub open spec fn first_trusted(emails: Seq<Email>) -> int
    decreases emails.len(),
{
    if emails.len() == 0 {
        0
    } else if emails[0].primary && emails[0].verified {
        0
    } else {
        1 + first_trusted(emails.drop_first())
    }
}

/// The address of the login page for this registration and state.
pub open spec fn authorize_location(client_id: Seq<char>, redirect_uri: Seq<char>, state: Seq<char>)
    -> Seq<char> {
    "https://github.com/login/oauth/authorize?client_id="@ + client_id + "&redirect_uri="@
        + redirect_uri + "&scope=read:user%20user:email&state="@ + state
}

/// The cookie that holds the state for the callback.
pub open spec fn state_cookie(state: Seq<char>) -> Seq<char> {
    "state="@ + state + "; Path=/v1/sso/github; SameSite=Lax; Secure; HttpOnly"@
}

impl TokenAccessError {
    /// Reads the code of a refusal.
    pub fn from_code(code: &String) -> (r: Option<TokenAccessError>)
        ensures
            r == token_access_error(code@),
    {
        if *code == String::from_str("bad_verification_code") {
            Some(TokenAccessError::BadVerificationCode)
        } else if *code == String::from_str("redirect_uri_mismatch") {
            Some(TokenAccessError::RedirectUriMismatch)
        } else if *code == String::from_str("incorrect_client_credentials") {
            Some(TokenAccessError::IncorrectClientCredentials)
        } else {
            None
        }
    }

    /// The refusal in words.
    pub fn message(&self) -> (r: String)
        ensures
            r@ == token_access_text(*self),
    {
        match self {
            TokenAccessError::BadVerificationCode => String::from_str(
                "code passed is incorrect or expired",
            ),
            TokenAccessError::RedirectUriMismatch => String::from_str(
                "redirect_uri MUST match the registered callback URL for this application",
            ),
            TokenAccessError::IncorrectClientCredentials => String::from_str(
                "client_id and/or client_secret passed are incorrect",
            ),
        }
    }
}

impl GitHubError {
    /// The HTTP status that the error is answered with.
    pub fn status_code(&self) -> (r: u16)
        ensures
            r == github_status(*self),
    {
        match self {
            GitHubError::TokenAccess(e) => match e {
                TokenAccessError::BadVerificationCode | TokenAccessError::RedirectUriMismatch => 401,
                TokenAccessError::IncorrectClientCredentials => 500,
            },
            GitHubError::UnknownError => 500,
        }
    }

    /// The error in words.
    pub fn message(&self) -> (r: String)
        ensures
            r@ == github_text(*self),
    {
        match self {
            GitHubError::TokenAccess(e) => String::from_str("access token error: ").concat(
                e.message().as_str(),
            ),
            GitHubError::UnknownError => String::from_str("unknown error"),
        }
    }
}

impl TokenResponse {
    /// The access token of the answer, or the error that the answer amounts
    /// to: see `token_outcome`.
    pub fn into_access_token(self) -> (r: Result<String, GitHubError>)
        ensures
            match r {
                Ok(t) => token_outcome(
                    match self.access_token {
                        Some(a) => Some(a@),
                        None => None,
                    },
                    match self.error {
                        Some(c) => Some(c@),
                        None => None,
                    },
                ) == Ok::<Seq<char>, GitHubError>(t@),
                Err(e) => token_outcome(
                    match self.access_token {
                        Some(a) => Some(a@),
                        None => None,
                    },
                    match self.error {
                        Some(c) => Some(c@),
                        None => None,
                    },
                ) == Err::<Seq<char>, GitHubError>(e),
            },
    {
        match self.error {
            Some(code) => match TokenAccessError::from_code(&code) {
                Some(e) => Err(GitHubError::TokenAccess(e)),
                None => Err(GitHubError::UnknownError),
            },
            None => match self.access_token {
                Some(t) => Ok(t),
                None => Err(GitHubError::UnknownError),
            },
        }
    }
}

impl User {
    /// The connection that this profile amounts to.
    pub fn connection(&self) -> (r: Connection)
        ensures
            r.provider == Provider::GitHub,
            r.user_id == self.id,
            r.login@ == self.login@,
            r.two_factor_enabled == self.two_factor_authentication,
    {
        Connection {
            provider: Provider::GitHub,
            user_id: self.id,
            login: self.login.clone(),
            two_factor_enabled: self.two_factor_authentication,
        }
    }
}

/// Selects the email that may authenticate the account: the first that is
/// both primary and verified. Without one the identity has no valid email.
pub fn select_email(emails: &Vec<Email>) -> (r: Result<String, SsoError>)
    ensures
        match r {
            Ok(address) => first_trusted(emails@) < emails@.len() && address@
                == emails@[first_trusted(emails@)].address@,
            Err(e) => e == SsoError::EmailInvalid && first_trusted(emails@) == emails@.len(),
        },
{
    let mut i: usize = 0;
    proof {
        assert(emails@.skip(0) =~= emails@);
    }
    while i < emails.len()
        invariant
            0 <= i <= emails.len(),
            first_trusted(emails@) == i + first_trusted(emails@.skip(i as int)),
        decreases emails.len() - i,
    {
        proof {
            assert(emails@.skip(i as int).drop_first() =~= emails@.skip(i + 1));
        }
        if emails[i].primary && emails[i].verified {
            return Ok(emails[i].address.clone());
        }
        i += 1;
    }
    Err(SsoError::EmailInvalid)
}

impl GitHub {
    /// The registration with these credentials. The redirect address must be
    /// an absolute URL and is kept in its normal form.
    pub fn new(client_id: String, client_secret: String, redirect: &str) -> (r: Result<
        GitHub,
        SsoError,
    >)
        ensures
            match r {
                Ok(gh) => gh.client_id@ == client_id@ && gh.client_secret@ == client_secret@
                    && url_text(redirect@) == Some(gh.redirect_uri@),
                Err(e) => e == SsoError::InvalidRedirect && url_text(redirect@) is None,
            },
    {
        match parse_url(redirect) {
            Ok(redirect_uri) => Ok(GitHub { client_id, client_secret, redirect_uri }),
            Err(_) => Err(SsoError::InvalidRedirect),
        }
    }

    /// The request that exchanges `code` for an access token, with the
    /// credentials and the redirect address exactly as registered. It is
    /// made once: a code is good for one exchange.
    pub fn get_access_token(&self, code: &str) -> (r: Option<TokenRequest>)
        ensures
            match r {
                Some(q) => {
                    &&& url_text("https://github.com/login/oauth/access_token"@) == Some(q.url@)
                    &&& q.accept@ == "application/json"@
                    &&& q.client_id@ == self.client_id@
                    &&& q.client_secret@ == self.client_secret@
                    &&& q.code@ == code@
                    &&& q.redirect_uri@ == self.redirect_uri@
                },
                None => url_text("https://github.com/login/oauth/access_token"@) is None,
            },
    {
        match parse_url("https://github.com/login/oauth/access_token") {
            Ok(url) => Some(
                TokenRequest {
                    url,
                    accept: String::from_str("application/json"),
                    client_id: self.client_id.clone(),
                    client_secret: self.client_secret.clone(),
                    code: String::from_str(code),
                    redirect_uri: self.redirect_uri.clone(),
                },
            ),
            Err(_) => None,
        }
    }

    /// The request for `path` of the API, authorised by the access token.
    pub fn api_get(&self, path: &str, access_token: &str) -> (r: Option<ApiRequest>)
        ensures
            match r {
                Some(q) => {
                    &&& url_joined("https://api.github.com"@, path@) == Some(q.url@)
                    &&& q.accept@ == "application/vnd.github.v3+json"@
                    &&& q.authorization@ == "token "@ + access_token@
                },
                None => url_joined("https://api.github.com"@, path@) is None,
            },
    {
        match join_url("https://api.github.com", path) {
            Some(url) => Some(
                ApiRequest {
                    url,
                    accept: String::from_str("application/vnd.github.v3+json"),
                    authorization: String::from_str("token ").concat(access_token),
                },
            ),
            None => None,
        }
    }

    /// The request for the user's profile.
    pub fn get_current_user(&self, access_token: &str) -> (r: Option<ApiRequest>)
        ensures
            match r {
                Some(q) => {
                    &&& url_joined("https://api.github.com"@, "/user"@) == Some(q.url@)
                    &&& q.accept@ == "application/vnd.github.v3+json"@
                    &&& q.authorization@ == "token "@ + access_token@
                },
                None => url_joined("https://api.github.com"@, "/user"@) is None,
            },
    {
        self.api_get("/user", access_token)
    }

    /// The request for the user's email addresses.
    pub fn get_emails(&self, access_token: &str) -> (r: Option<ApiRequest>)
        ensures
            match r {
                Some(q) => {
                    &&& url_joined("https://api.github.com"@, "/user/emails"@) == Some(q.url@)
                    &&& q.accept@ == "application/vnd.github.v3+json"@
                    &&& q.authorization@ == "token "@ + access_token@
                },
                None => url_joined("https://api.github.com"@, "/user/emails"@) is None,
            },
    {
        self.api_get("/user/emails", access_token)
    }

    /// Where the browser is sent to log in with this state, and the cookie
    /// that brings the state back.
    pub fn redirect(&self, state: &str) -> (r: Redirect)
        ensures
            r.location@ == authorize_location(self.client_id@, self.redirect_uri@, state@),
            r.cookie@ == state_cookie(state@),
    {
        let location = String::from_str("https://github.com/login/oauth/authorize?client_id=")
            .concat(self.client_id.as_str()).concat("&redirect_uri=").concat(
            self.redirect_uri.as_str(),
        ).concat("&scope=read:user%20user:email&state=").concat(state);
        let cookie = String::from_str("state=").concat(state).concat(
            "; Path=/v1/sso/github; SameSite=Lax; Secure; HttpOnly",
        );
        Redirect { location, cookie }
    }
}

/// Starts a login at `now`: mints the state token and returns the redirect
/// that carries it to the provider, with the cookie that holds the same
/// token for the callback. It always succeeds.
pub fn authorize(gh: &GitHub, config: &TokenConfig, now: u64) -> (r: Result<Redirect, TokenError>)
    requires
        now + config.state_ttl <= u64::MAX,
    ensures
        r is Ok,
        match r {
            Ok(redirect) => exists|state: Seq<char>|
                {
                    &&& #[trigger] token_claims(state) == Some(
                        state_claims(config.audience@, now, config.state_ttl),
                    )
                    &&& token_signed(state, config.algorithm, config.secret@)
                    &&& redirect.location@ == authorize_location(
                        gh.client_id@,
                        gh.redirect_uri@,
                        state,
                    )
                    &&& redirect.cookie@ == state_cookie(state)
                },
            Err(_) => false,
        },
{
    match begin(config, now) {
        Ok((state, _)) => Ok(gh.redirect(state.as_str())),
        Err(e) => Err(e),
    }
}

/// The first email that is primary and verified is what `first_trusted`
/// points to: none before it is both, and it is.
pub proof fn lemma_first_trusted(emails: Seq<Email>)
    ensures
        0 <= first_trusted(emails) <= emails.len(),
        forall|k: int|
            0 <= k < first_trusted(emails) ==> !((#[trigger] emails[k]).primary
                && emails[k].verified),
        first_trusted(emails) < emails.len() ==> emails[first_trusted(emails)].primary
            && emails[first_trusted(emails)].verified,
    decreases emails.len(),
{
    if emails.len() > 0 && !(emails[0].primary && emails[0].verified) {
        let rest = emails.drop_first();
        lemma_first_trusted(rest);
        assert forall|k: int| 0 <= k < first_trusted(emails) implies !((
        #[trigger] emails[k]).primary && emails[k].verified) by {
            if k > 0 {
                assert(rest[k - 1] == emails[k]);
            }
        }
    }
}

} // verus!
