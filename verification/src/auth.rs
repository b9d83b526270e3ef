//! The credential provider: a cached token, the rule that decides when it has
//! to be replaced, and the header that presents it.

use vstd::prelude::*;
use vstd::string::*;
use crate::clock::Timestamp;
use crate::error::AuthError;
use crate::lifespan::LifeSpan;
use crate::output::{read_output, spec_read_output};
use crate::scheme::ApiAuth;

verus! {

/// A header of an outbound request: its name and its value.
#[derive(Debug, PartialEq, Eq)]
pub struct Header(pub String, pub String);

impl Clone for Header {
    fn clone(&self) -> (copy: Header)
        ensures
            copy@ == self@,
    {
        Header(self.0.clone(), self.1.clone())
    }
}

impl View for Header {
    type V = (Seq<char>, Seq<char>);

    open spec fn view(&self) -> (Seq<char>, Seq<char>) {
        (self.0@, self.1@)
    }
}

/// The header that presents `credential` under `scheme`.
pub open spec fn authorization(scheme: ApiAuth, credential: Seq<char>) -> (Seq<char>, Seq<char>) {
    ("Authorization"@, scheme.name() + seq![' '] + credential)
}

/// What a token is: the credential, its lifespan and the clock reading at
/// which it was issued.
pub struct TokenView {
    pub token: Seq<char>,
    pub lifespan: LifeSpan,
    pub last_refreshed: Timestamp,
}

impl TokenView {
    /// The token that the output of a refresh command stands for when it is
    /// read at `now`, or the reason why it stands for none.
    pub open spec fn from_output(output: Seq<u8>, now: Timestamp) -> Result<TokenView, AuthError> {
        match spec_read_output(output) {
            Ok((credential, lifetime)) => Ok(
                TokenView {
                    token: credential,
                    lifespan: LifeSpan::of_lifetime(lifetime),
                    last_refreshed: now,
                },
            ),
            Err(e) => Err(e),
        }
    }

    /// Whether the token has to be replaced before it is used at `now`.
    pub open spec fn stale(self, now: Timestamp) -> bool {
        self.lifespan.stale_after(self.last_refreshed.spec_elapsed_secs(now))
    }
}

/// A credential as a refresh delivered it. A token is never changed: a later
/// refresh replaces it as a whole.
#[derive(Debug, PartialEq, Eq)]
pub struct AuthToken {
    token: String,
    lifespan: LifeSpan,
    last_refreshed: Timestamp,
}

impl View for AuthToken {
    type V = TokenView;

    closed spec fn view(&self) -> TokenView {
        TokenView {
            token: self.token@,
            lifespan: self.lifespan,
            last_refreshed: self.last_refreshed,
        }
    }
}

impl Clone for AuthToken {
    fn clone(&self) -> (copy: AuthToken)
        ensures
            copy@ == self@,
    {
        proof {
            use_type_invariant(self);
        }
        AuthToken {
            token: self.token.clone(),
            lifespan: self.lifespan,
            last_refreshed: self.last_refreshed,
        }
    }
}

impl AuthToken {
    #[verifier::type_invariant]
    spec fn inv(self) -> bool {
        self.lifespan.wf()
    }

    /// The credential string.
    pub fn token(&self) -> (token: &str)
        ensures
            token@ == self@.token,
    {
        self.token.as_str()
    }

    /// How long the credential stays valid.
    pub fn lifespan(&self) -> (lifespan: LifeSpan)
        ensures
            lifespan == self@.lifespan,
            lifespan.wf(),
    {
        proof {
            use_type_invariant(self);
        }
        self.lifespan
    }

    /// The clock reading at which the credential was issued.
    pub fn last_refreshed(&self) -> (issued: Timestamp)
        ensures
            issued == self@.last_refreshed,
    {
        self.last_refreshed
    }
}

/// What a provider is: its scheme, the token it has cached, if any, and the
/// command that delivers a new one.
pub struct AuthView {
    pub auth_type: ApiAuth,
    pub token: Option<TokenView>,
    pub refresh_cmd: Seq<char>,
}

/// What an access comes to.
pub enum AccessView {
    /// The provider adds no header.
    NoHeader,
    /// The provider presents its cached credential in this header.
    Header((Seq<char>, Seq<char>)),
    /// The provider asks for the refresh command to be run once.
    Refresh,
}

impl AuthView {
    /// The cached credential, where there is one that may still be used at
    /// `now`.
    pub open spec fn get_token(self, now: Timestamp) -> Option<Seq<char>> {
        match self.token {
            Some(t) if !t.stale(now) => Some(t.token),
            _ => None,
        }
    }

    /// What an access at `now` comes to. A provider without a refresh command
    /// adds no header. Any other provider presents the cached credential
    /// while it may be used, and asks for a refresh once it may not.
    pub open spec fn access_token(self, now: Timestamp) -> AccessView {
        if self.refresh_cmd.len() == 0 {
            AccessView::NoHeader
        } else {
            match self.get_token(now) {
                Some(credential) => AccessView::Header(authorization(self.auth_type, credential)),
                None => AccessView::Refresh,
            }
        }
    }

    /// The provider and the answer after the refresh command has printed
    /// `output` and the clock reads `now`. A provider without a refresh
    /// command keeps what it has and adds no header. In any other, an output
    /// that stands for a token replaces what was cached, and the answer is
    /// the header that presents the new credential; an output that stands
    /// for none leaves the provider as it was, and the answer is the reason.
    pub open spec fn complete_refresh(self, output: Seq<u8>, now: Timestamp) -> (
        AuthView,
        Result<Option<(Seq<char>, Seq<char>)>, AuthError>,
    ) {
        if self.refresh_cmd.len() == 0 {
            (self, Ok(None))
        } else {
            match TokenView::from_output(output, now) {
                Ok(token) => (
                    AuthView { token: Some(token), ..self },
                    Ok(Some(authorization(self.auth_type, token.token))),
                ),
                Err(e) => (self, Err(e)),
            }
        }
    }
}

/// What the answer to a completed refresh is as plain values.
pub open spec fn answer_view(answer: Result<Option<Header>, AuthError>) -> Result<
    Option<(Seq<char>, Seq<char>)>,
    AuthError,
> {
    match answer {
        Ok(Some(header)) => Ok(Some(header@)),
        Ok(None) => Ok(None),
        Err(e) => Err(e),
    }
}

/// What a delivered token is as plain values.
pub open spec fn token_view(token: Result<AuthToken, AuthError>) -> Result<TokenView, AuthError> {
    match token {
        Ok(t) => Ok(t@),
        Err(e) => Err(e),
    }
}

/// The outcome of asking a provider for its header.
#[derive(Debug, PartialEq, Eq)]
pub enum Access {
    /// The provider has no refresh command: the request goes out without an
    /// authorization header.
    NoHeader,
    /// The cached credential may be used: this header presents it.
    Header(Header),
    /// There is no credential that may be used. The caller runs the refresh
    /// command once and hands what it printed to `complete_refresh`.
    Refresh,
}

impl Clone for Access {
    fn clone(&self) -> (copy: Access)
        ensures
            copy@ == self@,
    {
        match self {
            Access::NoHeader => Access::NoHeader,
            Access::Header(header) => Access::Header(header.clone()),
            Access::Refresh => Access::Refresh,
        }
    }
}

impl View for Access {
    type V = AccessView;

    open spec fn view(&self) -> AccessView {
        match self {
            Access::NoHeader => AccessView::NoHeader,
            Access::Header(header) => AccessView::Header(header@),
            Access::Refresh => AccessView::Refresh,
        }
    }
}

/// A credential provider. It caches the token that the last refresh
/// delivered and decides at each access whether that token may be presented
/// once more.
#[derive(Debug, PartialEq, Eq)]
pub struct Auth {
    auth_type: ApiAuth,
    token: Option<AuthToken>,
    refresh_cmd: String,
}

impl View for Auth {
    type V = AuthView;

    closed spec fn view(&self) -> AuthView {
        AuthView {
            auth_type: self.auth_type,
            token: match self.token {
                Some(t) => Some(t@),
                None => None,
            },
            refresh_cmd: self.refresh_cmd@,
        }
    }
}

impl Clone for Auth {
    fn clone(&self) -> (copy: Auth)
        ensures
            copy@ == self@,
    {
        let token = match &self.token {
            Some(t) => Some(t.clone()),
            None => None,
        };
        Auth { auth_type: self.auth_type, token, refresh_cmd: self.refresh_cmd.clone() }
    }
}

impl Auth {
    /// A provider for `auth_type` that has nothing cached yet. An empty
    /// `refresh_cmd` makes a provider that never adds a header.
    pub fn new(refresh_cmd: String, auth_type: ApiAuth) -> (auth: Auth)
        ensures
            auth@ == (AuthView { auth_type, token: None, refresh_cmd: refresh_cmd@ }),
    {
        Auth { auth_type, token: None, refresh_cmd }
    }

    /// The scheme under which the provider presents its credential.
    pub fn auth_type(&self) -> (scheme: ApiAuth)
        ensures
            scheme == self@.auth_type,
    {
        self.auth_type
    }

    /// The token that the last successful refresh delivered, if there was
    /// one.
    pub fn token(&self) -> (cached: Option<&AuthToken>)
        ensures
            match cached {
                Some(t) => self@.token == Some(t@),
                None => self@.token is None,
            },
    {
        self.token.as_ref()
    }

    /// The command that delivers a new token.
    pub fn refresh_cmd(&self) -> (cmd: &str)
        ensures
            cmd@ == self@.refresh_cmd,
    {
        self.refresh_cmd.as_str()
    }

    /// The header that presents `credential` under this provider's scheme.
    fn header(&self, credential: &str) -> (header: Header)
        ensures
            header@ == authorization(self@.auth_type, credential@),
    {
        let mut value = self.auth_type.to_string();
        value.append(" ");
        value.append(credential);
        proof {
            reveal_strlit(" ");
        }
        Header("Authorization".to_owned(), value)
    }

    /// Asks for the header of a request that goes out at `now`. The provider
    /// is left as it was: only a refresh that succeeded changes what is
    /// cached.
    pub fn access_token(&self, now: Timestamp) -> (access: Access)
        ensures
            access@ == self@.access_token(now),
    {
        if !self.refresh_cmd.as_str().is_empty() {
            match self.get_token(now) {
                Some(t) => Access::Header(self.header(t.as_str())),
                None => Access::Refresh,
            }
        } else {
            Access::NoHeader
        }
    }

    /// The cached credential, where it may still be used at `now`. A token
    /// that never expires is always handed out and a token for one use
    /// never. A token with a window of `n` seconds is handed out until more
    /// than `n / 2` whole seconds have passed since it was issued: it is given
    /// up at half its life, well before it would be refused.
    pub fn get_token(&self, now: Timestamp) -> (credential: Option<String>)
        ensures
            credential.deep_view() == self@.get_token(now),
    {
        match &self.token {
            None => None,
            Some(t) => {
                proof {
                    use_type_invariant(t);
                }
                match t.lifespan {
                    LifeSpan::Indefinite => Some(t.token.clone()),
                    LifeSpan::SingleUse => None,
                    LifeSpan::Seconds(s) => {
                        if t.last_refreshed.elapsed_secs(now) > (s as u128 / 2) {
                            None
                        } else {
                            Some(t.token.clone())
                        }
                    },
                }
            },
        }
    }

    /// Makes a token of what the refresh command printed. The token counts
    /// as issued at `now`, the reading that the caller took once the command
    /// had ended.
    pub fn refresh_token(output: Vec<u8>, now: Timestamp) -> (token: Result<AuthToken, AuthError>)
        ensures
            token_view(token) == TokenView::from_output(output@, now),
    {
        match read_output(output) {
            Ok((token, lifetime)) => Ok(
                AuthToken { token, lifespan: LifeSpan::from(lifetime), last_refreshed: now },
            ),
            Err(e) => Err(e),
        }
    }

    /// Takes in what the refresh command printed, after an access has asked
    /// for a refresh, and answers that access. The new token replaces the
    /// cached one as a whole, and it counts as issued at `now`. A refresh
    /// that failed changes nothing: the error goes to the caller and no
    /// older credential is presented in its place.
    pub fn complete_refresh(&mut self, output: Vec<u8>, now: Timestamp) -> (answer: Result<
        Option<Header>,
        AuthError,
    >)
        ensures
            (final(self)@, answer_view(answer)) == old(self)@.complete_refresh(output@, now),
    {
        if self.refresh_cmd.as_str().is_empty() {
            return Ok(None);
        }
        match Auth::refresh_token(output, now) {
            Ok(token) => {
                let header = self.header(token.token.as_str());
                self.token = Some(token);
                Ok(Some(header))
            },
            Err(e) => Err(e),
        }
    }
}

} // verus!
