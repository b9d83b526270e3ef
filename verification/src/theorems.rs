//! What holds of every provider, of every scheme and of every output of a
//! refresh command, stated over their models and proved.

use vstd::prelude::*;
use vstd::string::*;
use crate::auth::{authorization, AccessView, AuthView, TokenView};
use crate::clock::Timestamp;
use crate::error::AuthError;
use crate::lifespan::LifeSpan;
use crate::output::{
    lemma_fields_hold_no_whitespace, spec_is_whitespace, spec_read_output, spec_split_whitespace,
};
use crate::scheme::ApiAuth;
use crate::text::ascii_lowercase;

verus! {

/// A provider that has a refresh command and nothing cached asks for a
/// refresh at its first access, whenever that access comes. Once the command
/// has printed a credential and a lifetime, the access is answered with the
/// header that presents this credential, and the token made of the two is
/// what the provider has cached from then on.
pub proof fn theorem_first_access_refreshes(
    auth: AuthView,
    now: Timestamp,
    output: Seq<u8>,
    issued: Timestamp,
)
    requires
        auth.refresh_cmd.len() > 0,
        auth.token is None,
    ensures
        auth.access_token(now) == AccessView::Refresh,
        spec_read_output(output) matches Ok((credential, lifetime)) ==> auth.complete_refresh(
            output,
            issued,
        ) == (
            AuthView {
                token: Some(
                    TokenView {
                        token: credential,
                        lifespan: LifeSpan::of_lifetime(lifetime),
                        last_refreshed: issued,
                    },
                ),
                ..auth
            },
            Ok::<Option<(Seq<char>, Seq<char>)>, AuthError>(
                Some(authorization(auth.auth_type, credential)),
            ),
        ),
{
}

/// A cached token that never expires is presented at every access, early or
/// late, and no access asks for a refresh: any two accesses get the same
/// header, the one with the cached credential.
pub proof fn theorem_indefinite_never_refreshes(
    auth: AuthView,
    token: TokenView,
    first: Timestamp,
    second: Timestamp,
)
    requires
        auth.refresh_cmd.len() > 0,
        auth.token == Some(token),
        token.lifespan == LifeSpan::Indefinite,
    ensures
        auth.access_token(first) == AccessView::Header(authorization(auth.auth_type, token.token)),
        auth.access_token(second) == auth.access_token(first),
{
}

/// A cached token for one use is never presented: every access asks for a
/// refresh, however little time has passed since the token was issued.
pub proof fn theorem_single_use_always_refreshes(auth: AuthView, token: TokenView, now: Timestamp)
    requires
        auth.refresh_cmd.len() > 0,
        auth.token == Some(token),
        token.lifespan == LifeSpan::SingleUse,
    ensures
        auth.access_token(now) == AccessView::Refresh,
{
}

/// A cached token with a window of `n` seconds is presented as long as no
/// more than `n / 2` whole seconds, rounded down, have passed since it was
/// issued, and from then on every access asks for a refresh.
pub proof fn theorem_half_life(auth: AuthView, token: TokenView, n: i64, now: Timestamp)
    requires
        auth.refresh_cmd.len() > 0,
        auth.token == Some(token),
        token.lifespan == LifeSpan::Seconds(n),
    ensures
        token.last_refreshed.spec_elapsed_secs(now) <= n / 2 ==> auth.access_token(now)
            == AccessView::Header(authorization(auth.auth_type, token.token)),
        token.last_refreshed.spec_elapsed_secs(now) > n / 2 ==> auth.access_token(now)
            == AccessView::Refresh,
{
}

/// A provider without a refresh command adds no header and never asks for a
/// refresh, whatever it has cached and whenever it is asked. Output that is
/// handed to it all the same is not taken in.
pub proof fn theorem_no_command_no_header(auth: AuthView, now: Timestamp, output: Seq<u8>)
    requires
        auth.refresh_cmd.len() == 0,
    ensures
        auth.access_token(now) == AccessView::NoHeader,
        auth.complete_refresh(output, now) == (
            auth,
            Ok::<Option<(Seq<char>, Seq<char>)>, AuthError>(None),
        ),
{
}

/// A refresh that fails leaves the provider as it was, with the token it had
/// cached or with none, and the failure is the answer: no header is made of
/// an older credential.
pub proof fn theorem_failed_refresh_changes_nothing(
    auth: AuthView,
    output: Seq<u8>,
    now: Timestamp,
)
    requires
        auth.refresh_cmd.len() > 0,
        spec_read_output(output) is Err,
    ensures
        auth.complete_refresh(output, now).0 == auth,
        auth.complete_refresh(output, now).1 == Err::<
            Option<(Seq<char>, Seq<char>)>,
            AuthError,
        >(spec_read_output(output)->Err_0),
{
}

/// A refresh that succeeds replaces the cached token whatever it was, and
/// the command and the scheme stay as they were set at construction.
pub proof fn theorem_refresh_replaces_token(auth: AuthView, output: Seq<u8>, now: Timestamp)
    requires
        auth.refresh_cmd.len() > 0,
        spec_read_output(output) is Ok,
    ensures
        auth.complete_refresh(output, now).0.token == Some(
            TokenView::from_output(output, now)->Ok_0,
        ),
        auth.complete_refresh(output, now).0.refresh_cmd == auth.refresh_cmd,
        auth.complete_refresh(output, now).0.auth_type == auth.auth_type,
{
}

/// Right after a refresh has delivered a token that is good for more than
/// one use, an access at the same clock reading presents the new credential.
/// After one that delivered a token for one use, the next access asks for a
/// refresh again.
pub proof fn theorem_access_after_refresh(auth: AuthView, output: Seq<u8>, now: Timestamp)
    requires
        auth.refresh_cmd.len() > 0,
        spec_read_output(output) is Ok,
    ensures
        ({
            let (credential, lifetime) = spec_read_output(output)->Ok_0;
            let after = auth.complete_refresh(output, now).0;
            if lifetime == 0 {
                after.access_token(now) == AccessView::Refresh
            } else {
                after.access_token(now) == AccessView::Header(
                    authorization(auth.auth_type, credential),
                )
            }
        }),
{
}

/// A token that has to be replaced at one clock reading has to be replaced at
/// every later one: only a refresh leads from a stale token back to one that
/// may be used.
pub proof fn theorem_stale_stays_stale(token: TokenView, earlier: Timestamp, later: Timestamp)
    requires
        earlier.nanos <= later.nanos,
        token.stale(earlier),
    ensures
        token.stale(later),
{
}

/// Every reported lifetime stands for exactly one lifespan: a negative one
/// for a credential that never expires, zero for one that is good for one
/// use, a positive one for that many seconds.
pub proof fn theorem_every_lifetime_has_one_lifespan(lifetime: i64)
    ensures
        LifeSpan::of_lifetime(lifetime).wf(),
        lifetime < 0 <==> LifeSpan::of_lifetime(lifetime) == LifeSpan::Indefinite,
        lifetime == 0 <==> LifeSpan::of_lifetime(lifetime) == LifeSpan::SingleUse,
        lifetime > 0 <==> LifeSpan::of_lifetime(lifetime) == LifeSpan::Seconds(lifetime),
{
}

/// A scheme's own name is read back as that scheme.
pub proof fn theorem_scheme_name_parses_back(scheme: ApiAuth)
    ensures
        ApiAuth::parse(scheme.name()) == Ok::<ApiAuth, AuthError>(scheme),
{
    reveal_strlit("Bearer");
    reveal_strlit("bearer");
    assert(ascii_lowercase("Bearer"@) =~= "bearer"@);
}

/// Every field of a text holds at least one character, and none that is
/// white space.
pub proof fn theorem_fields_hold_no_whitespace(text: Seq<char>, k: int)
    requires
        0 <= k < spec_split_whitespace(text).len(),
    ensures
        spec_split_whitespace(text)[k].len() > 0,
        forall|j: int|
            0 <= j < spec_split_whitespace(text)[k].len() ==> !spec_is_whitespace(
                #[trigger] spec_split_whitespace(text)[k][j],
            ),
{
    lemma_fields_hold_no_whitespace(text, 0, k);
}

} // verus!
