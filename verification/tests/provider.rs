use api_auth::auth::{Access, Auth, Header};
use api_auth::clock::Timestamp;
use api_auth::error::AuthError;
use api_auth::lifespan::LifeSpan;
use api_auth::scheme::ApiAuth;

fn provider() -> Auth {
    Auth::new("refresh-token".to_string(), ApiAuth::Bearer)
}

fn provider_with(output: &str, issued: Timestamp) -> Auth {
    let mut auth = provider();
    assert!(auth.complete_refresh(output.as_bytes().to_vec(), issued).is_ok());
    auth
}

fn bearer(credential: &str) -> Header {
    Header("Authorization".to_string(), format!("Bearer {}", credential))
}

#[test]
fn new_provider_has_nothing_cached() {
    let auth = provider();
    assert_eq!(auth.token(), None);
    assert_eq!(auth.refresh_cmd(), "refresh-token");
    assert_eq!(auth.auth_type(), ApiAuth::Bearer);
    assert_eq!(auth.get_token(Timestamp::from_secs(0)), None);
}

#[test]
fn first_access_asks_for_one_refresh_and_presents_its_credential() {
    let mut auth = provider();
    assert_eq!(auth.access_token(Timestamp::from_secs(7)), Access::Refresh);
    let answer = auth.complete_refresh(b"abc123 300".to_vec(), Timestamp::from_secs(8));
    assert_eq!(answer, Ok(Some(bearer("abc123"))));
    assert_eq!(auth.access_token(Timestamp::from_secs(8)), Access::Header(bearer("abc123")));
}

#[test]
fn header_is_authorization_with_scheme_and_credential() {
    let auth = provider_with("s3cr3t -1", Timestamp::from_secs(0));
    match auth.access_token(Timestamp::from_secs(1)) {
        Access::Header(Header(name, value)) => {
            assert_eq!(name, "Authorization");
            assert_eq!(value, "Bearer s3cr3t");
        }
        other => panic!("{:?}", other),
    }
}

#[test]
fn refresh_output_with_lifetime_makes_a_seconds_token() {
    let auth = provider_with("abc123 300", Timestamp::from_secs(12));
    let token = auth.token().unwrap();
    assert_eq!(token.token(), "abc123");
    assert_eq!(token.lifespan(), LifeSpan::Seconds(300));
    assert_eq!(token.last_refreshed(), Timestamp::from_secs(12));
}

#[test]
fn refresh_output_with_negative_lifetime_makes_an_indefinite_token() {
    let auth = provider_with("abc123 -1", Timestamp::from_secs(0));
    assert_eq!(auth.token().unwrap().lifespan(), LifeSpan::Indefinite);
}

#[test]
fn refresh_output_with_zero_lifetime_makes_a_single_use_token() {
    let auth = provider_with("abc123 0", Timestamp::from_secs(0));
    assert_eq!(auth.token().unwrap().lifespan(), LifeSpan::SingleUse);
    assert_eq!(auth.token().unwrap().token(), "abc123");
}

#[test]
fn refresh_token_reads_the_output() {
    let token = Auth::refresh_token(b"abc123 300\n".to_vec(), Timestamp::from_secs(3)).unwrap();
    assert_eq!(token.token(), "abc123");
    assert_eq!(token.lifespan(), LifeSpan::Seconds(300));
    assert_eq!(token.last_refreshed(), Timestamp::from_secs(3));
    assert_eq!(
        Auth::refresh_token(b"abc123".to_vec(), Timestamp::from_secs(3)),
        Err(AuthError::InvalidRefreshOutput)
    );
    assert_eq!(
        Auth::refresh_token(vec![0xFF], Timestamp::from_secs(3)),
        Err(AuthError::CommandExecutionError)
    );
}

#[test]
fn indefinite_token_is_never_refreshed() {
    let auth = provider_with("forever -1", Timestamp::from_secs(5));
    for secs in [0u64, 5, 6, 1_000, 1_000_000_000, u64::MAX] {
        let now = Timestamp::from_secs(secs);
        assert_eq!(auth.access_token(now), Access::Header(bearer("forever")));
        assert_eq!(auth.get_token(now), Some("forever".to_string()));
    }
    assert_eq!(auth.token().unwrap().token(), "forever");
}

#[test]
fn single_use_token_is_refreshed_at_every_access() {
    let mut auth = provider_with("once 0", Timestamp::from_secs(5));
    for secs in [0u64, 5, 6, 1_000, u64::MAX] {
        let now = Timestamp::from_secs(secs);
        assert_eq!(auth.access_token(now), Access::Refresh);
        assert_eq!(auth.get_token(now), None);
    }
    let again = auth.complete_refresh(b"twice 0".to_vec(), Timestamp::from_secs(5));
    assert_eq!(again, Ok(Some(bearer("twice"))));
    assert_eq!(auth.access_token(Timestamp::from_secs(5)), Access::Refresh);
}

#[test]
fn seconds_token_is_reused_up_to_half_its_life() {
    let auth = provider_with("tok 10", Timestamp::from_secs(100));
    for secs in [100u64, 101, 104, 105] {
        assert_eq!(auth.access_token(Timestamp::from_secs(secs)), Access::Header(bearer("tok")));
    }
    assert_eq!(
        auth.access_token(Timestamp::from_nanos(105_999_999_999)),
        Access::Header(bearer("tok"))
    );
}

#[test]
fn seconds_token_is_refreshed_past_half_its_life() {
    let auth = provider_with("tok 10", Timestamp::from_secs(100));
    for secs in [106u64, 107, 110, 111, 1_000_000] {
        assert_eq!(auth.access_token(Timestamp::from_secs(secs)), Access::Refresh);
        assert_eq!(auth.get_token(Timestamp::from_secs(secs)), None);
    }
}

#[test]
fn half_of_an_odd_window_is_rounded_down() {
    let auth = provider_with("tok 5", Timestamp::from_secs(0));
    assert_eq!(auth.access_token(Timestamp::from_secs(2)), Access::Header(bearer("tok")));
    assert_eq!(auth.access_token(Timestamp::from_nanos(2_999_999_999)), Access::Header(bearer("tok")));
    assert_eq!(auth.access_token(Timestamp::from_secs(3)), Access::Refresh);
}

#[test]
fn window_of_one_second_lasts_less_than_a_second() {
    let auth = provider_with("tok 1", Timestamp::from_secs(0));
    assert_eq!(auth.access_token(Timestamp::from_secs(0)), Access::Header(bearer("tok")));
    assert_eq!(auth.access_token(Timestamp::from_nanos(999_999_999)), Access::Header(bearer("tok")));
    assert_eq!(auth.access_token(Timestamp::from_secs(1)), Access::Refresh);
}

#[test]
fn longest_window_is_halved_without_overflow() {
    let auth = provider_with("tok 9223372036854775807", Timestamp::from_secs(0));
    assert_eq!(auth.token().unwrap().lifespan(), LifeSpan::Seconds(i64::MAX));
    assert_eq!(
        auth.access_token(Timestamp::from_secs(4_611_686_018_427_387_903)),
        Access::Header(bearer("tok"))
    );
    assert_eq!(auth.access_token(Timestamp::from_secs(4_611_686_018_427_387_904)), Access::Refresh);
}

#[test]
fn clock_reading_before_issuance_counts_as_no_time_passed() {
    let auth = provider_with("tok 10", Timestamp::from_secs(100));
    assert_eq!(auth.access_token(Timestamp::from_secs(3)), Access::Header(bearer("tok")));
}

#[test]
fn provider_without_command_adds_no_header() {
    let mut auth = Auth::new(String::new(), ApiAuth::Bearer);
    for secs in [0u64, 1, 1_000_000] {
        assert_eq!(auth.access_token(Timestamp::from_secs(secs)), Access::NoHeader);
    }
    assert_eq!(auth.complete_refresh(b"abc123 300".to_vec(), Timestamp::from_secs(1)), Ok(None));
    assert_eq!(auth.token(), None);
    assert_eq!(auth.complete_refresh(b"garbage".to_vec(), Timestamp::from_secs(1)), Ok(None));
    assert_eq!(auth.complete_refresh(vec![0xFF], Timestamp::from_secs(1)), Ok(None));
    assert_eq!(auth.access_token(Timestamp::from_secs(2)), Access::NoHeader);
    assert_eq!(auth, Auth::new(String::new(), ApiAuth::Bearer));
}

#[test]
fn one_field_of_output_fails_and_keeps_the_cache() {
    let mut auth = provider_with("old 300", Timestamp::from_secs(0));
    let before = auth.clone();
    let answer = auth.complete_refresh(b"abc123".to_vec(), Timestamp::from_secs(200));
    assert_eq!(answer, Err(AuthError::InvalidRefreshOutput));
    assert_eq!(auth, before);
    assert_eq!(auth.token().unwrap().token(), "old");
    assert_eq!(auth.token().unwrap().last_refreshed(), Timestamp::from_secs(0));
}

#[test]
fn lifetime_that_is_no_number_fails_and_keeps_the_cache() {
    let mut auth = provider_with("old 300", Timestamp::from_secs(0));
    let before = auth.clone();
    let answer = auth.complete_refresh(b"abc123 notanumber".to_vec(), Timestamp::from_secs(200));
    assert_eq!(answer, Err(AuthError::InvalidRefreshOutput));
    assert_eq!(auth, before);
}

#[test]
fn failed_first_refresh_leaves_nothing_cached() {
    let mut auth = provider();
    assert_eq!(
        auth.complete_refresh(b"abc123".to_vec(), Timestamp::from_secs(1)),
        Err(AuthError::InvalidRefreshOutput)
    );
    assert_eq!(auth.token(), None);
    assert_eq!(auth.access_token(Timestamp::from_secs(1)), Access::Refresh);
    assert_eq!(
        auth.complete_refresh(b"abc123 notanumber".to_vec(), Timestamp::from_secs(1)),
        Err(AuthError::InvalidRefreshOutput)
    );
    assert_eq!(auth, provider());
}

#[test]
fn output_that_is_no_text_fails_and_keeps_the_cache() {
    let mut auth = provider_with("old 0", Timestamp::from_secs(0));
    let before = auth.clone();
    let answer = auth.complete_refresh(vec![0xC3, 0x28, b' ', b'1'], Timestamp::from_secs(9));
    assert_eq!(answer, Err(AuthError::CommandExecutionError));
    assert_eq!(auth, before);
    assert_eq!(auth.access_token(Timestamp::from_secs(9)), Access::Refresh);
}

#[test]
fn stale_token_is_not_presented_after_a_failed_refresh() {
    let mut auth = provider_with("old 10", Timestamp::from_secs(0));
    assert_eq!(auth.access_token(Timestamp::from_secs(6)), Access::Refresh);
    assert!(auth.complete_refresh(b"broken".to_vec(), Timestamp::from_secs(6)).is_err());
    assert_eq!(auth.access_token(Timestamp::from_secs(6)), Access::Refresh);
    assert_eq!(auth.get_token(Timestamp::from_secs(6)), None);
}

#[test]
fn successful_refresh_replaces_the_token_as_a_whole() {
    let mut auth = provider_with("old -1", Timestamp::from_secs(0));
    let answer = auth.complete_refresh(b"new 40".to_vec(), Timestamp::from_secs(50));
    assert_eq!(answer, Ok(Some(bearer("new"))));
    let token = auth.token().unwrap();
    assert_eq!(token.token(), "new");
    assert_eq!(token.lifespan(), LifeSpan::Seconds(40));
    assert_eq!(token.last_refreshed(), Timestamp::from_secs(50));
    assert_eq!(auth.refresh_cmd(), "refresh-token");
}

#[test]
fn end_to_end_with_a_ten_second_token() {
    let start = Timestamp::from_secs(1_000);
    let mut auth = Auth::new("refresh-token".to_string(), ApiAuth::from_str("Bearer").unwrap());

    assert_eq!(auth.access_token(start), Access::Refresh);
    let first = auth.complete_refresh(b"tok1 10".to_vec(), start);
    assert_eq!(first, Ok(Some(Header("Authorization".to_string(), "Bearer tok1".to_string()))));

    let after_four = Timestamp::from_secs(1_004);
    assert_eq!(
        auth.access_token(after_four),
        Access::Header(Header("Authorization".to_string(), "Bearer tok1".to_string()))
    );

    let after_six = Timestamp::from_secs(1_006);
    assert_eq!(auth.access_token(after_six), Access::Refresh);
    let second = auth.complete_refresh(b"tok2 10".to_vec(), after_six);
    assert_eq!(second, Ok(Some(Header("Authorization".to_string(), "Bearer tok2".to_string()))));
    assert_eq!(
        auth.access_token(after_six),
        Access::Header(Header("Authorization".to_string(), "Bearer tok2".to_string()))
    );
}

#[test]
fn copies_are_equal_and_independent() {
    let mut auth = provider_with("tok 10", Timestamp::from_secs(1));
    let copy = auth.clone();
    assert_eq!(copy, auth);
    assert!(auth.complete_refresh(b"other 10".to_vec(), Timestamp::from_secs(2)).is_ok());
    assert_eq!(copy.token().unwrap().token(), "tok");
    assert_eq!(auth.token().unwrap().token(), "other");
    let header = bearer("tok");
    assert_eq!(header.clone(), header);
    let access = Access::Header(header);
    assert_eq!(access.clone(), access);
    assert_eq!(copy.token().unwrap().clone(), *copy.token().unwrap());
}
