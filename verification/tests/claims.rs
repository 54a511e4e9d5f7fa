use todo_api::auth::{validate_claims, ClaimReason};
use todo_api::config::Config;
use todo_api::model::CurrentUser;
use todo_api::token::{member, text_member, time_member, JsonValue, Member, TimeClaim};

const NOW: u64 = 1_700_000_000;

const ISSUER: &str = "https://cognito-idp.eu-west-1.amazonaws.com/eu-west-1_TestPool";

fn config(leeway: u64) -> Config {
    Config::new(
        "client-1".to_string(),
        "s3cr3t".to_string(),
        "eu-west-1_TestPool".to_string(),
        "eu-west-1".to_string(),
    )
    .with_leeway(leeway)
}

fn text(name: &str, value: &str) -> Member {
    Member { name: name.to_string(), value: JsonValue::Text(value.to_string()) }
}

fn number(name: &str, value: u64) -> Member {
    Member { name: name.to_string(), value: JsonValue::Unsigned(value) }
}

fn other(name: &str) -> Member {
    Member { name: name.to_string(), value: JsonValue::Other }
}

fn claims() -> Vec<Member> {
    vec![
        text("iss", ISSUER),
        text("client_id", "client-1"),
        text("token_use", "access"),
        text("username", "alice"),
        number("exp", NOW + 3600),
    ]
}

fn with(extra: Member) -> Vec<Member> {
    let mut all = vec![extra];
    all.extend(claims());
    all
}

fn without(name: &str) -> Vec<Member> {
    claims().into_iter().filter(|claim| claim.name != name).collect()
}

fn alice() -> Result<CurrentUser, ClaimReason> {
    Ok(CurrentUser { username: "alice".to_string() })
}

#[test]
fn claims_that_hold_yield_the_subject() {
    assert_eq!(validate_claims(&claims(), &config(0), NOW), alice());
}

#[test]
fn expiry_is_the_first_second_a_token_is_refused() {
    assert_eq!(validate_claims(&claims(), &config(0), NOW + 3599), alice());
    assert_eq!(validate_claims(&claims(), &config(0), NOW + 3600), Err(ClaimReason::Expiry));
    assert_eq!(validate_claims(&claims(), &config(0), NOW + 3601), Err(ClaimReason::Expiry));
}

#[test]
fn expiry_allows_for_leeway() {
    assert_eq!(validate_claims(&claims(), &config(5), NOW + 3604), alice());
    assert_eq!(validate_claims(&claims(), &config(5), NOW + 3605), Err(ClaimReason::Expiry));
}

#[test]
fn the_default_leeway_is_five_seconds() {
    let config = Config::new(
        "client-1".to_string(),
        "s3cr3t".to_string(),
        "eu-west-1_TestPool".to_string(),
        "eu-west-1".to_string(),
    );
    assert_eq!(config.leeway, 5);
    assert_eq!(validate_claims(&claims(), &config, NOW + 3604), alice());
    assert_eq!(validate_claims(&claims(), &config, NOW + 3605), Err(ClaimReason::Expiry));
}

#[test]
fn expiry_near_the_end_of_time_does_not_wrap() {
    let late = with(number("exp", u64::MAX));
    assert_eq!(validate_claims(&late, &config(u64::MAX), u64::MAX), alice());
    assert_eq!(validate_claims(&late, &config(0), u64::MAX), Err(ClaimReason::Expiry));
    assert_eq!(validate_claims(&late, &config(1), u64::MAX), alice());
}

#[test]
fn absent_expiry_is_accepted_and_unreadable_expiry_is_not() {
    assert_eq!(validate_claims(&without("exp"), &config(0), u64::MAX), alice());
    assert_eq!(validate_claims(&with(other("exp")), &config(0), NOW), Err(ClaimReason::Expiry));
    assert_eq!(
        validate_claims(&with(text("exp", "1700003600")), &config(0), NOW),
        Err(ClaimReason::Expiry)
    );
}

#[test]
fn not_before_must_have_come() {
    let early = with(number("nbf", NOW + 1));
    assert_eq!(validate_claims(&early, &config(0), NOW), Err(ClaimReason::NotBefore));
    assert_eq!(validate_claims(&early, &config(0), NOW + 1), alice());
    assert_eq!(validate_claims(&early, &config(1), NOW), alice());
    assert_eq!(validate_claims(&with(other("nbf")), &config(0), NOW), Err(ClaimReason::NotBefore));
}

#[test]
fn issue_time_must_have_come() {
    let early = with(number("iat", NOW + 1));
    assert_eq!(validate_claims(&early, &config(0), NOW), Err(ClaimReason::IssuedAt));
    assert_eq!(validate_claims(&early, &config(0), NOW + 1), alice());
    assert_eq!(validate_claims(&early, &config(1), NOW), alice());
    assert_eq!(validate_claims(&with(other("iat")), &config(0), NOW), Err(ClaimReason::IssuedAt));
}

#[test]
fn times_near_the_end_of_time_do_not_wrap() {
    let mut far = without("exp");
    far.push(number("nbf", u64::MAX));
    assert_eq!(validate_claims(&far, &config(u64::MAX), 0), alice());
    assert_eq!(validate_claims(&far, &config(u64::MAX), u64::MAX), alice());
    assert_eq!(validate_claims(&far, &config(0), u64::MAX), alice());
    assert_eq!(validate_claims(&far, &config(0), u64::MAX - 1), Err(ClaimReason::NotBefore));
    assert_eq!(validate_claims(&far, &config(1), u64::MAX - 1), alice());
}

#[test]
fn the_issuer_must_be_the_configured_one() {
    assert_eq!(validate_claims(&without("iss"), &config(0), NOW), Err(ClaimReason::Issuer));
    assert_eq!(
        validate_claims(&with(text("iss", "https://example.org")), &config(0), NOW),
        Err(ClaimReason::Issuer)
    );
    assert_eq!(validate_claims(&with(other("iss")), &config(0), NOW), Err(ClaimReason::Issuer));
    let longer = format!("{}/", ISSUER);
    assert_eq!(
        validate_claims(&with(text("iss", &longer)), &config(0), NOW),
        Err(ClaimReason::Issuer)
    );
}

#[test]
fn the_client_must_be_the_configured_one() {
    assert_eq!(validate_claims(&without("client_id"), &config(0), NOW), Err(ClaimReason::Audience));
    assert_eq!(
        validate_claims(&with(text("client_id", "client-2")), &config(0), NOW),
        Err(ClaimReason::Audience)
    );
}

#[test]
fn the_token_must_be_an_access_token() {
    assert_eq!(validate_claims(&without("token_use"), &config(0), NOW), Err(ClaimReason::TokenUse));
    assert_eq!(
        validate_claims(&with(text("token_use", "id")), &config(0), NOW),
        Err(ClaimReason::TokenUse)
    );
}

#[test]
fn the_subject_must_be_named() {
    assert_eq!(validate_claims(&without("username"), &config(0), NOW), Err(ClaimReason::Subject));
    assert_eq!(
        validate_claims(&with(number("username", 7)), &config(0), NOW),
        Err(ClaimReason::Subject)
    );
}

#[test]
fn the_first_claim_that_fails_is_reported() {
    let nothing: Vec<Member> = Vec::new();
    assert_eq!(validate_claims(&nothing, &config(0), NOW), Err(ClaimReason::Issuer));
    let expired_and_foreign = vec![number("exp", NOW), text("iss", "https://example.org")];
    assert_eq!(validate_claims(&expired_and_foreign, &config(0), NOW), Err(ClaimReason::Expiry));
    let early_twice = vec![number("iat", NOW + 9), number("nbf", NOW + 9)];
    assert_eq!(validate_claims(&early_twice, &config(0), NOW), Err(ClaimReason::NotBefore));
}

#[test]
fn the_first_member_of_a_name_counts() {
    let members = vec![text("kid", "key-1"), number("kid", 7), text("alg", "RS256")];
    assert_eq!(member(&members, "kid"), Some(&JsonValue::Text("key-1".to_string())));
    assert_eq!(member(&members, "alg"), Some(&JsonValue::Text("RS256".to_string())));
    assert_eq!(member(&members, "typ"), None);
    assert_eq!(member(&members, "KID"), None);
    assert_eq!(member(&Vec::new(), "kid"), None);
}

#[test]
fn a_text_member_is_a_member_that_holds_a_string() {
    let members = vec![text("kid", "key-1"), number("exp", 7), other("aud")];
    assert_eq!(text_member(&members, "kid"), Some(&"key-1".to_string()));
    assert_eq!(text_member(&members, "exp"), None);
    assert_eq!(text_member(&members, "aud"), None);
    assert_eq!(text_member(&members, "iss"), None);
}

#[test]
fn a_time_member_is_absent_invalid_or_a_number_of_seconds() {
    let members = vec![text("nbf", "now"), number("exp", 7), other("iat")];
    assert_eq!(time_member(&members, "exp"), TimeClaim::At(7));
    assert_eq!(time_member(&members, "nbf"), TimeClaim::Invalid);
    assert_eq!(time_member(&members, "iat"), TimeClaim::Invalid);
    assert_eq!(time_member(&members, "auth_time"), TimeClaim::Absent);
}
