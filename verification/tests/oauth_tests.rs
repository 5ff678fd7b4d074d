use zocli::error::ZocliError;
use zocli::oauth::{
    deduped_scopes, oauth_error, refreshed_credential, start_pkce_authorization, OauthService,
    ZohoRefreshResponse, ZohoTokenResponse, REDIRECT_URI,
};
use zocli::runtime_context::{
    auth_state_at, parse_credential_ref, plan_stored_token, token_source, CredentialReference,
    StoredTokenPlan, TokenSource,
};
use zocli::credential_store::{StoredCredential, StoredOauthCredential};
use zocli::model::{AccountConfig, NewAccountInput};

#[test]
fn scopes_are_deduplicated_in_order() {
    let scopes = deduped_scopes(&[OauthService::Mail, OauthService::Drive, OauthService::Mail]);
    assert_eq!(
        scopes,
        vec![
            "ZohoMail.messages.ALL",
            "ZohoMail.folders.ALL",
            "ZohoMail.accounts.READ",
            "WorkDrive.files.ALL",
            "WorkDrive.workspace.ALL",
            "WorkDrive.team.ALL",
        ]
    );
    assert_eq!(OauthService::Calendar.as_str(), "calendar");
    assert_eq!(OauthService::Calendar.scopes().len(), 2);
}

#[test]
fn pkce_authorization_builds_the_authorize_url() {
    let session = start_pkce_authorization(
        &[OauthService::Mail],
        "client id",
        Some("secret"),
        "https://accounts.zoho.eu",
        Some("me@x.com"),
    )
    .unwrap();
    let url = &session.request.authorization_url;
    assert!(url.starts_with("https://accounts.zoho.eu/oauth/v2/auth?response_type=code&client_id=client+id&redirect_uri=http%3A%2F%2F127.0.0.1%3A9004%2Fcallback&scope=ZohoMail.messages.ALL%2CZohoMail.folders.ALL%2CZohoMail.accounts.READ&state="));
    assert!(url.contains("&code_challenge_method=S256&access_type=offline&prompt=consent&login_hint=me%40x.com"));
    assert_eq!(session.request.redirect_uri, REDIRECT_URI);
    assert_eq!(session.request.code_challenge_method, "S256");
    assert_eq!(session.code_verifier.len(), 43);
    assert_eq!(session.request.state.len(), 22);
    assert_eq!(session.client_secret.as_deref(), Some("secret"));
}

#[test]
fn pkce_authorization_needs_a_service_and_a_valid_base() {
    match start_pkce_authorization(&[], "c", None, "https://accounts.zoho.com", None) {
        Err(ZocliError::Config(m)) => assert_eq!(m, "OAuth authorization requires at least one target service"),
        _ => panic!("expected a configuration error"),
    }
    assert!(matches!(
        start_pkce_authorization(&[OauthService::Mail], "c", None, "not a url", None),
        Err(ZocliError::Config(_))
    ));
}

#[test]
fn token_responses_become_stored_credentials() {
    let resp = ZohoTokenResponse {
        access_token: "a".into(),
        refresh_token: Some("r".into()),
        token_type: "Bearer".into(),
        expires_in: 3600,
        scope: "ZohoMail.messages.ALL,,ZohoCalendar.event.ALL".into(),
        api_domain: Some("https://www.zohoapis.eu".into()),
    };
    let c = resp.into_stored_at("client", 1000);
    assert_eq!(c.kind, "oauth_pkce");
    assert_eq!(c.expires_at_epoch_secs, 4600);
    assert_eq!(c.scope, vec!["ZohoMail.messages.ALL".to_string(), "ZohoCalendar.event.ALL".to_string()]);
    assert_eq!(c.refresh_token.as_deref(), Some("r"));
    let refreshed = refreshed_credential(
        ZohoRefreshResponse {
            access_token: "b".into(),
            token_type: "Bearer".into(),
            expires_in: u64::MAX,
            scope: String::new(),
            api_domain: None,
        },
        "old-refresh",
        "client",
        5,
    );
    assert_eq!(refreshed.expires_at_epoch_secs, u64::MAX);
    assert!(refreshed.scope.is_empty());
    assert_eq!(refreshed.refresh_token.as_deref(), Some("old-refresh"));
}

#[test]
fn oauth_errors_quote_the_provider() {
    match oauth_error(400, Some("invalid_code"), None, "token refresh") {
        ZocliError::Auth(m) => assert_eq!(m, "Zoho OAuth token refresh failed with status 400 (invalid_code): No provider message returned."),
        other => panic!("unexpected {:?}", other),
    }
    match oauth_error(500, None, Some("down"), "authorization code exchange") {
        ZocliError::Auth(m) => assert_eq!(m, "Zoho OAuth authorization code exchange failed with status 500 (unknown_oauth_error): down"),
        other => panic!("unexpected {:?}", other),
    }
}

#[test]
fn credential_references_are_parsed() {
    assert!(matches!(parse_credential_ref("env:TOKEN"), Some(CredentialReference::Env(v)) if v == "TOKEN"));
    assert!(matches!(parse_credential_ref("store:mail"), Some(CredentialReference::Store(v)) if v == "mail"));
    assert!(parse_credential_ref("keychain:x").is_none());
}

fn stored(expires: u64) -> StoredOauthCredential {
    StoredOauthCredential {
        kind: "oauth_pkce".into(),
        access_token: "tok".into(),
        refresh_token: None,
        token_type: "Bearer".into(),
        expires_at_epoch_secs: expires,
        scope: vec!["s1".into()],
        client_id: "c".into(),
        api_domain: None,
    }
}

#[test]
fn auth_state_reports_each_case() {
    let s = auth_state_at(None, "mail", false, None, 0);
    assert_eq!(s.credential_state, "not_configured");
    let s = auth_state_at(Some("env:TOKEN"), "mail", true, None, 0);
    assert_eq!((s.credential_state, s.detail.as_str()), ("env_present", "using environment variable TOKEN"));
    let s = auth_state_at(Some("env:TOKEN"), "mail", false, None, 0);
    assert_eq!(s.detail, "environment variable TOKEN is not set");
    let s = auth_state_at(Some("store:drive"), "mail", false, None, 0);
    assert_eq!((s.credential_state, s.detail.as_str()), ("store_mismatch", "reference points to store:drive"));
    let s = auth_state_at(Some("store:mail"), "mail", false, Some(StoredCredential::Oauth(stored(1000))), 100);
    assert_eq!((s.credential_state, s.detail.as_str()), ("store_present", "stored OAuth token valid until 1000"));
    assert_eq!(s.scope, vec!["s1".to_string()]);
    let s = auth_state_at(Some("store:mail"), "mail", false, Some(StoredCredential::Oauth(stored(160))), 100);
    assert_eq!(s.credential_state, "store_expired");
    let s = auth_state_at(Some("store:mail"), "mail", false, None, 100);
    assert_eq!((s.credential_state, s.detail.as_str()), ("store_missing", "no local secret found for mail"));
    let s = auth_state_at(Some("vault:x"), "mail", false, None, 100);
    assert_eq!(s.credential_state, "unsupported_reference");
    assert_eq!(s.credential_ref.as_deref(), Some("vault:x"));
}

#[test]
fn stored_tokens_are_used_or_refreshed() {
    assert!(matches!(plan_stored_token("a", "mail", Some(stored(1000)), 100), Ok(StoredTokenPlan::Use(t)) if t == "tok"));
    let mut old = stored(100);
    old.refresh_token = Some("r".into());
    assert!(matches!(plan_stored_token("a", "mail", Some(old), 100), Ok(StoredTokenPlan::Refresh(t)) if t == "r"));
    match plan_stored_token("a", "mail", Some(stored(100)), 100) {
        Err(ZocliError::Auth(m)) => assert!(m.contains("zocli login --profile a")),
        _ => panic!("expected an auth error"),
    }
    assert!(matches!(plan_stored_token("a", "mail", None, 0), Err(ZocliError::Auth(_))));
}

#[test]
fn token_sources_follow_the_reference() {
    let mut acct = AccountConfig::new(NewAccountInput {
        email: "a@x.com".into(),
        default: true,
        datacenter: "com".into(),
        account_id: "1".into(),
        org_id: None,
        client_id: "c".into(),
        client_secret: None,
    });
    assert!(matches!(token_source("a", &acct), Ok(TokenSource::Store(s)) if s == "oauth"));
    acct.credential_ref = Some("bad".into());
    match token_source("a", &acct) {
        Err(ZocliError::Config(m)) => assert_eq!(m, "unsupported credential_ref format: bad"),
        _ => panic!("expected a configuration error"),
    }
    acct.credential_ref = None;
    assert!(matches!(token_source("a", &acct), Err(ZocliError::Auth(_))));
}

#[test]
fn callback_request_yields_the_code() {
    assert_eq!(
        zocli::oauth::callback_code(
            "GET /callback?state=s1&code=abc%20123&code=second HTTP/1.1\r\nHost: 127.0.0.1:9004\r\n\r\n"
        ),
        Some("abc 123".to_string())
    );
    assert_eq!(
        zocli::oauth::callback_code("GET /callback?error=access_denied HTTP/1.1\r\n\r\n"),
        None
    );
    assert_eq!(zocli::oauth::callback_code(""), None);
    let ok = zocli::oauth::callback_response(true);
    assert!(ok.starts_with("HTTP/1.1 200 OK\r\nContent-Type: text/html\r\nConnection: close\r\n\r\n"));
    assert!(ok.contains("Authorization successful"));
    let failed = zocli::oauth::callback_response(false);
    assert!(failed.starts_with("HTTP/1.1 400 Bad Request\r\n"));
    assert!(failed.contains("No code received."));
}

#[test]
fn token_requests_carry_the_grant_and_client() {
    let session = zocli::oauth::start_pkce_authorization(
        &[zocli::oauth::OauthService::Mail],
        "client-1",
        Some("sec"),
        "https://accounts.zoho.eu",
        None,
    )
    .unwrap();
    let exchange = zocli::oauth::code_exchange_request(&session, "the-code").unwrap();
    assert_eq!(exchange.url, "https://accounts.zoho.eu/oauth/v2/token");
    let names: Vec<&str> = exchange.form.iter().map(|(k, _)| *k).collect();
    assert_eq!(
        names,
        vec!["grant_type", "code", "client_id", "redirect_uri", "code_verifier", "client_secret"]
    );
    assert_eq!(exchange.form[1].1, "the-code");
    assert_eq!(exchange.form[4].1, session.code_verifier);
    let refresh =
        zocli::oauth::refresh_request("https://accounts.zoho.com", "client-1", None, "rt").unwrap();
    assert_eq!(
        refresh.form,
        vec![
            ("grant_type", "refresh_token".to_string()),
            ("refresh_token", "rt".to_string()),
            ("client_id", "client-1".to_string()),
        ]
    );
}
