//! What an account's credential reference points at, and what state that credential is in.
use vstd::prelude::*;
use vstd::string::*;
use crate::credential_store::{
    CredentialStore,
    CredentialView,
    StoredCredential,
    StoredOauthCredential,
    opt_view,
};
use crate::error::ZocliError;
use crate::model::AccountConfig;
use crate::oauth::unix_timestamp_now;
use crate::text::{
    cat,
    cat3,
    decimal,
    from_char_range,
    has_prefix,
    starts_with,
    str_eq,
    to_chars,
    u64_to_string,
};

verus! {

broadcast use vstd::string::group_string_axioms;

/// Where a credential reference points: an environment variable or a credential-store service.
#[derive(Debug)]
pub enum CredentialReference {
    Env(String),
    Store(String),
}

/// The reference `env:NAME` or `store:SERVICE` of `raw`.
pub open spec fn spec_parse_ref(raw: Seq<char>) -> Option<(bool, Seq<char>)> {
    if has_prefix(raw, "env:"@) {
        Some((true, raw.subrange(4, raw.len() as int)))
    } else if has_prefix(raw, "store:"@) {
        Some((false, raw.subrange(6, raw.len() as int)))
    } else {
        None
    }
}

pub open spec fn ref_view(r: Option<CredentialReference>) -> Option<(bool, Seq<char>)> {
    match r {
        Some(CredentialReference::Env(n)) => Some((true, n@)),
        Some(CredentialReference::Store(s)) => Some((false, s@)),
        None => None,
    }
}

/// Parses `env:NAME` or `store:SERVICE`.
pub fn parse_credential_ref(raw: &str) -> (r: Option<CredentialReference>)
    ensures
        ref_view(r) == spec_parse_ref(raw@),
{
    let v = to_chars(raw);
    if starts_with(raw, "env:") {
        proof {
            reveal_strlit("env:");
        }
        Some(CredentialReference::Env(from_char_range(&v, 4, v.len())))
    } else if starts_with(raw, "store:") {
        proof {
            reveal_strlit("store:");
        }
        Some(CredentialReference::Store(from_char_range(&v, 6, v.len())))
    } else {
        None
    }
}

/// The state of an account's credential for one service, as reported to the user.
#[derive(Debug)]
pub struct CredentialState {
    pub credential_ref: Option<String>,
    pub credential_state: &'static str,
    pub detail: String,
    pub scope: Vec<String>,
}

/// A stored token counts as valid while it expires more than a minute after `now`.
pub open spec fn token_fresh(expires_at: u64, now: u64) -> bool {
    expires_at > (if now + 60 > u64::MAX {
        u64::MAX as int
    } else {
        now + 60
    })
}

/// The state label, detail and scopes the credential state reports.
pub open spec fn spec_auth_state(
    reference: Option<Seq<char>>,
    service: Seq<char>,
    env_set: bool,
    stored: Option<CredentialView>,
    now: u64,
) -> (Seq<char>, Seq<char>, Seq<Seq<char>>) {
    match reference {
        None => ("not_configured"@, "service not yet connected"@, Seq::empty()),
        Some(raw) => match spec_parse_ref(raw) {
            Some((true, var)) => if env_set {
                ("env_present"@, "using environment variable "@ + var, Seq::empty())
            } else {
                ("env_missing"@, "environment variable "@ + var + " is not set"@, Seq::empty())
            },
            Some((false, svc)) => if svc != service {
                ("store_mismatch"@, "reference points to store:"@ + svc, Seq::empty())
            } else {
                match stored {
                    Some(CredentialView::Oauth(c)) => if token_fresh(c.expires_at_epoch_secs, now) {
                        (
                            "store_present"@,
                            "stored OAuth token valid until "@ + decimal(
                                c.expires_at_epoch_secs as nat,
                            ),
                            c.scope,
                        )
                    } else {
                        (
                            "store_expired"@,
                            "stored OAuth token expired or expiring soon; run `zocli login` again"@,
                            c.scope,
                        )
                    },
                    Some(CredentialView::AppPassword(_)) => (
                        "store_present"@,
                        "app password stored locally"@,
                        Seq::empty(),
                    ),
                    None => ("store_missing"@, "no local secret found for "@ + service, Seq::empty()),
                }
            },
            None => (
                "unsupported_reference"@,
                "only env:NAME and store:SERVICE are supported"@,
                Seq::empty(),
            ),
        },
    }
}

pub open spec fn opt_str_view(o: Option<&str>) -> Option<Seq<char>> {
    match o {
        Some(s) => Some(s@),
        None => None,
    }
}

pub open spec fn opt_string_view(o: Option<String>) -> Option<Seq<char>> {
    match o {
        Some(s) => Some(s@),
        None => None,
    }
}

fn state(
    reference: Option<&str>,
    label: &'static str,
    detail: String,
    scope: Vec<String>,
) -> (r: CredentialState)
    ensures
        opt_string_view(r.credential_ref) == opt_str_view(reference),
        r.credential_state == label,
        r.detail == detail,
        r.scope == scope,
{
    let credential_ref = match reference {
        Some(s) => Some(s.to_owned()),
        None => None,
    };
    CredentialState { credential_ref, credential_state: label, detail, scope }
}

/// The credential state at time `now`. `env_set` tells whether the environment variable an
/// `env:` reference names is set; `stored` is what the credential store holds for the account
/// and service.
pub fn auth_state_at(
    reference: Option<&str>,
    service: &str,
    env_set: bool,
    stored: Option<StoredCredential>,
    now: u64,
) -> (r: CredentialState)
    ensures
        opt_string_view(r.credential_ref) == opt_str_view(reference),
        (r.credential_state@, r.detail@, r.scope@.map_values(|x: String| x@)) == spec_auth_state(
            opt_str_view(reference),
            service@,
            env_set,
            opt_view(stored),
            now,
        ),
{
    match reference {
        None => state(
            reference,
            "not_configured",
            String::from_str("service not yet connected"),
            Vec::new(),
        ),
        Some(raw) => match parse_credential_ref(raw) {
            Some(CredentialReference::Env(var_name)) => {
                if env_set {
                    state(
                        reference,
                        "env_present",
                        cat("using environment variable ", var_name.as_str()),
                        Vec::new(),
                    )
                } else {
                    state(
                        reference,
                        "env_missing",
                        cat3("environment variable ", var_name.as_str(), " is not set"),
                        Vec::new(),
                    )
                }
            },
            Some(CredentialReference::Store(store_service)) => {
                if !str_eq(store_service.as_str(), service) {
                    return state(
                        reference,
                        "store_mismatch",
                        cat("reference points to store:", store_service.as_str()),
                        Vec::new(),
                    );
                }
                match stored {
                    Some(StoredCredential::Oauth(credential)) => {
                        if credential.expires_at_epoch_secs > now.saturating_add(60) {
                            let until = u64_to_string(credential.expires_at_epoch_secs);
                            state(
                                reference,
                                "store_present",
                                cat("stored OAuth token valid until ", until.as_str()),
                                credential.scope,
                            )
                        } else {
                            state(
                                reference,
                                "store_expired",
                                String::from_str(
                                    "stored OAuth token expired or expiring soon; run `zocli login` again",
                                ),
                                credential.scope,
                            )
                        }
                    },
                    Some(StoredCredential::AppPassword(_)) => state(
                        reference,
                        "store_present",
                        String::from_str("app password stored locally"),
                        Vec::new(),
                    ),
                    None => state(
                        reference,
                        "store_missing",
                        cat("no local secret found for ", service),
                        Vec::new(),
                    ),
                }
            },
            None => state(
                reference,
                "unsupported_reference",
                String::from_str("only env:NAME and store:SERVICE are supported"),
                Vec::new(),
            ),
        },
    }
}

/// The credential state of `service` for `account_name` now. `env_set` and `keyring` are
/// what the environment and the system keyring hold (see `auth_state_at` and
/// `CredentialStore::get_service`).
pub fn auth_state(
    credential_store: &CredentialStore,
    account_name: &str,
    reference: Option<&str>,
    service: &str,
    env_set: bool,
    keyring: Option<StoredCredential>,
) -> (r: CredentialState)
    requires
        credential_store.wf(),
    ensures
        opt_string_view(r.credential_ref) == opt_str_view(reference),
        exists|now: u64|
            (r.credential_state@, r.detail@, r.scope@.map_values(|x: String| x@))
                == spec_auth_state(
                opt_str_view(reference),
                service@,
                env_set,
                credential_store.spec_get(account_name@, service@, opt_view(keyring)),
                now,
            ),
{
    let stored = credential_store.get_service(account_name, service, keyring);
    let now = unix_timestamp_now();
    auth_state_at(reference, service, env_set, stored, now)
}

/// How a command gets its access token from the account's credential reference.
#[derive(Debug)]
pub enum TokenSource {
    /// Read the named environment variable.
    Env(String),
    /// Use the stored credential of the named service.
    Store(String),
}

/// Where the account's access token comes from: its `env:` or `store:` reference.
pub fn token_source(name: &str, account: &AccountConfig) -> (r: Result<TokenSource, ZocliError>)
    ensures
        account.credential_ref is None ==> (r matches Err(ZocliError::Auth(m)) && m@ == name@
            + " has no credential_ref configured; run `zocli login` first"@),
        account.credential_ref matches Some(c) ==> match spec_parse_ref(c@) {
            Some((true, v)) => r matches Ok(TokenSource::Env(x)) && x@ == v,
            Some((false, s)) => r matches Ok(TokenSource::Store(x)) && x@ == s,
            None => r matches Err(ZocliError::Config(m)) && m@
                == "unsupported credential_ref format: "@ + c@,
        },
{
    match &account.credential_ref {
        None => Err(
            ZocliError::Auth(cat(name, " has no credential_ref configured; run `zocli login` first")),
        ),
        Some(reference) => match parse_credential_ref(reference.as_str()) {
            Some(CredentialReference::Env(v)) => Ok(TokenSource::Env(v)),
            Some(CredentialReference::Store(s)) => Ok(TokenSource::Store(s)),
            None => Err(
                ZocliError::Config(cat("unsupported credential_ref format: ", reference.as_str())),
            ),
        },
    }
}

/// What to do with a stored OAuth credential: use its token, or refresh it first.
#[derive(Debug)]
pub enum StoredTokenPlan {
    Use(String),
    Refresh(String),
}

/// The decision on a stored OAuth credential at time `now`: a token still valid for more
/// than a minute is used; an older one is refreshed with its refresh token.
pub fn plan_stored_token(
    account_name: &str,
    store_service: &str,
    stored: Option<StoredOauthCredential>,
    now: u64,
) -> (r: Result<StoredTokenPlan, ZocliError>)
    ensures
        stored is None ==> (r matches Err(ZocliError::Auth(m)) && m@
            == "no stored OAuth credential for account "@ + account_name@ + " service "@
            + store_service@ + "; run `zocli login` first"@),
        stored matches Some(c) ==> (token_fresh(c.expires_at_epoch_secs, now) ==> (r matches Ok(
            StoredTokenPlan::Use(t),
        ) && t@ == c.access_token@)),
        stored matches Some(c) ==> (!token_fresh(c.expires_at_epoch_secs, now) ==> match c.refresh_token {
            Some(rt) => r matches Ok(StoredTokenPlan::Refresh(t)) && t@ == rt@,
            None => r matches Err(ZocliError::Auth(m)) && m@ == "OAuth token expired for account "@
                + account_name@
                + " and no refresh_token is available; run `zocli login --profile "@
                + account_name@ + "` to re-authenticate"@,
        }),
{
    match stored {
        None => {
            let mut m = cat("no stored OAuth credential for account ", account_name);
            m.append(" service ");
            m.append(store_service);
            m.append("; run `zocli login` first");
            Err(ZocliError::Auth(m))
        },
        Some(c) => {
            if c.expires_at_epoch_secs > now.saturating_add(60) {
                return Ok(StoredTokenPlan::Use(c.access_token));
            }
            match c.refresh_token {
                Some(rt) => Ok(StoredTokenPlan::Refresh(rt)),
                None => {
                    let mut m = cat("OAuth token expired for account ", account_name);
                    m.append(" and no refresh_token is available; run `zocli login --profile ");
                    m.append(account_name);
                    m.append("` to re-authenticate");
                    Err(ZocliError::Auth(m))
                },
            }
        },
    }
}


/// What to tell a user about an account's credential state.
pub open spec fn spec_auth_guidance(state: Seq<char>) -> Seq<char> {
    if state == "not_configured"@ {
        "No credential reference configured. Run `zocli add` to set up an account with OAuth."@
    } else if state == "store_missing"@ {
        "Account is configured but not logged in. Run `zocli login` to authenticate with Zoho."@
    } else if state == "store_expired"@ {
        "OAuth token has expired. Run `zocli login` to re-authenticate with Zoho."@
    } else if state == "store_present"@ {
        "Authenticated and ready. All Zoho API tools are available."@
    } else if state == "env_present"@ {
        "Using environment variable for authentication. Ready."@
    } else if state == "env_missing"@ {
        "Environment variable for authentication is not set. Set the required variable or switch to OAuth."@
    } else if state == "store_mismatch"@ {
        "Credential reference points to a different service. Check your account configuration."@
    } else {
        "Unknown auth state. Run `zocli auth status` for details."@
    }
}

pub fn auth_guidance(credential_state: &str, account_name: &str) -> (r: &'static str)
    ensures
        r@ == spec_auth_guidance(credential_state@),
{
    proof {
        reveal_strlit("No credential reference configured. Run `zocli add` to set up an account with OAuth.");
        reveal_strlit("Account is configured but not logged in. Run `zocli login` to authenticate with Zoho.");
        reveal_strlit("OAuth token has expired. Run `zocli login` to re-authenticate with Zoho.");
        reveal_strlit("Authenticated and ready. All Zoho API tools are available.");
        reveal_strlit("Using environment variable for authentication. Ready.");
        reveal_strlit("Environment variable for authentication is not set. Set the required variable or switch to OAuth.");
        reveal_strlit("Credential reference points to a different service. Check your account configuration.");
        reveal_strlit("Unknown auth state. Run `zocli auth status` for details.");
    }
    if str_eq(credential_state, "not_configured") {
        "No credential reference configured. Run `zocli add` to set up an account with OAuth."
    } else if str_eq(credential_state, "store_missing") {
        "Account is configured but not logged in. Run `zocli login` to authenticate with Zoho."
    } else if str_eq(credential_state, "store_expired") {
        "OAuth token has expired. Run `zocli login` to re-authenticate with Zoho."
    } else if str_eq(credential_state, "store_present") {
        "Authenticated and ready. All Zoho API tools are available."
    } else if str_eq(credential_state, "env_present") {
        "Using environment variable for authentication. Ready."
    } else if str_eq(credential_state, "env_missing") {
        "Environment variable for authentication is not set. Set the required variable or switch to OAuth."
    } else if str_eq(credential_state, "store_mismatch") {
        "Credential reference points to a different service. Check your account configuration."
    } else {
        "Unknown auth state. Run `zocli auth status` for details."
    }
}


/// The OAuth client a token refresh uses: the account's client id, or a configuration error
/// naming the account when it has none.
pub fn refresh_client_id<'a>(account_name: &str, account: &'a AccountConfig) -> (r: Result<&'a str, ZocliError>)
    ensures
        account.client_id@.len() > 0 ==> (r matches Ok(c) && c@ == account.client_id@),
        account.client_id@.len() == 0 ==> (r matches Err(ZocliError::Config(m)) && m@
            == "no OAuth client is configured for account "@ + account_name@
            + "; configure the shared/default zocli OAuth app or re-run `zocli add --client-id ...`"@),
{
    if account.client_id.as_str().is_empty() {
        let mut m = cat("no OAuth client is configured for account ", account_name);
        m.append("; configure the shared/default zocli OAuth app or re-run `zocli add --client-id ...`");
        return Err(ZocliError::Config(m));
    }
    Ok(account.client_id.as_str())
}

/// The OAuth client a login uses: the account's client id, or a configuration error when it
/// has none.
pub fn login_client_id(account: &AccountConfig) -> (r: Result<&str, ZocliError>)
    ensures
        account.client_id@.len() > 0 ==> (r matches Ok(c) && c@ == account.client_id@),
        account.client_id@.len() == 0 ==> (r matches Err(ZocliError::Config(m)) && m@
            == "no OAuth client is configured for this account. Use the shared/default zocli OAuth app or re-run `zocli add --client-id ...` as an advanced override."@),
{
    if account.client_id.as_str().is_empty() {
        return Err(
            ZocliError::Config(
                String::from_str(
                    "no OAuth client is configured for this account. Use the shared/default zocli OAuth app or re-run `zocli add --client-id ...` as an advanced override.",
                ),
            ),
        );
    }
    Ok(account.client_id.as_str())
}

} // verus!
