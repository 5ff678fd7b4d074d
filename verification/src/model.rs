//! Accounts as they are configured: one record per account and the file that holds them.
use vstd::prelude::*;
use vstd::string::*;
use crate::text::{cat, cat3, str_eq};

verus! {

broadcast use vstd::string::group_string_axioms;

/// One configured Zoho account.
#[derive(Debug)]
pub struct AccountConfig {
    pub email: String,
    pub default: bool,
    /// Zoho datacenter suffix: "com", "eu", "in", "com.au", "jp", "zohocloud.ca", "sa", "uk".
    pub datacenter: String,
    /// Zoho account ID.
    pub account_id: String,
    /// Zoho user ID, used by WorkDrive.
    pub zuid: Option<String>,
    /// Zoho organization ID, for WorkDrive team operations.
    pub org_id: Option<String>,
    /// OAuth client ID from the Zoho API console.
    pub client_id: String,
    /// OAuth client secret; absent for PKCE-only clients.
    pub client_secret: Option<String>,
    /// Where the account's credential lives (`store:SERVICE` or `env:NAME`).
    pub credential_ref: Option<String>,
}

/// What a user supplies to add an account.
#[derive(Debug)]
pub struct NewAccountInput {
    pub email: String,
    pub default: bool,
    pub datacenter: String,
    pub account_id: String,
    pub org_id: Option<String>,
    pub client_id: String,
    pub client_secret: Option<String>,
}

/// The accounts file: a format version and the accounts by name, in ascending name order.
#[derive(Debug)]
pub struct AccountsFile {
    pub version: u32,
    pub accounts: Vec<(String, AccountConfig)>,
}

/// Copies an optional text.
pub fn clone_opt(o: &Option<String>) -> (r: Option<String>)
    ensures
        r == *o,
{
    match o {
        Some(s) => Some(s.clone()),
        None => None,
    }
}

impl AccountConfig {
    /// A field-for-field copy.
    pub fn duplicate(&self) -> (r: AccountConfig)
        ensures
            r == *self,
    {
        AccountConfig {
            email: self.email.clone(),
            default: self.default,
            datacenter: self.datacenter.clone(),
            account_id: self.account_id.clone(),
            zuid: clone_opt(&self.zuid),
            org_id: clone_opt(&self.org_id),
            client_id: self.client_id.clone(),
            client_secret: clone_opt(&self.client_secret),
            credential_ref: clone_opt(&self.credential_ref),
        }
    }

    /// A new account from user input: no ZUID yet, credential kept in the store under `oauth`.
    pub fn new(input: NewAccountInput) -> (r: AccountConfig)
        ensures
            r.email == input.email,
            r.default == input.default,
            r.datacenter == input.datacenter,
            r.account_id == input.account_id,
            r.zuid is None,
            r.org_id == input.org_id,
            r.client_id == input.client_id,
            r.client_secret == input.client_secret,
            r.credential_ref matches Some(c) && c@ == "store:oauth"@,
    {
        AccountConfig {
            email: input.email,
            default: input.default,
            datacenter: input.datacenter,
            account_id: input.account_id,
            zuid: None,
            org_id: input.org_id,
            client_id: input.client_id,
            client_secret: input.client_secret,
            credential_ref: Some(String::from_str("store:oauth")),
        }
    }

    /// OAuth authorization base URL of the account's datacenter.
    pub fn auth_base_url(&self) -> (r: String)
        ensures
            r@ == spec_auth_url(self.datacenter@),
    {
        datacenter_auth_url(self.datacenter.as_str())
    }

    /// Zoho Mail REST API base URL.
    pub fn mail_api_url(&self) -> (r: String)
        ensures
            r@ == "https://mail.zoho."@ + self.datacenter@,
    {
        cat("https://mail.zoho.", self.datacenter.as_str())
    }

    /// Zoho Calendar REST API base URL.
    pub fn calendar_api_url(&self) -> (r: String)
        ensures
            r@ == "https://calendar.zoho."@ + self.datacenter@,
    {
        cat("https://calendar.zoho.", self.datacenter.as_str())
    }

    /// Zoho WorkDrive API base URL.
    pub fn drive_api_url(&self) -> (r: String)
        ensures
            r@ == "https://www.zohoapis."@ + self.datacenter@ + "/workdrive"@,
    {
        cat3("https://www.zohoapis.", self.datacenter.as_str(), "/workdrive")
    }

    /// Zoho WorkDrive upload URL, on the dedicated upload host.
    pub fn drive_upload_url(&self) -> (r: String)
        ensures
            r@ == "https://upload.zoho."@ + self.datacenter@ + "/workdrive-api/v1/upload"@,
    {
        cat3("https://upload.zoho.", self.datacenter.as_str(), "/workdrive-api/v1/upload")
    }

    /// Zoho WorkDrive download URL of one file, on the dedicated download host.
    pub fn drive_download_url(&self, file_id: &str) -> (r: String)
        ensures
            r@ == "https://download.zoho."@ + self.datacenter@ + "/v1/workdrive/download/"@
                + file_id@,
    {
        let mut r = cat3(
            "https://download.zoho.",
            self.datacenter.as_str(),
            "/v1/workdrive/download/",
        );
        r.append(file_id);
        r
    }
}

/// The Zoho datacenter suffixes the client knows.
pub open spec fn spec_valid_datacenter(dc: Seq<char>) -> bool {
    ||| dc == "com"@
    ||| dc == "eu"@
    ||| dc == "in"@
    ||| dc == "com.au"@
    ||| dc == "jp"@
    ||| dc == "zohocloud.ca"@
    ||| dc == "sa"@
    ||| dc == "uk"@
}

pub fn validate_datacenter(dc: &str) -> (r: bool)
    ensures
        r == spec_valid_datacenter(dc@),
{
    str_eq(dc, "com") || str_eq(dc, "eu") || str_eq(dc, "in") || str_eq(dc, "com.au") || str_eq(
        dc,
        "jp",
    ) || str_eq(dc, "zohocloud.ca") || str_eq(dc, "sa") || str_eq(dc, "uk")
}

pub open spec fn spec_auth_url(dc: Seq<char>) -> Seq<char> {
    "https://accounts.zoho."@ + dc
}

pub fn datacenter_auth_url(dc: &str) -> (r: String)
    ensures
        r@ == spec_auth_url(dc@),
{
    cat("https://accounts.zoho.", dc)
}

/// Format version of a newly written accounts or credentials file.
pub fn default_version() -> (r: u32)
    ensures
        r == 1,
{
    1
}


/// The datacenters an account's validation names as expected, in the order it names them.
pub open spec fn listed_datacenters() -> Seq<Seq<char>> {
    seq!["com"@, "eu"@, "in"@, "com.au"@, "jp"@, "zohocloud.ca"@, "sa"@, "uk"@]
}

/// The datacenters accepted are exactly those the validation message lists after
/// "expected one of:": each of them is accepted and nothing else is.
pub proof fn law_listed_datacenters_are_accepted(dc: Seq<char>)
    ensures
        crate::oauth::join_with(listed_datacenters(), ", "@)
            == "com, eu, in, com.au, jp, zohocloud.ca, sa, uk"@,
        listed_datacenters().contains(dc) <==> spec_valid_datacenter(dc),
{
    reveal_strlit("com");
    reveal_strlit("eu");
    reveal_strlit("in");
    reveal_strlit("com.au");
    reveal_strlit("jp");
    reveal_strlit("zohocloud.ca");
    reveal_strlit("sa");
    reveal_strlit("uk");
    reveal_strlit(", ");
    reveal_strlit("com, eu, in, com.au, jp, zohocloud.ca, sa, uk");
    let l = listed_datacenters();
    reveal_with_fuel(crate::oauth::join_with, 9);
    assert(l.drop_last().drop_last().drop_last().drop_last().drop_last().drop_last().drop_last()
        =~= seq!["com"@]);
    assert(crate::oauth::join_with(l, ", "@) =~= "com, eu, in, com.au, jp, zohocloud.ca, sa, uk"@);
    if spec_valid_datacenter(dc) {
        assert(l[0] == "com"@ && l[1] == "eu"@ && l[2] == "in"@ && l[3] == "com.au"@);
        assert(l[4] == "jp"@ && l[5] == "zohocloud.ca"@ && l[6] == "sa"@ && l[7] == "uk"@);
    }
}

} // verus!
