//! Stored secrets per account and service, kept in a file or in the system keyring.
use vstd::prelude::*;
use vstd::string::*;
use crate::error::ZocliError;
use crate::sorted_map::{keys_sorted, lookup, remove_key, upsert, find_key};
use crate::text::{ascii_lower_seq, cat3, str_eq, to_ascii_lowercase, trim, trim_seq};

verus! {

broadcast use vstd::string::group_string_axioms;

/// An OAuth token set as stored.
#[derive(Debug)]
pub struct StoredOauthCredential {
    pub kind: String,
    pub access_token: String,
    pub refresh_token: Option<String>,
    pub token_type: String,
    pub expires_at_epoch_secs: u64,
    pub scope: Vec<String>,
    pub client_id: String,
    /// Zoho `api_domain` of the token response, kept for diagnostics.
    pub api_domain: Option<String>,
}

/// An application password as stored.
#[derive(Debug)]
pub struct StoredAppPasswordCredential {
    pub kind: String,
    pub secret: String,
}

#[derive(Debug)]
pub enum StoredCredential {
    Oauth(StoredOauthCredential),
    AppPassword(StoredAppPasswordCredential),
}

/// An OAuth credential as plain values.
pub struct OauthView {
    pub kind: Seq<char>,
    pub access_token: Seq<char>,
    pub refresh_token: Option<Seq<char>>,
    pub token_type: Seq<char>,
    pub expires_at_epoch_secs: u64,
    pub scope: Seq<Seq<char>>,
    pub client_id: Seq<char>,
    pub api_domain: Option<Seq<char>>,
}

/// An application password as plain values.
pub struct AppPasswordView {
    pub kind: Seq<char>,
    pub secret: Seq<char>,
}

pub enum CredentialView {
    Oauth(OauthView),
    AppPassword(AppPasswordView),
}

pub open spec fn opt_text(o: Option<String>) -> Option<Seq<char>> {
    match o {
        Some(s) => Some(s@),
        None => None,
    }
}

impl View for StoredOauthCredential {
    type V = OauthView;

    open spec fn view(&self) -> OauthView {
        OauthView {
            kind: self.kind@,
            access_token: self.access_token@,
            refresh_token: opt_text(self.refresh_token),
            token_type: self.token_type@,
            expires_at_epoch_secs: self.expires_at_epoch_secs,
            scope: self.scope@.map_values(|x: String| x@),
            client_id: self.client_id@,
            api_domain: opt_text(self.api_domain),
        }
    }
}

impl View for StoredAppPasswordCredential {
    type V = AppPasswordView;

    open spec fn view(&self) -> AppPasswordView {
        AppPasswordView { kind: self.kind@, secret: self.secret@ }
    }
}

impl View for StoredCredential {
    type V = CredentialView;

    open spec fn view(&self) -> CredentialView {
        match self {
            StoredCredential::Oauth(c) => CredentialView::Oauth(c@),
            StoredCredential::AppPassword(c) => CredentialView::AppPassword(c@),
        }
    }
}

pub open spec fn opt_view(o: Option<StoredCredential>) -> Option<CredentialView> {
    match o {
        Some(c) => Some(c@),
        None => None,
    }
}

/// The credentials of one account, by service name in ascending order.
#[derive(Debug)]
pub struct AccountCredentialSet {
    pub services: Vec<(String, StoredCredential)>,
}

/// The credentials file: a format version and the credential sets by account name.
#[derive(Debug)]
pub struct CredentialsFile {
    pub version: u32,
    pub accounts: Vec<(String, AccountCredentialSet)>,
}

/// Where secrets are kept.
#[derive(PartialEq, Eq, Structural, Clone, Copy, Debug)]
pub enum SecretBackendKind {
    File,
    Keyring,
}

fn clone_strings(v: &Vec<String>) -> (r: Vec<String>)
    ensures
        r@ == v@,
{
    let mut r: Vec<String> = Vec::new();
    let mut i: usize = 0;
    while i < v.len()
        invariant
            i <= v@.len(),
            r@ == v@.take(i as int),
        decreases v@.len() - i,
    {
        r.push(v[i].clone());
        assert(v@.take(i + 1) =~= v@.take(i as int).push(v@[i as int]));
        i = i + 1;
    }
    assert(v@.take(v@.len() as int) =~= v@);
    r
}

impl StoredOauthCredential {
    pub fn duplicate(&self) -> (r: StoredOauthCredential)
        ensures
            r@ == self@,
    {
        StoredOauthCredential {
            kind: self.kind.clone(),
            access_token: self.access_token.clone(),
            refresh_token: crate::model::clone_opt(&self.refresh_token),
            token_type: self.token_type.clone(),
            expires_at_epoch_secs: self.expires_at_epoch_secs,
            scope: clone_strings(&self.scope),
            client_id: self.client_id.clone(),
            api_domain: crate::model::clone_opt(&self.api_domain),
        }
    }
}

impl StoredCredential {
    pub fn duplicate(&self) -> (r: StoredCredential)
        ensures
            r@ == self@,
    {
        match self {
            StoredCredential::Oauth(c) => StoredCredential::Oauth(c.duplicate()),
            StoredCredential::AppPassword(c) => StoredCredential::AppPassword(
                StoredAppPasswordCredential { kind: c.kind.clone(), secret: c.secret.clone() },
            ),
        }
    }
}

impl CredentialsFile {
    /// Accounts ascend by name, and each account's services by service name.
    pub open spec fn wf(&self) -> bool {
        &&& keys_sorted(self.accounts@)
        &&& forall|a: Seq<char>| #[trigger]
            lookup(self.accounts@, a) matches Some(cs) ==> keys_sorted(cs.services@)
    }

    /// The credential stored for `service` of `account`.
    pub open spec fn stored(&self, account: Seq<char>, service: Seq<char>) -> Option<CredentialView> {
        match lookup(self.accounts@, account) {
            Some(cs) => opt_view(lookup(cs.services@, service)),
            None => None,
        }
    }

    /// Tests the file's invariant (for files built outside the library).
    pub fn is_well_formed(&self) -> (r: bool)
        ensures
            r == self.wf(),
    {
        if !sorted_keys(&self.accounts) {
            return false;
        }
        let n = self.accounts.len();
        let mut i: usize = 0;
        while i < n
            invariant
                n == self.accounts@.len(),
                i <= n,
                keys_sorted(self.accounts@),
                forall|j: int| 0 <= j < i ==> keys_sorted(#[trigger] self.accounts@[j].1.services@),
            decreases n - i,
        {
            if !sorted_keys(&self.accounts[i].1.services) {
                proof {
                    let a = self.accounts@[i as int].0@;
                    assert(crate::sorted_map::key_at(self.accounts@, i as int, a));
                    crate::sorted_map::lemma_lookup_at(self.accounts@, i as int, a);
                    assert(!(lookup(self.accounts@, a) matches Some(cs) ==> keys_sorted(cs.services@)));
                }
                return false;
            }
            i = i + 1;
        }
        proof {
            assert forall|a: Seq<char>| #[trigger]
                lookup(self.accounts@, a) is Some implies keys_sorted(lookup(self.accounts@, a)->0.services@) by {
                if crate::sorted_map::has_key(self.accounts@, a) {
                    let j = choose|j: int| #[trigger] crate::sorted_map::key_at(self.accounts@, j, a);
                    crate::sorted_map::lemma_lookup_at(self.accounts@, j, a);
                }
            }
        }
        true
    }
}

impl Default for CredentialsFile {
    fn default() -> (r: CredentialsFile)
        ensures
            r.version == 1,
            r.accounts@.len() == 0,
    {
        CredentialsFile { version: crate::model::default_version(), accounts: Vec::new() }
    }
}

fn sorted_keys<V>(v: &Vec<(String, V)>) -> (r: bool)
    ensures
        r == keys_sorted(v@),
{
    let n = v.len();
    if n == 0 {
        return true;
    }
    let mut i: usize = 1;
    while i < n
        invariant
            n == v@.len(),
            1 <= i <= n,
            forall|a: int, b: int|
                0 <= a < b < i ==> crate::text::seq_lt(#[trigger] v@[a].0@, #[trigger] v@[b].0@),
        decreases n - i,
    {
        if !crate::text::str_lt(v[i - 1].0.as_str(), v[i].0.as_str()) {
            return false;
        }
        proof {
            assert forall|a: int, b: int| 0 <= a < b < i + 1 implies crate::text::seq_lt(
                #[trigger] v@[a].0@,
                #[trigger] v@[b].0@,
            ) by {
                if b == i && a < i - 1 {
                    crate::text::lemma_seq_lt_transitive(v@[a].0@, v@[i - 1].0@, v@[b].0@);
                }
            }
        }
        i = i + 1;
    }
    true
}

pub open spec fn pair_eq(p: (String, String), a: Seq<char>, s: Seq<char>) -> bool {
    p.0@ == a && p.1@ == s
}

/// The pair `(a, s)` occurs in `v`.
pub open spec fn pair_in(v: Seq<(String, String)>, a: Seq<char>, s: Seq<char>) -> bool {
    exists|j: int| 0 <= j < v.len() && #[trigger] pair_eq(v[j], a, s)
}

proof fn lemma_pair_in_push(v: Seq<(String, String)>, p: (String, String))
    ensures
        forall|a: Seq<char>, s: Seq<char>|
            #[trigger] pair_in(v.push(p), a, s) == (pair_in(v, a, s) || pair_eq(p, a, s)),
{
    assert forall|a: Seq<char>, s: Seq<char>|
        #[trigger] pair_in(v.push(p), a, s) == (pair_in(v, a, s) || pair_eq(p, a, s)) by {
        if pair_in(v, a, s) {
            let j = choose|j: int| 0 <= j < v.len() && #[trigger] pair_eq(v[j], a, s);
            assert(v.push(p)[j] == v[j]);
        }
        if pair_eq(p, a, s) {
            assert(v.push(p)[v.len() as int] == p);
        }
        if pair_in(v.push(p), a, s) {
            let j = choose|j: int| 0 <= j < v.len() + 1 && #[trigger] pair_eq(v.push(p)[j], a, s);
            if j < v.len() {
                assert(v.push(p)[j] == v[j]);
            }
        }
    }
}

/// Where a credential lookup ends before any keyring read.
#[derive(Debug)]
pub enum ServiceLookup {
    /// Held in memory.
    Found(StoredCredential),
    /// Known to be absent (removed, or not in the credentials file).
    Absent,
    /// Only the system keyring can answer.
    AskKeyring,
}

/// The credential store: the loaded credentials, the backend, and the (account, service)
/// pairs removed since the last save, whose keyring entries are still to be deleted.
#[derive(Debug)]
pub struct CredentialStore {
    pub backend: SecretBackendKind,
    pub file: CredentialsFile,
    pub removed: Vec<(String, String)>,
}

impl CredentialStore {
    pub open spec fn backend_spec(&self) -> SecretBackendKind {
        self.backend
    }

    /// `(account, service)` was removed since the last save.
    pub open spec fn is_removed(&self, account: Seq<char>, service: Seq<char>) -> bool {
        pair_in(self.removed@, account, service)
    }

    pub open spec fn wf(&self) -> bool {
        self.file.wf()
    }

    /// What a lookup yields when the keyring would answer `keyring`.
    pub open spec fn spec_get(
        &self,
        account: Seq<char>,
        service: Seq<char>,
        keyring: Option<CredentialView>,
    ) -> Option<CredentialView> {
        if self.is_removed(account, service) {
            None
        } else if self.file.stored(account, service) is Some {
            self.file.stored(account, service)
        } else if self.backend_spec() == SecretBackendKind::File {
            None
        } else {
            keyring
        }
    }

    /// A store over loaded credentials: the file backend keeps what was read from the
    /// credentials file; the keyring backend starts empty and reads the keyring on demand.
    pub fn load(backend: SecretBackendKind, file: CredentialsFile) -> (r: CredentialStore)
        requires
            file.wf(),
        ensures
            r.wf(),
            r.backend_spec() == backend,
            backend == SecretBackendKind::File ==> r.file == file,
            backend == SecretBackendKind::Keyring ==> r.file.accounts@.len() == 0,
            forall|a: Seq<char>, s: Seq<char>| !(#[trigger] r.is_removed(a, s)),
    {
        let file = if backend == SecretBackendKind::File {
            file
        } else {
            CredentialsFile::default()
        };
        proof {
            assert forall|a: Seq<char>| #[trigger]
                lookup(file.accounts@, a) is Some implies keys_sorted(lookup(file.accounts@, a)->0.services@) by {
                if backend != SecretBackendKind::File {
                    assert(!crate::sorted_map::has_key(file.accounts@, a));
                }
            }
        }
        CredentialStore { backend, file, removed: Vec::new() }
    }

    pub fn backend(&self) -> (r: SecretBackendKind)
        ensures
            r == self.backend_spec(),
    {
        self.backend
    }

    /// The removed pairs whose keyring entries a keyring save deletes.
    pub fn removed_services(&self) -> (r: &Vec<(String, String)>)
        ensures
            r@ == self.removed@,
    {
        &self.removed
    }

    /// After every credential was written to the keyring and every removed one deleted,
    /// memory holds nothing more.
    pub fn finish_keyring_save(&mut self)
        ensures
            final(self).wf(),
            final(self).backend_spec() == old(self).backend_spec(),
            final(self).file.accounts@.len() == 0,
            final(self).file.version == 1,
            forall|a: Seq<char>, s: Seq<char>| !(#[trigger] final(self).is_removed(a, s)),
    {
        self.file = CredentialsFile::default();
        self.removed = Vec::new();
        proof {
            assert forall|a: Seq<char>| #[trigger]
                lookup(self.file.accounts@, a) is Some implies keys_sorted(lookup(self.file.accounts@, a)->0.services@) by {
                assert(!crate::sorted_map::has_key(self.file.accounts@, a));
            }
        }
    }

    fn removed_contains(&self, account: &str, service: &str) -> (r: bool)
        ensures
            r == self.is_removed(account@, service@),
    {
        let n = self.removed.len();
        let mut i: usize = 0;
        while i < n
            invariant
                n == self.removed@.len(),
                i <= n,
                forall|j: int| 0 <= j < i ==> !(#[trigger] pair_eq(self.removed@[j], account@, service@)),
            decreases n - i,
        {
            if str_eq(self.removed[i].0.as_str(), account) && str_eq(
                self.removed[i].1.as_str(),
                service,
            ) {
                assert(pair_eq(self.removed@[i as int], account@, service@));
                return true;
            }
            i = i + 1;
        }
        false
    }

    /// Where a lookup of `(account, service)` ends without the keyring.
    pub fn lookup_service(&self, account_name: &str, service: &str) -> (r: ServiceLookup)
        requires
            self.wf(),
        ensures
            match r {
                ServiceLookup::Found(c) => self.spec_get(account_name@, service@, None) == Some(
                    c@,
                ),
                ServiceLookup::Absent => self.spec_get(account_name@, service@, None) is None
                    && (self.is_removed(account_name@, service@) || self.backend_spec()
                    == SecretBackendKind::File),
                ServiceLookup::AskKeyring => !self.is_removed(account_name@, service@)
                    && self.file.stored(account_name@, service@) is None && self.backend_spec()
                    == SecretBackendKind::Keyring,
            },
    {
        if self.removed_contains(account_name, service) {
            return ServiceLookup::Absent;
        }
        match find_key(&self.file.accounts, account_name) {
            Some(i) => {
                proof {
                    crate::sorted_map::lemma_lookup_at(self.file.accounts@, i as int, account_name@);
                }
                match find_key(&self.file.accounts[i].1.services, service) {
                    Some(j) => {
                        proof {
                            crate::sorted_map::lemma_lookup_at(
                                self.file.accounts@[i as int].1.services@,
                                j as int,
                                service@,
                            );
                        }
                        return ServiceLookup::Found(
                            self.file.accounts[i].1.services[j].1.duplicate(),
                        );
                    },
                    None => {},
                }
            },
            None => {},
        }
        if self.backend == SecretBackendKind::File {
            ServiceLookup::Absent
        } else {
            ServiceLookup::AskKeyring
        }
    }

    /// The credential of `service` for `account_name`. `keyring` is what the system keyring
    /// holds for the pair (None when it holds nothing or cannot be read); it is consulted only
    /// by the keyring backend, for pairs neither removed nor in memory.
    pub fn get_service(
        &self,
        account_name: &str,
        service: &str,
        keyring: Option<StoredCredential>,
    ) -> (r: Option<StoredCredential>)
        requires
            self.wf(),
        ensures
            opt_view(r) == self.spec_get(account_name@, service@, opt_view(keyring)),
    {
        match self.lookup_service(account_name, service) {
            ServiceLookup::Found(c) => Some(c),
            ServiceLookup::Absent => None,
            ServiceLookup::AskKeyring => keyring,
        }
    }

    /// The OAuth credential of the pair, if that is what is stored.
    pub fn get_oauth(
        &self,
        account_name: &str,
        service: &str,
        keyring: Option<StoredCredential>,
    ) -> (r: Option<StoredOauthCredential>)
        requires
            self.wf(),
        ensures
            match self.spec_get(account_name@, service@, opt_view(keyring)) {
                Some(CredentialView::Oauth(c)) => r matches Some(x) && x@ == c,
                _ => r is None,
            },
    {
        match self.get_service(account_name, service, keyring) {
            Some(StoredCredential::Oauth(c)) => Some(c),
            _ => None,
        }
    }

    /// The application password of the pair, if that is what is stored.
    pub fn get_app_password(
        &self,
        account_name: &str,
        service: &str,
        keyring: Option<StoredCredential>,
    ) -> (r: Option<StoredAppPasswordCredential>)
        requires
            self.wf(),
        ensures
            match self.spec_get(account_name@, service@, opt_view(keyring)) {
                Some(CredentialView::AppPassword(c)) => r matches Some(x) && x@ == c,
                _ => r is None,
            },
    {
        match self.get_service(account_name, service, keyring) {
            Some(StoredCredential::AppPassword(c)) => Some(c),
            _ => None,
        }
    }

    /// Forgets that `(account, service)` was removed.
    fn unmark_removed(&mut self, account: &str, service: &str)
        ensures
            final(self).backend == old(self).backend,
            final(self).file == old(self).file,
            !final(self).is_removed(account@, service@),
            forall|a: Seq<char>, s: Seq<char>|
                !(a == account@ && s == service@) ==> (#[trigger] final(self).is_removed(a, s)
                    == old(self).is_removed(a, s)),
    {
        let ghost old_removed = self.removed@;
        let mut kept: Vec<(String, String)> = Vec::new();
        let n = self.removed.len();
        let mut i: usize = 0;
        while i < n
            invariant
                n == old_removed.len(),
                self.removed@ == old_removed,
                i <= n,
                !pair_in(kept@, account@, service@),
                forall|a: Seq<char>, s: Seq<char>|
                    !(a == account@ && s == service@) ==> (#[trigger] pair_in(kept@, a, s)
                        == pair_in(old_removed.take(i as int), a, s)),
            decreases n - i,
        {
            let e = &self.removed[i];
            let ghost before = kept@;
            proof {
                lemma_pair_in_push(old_removed.take(i as int), old_removed[i as int]);
                assert(old_removed.take(i + 1) =~= old_removed.take(i as int).push(
                    old_removed[i as int],
                ));
            }
            if !(str_eq(e.0.as_str(), account) && str_eq(e.1.as_str(), service)) {
                kept.push((e.0.clone(), e.1.clone()));
                proof {
                    lemma_pair_in_push(before, old_removed[i as int]);
                }
            }
            i = i + 1;
        }
        proof {
            assert(old_removed.take(n as int) =~= old_removed);
        }
        self.removed = kept;
    }

    /// Records that `(account, service)` was removed.
    fn mark_removed(&mut self, account: &str, service: &str)
        ensures
            final(self).backend == old(self).backend,
            final(self).file == old(self).file,
            final(self).is_removed(account@, service@),
            forall|a: Seq<char>, s: Seq<char>|
                !(a == account@ && s == service@) ==> (#[trigger] final(self).is_removed(a, s)
                    == old(self).is_removed(a, s)),
    {
        if self.removed_contains(account, service) {
            return;
        }
        let ghost before = self.removed@;
        let p = (account.to_owned(), service.to_owned());
        proof {
            lemma_pair_in_push(before, p);
        }
        self.removed.push(p);
    }

    /// Stores `credential` for `(account, service)` in memory.
    fn put(&mut self, account_name: String, service: String, credential: StoredCredential)
        requires
            old(self).wf(),
        ensures
            final(self).wf(),
            final(self).backend == old(self).backend,
            final(self).removed == old(self).removed,
            final(self).file.version == old(self).file.version,
            final(self).file.stored(account_name@, service@) == Some(credential@),
            forall|a: Seq<char>, s: Seq<char>|
                !(a == account_name@ && s == service@) ==> (#[trigger] final(self).file.stored(
                    a,
                    s,
                ) == old(self).file.stored(a, s)),
    {
        let ghost old_file = self.file;
        let ghost a0 = account_name@;
        let ghost s0 = service@;
        let mut set = match remove_key(&mut self.file.accounts, account_name.as_str()) {
            Some(set) => set,
            None => AccountCredentialSet { services: Vec::new() },
        };
        let ghost old_set = set;
        upsert(&mut set.services, service, credential);
        let ghost new_set = set;
        upsert(&mut self.file.accounts, account_name, set);
        proof {
            assert(lookup(self.file.accounts@, a0) == Some(new_set));
            assert forall|a: Seq<char>| #[trigger]
                lookup(self.file.accounts@, a) is Some implies keys_sorted(lookup(self.file.accounts@, a)->0.services@) by {
                if a != a0 {
                    assert(lookup(self.file.accounts@, a) == lookup(old_file.accounts@, a));
                }
            }
            assert forall|a: Seq<char>, s: Seq<char>|
                !(a == a0 && s == s0) implies (#[trigger] self.file.stored(a, s)
                == old_file.stored(a, s)) by {
                if a == a0 {
                    assert(lookup(new_set.services@, s) == lookup(old_set.services@, s));
                    if lookup(old_file.accounts@, a0) is None {
                        assert(!crate::sorted_map::has_key(old_set.services@, s));
                    }
                } else {
                    assert(lookup(self.file.accounts@, a) == lookup(old_file.accounts@, a));
                }
            }
        }
    }

    /// Stores an OAuth credential for `(account, service)`, cancelling a pending removal.
    pub fn set_oauth(
        &mut self,
        account_name: String,
        service: String,
        credential: StoredOauthCredential,
    )
        requires
            old(self).wf(),
        ensures
            final(self).wf(),
            final(self).backend_spec() == old(self).backend_spec(),
            forall|k: Option<CredentialView>|
                #[trigger] final(self).spec_get(account_name@, service@, k) == Some(
                    CredentialView::Oauth(credential@),
                ),
            forall|a: Seq<char>, s: Seq<char>, k: Option<CredentialView>|
                !(a == account_name@ && s == service@) ==> #[trigger] final(self).spec_get(a, s, k)
                    == old(self).spec_get(a, s, k),
    {
        let ghost s0 = *self;
        let ghost a0 = account_name@;
        let ghost v0 = service@;
        self.unmark_removed(account_name.as_str(), service.as_str());
        let ghost s1 = *self;
        self.put(account_name, service, StoredCredential::Oauth(credential));
        proof {
            assert forall|a: Seq<char>, s: Seq<char>, k: Option<CredentialView>|
                !(a == a0 && s == v0) implies #[trigger] self.spec_get(a, s, k) == s0.spec_get(
                a,
                s,
                k,
            ) by {
                assert(s1.is_removed(a, s) == s0.is_removed(a, s));
                assert(self.file.stored(a, s) == s1.file.stored(a, s));
            }
        }
    }

    /// Stores an application password for `(account, service)`, cancelling a pending removal.
    pub fn set_app_password(
        &mut self,
        account_name: String,
        service: String,
        credential: StoredAppPasswordCredential,
    )
        requires
            old(self).wf(),
        ensures
            final(self).wf(),
            final(self).backend_spec() == old(self).backend_spec(),
            forall|k: Option<CredentialView>|
                #[trigger] final(self).spec_get(account_name@, service@, k) == Some(
                    CredentialView::AppPassword(credential@),
                ),
            forall|a: Seq<char>, s: Seq<char>, k: Option<CredentialView>|
                !(a == account_name@ && s == service@) ==> #[trigger] final(self).spec_get(a, s, k)
                    == old(self).spec_get(a, s, k),
    {
        let ghost s0 = *self;
        let ghost a0 = account_name@;
        let ghost v0 = service@;
        self.unmark_removed(account_name.as_str(), service.as_str());
        let ghost s1 = *self;
        self.put(account_name, service, StoredCredential::AppPassword(credential));
        proof {
            assert forall|a: Seq<char>, s: Seq<char>, k: Option<CredentialView>|
                !(a == a0 && s == v0) implies #[trigger] self.spec_get(a, s, k) == s0.spec_get(
                a,
                s,
                k,
            ) by {
                assert(s1.is_removed(a, s) == s0.is_removed(a, s));
                assert(self.file.stored(a, s) == s1.file.stored(a, s));
            }
        }
    }

    /// Removes the credential of `(account, service)`; with the keyring backend its keyring
    /// entry is deleted on the next save. Gives whether there was one (`keyring` as for
    /// `get_service`).
    pub fn remove_service(
        &mut self,
        account_name: &str,
        service: &str,
        keyring: Option<StoredCredential>,
    ) -> (r: bool)
        requires
            old(self).wf(),
        ensures
            final(self).wf(),
            final(self).backend_spec() == old(self).backend_spec(),
            r == old(self).spec_get(account_name@, service@, opt_view(keyring)) is Some,
            !r ==> *final(self) == *old(self),
            r ==> forall|k: Option<CredentialView>| #[trigger]
                final(self).spec_get(account_name@, service@, k) is None,
            r ==> forall|a: Seq<char>, s: Seq<char>, k: Option<CredentialView>|
                !(a == account_name@ && s == service@) ==> #[trigger] final(self).spec_get(a, s, k)
                    == old(self).spec_get(a, s, k),
            r ==> final(self).file.version == old(self).file.version,
            r ==> final(self).file.stored(account_name@, service@) is None,
            r ==> forall|a: Seq<char>, s: Seq<char>|
                !(a == account_name@ && s == service@) ==> #[trigger] final(self).file.stored(a, s)
                    == old(self).file.stored(a, s),
            r ==> forall|a: Seq<char>|
                a != account_name@ ==> #[trigger] lookup(final(self).file.accounts@, a) == lookup(
                    old(self).file.accounts@,
                    a,
                ),
            r ==> (lookup(final(self).file.accounts@, account_name@) is Some <==> exists|s: Seq<char>|
                s != service@ && #[trigger] old(self).file.stored(account_name@, s) is Some),
            old(self).backend == SecretBackendKind::File ==> final(self).removed == old(self).removed,
            r && old(self).backend == SecretBackendKind::Keyring ==> forall|a: Seq<char>, s: Seq<char>|
                #[trigger] final(self).is_removed(a, s) == (old(self).is_removed(a, s) || (a
                    == account_name@ && s == service@)),
    {
        let found = self.get_service(account_name, service, keyring).is_some();
        if !found {
            return false;
        }
        let ghost old_file = self.file;
        let ghost a0 = account_name@;
        let ghost s0 = service@;
        match remove_key(&mut self.file.accounts, account_name) {
            Some(mut set) => {
                let ghost old_set = set;
                let _ = remove_key(&mut set.services, service);
                if set.services.len() > 0 {
                    let ghost new_set = set;
                    proof {
                        let k = set.services@[0].0@;
                        assert(crate::sorted_map::key_at(set.services@, 0, k));
                        crate::sorted_map::lemma_lookup_at(set.services@, 0, k);
                        assert(k != s0);
                        assert(lookup(old_set.services@, k) is Some);
                        assert(old_file.stored(a0, k) is Some);
                    }
                    upsert(&mut self.file.accounts, account_name.to_owned(), set);
                    proof {
                        assert(lookup(self.file.accounts@, a0) == Some(new_set));
                    }
                } else {
                    proof {
                        assert forall|s: Seq<char>| lookup(old_set.services@, s) is Some implies s
                            == s0 by {
                            if s != s0 {
                                assert(lookup(set.services@, s) == lookup(old_set.services@, s));
                                assert(!crate::sorted_map::has_key(set.services@, s));
                            }
                        }
                    }
                }
            },
            None => {},
        }
        proof {
            assert forall|a: Seq<char>| #[trigger]
                lookup(self.file.accounts@, a) is Some implies keys_sorted(lookup(self.file.accounts@, a)->0.services@) by {
                if a != a0 {
                    assert(lookup(self.file.accounts@, a) == lookup(old_file.accounts@, a));
                }
            }
            assert(self.file.stored(a0, s0) is None);
            assert forall|a: Seq<char>, s: Seq<char>|
                !(a == a0 && s == s0) implies (#[trigger] self.file.stored(a, s)
                == old_file.stored(a, s)) by {
                if a != a0 {
                    assert(lookup(self.file.accounts@, a) == lookup(old_file.accounts@, a));
                }
            }
        }
        if self.backend == SecretBackendKind::Keyring {
            self.mark_removed(account_name, service);
        }
        true
    }
}

/// `r` is the outcome of choosing the keyring: the keyring backend where the platform has
/// one, else an unsupported-operation error.
pub open spec fn keyring_outcome(r: Result<SecretBackendKind, ZocliError>, keyring_available: bool) -> bool {
    if keyring_available {
        r == Ok::<SecretBackendKind, ZocliError>(SecretBackendKind::Keyring)
    } else {
        r matches Err(ZocliError::UnsupportedOperation(m)) && m@
            == "system keyring backend is not supported on this target; set ZOCLI_SECRET_BACKEND=file if you need legacy plaintext storage"@
    }
}

/// Selects the keyring backend where the platform has one.
pub fn supported_keyring_backend(keyring_available: bool) -> (r: Result<
    SecretBackendKind,
    ZocliError,
>)
    ensures
        keyring_outcome(r, keyring_available),
{
    if keyring_available {
        Ok(SecretBackendKind::Keyring)
    } else {
        Err(
            ZocliError::UnsupportedOperation(
                String::from_str(
                    "system keyring backend is not supported on this target; set ZOCLI_SECRET_BACKEND=file if you need legacy plaintext storage",
                ),
            ),
        )
    }
}

/// The setting of the secret backend, trimmed and in ASCII lower case.
pub open spec fn backend_setting(value: Seq<char>) -> Seq<char> {
    ascii_lower_seq(trim_seq(value))
}

/// The backend chosen by the `ZOCLI_SECRET_BACKEND` setting (`value`, None when unset):
/// `file`, or `keyring` (also when unset or blank); anything else is a configuration error.
pub fn configured_secret_backend(value: Option<&str>, keyring_available: bool) -> (r: Result<
    SecretBackendKind,
    ZocliError,
>)
    ensures
        value matches Some(v) ==> (backend_setting(v@) == "file"@ ==> r == Ok::<
            SecretBackendKind,
            ZocliError,
        >(SecretBackendKind::File)),
        value is None ==> keyring_outcome(r, keyring_available),
        value matches Some(v) ==> ((backend_setting(v@) == "keyring"@ || backend_setting(v@).len()
            == 0) ==> keyring_outcome(r, keyring_available)),
        value matches Some(v) ==> (backend_setting(v@) != "file"@ && backend_setting(v@)
            != "keyring"@ && backend_setting(v@).len() != 0 ==> (r matches Err(
            ZocliError::Config(m),
        ) && m@ == "unsupported secret backend `"@ + backend_setting(v@)
            + "`; expected `keyring` or `file`"@)),
{
    match value {
        None => supported_keyring_backend(keyring_available),
        Some(v) => {
            let t = trim(v);
            let norm = to_ascii_lowercase(t.as_str());
            if str_eq(norm.as_str(), "file") {
                proof {
                    reveal_strlit("file");
                    reveal_strlit("keyring");
                    assert("file"@.len() == 4);
                    assert("keyring"@.len() == 7);
                    assert(norm@ == backend_setting(v@));
                }
                Ok(SecretBackendKind::File)
            } else if str_eq(norm.as_str(), "keyring") || norm.as_str().is_empty() {
                supported_keyring_backend(keyring_available)
            } else {
                Err(
                    ZocliError::Config(
                        cat3(
                            "unsupported secret backend `",
                            norm.as_str(),
                            "`; expected `keyring` or `file`",
                        ),
                    ),
                )
            }
        },
    }
}

} // verus!
