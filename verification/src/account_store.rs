//! The set of configured accounts and which of them is current.
use vstd::prelude::*;
use vstd::string::*;
use crate::error::ZocliError;
use crate::model::{AccountConfig, AccountsFile, spec_valid_datacenter, validate_datacenter};
use crate::text::{
    all_ws,
    cat3,
    has_prefix,
    is_all_whitespace,
    lemma_seq_lt_irreflexive,
    lemma_seq_lt_transitive,
    seq_lt,
    starts_with,
    str_eq,
    str_lt,
    contains_char,
};

verus! {

broadcast use vstd::string::group_string_axioms;

/// Name-ordered account entries, as kept in the accounts file.
pub type Entries = Seq<(String, AccountConfig)>;

/// Names ascend strictly (so no name occurs twice), as in a map ordered by name.
pub open spec fn names_sorted(s: Entries) -> bool {
    forall|i: int, j: int| 0 <= i < j < s.len() ==> seq_lt(#[trigger] s[i].0@, #[trigger] s[j].0@)
}

/// The entry at `i` is the account called `n`.
pub open spec fn name_at(s: Entries, i: int, n: Seq<char>) -> bool {
    0 <= i < s.len() && s[i].0@ == n
}

pub open spec fn has_name(s: Entries, n: Seq<char>) -> bool {
    exists|i: int| #[trigger] name_at(s, i, n)
}

/// The account with its default flag set to `d`.
pub open spec fn with_default(a: AccountConfig, d: bool) -> AccountConfig {
    AccountConfig {
        email: a.email,
        default: d,
        datacenter: a.datacenter,
        account_id: a.account_id,
        zuid: a.zuid,
        org_id: a.org_id,
        client_id: a.client_id,
        client_secret: a.client_secret,
        credential_ref: a.credential_ref,
    }
}

/// Every account with its default flag cleared.
pub open spec fn clear_defaults(s: Entries) -> Entries {
    s.map_values(|p: (String, AccountConfig)| (p.0, with_default(p.1, false)))
}

/// Every account, with the default flag on exactly the one called `n`.
pub open spec fn make_current(s: Entries, n: Seq<char>) -> Entries {
    s.map_values(|p: (String, AccountConfig)| (p.0, with_default(p.1, p.0@ == n)))
}

/// Whether adding `account` makes it the default: it asks to be, or it is the first account.
pub open spec fn becomes_default(s: Entries, account: AccountConfig) -> bool {
    account.default || s.len() == 0
}

/// The accounts that an added account joins: all defaults cleared when it becomes the default.
pub open spec fn base_for(old: Entries, account: AccountConfig) -> Entries {
    if becomes_default(old, account) {
        clear_defaults(old)
    } else {
        old
    }
}

/// `new` is `old` with the account `name` inserted at position `k`.
pub open spec fn added_at(
    old: Entries,
    name: String,
    account: AccountConfig,
    new: Entries,
    k: int,
) -> bool {
    &&& 0 <= k <= old.len()
    &&& new == base_for(old, account).insert(
        k,
        (name, with_default(account, becomes_default(old, account))),
    )
}

/// `new` is `old` with the account `name` added at its place in name order; when the new
/// account becomes the default, every other account loses the flag.
pub open spec fn spec_added(old: Entries, name: String, account: AccountConfig, new: Entries) -> bool {
    exists|k: int| #[trigger] added_at(old, name, account, new, k)
}

/// Index of the first account flagged default at or after `i`.
pub open spec fn first_default_from(s: Entries, i: int) -> Option<int>
    decreases s.len() - i,
{
    if i < 0 || i >= s.len() {
        None
    } else if s[i].1.default {
        Some(i)
    } else {
        first_default_from(s, i + 1)
    }
}

/// Index of the current account: the first flagged default in name order, or else the only
/// account when there is exactly one.
pub open spec fn current_index(s: Entries) -> Option<int> {
    match first_default_from(s, 0) {
        Some(i) => Some(i),
        None => if s.len() == 1 {
            Some(0)
        } else {
            None
        },
    }
}

/// The accounts with the credential reference of the account at `i` replaced.
pub open spec fn with_credential_ref(s: Entries, i: int, c: Option<String>) -> Entries {
    s.update(
        i,
        (
            s[i].0,
            AccountConfig {
                email: s[i].1.email,
                default: s[i].1.default,
                datacenter: s[i].1.datacenter,
                account_id: s[i].1.account_id,
                zuid: s[i].1.zuid,
                org_id: s[i].1.org_id,
                client_id: s[i].1.client_id,
                client_secret: s[i].1.client_secret,
                credential_ref: c,
            },
        ),
    )
}

pub open spec fn with_account_id(s: Entries, i: int, id: String) -> Entries {
    s.update(
        i,
        (
            s[i].0,
            AccountConfig {
                email: s[i].1.email,
                default: s[i].1.default,
                datacenter: s[i].1.datacenter,
                account_id: id,
                zuid: s[i].1.zuid,
                org_id: s[i].1.org_id,
                client_id: s[i].1.client_id,
                client_secret: s[i].1.client_secret,
                credential_ref: s[i].1.credential_ref,
            },
        ),
    )
}

pub open spec fn with_zuid(s: Entries, i: int, z: String) -> Entries {
    s.update(
        i,
        (
            s[i].0,
            AccountConfig {
                email: s[i].1.email,
                default: s[i].1.default,
                datacenter: s[i].1.datacenter,
                account_id: s[i].1.account_id,
                zuid: Some(z),
                org_id: s[i].1.org_id,
                client_id: s[i].1.client_id,
                client_secret: s[i].1.client_secret,
                credential_ref: s[i].1.credential_ref,
            },
        ),
    )
}

/// The configured accounts.
#[derive(Debug)]
pub struct AccountStore {
    pub file: AccountsFile,
}

impl AccountStore {
    pub open spec fn entries(&self) -> Entries {
        self.file.accounts@
    }

    /// The store's invariant: accounts are kept in ascending name order.
    pub open spec fn wf(&self) -> bool {
        names_sorted(self.entries())
    }

    /// Tests the store's invariant (for stores built outside the library).
    pub fn is_well_formed(&self) -> (r: bool)
        ensures
            r == self.wf(),
    {
        let n = self.file.accounts.len();
        if n == 0 {
            return true;
        }
        let mut i: usize = 1;
        while i < n
            invariant
                n == self.entries().len(),
                1 <= i <= n,
                forall|a: int, b: int|
                    0 <= a < b < i ==> seq_lt(
                        #[trigger] self.entries()[a].0@,
                        #[trigger] self.entries()[b].0@,
                    ),
            decreases n - i,
        {
            if !str_lt(self.file.accounts[i - 1].0.as_str(), self.file.accounts[i].0.as_str()) {
                return false;
            }
            proof {
                assert forall|a: int, b: int| 0 <= a < b < i + 1 implies seq_lt(
                    #[trigger] self.entries()[a].0@,
                    #[trigger] self.entries()[b].0@,
                ) by {
                    if b == i && a < i - 1 {
                        lemma_seq_lt_transitive(
                            self.entries()[a].0@,
                            self.entries()[i - 1].0@,
                            self.entries()[b].0@,
                        );
                    }
                }
            }
            i = i + 1;
        }
        true
    }

    /// Position of the account called `name`.
    fn find_index(&self, name: &str) -> (r: Option<usize>)
        ensures
            match r {
                Some(i) => name_at(self.entries(), i as int, name@),
                None => !has_name(self.entries(), name@),
            },
    {
        let n = self.file.accounts.len();
        let mut i: usize = 0;
        while i < n
            invariant
                n == self.entries().len(),
                i <= n,
                forall|j: int| 0 <= j < i ==> !(#[trigger] name_at(self.entries(), j, name@)),
            decreases n - i,
        {
            if str_eq(self.file.accounts[i].0.as_str(), name) {
                return Some(i);
            }
            i = i + 1;
        }
        None
    }

    /// Adds an account under a new name. It becomes the default when it asks to be or when
    /// it is the first; the other accounts then lose the flag.
    pub fn add_account(&mut self, name: String, account: AccountConfig) -> (r: Result<
        (),
        ZocliError,
    >)
        requires
            old(self).wf(),
        ensures
            final(self).wf(),
            final(self).file.version == old(self).file.version,
            has_name(old(self).entries(), name@) ==> r == Err::<(), ZocliError>(
                ZocliError::AccountExists(name),
            ) && *final(self) == *old(self),
            !has_name(old(self).entries(), name@) ==> r is Ok && spec_added(
                old(self).entries(),
                name,
                account,
                final(self).entries(),
            ),
    {
        if self.find_index(name.as_str()).is_some() {
            return Err(ZocliError::AccountExists(name));
        }
        let ghost old_entries = self.entries();
        let ghost given = account;
        let d = account.default || self.file.accounts.len() == 0;
        if d {
            self.clear_default();
        }
        let ghost base = self.entries();
        assert(base == (if d {
            clear_defaults(old_entries)
        } else {
            old_entries
        }));
        proof {
            assert forall|i: int| #[trigger] name_at(base, i, name@) implies name_at(
                old_entries,
                i,
                name@,
            ) by {
                if d {
                    assert(base[i].0 == old_entries[i].0);
                }
            }
        }
        let mut account = account;
        account.default = d;
        assert(account == with_default(given, d));
        let n = self.file.accounts.len();
        let mut k: usize = 0;
        while k < n && str_lt(self.file.accounts[k].0.as_str(), name.as_str())
            invariant
                n == self.entries().len(),
                self.entries() == base,
                names_sorted(base),
                !has_name(base, name@),
                k <= n,
                forall|j: int| 0 <= j < k ==> seq_lt(#[trigger] base[j].0@, name@),
            decreases n - k,
        {
            k = k + 1;
        }
        let ghost entry = (name, account);
        proof {
            if k < n {
                assert(!seq_lt(base[k as int].0@, name@));
                assert(base[k as int].0@ != name@) by {
                    assert(!name_at(base, k as int, name@));
                }
                lemma_seq_lt_total(base[k as int].0@, name@);
            }
        }
        self.file.accounts.insert(k, (name, account));
        proof {
            let new = self.entries();
            assert(new == base.insert(k as int, entry));
            assert forall|a: int, b: int| 0 <= a < b < new.len() implies seq_lt(
                #[trigger] new[a].0@,
                #[trigger] new[b].0@,
            ) by {
                if b < k {
                } else if b == k {
                    assert(seq_lt(base[a].0@, name@));
                } else if a == k {
                    if b - 1 > k {
                        lemma_seq_lt_transitive(name@, base[k as int].0@, base[b - 1].0@);
                    }
                } else if a < k {
                    assert(seq_lt(base[a].0@, base[b - 1].0@));
                } else {
                    assert(seq_lt(base[a - 1].0@, base[b - 1].0@));
                }
            }
            assert(added_at(old_entries, name, given, new, k as int));
        }
        Ok(())
    }

    /// Makes the account called `name` the only default one.
    pub fn set_current(&mut self, name: &str) -> (r: Result<(), ZocliError>)
        requires
            old(self).wf(),
        ensures
            final(self).wf(),
            final(self).file.version == old(self).file.version,
            !has_name(old(self).entries(), name@) ==> (r matches Err(
                ZocliError::AccountNotFound(m),
            ) && m@ == name@) && *final(self) == *old(self),
            has_name(old(self).entries(), name@) ==> r is Ok && final(self).entries()
                == make_current(old(self).entries(), name@),
    {
        if self.find_index(name).is_none() {
            return Err(ZocliError::AccountNotFound(name.to_owned()));
        }
        let ghost old_entries = self.entries();
        let mut out: Vec<(String, AccountConfig)> = Vec::new();
        let n = self.file.accounts.len();
        let mut i: usize = 0;
        while i < n
            invariant
                n == old_entries.len(),
                self.entries() == old_entries,
                i <= n,
                out@ == make_current(old_entries.take(i as int), name@),
            decreases n - i,
        {
            let e = &self.file.accounts[i];
            let mut a = e.1.duplicate();
            a.default = str_eq(e.0.as_str(), name);
            out.push((e.0.clone(), a));
            proof {
                assert(old_entries.take(i + 1) == old_entries.take(i as int).push(old_entries[i as int]));
                assert(out@ =~= make_current(old_entries.take(i + 1), name@));
            }
            i = i + 1;
        }
        proof {
            assert(old_entries.take(n as int) =~= old_entries);
        }
        self.file.accounts = out;
        Ok(())
    }

    /// The account a command acts on: the one asked for, which must exist, or else the
    /// current account.
    pub fn resolved_account_name(&self, requested: Option<&str>) -> (r: Result<String, ZocliError>)
        ensures
            requested matches Some(n) ==> (has_name(self.entries(), n@) ==> (r matches Ok(s) && s@
                == n@)),
            requested matches Some(n) ==> (!has_name(self.entries(), n@) ==> (r matches Err(
                ZocliError::AccountNotFound(m),
            ) && m@ == n@)),
            requested is None ==> match current_index(self.entries()) {
                Some(i) => r matches Ok(s) && s@ == self.entries()[i].0@,
                None => r == Err::<String, ZocliError>(ZocliError::CurrentAccountMissing),
            },
    {
        match requested {
            Some(name) => {
                if self.find_index(name).is_some() {
                    Ok(name.to_owned())
                } else {
                    Err(ZocliError::AccountNotFound(name.to_owned()))
                }
            },
            None => self.find_current(),
        }
    }

    fn find_current(&self) -> (r: Result<String, ZocliError>)
        ensures
            match current_index(self.entries()) {
                Some(i) => r matches Ok(s) && s@ == self.entries()[i].0@,
                None => r == Err::<String, ZocliError>(ZocliError::CurrentAccountMissing),
            },
    {
        let n = self.file.accounts.len();
        let mut i: usize = 0;
        while i < n
            invariant
                n == self.entries().len(),
                i <= n,
                first_default_from(self.entries(), 0) == first_default_from(
                    self.entries(),
                    i as int,
                ),
            decreases n - i,
        {
            if self.file.accounts[i].1.default {
                return Ok(self.file.accounts[i].0.clone());
            }
            i = i + 1;
        }
        if n == 1 {
            return Ok(self.file.accounts[0].0.clone());
        }
        Err(ZocliError::CurrentAccountMissing)
    }

    /// The current account's name.
    pub fn current_account_name(&self) -> (r: Result<String, ZocliError>)
        ensures
            match current_index(self.entries()) {
                Some(i) => r matches Ok(s) && s@ == self.entries()[i].0@,
                None => r == Err::<String, ZocliError>(ZocliError::CurrentAccountMissing),
            },
    {
        self.resolved_account_name(None)
    }

    /// Whether `name` is the current account.
    pub fn is_current_account(&self, name: &str) -> (r: bool)
        ensures
            r == (current_index(self.entries()) matches Some(i) && self.entries()[i].0@
                == name@),
    {
        match self.current_account_name() {
            Ok(current) => str_eq(current.as_str(), name),
            Err(_) => false,
        }
    }

    /// The account called `name`.
    pub fn get_account(&self, name: &str) -> (r: Result<&AccountConfig, ZocliError>)
        ensures
            has_name(self.entries(), name@) <==> r is Ok,
            r matches Ok(a) ==> exists|i: int| #[trigger]
                name_at(self.entries(), i, name@) && *a == self.entries()[i].1,
            r matches Err(e) ==> e matches ZocliError::AccountNotFound(m) && m@ == name@,
    {
        match self.find_index(name) {
            Some(i) => Ok(&self.file.accounts[i].1),
            None => Err(ZocliError::AccountNotFound(name.to_owned())),
        }
    }

    /// Every account with its name, in name order.
    pub fn summaries(&self) -> (r: Vec<(String, &AccountConfig)>)
        ensures
            r@.len() == self.entries().len(),
            forall|i: int|
                0 <= i < r@.len() ==> (#[trigger] r@[i]).0@ == self.entries()[i].0@ && *r@[i].1
                    == self.entries()[i].1,
    {
        let mut out: Vec<(String, &AccountConfig)> = Vec::new();
        let n = self.file.accounts.len();
        let mut i: usize = 0;
        while i < n
            invariant
                n == self.entries().len(),
                i <= n,
                out@.len() == i,
                forall|j: int|
                    0 <= j < i ==> (#[trigger] out@[j]).0@ == self.entries()[j].0@ && *out@[j].1
                        == self.entries()[j].1,
            decreases n - i,
        {
            let e = &self.file.accounts[i];
            out.push((e.0.clone(), &e.1));
            i = i + 1;
        }
        out
    }

    /// Points the account's credential at a new place.
    pub fn set_credential_ref(&mut self, account_name: &str, credential_ref: Option<String>) -> (r:
        Result<(), ZocliError>)
        requires
            old(self).wf(),
        ensures
            final(self).wf(),
            final(self).file.version == old(self).file.version,
            !has_name(old(self).entries(), account_name@) ==> (r matches Err(
                ZocliError::AccountNotFound(m),
            ) && m@ == account_name@) && *final(self) == *old(self),
            has_name(old(self).entries(), account_name@) ==> r is Ok && exists|i: int| #[trigger]
                name_at(old(self).entries(), i, account_name@) && final(self).entries()
                    == with_credential_ref(old(self).entries(), i, credential_ref),
    {
        match self.find_index(account_name) {
            None => Err(ZocliError::AccountNotFound(account_name.to_owned())),
            Some(i) => {
                let ghost s = self.entries();
                let (n, mut a) = self.file.accounts.remove(i);
                a.credential_ref = credential_ref;
                self.file.accounts.insert(i, (n, a));
                proof {
                    assert(self.entries() =~= with_credential_ref(s, i as int, credential_ref));
                    assert(name_at(s, i as int, account_name@));
                }
                Ok(())
            },
        }
    }

    /// Records the account's Zoho account ID.
    pub fn set_account_id(&mut self, account_name: &str, account_id: &str) -> (r: Result<
        (),
        ZocliError,
    >)
        requires
            old(self).wf(),
        ensures
            final(self).wf(),
            final(self).file.version == old(self).file.version,
            !has_name(old(self).entries(), account_name@) ==> (r matches Err(
                ZocliError::AccountNotFound(m),
            ) && m@ == account_name@) && *final(self) == *old(self),
            has_name(old(self).entries(), account_name@) ==> r is Ok && exists|i: int| #[trigger]
                name_at(old(self).entries(), i, account_name@) && final(self).entries()[i].1.account_id@
                    == account_id@ && final(self).entries() == with_account_id(
                    old(self).entries(),
                    i,
                    final(self).entries()[i].1.account_id,
                ),
    {
        match self.find_index(account_name) {
            None => Err(ZocliError::AccountNotFound(account_name.to_owned())),
            Some(i) => {
                let ghost s = self.entries();
                let (n, mut a) = self.file.accounts.remove(i);
                let id = account_id.to_owned();
                let ghost gid = id;
                a.account_id = id;
                self.file.accounts.insert(i, (n, a));
                proof {
                    assert(self.entries() =~= with_account_id(s, i as int, gid));
                    assert(name_at(s, i as int, account_name@));
                }
                Ok(())
            },
        }
    }

    /// Records the account's Zoho user ID.
    pub fn set_zuid(&mut self, account_name: &str, zuid: &str) -> (r: Result<(), ZocliError>)
        requires
            old(self).wf(),
        ensures
            final(self).wf(),
            final(self).file.version == old(self).file.version,
            !has_name(old(self).entries(), account_name@) ==> (r matches Err(
                ZocliError::AccountNotFound(m),
            ) && m@ == account_name@) && *final(self) == *old(self),
            has_name(old(self).entries(), account_name@) ==> r is Ok && exists|i: int| #[trigger]
                name_at(old(self).entries(), i, account_name@) && (final(self).entries()[i].1.zuid
                    matches Some(z) && z@ == zuid@ && final(self).entries() == with_zuid(
                    old(self).entries(),
                    i,
                    z,
                )),
    {
        match self.find_index(account_name) {
            None => Err(ZocliError::AccountNotFound(account_name.to_owned())),
            Some(i) => {
                let ghost s = self.entries();
                let (n, mut a) = self.file.accounts.remove(i);
                let z = zuid.to_owned();
                let ghost gz = z;
                a.zuid = Some(z);
                self.file.accounts.insert(i, (n, a));
                proof {
                    assert(self.entries() =~= with_zuid(s, i as int, gz));
                    assert(name_at(s, i as int, account_name@));
                }
                Ok(())
            },
        }
    }

    /// Clears the default flag of every account.
    fn clear_default(&mut self)
        requires
            old(self).wf(),
        ensures
            final(self).wf(),
            final(self).file.version == old(self).file.version,
            final(self).entries() == clear_defaults(old(self).entries()),
    {
        let ghost old_entries = self.entries();
        let mut out: Vec<(String, AccountConfig)> = Vec::new();
        let n = self.file.accounts.len();
        let mut i: usize = 0;
        while i < n
            invariant
                n == old_entries.len(),
                self.entries() == old_entries,
                i <= n,
                out@ == clear_defaults(old_entries.take(i as int)),
            decreases n - i,
        {
            let e = &self.file.accounts[i];
            let mut a = e.1.duplicate();
            a.default = false;
            out.push((e.0.clone(), a));
            proof {
                assert(old_entries.take(i + 1) == old_entries.take(i as int).push(old_entries[i as int]));
                assert(out@ =~= clear_defaults(old_entries.take(i + 1)));
            }
            i = i + 1;
        }
        proof {
            assert(old_entries.take(n as int) =~= old_entries);
        }
        self.file.accounts = out;
    }
}

/// Outcome of checking an account's settings.
#[derive(Debug)]
pub struct ValidationReport {
    pub valid: bool,
    pub errors: Vec<String>,
}

/// A one-message list when `cond` holds, else nothing.
pub open spec fn problem(cond: bool, msg: Seq<char>) -> Seq<Seq<char>> {
    if cond {
        seq![msg]
    } else {
        Seq::empty()
    }
}

/// Every problem with an account's settings, in the order they are checked.
pub open spec fn account_problems(name: Seq<char>, account: AccountConfig) -> Seq<Seq<char>> {
    problem(all_ws(name), "account name must not be empty"@) + problem(
        !account.email@.contains('@'),
        "email must contain @"@,
    ) + problem(
        !spec_valid_datacenter(account.datacenter@),
        "datacenter '"@ + account.datacenter@
            + "' is not valid; expected one of: com, eu, in, com.au, jp, zohocloud.ca, sa, uk"@,
    ) + problem(all_ws(account.account_id@), "account_id must not be empty"@) + problem(
        all_ws(account.client_id@),
        "client_id must not be empty"@,
    ) + problem(
        account.credential_ref matches Some(c) && !has_prefix(c@, "env:"@) && !has_prefix(
            c@,
            "store:"@,
        ),
        "credential_ref must use env:NAME or store:SERVICE"@,
    )
}

pub open spec fn views(v: Seq<String>) -> Seq<Seq<char>> {
    v.map_values(|s: String| s@)
}

fn add_problem(errors: &mut Vec<String>, cond: bool, msg: String)
    ensures
        views(final(errors)@) == views(old(errors)@) + problem(cond, msg@),
{
    let ghost before = errors@;
    if cond {
        errors.push(msg);
        assert(views(errors@) =~= views(before) + problem(cond, msg@));
    } else {
        assert(views(errors@) =~= views(before) + problem(cond, msg@));
    }
}

/// Checks an account's settings; every problem found is reported.
pub fn validate_account(name: &str, account: &AccountConfig) -> (r: ValidationReport)
    ensures
        views(r.errors@) == account_problems(name@, *account),
        r.valid == (r.errors@.len() == 0),
{
    let mut errors: Vec<String> = Vec::new();
    add_problem(&mut errors, is_all_whitespace(name), String::from_str("account name must not be empty"));
    add_problem(
        &mut errors,
        !contains_char(account.email.as_str(), '@'),
        String::from_str("email must contain @"),
    );
    add_problem(
        &mut errors,
        !validate_datacenter(account.datacenter.as_str()),
        cat3(
            "datacenter '",
            account.datacenter.as_str(),
            "' is not valid; expected one of: com, eu, in, com.au, jp, zohocloud.ca, sa, uk",
        ),
    );
    add_problem(
        &mut errors,
        is_all_whitespace(account.account_id.as_str()),
        String::from_str("account_id must not be empty"),
    );
    add_problem(
        &mut errors,
        is_all_whitespace(account.client_id.as_str()),
        String::from_str("client_id must not be empty"),
    );
    let bad_ref = match &account.credential_ref {
        Some(c) => !starts_with(c.as_str(), "env:") && !starts_with(c.as_str(), "store:"),
        None => false,
    };
    add_problem(
        &mut errors,
        bad_ref,
        String::from_str("credential_ref must use env:NAME or store:SERVICE"),
    );
    proof {
        assert(views(errors@) =~= account_problems(name@, *account));
    }
    let valid = errors.len() == 0;
    ValidationReport { valid, errors }
}

proof fn lemma_first_default_is(s: Entries, j: int, i: int)
    requires
        0 <= j <= i < s.len(),
        s[i].1.default,
        forall|m: int| j <= m < i ==> !(#[trigger] s[m]).1.default,
    ensures
        first_default_from(s, j) == Some(i),
    decreases i - j,
{
    if j < i {
        lemma_first_default_is(s, j + 1, i);
    }
}

/// In name-ordered accounts a name belongs to one entry only.
pub proof fn lemma_name_unique(s: Entries, i: int, j: int, n: Seq<char>)
    requires
        names_sorted(s),
        name_at(s, i, n),
        name_at(s, j, n),
    ensures
        i == j,
{
    if i < j {
        assert(seq_lt(s[i].0@, s[j].0@));
        lemma_seq_lt_irreflexive(n);
    } else if j < i {
        assert(seq_lt(s[j].0@, s[i].0@));
        lemma_seq_lt_irreflexive(n);
    }
}

/// An added account is found under its name afterwards, with the default flag it was given.
pub proof fn law_added_account_is_found(
    old: Entries,
    name: String,
    account: AccountConfig,
    new: Entries,
)
    requires
        names_sorted(new),
        spec_added(old, name, account, new),
    ensures
        has_name(new, name@),
        forall|i: int| #[trigger]
            name_at(new, i, name@) ==> new[i].1 == with_default(
                account,
                becomes_default(old, account),
            ),
{
    let k = choose|k: int| #[trigger] added_at(old, name, account, new, k);
    assert(name_at(new, k, name@));
    assert forall|i: int| #[trigger] name_at(new, i, name@) implies new[i].1 == with_default(
        account,
        becomes_default(old, account),
    ) by {
        lemma_name_unique(new, i, k, name@);
    }
}

/// An account that becomes the default when added (asked to be, or the first one) is the
/// current account afterwards.
pub proof fn law_default_account_becomes_current(
    old: Entries,
    name: String,
    account: AccountConfig,
    new: Entries,
)
    requires
        names_sorted(new),
        spec_added(old, name, account, new),
        becomes_default(old, account),
    ensures
        current_index(new) matches Some(i) && new[i].0@ == name@,
{
    let k = choose|k: int| #[trigger] added_at(old, name, account, new, k);
    let base = clear_defaults(old);
    assert(new == base.insert(k, (name, with_default(account, true))));
    assert forall|m: int| 0 <= m < k implies !(#[trigger] new[m]).1.default by {
        assert(new[m] == base[m]);
    }
    lemma_first_default_is(new, 0, k);
}

/// After making an account current, it is the current account and the only default one.
pub proof fn law_set_current_selects(old: Entries, n: Seq<char>)
    requires
        names_sorted(old),
        has_name(old, n),
    ensures
        current_index(make_current(old, n)) matches Some(i) && make_current(old, n)[i].0@ == n,
        forall|j: int|
            0 <= j < old.len() ==> (#[trigger] make_current(old, n)[j]).1.default == (old[j].0@
                == n),
{
    let new = make_current(old, n);
    let i = choose|i: int| #[trigger] name_at(old, i, n);
    assert forall|m: int| 0 <= m < i implies !(#[trigger] new[m]).1.default by {
        if new[m].1.default {
            assert(name_at(old, m, n));
            lemma_name_unique(old, m, i, n);
        }
    }
    lemma_first_default_is(new, 0, i);
}

proof fn lemma_seq_lt_total(a: Seq<char>, b: Seq<char>)
    requires
        a != b,
    ensures
        seq_lt(a, b) || seq_lt(b, a),
    decreases a.len(),
{
    if a.len() > 0 && b.len() > 0 && a[0] == b[0] {
        if a.drop_first() == b.drop_first() {
            assert(a =~= seq![a[0]] + a.drop_first());
            assert(b =~= seq![b[0]] + b.drop_first());
        }
        lemma_seq_lt_total(a.drop_first(), b.drop_first());
    } else if a.len() == 0 && b.len() == 0 {
        assert(a =~= b);
    }
}


/// An account whose datacenter is not accepted is refused with a message that lists, after
/// "expected one of:", exactly the datacenters that are accepted.
pub proof fn law_datacenter_refusal_lists_the_accepted(name: Seq<char>, account: AccountConfig)
    requires
        !spec_valid_datacenter(account.datacenter@),
    ensures
        account_problems(name, account).contains(
            "datacenter '"@ + account.datacenter@ + "' is not valid; expected one of: "@
                + crate::oauth::join_with(crate::model::listed_datacenters(), ", "@),
        ),
        forall|d: Seq<char>|
            crate::model::listed_datacenters().contains(d) <==> #[trigger] spec_valid_datacenter(d),
{
    assert forall|d: Seq<char>|
        crate::model::listed_datacenters().contains(d) <==> #[trigger] spec_valid_datacenter(d) by {
        crate::model::law_listed_datacenters_are_accepted(d);
    }
    crate::model::law_listed_datacenters_are_accepted(account.datacenter@);
    reveal_strlit("' is not valid; expected one of: ");
    reveal_strlit("' is not valid; expected one of: com, eu, in, com.au, jp, zohocloud.ca, sa, uk");
    reveal_strlit("com, eu, in, com.au, jp, zohocloud.ca, sa, uk");
    let msg = "datacenter '"@ + account.datacenter@ + "' is not valid; expected one of: "@
        + crate::oauth::join_with(crate::model::listed_datacenters(), ", "@);
    assert(msg =~= "datacenter '"@ + account.datacenter@
        + "' is not valid; expected one of: com, eu, in, com.au, jp, zohocloud.ca, sa, uk"@);
    let ps = account_problems(name, account);
    let a = problem(all_ws(name), "account name must not be empty"@) + problem(
        !account.email@.contains('@'),
        "email must contain @"@,
    );
    assert(ps[a.len() as int] == msg);
}

} // verus!
