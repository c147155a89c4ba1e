//! The configuration store: the set of accounts, keyed by name.
//!
//! The store supplies the mapping from account name to account
//! configuration. Name uniqueness is enforced here, at construction; whether
//! exactly one account is flagged as the default is deliberately not checked
//! at load time, so that inconsistency surfaces only when the default
//! account is resolved.

use vstd::prelude::*;

use crate::account::TomlAccountConfig;
use crate::error::ConfigResolutionError;

verus! {

/// One named account of the configuration store.
#[derive(Clone, Debug, PartialEq, Eq)]
pub struct AccountEntry {
    /// The account's unique name, also the default namespace for its secret
    /// lookups.
    pub name: String,
    /// The account's configuration.
    pub config: TomlAccountConfig,
}

/// The main configuration: all the accounts, keyed by name.
#[derive(Debug)]
pub struct TomlConfig {
    accounts: Vec<AccountEntry>,
}

/// Whether an account is flagged as the default one.
pub open spec fn is_default(entry: AccountEntry) -> bool {
    entry.config.default == Some(true)
}

/// How many accounts of the sequence are flagged as the default.
pub open spec fn count_defaults(entries: Seq<AccountEntry>) -> nat
    decreases entries.len(),
{
    if entries.len() == 0 {
        0
    } else {
        count_defaults(entries.drop_last()) + if is_default(entries.last()) {
            1nat
        } else {
            0nat
        }
    }
}

/// Counting the defaults of a prefix one entry longer adds the new entry's
/// flag.
proof fn lemma_count_defaults_push(entries: Seq<AccountEntry>, entry: AccountEntry)
    ensures
        count_defaults(entries.push(entry)) == count_defaults(entries) + if is_default(entry) {
            1nat
        } else {
            0nat
        },
{
    assert(entries.push(entry).drop_last() =~= entries);
}

/// A sequence without any default-flagged entry counts zero defaults, and
/// one whose flagged entries all sit at one index counts one.
proof fn lemma_count_defaults_bound(entries: Seq<AccountEntry>)
    ensures
        count_defaults(entries) == 0 <==> forall|i: int|
            0 <= i < entries.len() ==> !is_default(entries[i]),
    decreases entries.len(),
{
    if entries.len() > 0 {
        lemma_count_defaults_bound(entries.drop_last());
        assert(forall|i: int|
            0 <= i < entries.len() - 1 ==> entries.drop_last()[i] == entries[i]);
        assert(entries.last() == entries[entries.len() - 1]);
    }
}

/// With exactly one default counted, any two default-flagged indices are the
/// same index: "the" default account is well defined.
pub proof fn lemma_single_default_is_unique(entries: Seq<AccountEntry>, i: int, j: int)
    requires
        count_defaults(entries) == 1,
        0 <= i < entries.len(),
        0 <= j < entries.len(),
        is_default(entries[i]),
        is_default(entries[j]),
    ensures
        i == j,
    decreases entries.len(),
{
    let last = entries.len() - 1;
    assert(forall|k: int| 0 <= k < last ==> entries.drop_last()[k] == entries[k]);
    assert(entries.last() == entries[last]);
    if i < last && j < last {
        if count_defaults(entries.drop_last()) == 1 {
            lemma_single_default_is_unique(entries.drop_last(), i, j);
        } else {
            lemma_count_defaults_bound(entries.drop_last());
        }
    } else if i == last && j == last {
    } else {
        lemma_count_defaults_bound(entries.drop_last());
    }
}

impl View for TomlConfig {
    type V = Seq<AccountEntry>;

    closed spec fn view(&self) -> Seq<AccountEntry> {
        self.accounts@
    }
}

impl TomlConfig {
    /// Name uniqueness, the store's invariant.
    pub open spec fn wf(&self) -> bool {
        forall|i: int, j: int|
            0 <= i < j < self@.len() ==> self@[i].name@ != self@[j].name@
    }

    /// An empty store.
    pub fn new() -> (config: TomlConfig)
        ensures
            config@ =~= Seq::<AccountEntry>::empty(),
            config.wf(),
    {
        TomlConfig { accounts: Vec::new() }
    }

    /// Build the store from a list of entries, enforcing name uniqueness:
    /// two entries under one name reject the whole list.
    pub fn from_entries(entries: Vec<AccountEntry>) -> (r: Option<TomlConfig>)
        ensures
            match r {
                Some(config) => config@ == entries@ && config.wf(),
                None => exists|i: int, j: int|
                    0 <= i < j < entries@.len() && entries@[i].name@ == entries@[j].name@,
            },
    {
        let n = entries.len();
        for i in 0..n
            invariant
                n == entries@.len(),
                forall|p: int, q: int| 0 <= p < q < i ==> entries@[p].name@ != entries@[q].name@,
        {
            for j in 0..i
                invariant
                    i < n == entries@.len(),
                    forall|p: int, q: int|
                        0 <= p < q < i ==> entries@[p].name@ != entries@[q].name@,
                    forall|q: int| 0 <= q < j ==> entries@[q].name@ != entries@[i as int].name@,
            {
                if entries[j].name == entries[i].name {
                    return None;
                }
            }
        }
        Some(TomlConfig { accounts: entries })
    }

    /// How many accounts the store holds.
    pub fn len(&self) -> (n: usize)
        ensures
            n == self@.len(),
    {
        self.accounts.len()
    }

    /// The project name, under which ambient resources (configuration
    /// directory, keyring service) are namespaced.
    pub fn project_name() -> (name: &'static str)
        ensures
            name@ == "mirador"@,
    {
        "mirador"
    }

    /// Exact, case-sensitive lookup of an account by name.
    pub fn get_account_config<'a>(&'a self, name: &String) -> (r: Option<
        (&'a String, &'a TomlAccountConfig),
    >)
        ensures
            match r {
                Some((found_name, found)) => {
                    &&& found_name@ == name@
                    &&& exists|i: int|
                        0 <= i < self@.len() && self@[i].name@ == name@ && found_name
                            == &self@[i].name && found == &self@[i].config
                },
                None => forall|i: int| 0 <= i < self@.len() ==> self@[i].name@ != name@,
            },
    {
        let n = self.accounts.len();
        for i in 0..n
            invariant
                n == self@.len(),
                forall|q: int| 0 <= q < i ==> self@[q].name@ != name@,
        {
            if self.accounts[i].name == *name {
                return Some((&self.accounts[i].name, &self.accounts[i].config));
            }
        }
        None
    }

    /// The single account flagged as the default, if the store flags exactly
    /// one; `None` when no account, or more than one, carries the flag.
    pub fn get_default_account_config<'a>(&'a self) -> (r: Option<
        (&'a String, &'a TomlAccountConfig),
    >)
        ensures
            match r {
                Some((found_name, found)) => {
                    &&& count_defaults(self@) == 1
                    &&& exists|i: int|
                        0 <= i < self@.len() && is_default(self@[i]) && found_name
                            == &self@[i].name && found == &self@[i].config
                },
                None => count_defaults(self@) != 1,
            },
    {
        let n = self.accounts.len();
        let mut count: usize = 0;
        let mut found: usize = 0;
        for i in 0..n
            invariant
                n == self@.len(),
                count == count_defaults(self@.take(i as int)),
                count <= i,
                count > 0 ==> found < i && is_default(self@[found as int]),
        {
            proof {
                lemma_count_defaults_push(self@.take(i as int), self@[i as int]);
                assert(self@.take(i as int).push(self@[i as int]) =~= self@.take(i + 1));
            }
            let flagged = match self.accounts[i].config.default {
                Some(true) => true,
                _ => false,
            };
            if flagged {
                count = count + 1;
                found = i;
            }
        }
        proof {
            assert(self@.take(n as int) =~= self@);
        }
        if count == 1 {
            Some((&self.accounts[found].name, &self.accounts[found].config))
        } else {
            None
        }
    }

    /// Resolve which account a watch invocation is about.
    ///
    /// With an explicit name, the account is looked up by exact,
    /// case-sensitive match and a miss fails with `NotFound`. Without one,
    /// the single account flagged as the default is selected, and zero or
    /// more than one flagged account fails with `NoDefaultAccount`.
    pub fn resolve<'a>(&'a self, name: Option<&String>) -> (r: Result<
        (&'a String, &'a TomlAccountConfig),
        ConfigResolutionError,
    >)
        ensures
            match name {
                Some(wanted) => match r {
                    Ok((found_name, found)) => {
                        &&& found_name@ == wanted@
                        &&& exists|i: int|
                            0 <= i < self@.len() && self@[i].name@ == wanted@ && found_name
                                == &self@[i].name && found == &self@[i].config
                    },
                    Err(e) => e == ConfigResolutionError::NotFound && forall|i: int|
                        0 <= i < self@.len() ==> self@[i].name@ != wanted@,
                },
                None => match r {
                    Ok((found_name, found)) => {
                        &&& count_defaults(self@) == 1
                        &&& exists|i: int|
                            0 <= i < self@.len() && is_default(self@[i]) && found_name
                                == &self@[i].name && found == &self@[i].config
                    },
                    Err(e) => e == ConfigResolutionError::NoDefaultAccount && count_defaults(self@)
                        != 1,
                },
            },
    {
        match name {
            Some(wanted) => match self.get_account_config(wanted) {
                Some(entry) => Ok(entry),
                None => Err(ConfigResolutionError::NotFound),
            },
            None => match self.get_default_account_config() {
                Some(entry) => Ok(entry),
                None => Err(ConfigResolutionError::NoDefaultAccount),
            },
        }
    }
}

} // verus!
