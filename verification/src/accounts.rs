//! Mailbox accounts under their names.

use vstd::prelude::*;

use crate::text::{same_text, texts};

verus! {

/// One mailbox account.
#[derive(Debug)]
pub struct AccountConfig {
    /// Host of the IMAP server.
    pub imap_host: String,
    /// Port of the IMAP server.
    pub imap_port: u16,
    /// Host of the SMTP relay.
    pub smtp_host: String,
    /// Port of the SMTP relay.
    pub smtp_port: u16,
    /// Login at both servers, and sender of outgoing mail.
    pub login: String,
    /// Password at both servers.
    pub password: String,
}

/// What an account holds.
pub ghost struct AccountView {
    pub imap_host: Seq<char>,
    pub imap_port: u16,
    pub smtp_host: Seq<char>,
    pub smtp_port: u16,
    pub login: Seq<char>,
    pub password: Seq<char>,
}

impl View for AccountConfig {
    type V = AccountView;

    open spec fn view(&self) -> AccountView {
        AccountView {
            imap_host: self.imap_host@,
            imap_port: self.imap_port,
            smtp_host: self.smtp_host@,
            smtp_port: self.smtp_port,
            login: self.login@,
            password: self.password@,
        }
    }
}

impl Clone for AccountConfig {
    fn clone(&self) -> (same: AccountConfig)
        ensures
            same@ == self@,
    {
        AccountConfig {
            imap_host: self.imap_host.clone(),
            imap_port: self.imap_port,
            smtp_host: self.smtp_host.clone(),
            smtp_port: self.smtp_port,
            login: self.login.clone(),
            password: self.password.clone(),
        }
    }
}

/// The accounts, each under a name of its own.
#[derive(Debug)]
pub struct Accounts {
    entries: Vec<(String, AccountConfig)>,
}

/// The names and contents of a list of entries.
spec fn rows(entries: Seq<(String, AccountConfig)>) -> Seq<(Seq<char>, AccountView)> {
    Seq::new(entries.len(), |i: int| (entries[i].0@, entries[i].1@))
}

/// Whether no name occurs twice.
spec fn distinct(rows: Seq<(Seq<char>, AccountView)>) -> bool {
    forall|i: int, j: int|
        0 <= i < j < rows.len() ==> (#[trigger] rows[i]).0 != (#[trigger] rows[j]).0
}

/// The map that holds each row.
spec fn table(rows: Seq<(Seq<char>, AccountView)>) -> Map<Seq<char>, AccountView>
    decreases rows.len(),
{
    if rows.len() == 0 {
        Map::empty()
    } else {
        table(rows.drop_last()).insert(rows.last().0, rows.last().1)
    }
}

proof fn table_holds_rows(rows: Seq<(Seq<char>, AccountView)>)
    requires
        distinct(rows),
    ensures
        forall|i: int|
            0 <= i < rows.len() ==> table(rows).contains_key((#[trigger] rows[i]).0) && table(
                rows,
            )[rows[i].0] == rows[i].1,
        forall|name: Seq<char>| #[trigger]
            table(rows).contains_key(name) ==> exists|i: int|
                0 <= i < rows.len() && (#[trigger] rows[i]).0 == name,
    decreases rows.len(),
{
    if rows.len() > 0 {
        let before = rows.drop_last();
        assert forall|i: int, j: int| 0 <= i < j < before.len() implies (#[trigger] before[i]).0 != (
        #[trigger] before[j]).0 by {
            assert(rows[i].0 != rows[j].0);
        }
        table_holds_rows(before);
        assert forall|i: int| 0 <= i < rows.len() implies table(rows).contains_key(
            (#[trigger] rows[i]).0,
        ) && table(rows)[rows[i].0] == rows[i].1 by {
            if i < rows.len() - 1 {
                assert(before[i] == rows[i]);
                assert(rows[i].0 != rows[rows.len() - 1].0);
            }
        }
        assert forall|name: Seq<char>| #[trigger] table(rows).contains_key(name) implies exists|i: int|
            0 <= i < rows.len() && (#[trigger] rows[i]).0 == name by {
            if name == rows.last().0 {
                assert(rows[rows.len() - 1].0 == name);
            } else {
                assert(table(before).contains_key(name));
                let i = choose|i: int| 0 <= i < before.len() && (#[trigger] before[i]).0 == name;
                assert(rows[i].0 == name);
            }
        }
    }
}

/// The names of a list of entries.
spec fn walk(entries: Seq<(String, AccountConfig)>) -> Seq<Seq<char>> {
    Seq::new(entries.len(), |i: int| entries[i].0@)
}

proof fn walked_once(entries: Seq<(String, AccountConfig)>)
    requires
        distinct(rows(entries)),
    ensures
        walk(entries).no_duplicates(),
        forall|name: Seq<char>| #[trigger]
            table(rows(entries)).contains_key(name) <==> walk(entries).contains(name),
{
    let all = rows(entries);
    let order = walk(entries);
    table_holds_rows(all);
    assert forall|i: int, j: int|
        0 <= i < order.len() && 0 <= j < order.len() && i != j implies order[i] != order[j] by {
        if i < j {
            assert(all[i].0 != all[j].0);
        } else {
            assert(all[j].0 != all[i].0);
        }
    }
    assert forall|name: Seq<char>| #[trigger]
        table(all).contains_key(name) <==> order.contains(name) by {
        if table(all).contains_key(name) {
            let i = choose|i: int| 0 <= i < all.len() && (#[trigger] all[i]).0 == name;
            assert(order[i] == name);
        }
        if order.contains(name) {
            let i = choose|i: int| 0 <= i < order.len() && order[i] == name;
            assert(all[i].0 == name);
        }
    }
}

impl View for Accounts {
    type V = Map<Seq<char>, AccountView>;

    closed spec fn view(&self) -> Map<Seq<char>, AccountView> {
        table(rows(self.entries@))
    }
}

impl Accounts {
    #[verifier::type_invariant]
    spec fn names_are_distinct(&self) -> bool {
        distinct(rows(self.entries@))
    }

    /// The names in the order in which the accounts are walked.
    pub closed spec fn order(&self) -> Seq<Seq<char>> {
        walk(self.entries@)
    }

    /// No accounts.
    pub fn new() -> (accounts: Accounts)
        ensures
            accounts@ == Map::<Seq<char>, AccountView>::empty(),
    {
        Accounts { entries: Vec::new() }
    }

    /// Puts `config` under `name`, in place of what stood there.
    pub fn insert(&mut self, name: String, config: AccountConfig)
        ensures
            final(self)@ == old(self)@.insert(name@, config@),
    {
        proof {
            use_type_invariant(&*self);
        }
        let ghost before = rows(self.entries@);
        let mut entries: Vec<(String, AccountConfig)> = Vec::new();
        std::mem::swap(&mut entries, &mut self.entries);
        let mut i: usize = 0;
        while i < entries.len()
            invariant
                i <= entries.len(),
                rows(entries@) == before,
                forall|j: int| 0 <= j < i ==> (#[trigger] before[j]).0 != name@,
            ensures
                i < entries.len() ==> before[i as int].0 == name@,
            decreases entries.len() - i,
        {
            assert(before[i as int].0 == entries@[i as int].0@);
            if same_text(entries[i].0.as_str(), name.as_str()) {
                break;
            }
            i += 1;
        }
        proof {
            table_holds_rows(before);
        }
        if i < entries.len() {
            let ghost row = (name@, config@);
            let ghost after = before.update(i as int, row);
            entries.set(i, (name, config));
            proof {
                assert(rows(entries@) == after);
                assert forall|j: int, k: int| 0 <= j < k < after.len() implies (
                #[trigger] after[j]).0 != (#[trigger] after[k]).0 by {
                    assert(before[j].0 != before[k].0);
                }
                table_holds_rows(after);
                assert forall|n: Seq<char>| table(after).contains_key(n) <==> #[trigger] table(
                    before,
                ).insert(row.0, row.1).contains_key(n) by {
                    if table(after).contains_key(n) {
                        let j = choose|j: int| 0 <= j < after.len() && (#[trigger] after[j]).0 == n;
                        assert(before[j].0 == n);
                    }
                    if table(before).contains_key(n) {
                        let j = choose|j: int| 0 <= j < before.len() && (#[trigger] before[j]).0 == n;
                        assert(after[j].0 == n);
                    }
                    assert(after[i as int].0 == row.0);
                }
                assert forall|n: Seq<char>| #[trigger] table(after).contains_key(n) implies table(
                    after,
                )[n] == table(before).insert(row.0, row.1)[n] by {
                    let j = choose|j: int| 0 <= j < after.len() && (#[trigger] after[j]).0 == n;
                    assert(before[j].0 == n);
                    if j != i {
                        assert(before[j].0 != before[i as int].0);
                    }
                }
                assert(table(after) =~= table(before).insert(row.0, row.1));
            }
        } else {
            let ghost after = before.push((name@, config@));
            entries.push((name, config));
            proof {
                assert(rows(entries@) == after);
                assert(after.drop_last() == before);
                assert forall|j: int, k: int| 0 <= j < k < after.len() implies (
                #[trigger] after[j]).0 != (#[trigger] after[k]).0 by {
                    if k < before.len() {
                        assert(before[j].0 != before[k].0);
                    } else {
                        assert(before[j].0 != after[k].0);
                    }
                }
            }
        }
        self.entries = entries;
    }

    /// The account under `name`.
    pub fn get(&self, name: &str) -> (config: Option<&AccountConfig>)
        ensures
            match config {
                Some(config) => self@.contains_key(name@) && self@[name@] == config@,
                None => !self@.contains_key(name@),
            },
    {
        proof {
            use_type_invariant(self);
            table_holds_rows(rows(self.entries@));
        }
        let mut i: usize = 0;
        while i < self.entries.len()
            invariant
                i <= self.entries@.len(),
                forall|j: int| 0 <= j < i ==> (#[trigger] rows(self.entries@)[j]).0 != name@,
                distinct(rows(self.entries@)),
                forall|j: int|
                    0 <= j < rows(self.entries@).len() ==> self@.contains_key(
                        (#[trigger] rows(self.entries@)[j]).0,
                    ) && self@[rows(self.entries@)[j].0] == rows(self.entries@)[j].1,
            decreases self.entries.len() - i,
        {
            assert(rows(self.entries@)[i as int].0 == self.entries@[i as int].0@);
            if same_text(self.entries[i].0.as_str(), name) {
                return Some(&self.entries[i].1);
            }
            i += 1;
        }
        None
    }

    /// How many accounts there are.
    pub fn len(&self) -> (n: usize)
        ensures
            n == self.order().len(),
            n == self@.dom().len(),
    {
        proof {
            use_type_invariant(self);
            walked_once(self.entries@);
            self.order().unique_seq_to_set();
            assert(self.order().to_set() =~= self@.dom());
        }
        self.entries.len()
    }

    /// The account at place `i` of the walk, with its name.
    pub fn entry(&self, i: usize) -> (entry: (&String, &AccountConfig))
        requires
            i < self.order().len(),
        ensures
            entry.0@ == self.order()[i as int],
            self@.contains_key(entry.0@),
            self@[entry.0@] == entry.1@,
    {
        proof {
            use_type_invariant(self);
            table_holds_rows(rows(self.entries@));
            assert(rows(self.entries@)[i as int].0 == self.entries@[i as int].0@);
        }
        (&self.entries[i].0, &self.entries[i].1)
    }

    /// The names of the accounts, each once.
    pub fn names(&self) -> (names: Vec<String>)
        ensures
            texts(names@) == self.order(),
            self.order().no_duplicates(),
            forall|name: Seq<char>| #[trigger]
                self@.contains_key(name) <==> self.order().contains(name),
    {
        proof {
            use_type_invariant(self);
            walked_once(self.entries@);
        }
        let mut names: Vec<String> = Vec::new();
        let mut i: usize = 0;
        while i < self.entries.len()
            invariant
                i <= self.entries@.len(),
                names@.len() == i,
                forall|j: int| 0 <= j < i ==> (#[trigger] names@[j])@ == self.order()[j],
            decreases self.entries.len() - i,
        {
            names.push(self.entries[i].0.clone());
            i += 1;
        }
        assert(texts(names@) =~= self.order());
        names
    }
}

/// An account is what its fields hold, each under its name.
pub proof fn accounts_show_their_fields(account: AccountConfig)
    ensures
        account@.imap_host == account.imap_host@,
        account@.imap_port == account.imap_port,
        account@.smtp_host == account.smtp_host@,
        account@.smtp_port == account.smtp_port,
        account@.login == account.login@,
        account@.password == account.password@,
{
}

} // verus!
