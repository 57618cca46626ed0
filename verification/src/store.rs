//! The account collection: an ordered sequence of accounts in which no label
//! occurs twice, with lookup, insertion, removal and update by label.

use crate::account::{Account, AccountView, StoreError};
use crate::text::{blank, is_blank};
use vstd::prelude::*;

verus! {

/// Some account of `s` carries `label`.
pub open spec fn has_label(s: Seq<Account>, label: Seq<char>) -> bool {
    exists|i: int| 0 <= i < s.len() && (#[trigger] s[i]).label@ == label
}

/// No two accounts of `s` carry the same label.
pub open spec fn labels_unique(s: Seq<Account>) -> bool {
    forall|i: int, j: int|
        0 <= i < j < s.len() ==> (#[trigger] s[i]).label@ != (#[trigger] s[j]).label@
}

/// `i` is the position of the first account of `s` that carries `label`.
pub open spec fn first_at(s: Seq<Account>, label: Seq<char>, i: int) -> bool {
    &&& 0 <= i < s.len()
    &&& s[i].label@ == label
    &&& forall|j: int| 0 <= j < i ==> (#[trigger] s[j]).label@ != label
}

/// What reading the backing file came to.
#[derive(Debug, PartialEq, Eq)]
pub enum Backing {
    /// There is no backing file yet.
    Absent,
    /// The backing file is there and could not be read.
    Unreadable,
    /// The text of the backing file.
    Content(String),
}

/// The backing file holds no account yet: it is absent, or its text is blank.
pub open spec fn holds_nothing(backing: Backing) -> bool {
    match backing {
        Backing::Absent => true,
        Backing::Unreadable => false,
        Backing::Content(text) => blank(text@),
    }
}

/// Whether the text of the backing file has to be decoded: it was read and is
/// not blank.
pub fn needs_decoding(backing: &Backing) -> (r: bool)
    ensures
        r == (backing is Content && !holds_nothing(*backing)),
{
    match backing {
        Backing::Content(text) => !is_blank(text.as_str()),
        _ => false,
    }
}

/// The collection that the backing file stands for. `decoded` is what the
/// decoder made of its text, `None` where it could not read the text as a
/// sequence of accounts. A file that is absent or blank is a store without
/// accounts, whatever `decoded` is; a file that could not be read is an I/O
/// failure; text that is not blank and was not decoded is a corrupt store.
pub fn load(backing: &Backing, decoded: Option<Vec<Account>>) -> (r: Result<
    Vec<Account>,
    StoreError,
>)
    ensures
        holds_nothing(*backing) ==> (r matches Ok(v) && v@ == Seq::<Account>::empty()),
        backing is Unreadable ==> r == Err::<Vec<Account>, StoreError>(StoreError::IoFailure),
        backing is Content && !holds_nothing(*backing) ==> match decoded {
            Some(d) => r == Ok::<Vec<Account>, StoreError>(d),
            None => r == Err::<Vec<Account>, StoreError>(StoreError::CorruptStore),
        },
{
    match backing {
        Backing::Absent => Ok(Vec::new()),
        Backing::Unreadable => Err(StoreError::IoFailure),
        Backing::Content(text) => {
            if is_blank(text.as_str()) {
                Ok(Vec::new())
            } else {
                match decoded {
                    Some(d) => Ok(d),
                    None => Err(StoreError::CorruptStore),
                }
            }
        },
    }
}

/// The position of the first account that carries `label`, if there is one.
pub fn find_index(accounts: &Vec<Account>, label: &String) -> (r: Option<usize>)
    ensures
        match r {
            Some(i) => first_at(accounts@, label@, i as int),
            None => !has_label(accounts@, label@),
        },
{
    let mut i: usize = 0;
    while i < accounts.len()
        invariant
            i <= accounts.len(),
            forall|j: int| 0 <= j < i ==> (#[trigger] accounts@[j]).label@ != label@,
        decreases accounts.len() - i,
    {
        if accounts[i].label == *label {
            return Some(i);
        }
        i += 1;
    }
    None
}

/// The first account that carries `label`, if there is one.
pub fn find<'a>(accounts: &'a Vec<Account>, label: &String) -> (r: Option<&'a Account>)
    ensures
        match r {
            Some(a) => exists|i: int| first_at(accounts@, label@, i) && *a == accounts@[i],
            None => !has_label(accounts@, label@),
        },
{
    match find_index(accounts, label) {
        Some(i) => Some(&accounts[i]),
        None => None,
    }
}

/// The collection `s` after `account` was offered to it: `account` stands at
/// the end where its label was free, and nothing has changed where it was not.
pub open spec fn offered(s: Seq<Account>, account: Account) -> Seq<Account> {
    if has_label(s, account.label@) {
        s
    } else {
        s.push(account)
    }
}

/// The collection `s` after the accounts of `more` were offered to it one
/// after another.
pub open spec fn offered_all(s: Seq<Account>, more: Seq<Account>) -> Seq<Account>
    decreases more.len(),
{
    if more.len() == 0 {
        s
    } else {
        offered(offered_all(s, more.drop_last()), more.last())
    }
}

/// However many accounts are offered to a collection in which no label occurs
/// twice, no label occurs twice afterwards, the accounts that were there stand
/// where they stood, and the collection has grown by at most the number
/// of accounts offered.
pub proof fn offers_keep_labels_unique(s: Seq<Account>, more: Seq<Account>)
    requires
        labels_unique(s),
    ensures
        labels_unique(offered_all(s, more)),
        s.len() <= offered_all(s, more).len() <= s.len() + more.len(),
        offered_all(s, more).take(s.len() as int) == s,
    decreases more.len(),
{
    if more.len() == 0 {
        assert(s.take(s.len() as int) =~= s);
    } else {
        offers_keep_labels_unique(s, more.drop_last());
        let before = offered_all(s, more.drop_last());
        let after = offered(before, more.last());
        assert(after.take(s.len() as int) =~= before.take(s.len() as int));
    }
}

/// An account that was offered to a collection is found under its label
/// afterwards, whether it was put in or another one carried the label already.
pub proof fn offered_label_is_present(s: Seq<Account>, account: Account)
    ensures
        has_label(offered(s, account), account.label@),
{
    if !has_label(s, account.label@) {
        assert(s.push(account)[s.len() as int].label@ == account.label@);
    }
}

/// `r` is the error that tells that `label` is carried already.
pub open spec fn is_duplicate(r: Result<(), StoreError>, label: Seq<char>) -> bool {
    r matches Err(StoreError::DuplicateLabel(l)) && l@ == label
}

/// `r` is the error that tells that no account carries `label`.
pub open spec fn is_not_found(r: Result<(), StoreError>, label: Seq<char>) -> bool {
    r matches Err(StoreError::NotFound(l)) && l@ == label
}

/// Puts `account` at the end of the collection unless its label is taken, in
/// which case the collection stays as it was.
pub fn append(accounts: &mut Vec<Account>, account: Account) -> (r: Result<(), StoreError>)
    ensures
        final(accounts)@ == offered(old(accounts)@, account),
        has_label(old(accounts)@, account.label@) ==> is_duplicate(r, account.label@),
        !has_label(old(accounts)@, account.label@) ==> r is Ok,
        r is Ok ==> final(accounts)@.len() == old(accounts)@.len() + 1,
        r is Ok ==> final(accounts)@.last() == account,
        labels_unique(old(accounts)@) ==> labels_unique(final(accounts)@),
{
    match find_index(accounts, &account.label) {
        Some(_) => Err(StoreError::DuplicateLabel(account.label)),
        None => {
            accounts.push(account);
            Ok(())
        },
    }
}

/// Builds an account from its five fields and appends it to the collection.
pub fn add(
    accounts: &mut Vec<Account>,
    label: String,
    username: String,
    email: String,
    password: String,
    description: String,
) -> (r: Result<(), StoreError>)
    ensures
        final(accounts)@ == offered(
            old(accounts)@,
            (Account { label, username, email, password, description }),
        ),
        has_label(old(accounts)@, label@) ==> is_duplicate(r, label@),
        !has_label(old(accounts)@, label@) ==> r is Ok,
        r is Ok ==> final(accounts)@.len() == old(accounts)@.len() + 1,
        r is Ok ==> final(accounts)@.last() == (Account {
            label,
            username,
            email,
            password,
            description,
        }),
        labels_unique(old(accounts)@) ==> labels_unique(final(accounts)@),
{
    append(accounts, Account { label, username, email, password, description })
}

/// Takes the first account that carries `label` out of the collection; the
/// others keep their order. Where no account carries it, the collection stays
/// as it was.
pub fn remove(accounts: &mut Vec<Account>, label: &String) -> (r: Result<(), StoreError>)
    ensures
        has_label(old(accounts)@, label@) ==> r is Ok,
        !has_label(old(accounts)@, label@) ==> is_not_found(r, label@),
        !has_label(old(accounts)@, label@) ==> final(accounts)@ == old(accounts)@,
        forall|i: int|
            first_at(old(accounts)@, label@, i) ==> final(accounts)@ == old(accounts)@.remove(i),
        r is Ok ==> final(accounts)@.len() == old(accounts)@.len() - 1,
        labels_unique(old(accounts)@) ==> labels_unique(final(accounts)@),
        labels_unique(old(accounts)@) && r is Ok ==> !has_label(final(accounts)@, label@),
{
    match find_index(accounts, label) {
        Some(i) => {
            accounts.remove(i);
            Ok(())
        },
        None => Err(StoreError::NotFound(label.clone())),
    }
}

/// The fields of an account that an update replaces; a field that is `None`
/// stays as it is.
#[derive(Debug, PartialEq, Eq)]
pub struct AccountChanges {
    pub label: Option<String>,
    pub username: Option<String>,
    pub email: Option<String>,
    pub password: Option<String>,
    pub description: Option<String>,
}

/// The text of a field after an update: the replacement where there is one.
pub open spec fn replaced(current: Seq<char>, change: Option<String>) -> Seq<char> {
    match change {
        Some(s) => s@,
        None => current,
    }
}

/// The account `a` with the changes `c` applied.
pub open spec fn changed(a: AccountView, c: AccountChanges) -> AccountView {
    AccountView {
        label: replaced(a.label, c.label),
        username: replaced(a.username, c.username),
        email: replaced(a.email, c.email),
        password: replaced(a.password, c.password),
        description: replaced(a.description, c.description),
    }
}

/// An account of `s` other than the one at `i` carries `label`.
pub open spec fn taken_elsewhere(s: Seq<Account>, label: Seq<char>, i: int) -> bool {
    exists|j: int| 0 <= j < s.len() && j != i && (#[trigger] s[j]).label@ == label
}

/// The update of the account at `i` would give it a label that another
/// account carries.
pub open spec fn rename_collides(s: Seq<Account>, c: AccountChanges, i: int) -> bool {
    match c.label {
        Some(l) => taken_elsewhere(s, l@, i),
        None => false,
    }
}

/// Whether an account other than the one at `skip` carries `label`.
pub fn label_taken_elsewhere(accounts: &Vec<Account>, label: &String, skip: usize) -> (r: bool)
    ensures
        r == taken_elsewhere(accounts@, label@, skip as int),
{
    let mut j: usize = 0;
    while j < accounts.len()
        invariant
            j <= accounts.len(),
            forall|k: int|
                0 <= k < j && k != skip ==> (#[trigger] accounts@[k]).label@ != label@,
        decreases accounts.len() - j,
    {
        if j != skip && accounts[j].label == *label {
            return true;
        }
        j += 1;
    }
    false
}

/// `after` is `before` with the changes `c` applied to the account at `i`,
/// and every other account as it was.
pub open spec fn updated_at(
    before: Seq<Account>,
    after: Seq<Account>,
    i: int,
    c: AccountChanges,
) -> bool {
    &&& after.len() == before.len()
    &&& after[i]@ == changed(before[i]@, c)
    &&& forall|j: int| 0 <= j < before.len() && j != i ==> after[j] == before[j]
}

fn pick(current: &String, change: Option<String>) -> (r: String)
    ensures
        r@ == replaced(current@, change),
{
    match change {
        Some(s) => s,
        None => current.clone(),
    }
}

/// Applies `changes` to the first account that carries `label`. A new label
/// must not be carried by any other account; where it is, or where no account
/// carries `label`, the collection stays as it was.
pub fn update(accounts: &mut Vec<Account>, label: &String, changes: AccountChanges) -> (r: Result<
    (),
    StoreError,
>)
    ensures
        !has_label(old(accounts)@, label@) ==> is_not_found(r, label@),
        !has_label(old(accounts)@, label@) ==> final(accounts)@ == old(accounts)@,
        forall|i: int|
            first_at(old(accounts)@, label@, i) && rename_collides(old(accounts)@, changes, i)
                ==> final(accounts)@ == old(accounts)@ && (changes.label matches Some(n)
                && is_duplicate(r, n@)),
        forall|i: int|
            first_at(old(accounts)@, label@, i) && !rename_collides(old(accounts)@, changes, i)
                ==> r is Ok && updated_at(old(accounts)@, final(accounts)@, i, changes),
        labels_unique(old(accounts)@) ==> labels_unique(final(accounts)@),
{
    let i = match find_index(accounts, label) {
        Some(i) => i,
        None => {
            return Err(StoreError::NotFound(label.clone()));
        },
    };
    let collides = match &changes.label {
        Some(l) => label_taken_elsewhere(accounts, l, i),
        None => false,
    };
    if collides {
        match changes.label {
            Some(l) => {
                return Err(StoreError::DuplicateLabel(l));
            },
            None => {},
        }
    }
    let current = &accounts[i];
    let next = Account {
        label: pick(&current.label, changes.label),
        username: pick(&current.username, changes.username),
        email: pick(&current.email, changes.email),
        password: pick(&current.password, changes.password),
        description: pick(&current.description, changes.description),
    };
    accounts.set(i, next);
    proof {
        let before = old(accounts)@;
        let after = accounts@;
        if labels_unique(before) {
            assert forall|a: int, b: int| 0 <= a < b < after.len() implies (#[trigger] after[a])
                .label@ != (#[trigger] after[b]).label@ by {
                if a != i && b != i {
                    assert(before[a].label@ != before[b].label@);
                } else if a == i {
                    assert(before[b].label@ != after[i as int].label@);
                } else {
                    assert(before[a].label@ != after[i as int].label@);
                }
            }
        }
    }
    Ok(())
}

/// The accounts in order, each as its position, counted from 1, and label.
pub fn list_labels(accounts: &Vec<Account>) -> (r: Vec<(usize, String)>)
    ensures
        r@.len() == accounts@.len(),
        forall|k: int|
            0 <= k < r@.len() ==> (#[trigger] r@[k]).0 == k + 1 && r@[k].1@ == accounts@[k].label@,
{
    let mut out: Vec<(usize, String)> = Vec::new();
    let mut k: usize = 0;
    while k < accounts.len()
        invariant
            k <= accounts.len(),
            out@.len() == k,
            forall|m: int|
                0 <= m < k ==> (#[trigger] out@[m]).0 == m + 1 && out@[m].1@
                    == accounts@[m].label@,
        decreases accounts.len() - k,
    {
        out.push((k + 1, accounts[k].label.clone()));
        k += 1;
    }
    out
}

/// The accounts in order, as full records.
pub fn list(accounts: &Vec<Account>) -> (r: Vec<Account>)
    ensures
        r@ == accounts@,
{
    let mut out: Vec<Account> = Vec::new();
    let mut k: usize = 0;
    while k < accounts.len()
        invariant
            k <= accounts.len(),
            out@ == accounts@.take(k as int),
        decreases accounts.len() - k,
    {
        out.push(accounts[k].clone());
        proof {
            assert(accounts@.take(k + 1) =~= accounts@.take(k as int).push(accounts@[k as int]));
        }
        k += 1;
    }
    proof {
        assert(accounts@.take(k as int) =~= accounts@);
    }
    out
}

} // verus!
