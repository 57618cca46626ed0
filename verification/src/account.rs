//! The account record and the errors of the store.

use vstd::prelude::*;

verus! {

/// One stored credential record. The label is the key by which an account is
/// found; the other fields are free text.
#[derive(Debug, PartialEq, Eq)]
pub struct Account {
    pub label: String,
    pub username: String,
    pub email: String,
    pub password: String,
    pub description: String,
}

/// What an account holds, as sequences of characters.
pub ghost struct AccountView {
    pub label: Seq<char>,
    pub username: Seq<char>,
    pub email: Seq<char>,
    pub password: Seq<char>,
    pub description: Seq<char>,
}

impl View for Account {
    type V = AccountView;

    open spec fn view(&self) -> AccountView {
        AccountView {
            label: self.label@,
            username: self.username@,
            email: self.email@,
            password: self.password@,
            description: self.description@,
        }
    }
}

impl Clone for Account {
    fn clone(&self) -> (res: Account)
        ensures
            res == *self,
    {
        Account {
            label: self.label.clone(),
            username: self.username.clone(),
            email: self.email.clone(),
            password: self.password.clone(),
            description: self.description.clone(),
        }
    }
}

/// Why an operation of the store did not succeed.
#[derive(Debug, PartialEq, Eq)]
pub enum StoreError {
    /// The backing content is not blank and could not be decoded.
    CorruptStore,
    /// An account with this label is already in the collection.
    DuplicateLabel(String),
    /// No account with this label is in the collection.
    NotFound(String),
    /// Reading or writing the backing file failed.
    IoFailure,
    /// The input ended before a secret was confirmed.
    InputError,
}

} // verus!
