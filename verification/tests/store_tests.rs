use password_manager::account::{Account, StoreError};
use password_manager::store::{
    add, append, find, find_index, label_taken_elsewhere, list, list_labels, load, needs_decoding,
    remove, update, AccountChanges, Backing,
};

fn s(text: &str) -> String {
    text.to_string()
}

fn account(label: &str, username: &str) -> Account {
    Account {
        label: s(label),
        username: s(username),
        email: s("e"),
        password: s("p"),
        description: s("d"),
    }
}

fn no_changes() -> AccountChanges {
    AccountChanges { label: None, username: None, email: None, password: None, description: None }
}

#[test]
fn add_then_duplicate_keeps_first_entry() {
    let mut accounts: Vec<Account> = Vec::new();
    assert_eq!(add(&mut accounts, s("mail"), s("u"), s("e"), s("p"), s("d")), Ok(()));
    assert_eq!(accounts.len(), 1);
    assert_eq!(
        add(&mut accounts, s("mail"), s("other"), s("x"), s("y"), s("z")),
        Err(StoreError::DuplicateLabel(s("mail")))
    );
    assert_eq!(accounts.len(), 1);
    let found = find(&accounts, &s("mail")).unwrap();
    assert_eq!(found.username, "u");
    assert_eq!(found.email, "e");
    assert_eq!(found.password, "p");
    assert_eq!(found.description, "d");
}

#[test]
fn add_puts_new_account_last() {
    let mut accounts = vec![account("a", "1"), account("b", "2")];
    assert_eq!(add(&mut accounts, s("c"), s("3"), s("e"), s("p"), s("d")), Ok(()));
    assert_eq!(accounts.len(), 3);
    assert_eq!(accounts[0], account("a", "1"));
    assert_eq!(accounts[1], account("b", "2"));
    assert_eq!(accounts[2], account("c", "3"));
}

#[test]
fn append_rejects_taken_label_and_changes_nothing() {
    let mut accounts = vec![account("a", "1"), account("b", "2")];
    assert_eq!(
        append(&mut accounts, account("b", "9")),
        Err(StoreError::DuplicateLabel(s("b")))
    );
    assert_eq!(accounts, vec![account("a", "1"), account("b", "2")]);
}

#[test]
fn labels_are_compared_exactly() {
    let mut accounts = vec![account("mail", "1")];
    assert_eq!(append(&mut accounts, account("Mail", "2")), Ok(()));
    assert_eq!(append(&mut accounts, account("mail ", "3")), Ok(()));
    assert_eq!(accounts.len(), 3);
}

#[test]
fn remove_present_label() {
    let mut accounts = vec![account("a", "1"), account("b", "2"), account("c", "3")];
    assert_eq!(remove(&mut accounts, &s("b")), Ok(()));
    assert_eq!(accounts, vec![account("a", "1"), account("c", "3")]);
    assert!(find(&accounts, &s("b")).is_none());
}

#[test]
fn remove_absent_label() {
    let mut accounts = vec![account("a", "1")];
    assert_eq!(remove(&mut accounts, &s("zzz")), Err(StoreError::NotFound(s("zzz"))));
    assert_eq!(accounts, vec![account("a", "1")]);
    let mut none: Vec<Account> = Vec::new();
    assert_eq!(remove(&mut none, &s("a")), Err(StoreError::NotFound(s("a"))));
}

#[test]
fn find_index_gives_first_position() {
    let accounts = vec![account("a", "1"), account("b", "2"), account("b", "3")];
    assert_eq!(find_index(&accounts, &s("a")), Some(0));
    assert_eq!(find_index(&accounts, &s("b")), Some(1));
    assert_eq!(find_index(&accounts, &s("c")), None);
    assert_eq!(find(&accounts, &s("b")).unwrap().username, "2");
}

#[test]
fn load_of_empty_backing_is_empty_collection() {
    assert_eq!(load(&Backing::Content(s("")), None), Ok(Vec::new()));
    assert_eq!(load(&Backing::Content(s(" \n\t ")), None), Ok(Vec::new()));
    assert_eq!(load(&Backing::Absent, None), Ok(Vec::new()));
    assert_eq!(load(&Backing::Content(s("")), Some(vec![account("a", "1")])), Ok(Vec::new()));
}

#[test]
fn load_hands_on_what_was_decoded() {
    let decoded = vec![account("a", "1"), account("b", "2")];
    assert_eq!(
        load(&Backing::Content(s("[ ... ]")), Some(decoded)),
        Ok(vec![account("a", "1"), account("b", "2")])
    );
}

#[test]
fn load_of_undecoded_text_is_corrupt() {
    assert_eq!(load(&Backing::Content(s("{not json")), None), Err(StoreError::CorruptStore));
}

#[test]
fn load_of_unreadable_backing_is_io_failure() {
    assert_eq!(load(&Backing::Unreadable, None), Err(StoreError::IoFailure));
    assert_eq!(load(&Backing::Unreadable, Some(Vec::new())), Err(StoreError::IoFailure));
}

#[test]
fn needs_decoding_only_for_text_that_is_not_blank() {
    assert!(!needs_decoding(&Backing::Absent));
    assert!(!needs_decoding(&Backing::Unreadable));
    assert!(!needs_decoding(&Backing::Content(s("  \r\n"))));
    assert!(needs_decoding(&Backing::Content(s("[]"))));
}

#[test]
fn update_replaces_given_fields_only() {
    let mut accounts = vec![account("a", "1"), account("b", "2")];
    let changes = AccountChanges {
        label: None,
        username: Some(s("new")),
        email: None,
        password: Some(s("pw")),
        description: None,
    };
    assert_eq!(update(&mut accounts, &s("b"), changes), Ok(()));
    assert_eq!(accounts[0], account("a", "1"));
    assert_eq!(
        accounts[1],
        Account {
            label: s("b"),
            username: s("new"),
            email: s("e"),
            password: s("pw"),
            description: s("d"),
        }
    );
}

#[test]
fn update_absent_label() {
    let mut accounts = vec![account("a", "1")];
    assert_eq!(update(&mut accounts, &s("x"), no_changes()), Err(StoreError::NotFound(s("x"))));
    assert_eq!(accounts, vec![account("a", "1")]);
}

#[test]
fn update_rename_to_taken_label() {
    let mut accounts = vec![account("a", "1"), account("b", "2")];
    let mut changes = no_changes();
    changes.label = Some(s("a"));
    changes.username = Some(s("lost"));
    assert_eq!(update(&mut accounts, &s("b"), changes), Err(StoreError::DuplicateLabel(s("a"))));
    assert_eq!(accounts, vec![account("a", "1"), account("b", "2")]);
}

#[test]
fn update_rename_to_free_or_own_label() {
    let mut accounts = vec![account("a", "1"), account("b", "2")];
    let mut changes = no_changes();
    changes.label = Some(s("c"));
    assert_eq!(update(&mut accounts, &s("b"), changes), Ok(()));
    assert_eq!(accounts, vec![account("a", "1"), account("c", "2")]);
    let mut same = no_changes();
    same.label = Some(s("a"));
    assert_eq!(update(&mut accounts, &s("a"), same), Ok(()));
    assert_eq!(accounts, vec![account("a", "1"), account("c", "2")]);
}

#[test]
fn label_taken_elsewhere_skips_own_position() {
    let accounts = vec![account("a", "1"), account("b", "2")];
    assert!(!label_taken_elsewhere(&accounts, &s("a"), 0));
    assert!(label_taken_elsewhere(&accounts, &s("a"), 1));
    assert!(!label_taken_elsewhere(&accounts, &s("c"), 0));
}

#[test]
fn list_labels_counts_from_one() {
    let mut accounts = vec![account("a", "1"), account("b", "2"), account("c", "3")];
    assert_eq!(list_labels(&accounts), vec![(1, s("a")), (2, s("b")), (3, s("c"))]);
    assert_eq!(remove(&mut accounts, &s("a")), Ok(()));
    assert_eq!(list_labels(&accounts), vec![(1, s("b")), (2, s("c"))]);
    assert_eq!(list_labels(&Vec::new()), Vec::<(usize, String)>::new());
}

#[test]
fn list_gives_full_records_in_order() {
    let accounts = vec![account("b", "2"), account("a", "1")];
    assert_eq!(list(&accounts), vec![account("b", "2"), account("a", "1")]);
}

#[test]
fn clone_keeps_every_field() {
    let a = Account {
        label: s("l"),
        username: s("u"),
        email: s("e"),
        password: s("p"),
        description: s("d"),
    };
    assert_eq!(a.clone(), a);
}
