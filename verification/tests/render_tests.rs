use password_manager::account::Account;
use password_manager::render::{
    center_align_text, decimal_text, display_accounts, display_entry, pad_right, push_repeated,
};
use password_manager::text::{is_blank, is_white_space, trim};

fn account(label: &str, description: &str) -> Account {
    Account {
        label: label.to_string(),
        username: "user".to_string(),
        email: "user@example.com".to_string(),
        password: "hunter2".to_string(),
        description: description.to_string(),
    }
}

#[test]
fn center_align_text_pads_both_sides() {
    assert_eq!(center_align_text("abc"), " abc ");
    assert_eq!(center_align_text("1"), "  1  ");
    assert_eq!(center_align_text("12"), " 12  ");
    assert_eq!(center_align_text("1234"), "1234 ");
    assert_eq!(center_align_text(""), "     ");
}

#[test]
fn center_align_text_leaves_long_text() {
    assert_eq!(center_align_text("12345"), "12345");
    assert_eq!(center_align_text("abcdefg"), "abcdefg");
}

#[test]
fn center_align_text_counts_bytes_then_characters() {
    assert_eq!(center_align_text("é"), " é  ");
    assert_eq!(center_align_text("ééé"), "ééé  ");
}

#[test]
fn pad_right_fills_to_width_in_characters() {
    assert_eq!(pad_right("ab", 5), "ab   ");
    assert_eq!(pad_right("abcde", 5), "abcde");
    assert_eq!(pad_right("abcdef", 5), "abcdef");
    assert_eq!(pad_right("é", 3), "é  ");
    assert_eq!(pad_right("", 0), "");
}

#[test]
fn push_repeated_appends_piece_n_times() {
    let mut out = "x".to_string();
    push_repeated(&mut out, "ab", 3);
    assert_eq!(out, "xababab");
    push_repeated(&mut out, "c", 0);
    assert_eq!(out, "xababab");
}

#[test]
fn decimal_text_writes_numbers() {
    assert_eq!(decimal_text(0), "0");
    assert_eq!(decimal_text(7), "7");
    assert_eq!(decimal_text(10), "10");
    assert_eq!(decimal_text(4096), "4096");
    assert_eq!(decimal_text(1234567890), "1234567890");
    assert_eq!(decimal_text(usize::MAX), usize::MAX.to_string());
}

#[test]
fn format_sets_name_on_first_line_only() {
    let wrapped = vec!["first".to_string(), "second".to_string()];
    let lines = Account::format(6, "Label", &wrapped);
    assert_eq!(
        lines,
        vec![
            format!("│   Label: {}│", "first".to_string() + &" ".repeat(32)),
            format!("│                {}│", "second".to_string() + &" ".repeat(25)),
        ]
    );
    assert_eq!(lines[0].chars().count(), 49);
    assert_eq!(lines[1].chars().count(), 49);
    assert_eq!(Account::format(0, "Description", &Vec::new()), Vec::<String>::new());
}

#[test]
fn display_frames_every_field() {
    let lines = account("mail", "short").display();
    assert_eq!(
        lines,
        vec![
            "│   Label: mail                                 │",
            "│   Username: user                              │",
            "│   Email: user@example.com                     │",
            "│   Password: hunter2                           │",
            "│   Description: short                          │",
        ]
    );
}

#[test]
fn display_wraps_long_text_at_the_column() {
    let lines = account("mail", "the quick brown fox jumps over the lazy dog").display();
    assert_eq!(lines.len(), 6);
    assert_eq!(lines[4], "│   Description: the quick brown fox jumps      │");
    assert_eq!(lines[5], "│                over the lazy dog              │");
}

#[test]
fn display_entry_simplified_is_position_and_label() {
    assert_eq!(display_entry(3, &account("mail", "d"), true), vec!["3. mail"]);
}

#[test]
fn display_accounts_simplified() {
    let accounts = vec![account("mail", "d"), account("bank", "d")];
    assert_eq!(display_accounts(&accounts, true), vec!["1. mail", "2. bank"]);
    assert_eq!(display_accounts(&Vec::new(), true), Vec::<String>::new());
    assert_eq!(display_accounts(&Vec::new(), false), Vec::<String>::new());
}

#[test]
fn display_accounts_detailed() {
    let accounts = vec![account("mail", "d"), account("bank", "d")];
    let lines = display_accounts(&accounts, false);
    assert_eq!(lines.len(), 14);
    assert_eq!(lines[0], "┌───────────────────<   1   >───────────────────┐");
    assert_eq!(lines[1], "│   Label: mail                                 │");
    assert_eq!(lines[6], "└───────────────────────────────────────────────┘");
    assert_eq!(lines[7], "┌───────────────────<   2   >───────────────────┐");
    assert_eq!(lines[8], "│   Label: bank                                 │");
    assert_eq!(lines[13], "└───────────────────────────────────────────────┘");
}

#[test]
fn white_space_is_the_unicode_property() {
    let mut code: u32 = 0;
    while code <= 0x3100 {
        if let Some(c) = char::from_u32(code) {
            assert_eq!(is_white_space(c), c.is_whitespace());
        }
        code += 1;
    }
    assert!(!is_white_space('\u{200B}'));
    assert!(!is_white_space('\u{FEFF}'));
}

#[test]
fn is_blank_on_empty_and_white_text() {
    assert!(is_blank(""));
    assert!(is_blank(" \t\r\n\u{3000}"));
    assert!(!is_blank("  [] "));
    assert!(!is_blank("x"));
}

#[test]
fn trim_takes_white_space_off_both_ends() {
    assert_eq!(trim("  mail \n"), "mail");
    assert_eq!(trim("mail"), "mail");
    assert_eq!(trim(" my mail\t"), "my mail");
    assert_eq!(trim("x "), "x");
    assert_eq!(trim(" x"), "x");
    assert_eq!(trim("   "), "");
    assert_eq!(trim(""), "");
    assert_eq!(trim("\u{a0}é \u{2003}"), "é");
}
