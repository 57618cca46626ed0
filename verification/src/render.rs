//! The text in which accounts are shown: each field wrapped to a column and
//! set in a frame, or one short line for each account.

use crate::account::{Account, AccountView};
use crate::text::texts;
use vstd::prelude::*;
use vstd::utf8::encode_utf8;

verus! {

/// The width to which the text of a field is wrapped.
pub const WRAP_WIDTH: usize = 28;

/// The width of the column that holds the text of a field.
pub const DATA_WIDTH: usize = 31;

/// The width within which a position is centred.
pub const CENTER_WIDTH: usize = 5;

/// `piece` written `n` times in a row.
pub open spec fn repeated(piece: Seq<char>, n: nat) -> Seq<char>
    decreases n,
{
    if n == 0 {
        Seq::empty()
    } else {
        repeated(piece, (n - 1) as nat) + piece
    }
}

/// `s` followed by as many spaces as it is short of `width` characters.
pub open spec fn padded(s: Seq<char>, width: nat) -> Seq<char> {
    if s.len() < width {
        s + repeated(" "@, (width - s.len()) as nat)
    } else {
        s
    }
}

/// `s` centred within five columns. Text of fewer than five bytes gets the
/// smaller half of the missing columns in front and the rest behind; longer
/// text is padded to five characters.
pub open spec fn centered(s: Seq<char>) -> Seq<char> {
    let bytes = encode_utf8(s).len();
    if bytes >= 5 {
        padded(s, 5)
    } else {
        let left = ((5 - bytes) / 2) as nat;
        let right = (5 - bytes - left) as nat;
        repeated(" "@, left) + s + repeated(" "@, right)
    }
}

/// Appends `piece` to `out`, `n` times.
pub fn push_repeated(out: &mut String, piece: &str, n: usize)
    ensures
        final(out)@ == old(out)@ + repeated(piece@, n as nat),
{
    let mut k: usize = 0;
    while k < n
        invariant
            k <= n,
            out@ == old(out)@ + repeated(piece@, k as nat),
        decreases n - k,
    {
        out.append(piece);
        k += 1;
        proof {
            assert(out@ =~= old(out)@ + repeated(piece@, k as nat));
        }
    }
}

/// `text`, filled with spaces on the right up to `width` characters.
pub fn pad_right(text: &str, width: usize) -> (r: String)
    ensures
        r@ == padded(text@, width as nat),
{
    let mut out = String::from_str(text);
    let n = text.unicode_len();
    if n < width {
        push_repeated(&mut out, " ", width - n);
    }
    out
}

/// `value` centred within five columns.
pub fn center_align_text(value: &str) -> (r: String)
    ensures
        r@ == centered(value@),
{
    let value_len = value.as_bytes().len();
    if value_len >= CENTER_WIDTH {
        return pad_right(value, CENTER_WIDTH);
    }
    let padding_total = CENTER_WIDTH - value_len;
    let left_padding = padding_total / 2;
    let right_padding = padding_total - left_padding;
    let mut out = String::new();
    push_repeated(&mut out, " ", left_padding);
    out.append(value);
    push_repeated(&mut out, " ", right_padding);
    proof {
        assert(out@ =~= repeated(" "@, left_padding as nat) + value@ + repeated(
            " "@,
            right_padding as nat,
        ));
    }
    out
}

/// The character that stands for the digit `d`.
pub open spec fn digit(d: nat) -> char {
    if d == 0 {
        '0'
    } else if d == 1 {
        '1'
    } else if d == 2 {
        '2'
    } else if d == 3 {
        '3'
    } else if d == 4 {
        '4'
    } else if d == 5 {
        '5'
    } else if d == 6 {
        '6'
    } else if d == 7 {
        '7'
    } else if d == 8 {
        '8'
    } else {
        '9'
    }
}

/// `n` written in decimal, without leading zeros.
pub open spec fn decimal(n: nat) -> Seq<char>
    decreases n,
{
    if n < 10 {
        seq![digit(n)]
    } else {
        decimal(n / 10).push(digit(n % 10))
    }
}

fn digit_text(d: usize) -> (r: &'static str)
    requires
        d < 10,
    ensures
        r@ == seq![digit(d as nat)],
{
    proof {
        reveal_strlit("0");
        reveal_strlit("1");
        reveal_strlit("2");
        reveal_strlit("3");
        reveal_strlit("4");
        reveal_strlit("5");
        reveal_strlit("6");
        reveal_strlit("7");
        reveal_strlit("8");
        reveal_strlit("9");
    }
    let r = if d == 0 {
        "0"
    } else if d == 1 {
        "1"
    } else if d == 2 {
        "2"
    } else if d == 3 {
        "3"
    } else if d == 4 {
        "4"
    } else if d == 5 {
        "5"
    } else if d == 6 {
        "6"
    } else if d == 7 {
        "7"
    } else if d == 8 {
        "8"
    } else {
        "9"
    };
    proof {
        assert(r@ =~= seq![digit(d as nat)]);
    }
    r
}

/// `n` written in decimal.
pub fn decimal_text(n: usize) -> (r: String)
    ensures
        r@ == decimal(n as nat),
    decreases n,
{
    if n < 10 {
        String::from_str(digit_text(n))
    } else {
        let mut out = decimal_text(n / 10);
        out.append(digit_text(n % 10));
        proof {
            assert(out@ =~= decimal(n as nat));
        }
        out
    }
}

/// One line of a field in the frame. The first line carries the name of the
/// field; `indent` widens its column by what the name is shorter than the
/// longest. The lines after it are set under the column.
pub open spec fn field_line(name: Seq<char>, indent: nat, line: Seq<char>, first: bool) -> Seq<
    char,
> {
    if first {
        "│   "@ + name + ": "@ + padded(line, DATA_WIDTH as nat + indent) + "│"@
    } else {
        "│                "@ + padded(line, DATA_WIDTH as nat) + "│"@
    }
}

/// The lines of a field in the frame, one for each line of its wrapped text.
pub open spec fn field_lines(name: Seq<char>, indent: nat, wrapped: Seq<Seq<char>>) -> Seq<
    Seq<char>,
> {
    Seq::new(wrapped.len(), |i: int| field_line(name, indent, wrapped[i], i == 0))
}

/// The lines into which `text` is wrapped at `width` columns.
pub uninterp spec fn wrapped_lines(text: Seq<char>, width: nat) -> Seq<Seq<char>>;

/// Calls `textwrap::wrap` with a plain width, so with the options that
/// `textwrap::Options::new` sets, and hands each line back as an owned string.
/// The lines are a function of the text and the width alone; they are named
/// `wrapped_lines` and not described further.
#[verifier::external_body]
fn wrap_text(text: &str, width: usize) -> (lines: Vec<String>)
    ensures
        texts(lines@) == wrapped_lines(text@, width as nat),
{
    textwrap::wrap(text, width).into_iter().map(|line| line.into_owned()).collect()
}

/// The lines of an account in the frame: label, username, email, password and
/// description, each wrapped on its own.
pub open spec fn account_lines(a: AccountView) -> Seq<Seq<char>> {
    field_lines("Label"@, 6, wrapped_lines(a.label, WRAP_WIDTH as nat)) + field_lines(
        "Username"@,
        3,
        wrapped_lines(a.username, WRAP_WIDTH as nat),
    ) + field_lines("Email"@, 6, wrapped_lines(a.email, WRAP_WIDTH as nat)) + field_lines(
        "Password"@,
        3,
        wrapped_lines(a.password, WRAP_WIDTH as nat),
    ) + field_lines("Description"@, 0, wrapped_lines(a.description, WRAP_WIDTH as nat))
}

fn extend(out: &mut Vec<String>, more: Vec<String>)
    ensures
        texts(final(out)@) == texts(old(out)@) + texts(more@),
{
    let mut rest = more;
    out.append(&mut rest);
    proof {
        assert(texts(out@) =~= texts(old(out)@) + texts(more@));
    }
}

impl Account {
    /// The lines of one field in the frame, given the lines of its wrapped
    /// text.
    pub fn format(empty_spaces: usize, attribute_name: &str, wrapped: &Vec<String>) -> (r: Vec<
        String,
    >)
        requires
            empty_spaces + DATA_WIDTH <= usize::MAX,
        ensures
            texts(r@) == field_lines(attribute_name@, empty_spaces as nat, texts(wrapped@)),
    {
        let mut out: Vec<String> = Vec::new();
        let mut k: usize = 0;
        while k < wrapped.len()
            invariant
                empty_spaces + DATA_WIDTH <= usize::MAX,
                k <= wrapped.len(),
                out@.len() == k,
                forall|j: int|
                    0 <= j < k ==> (#[trigger] out@[j])@ == field_line(
                        attribute_name@,
                        empty_spaces as nat,
                        wrapped@[j]@,
                        j == 0,
                    ),
            decreases wrapped.len() - k,
        {
            let mut line = String::new();
            if k == 0 {
                line.append("│   ");
                line.append(attribute_name);
                line.append(": ");
                let cell = pad_right(wrapped[k].as_str(), DATA_WIDTH + empty_spaces);
                line.append(cell.as_str());
            } else {
                line.append("│                ");
                let cell = pad_right(wrapped[k].as_str(), DATA_WIDTH);
                line.append(cell.as_str());
            }
            line.append("│");
            proof {
                assert(line@ =~= field_line(
                    attribute_name@,
                    empty_spaces as nat,
                    wrapped@[k as int]@,
                    k == 0,
                ));
            }
            out.push(line);
            k += 1;
        }
        proof {
            assert(texts(out@) =~= field_lines(
                attribute_name@,
                empty_spaces as nat,
                texts(wrapped@),
            ));
        }
        out
    }

    /// The lines of this account in the frame.
    pub fn display(&self) -> (r: Vec<String>)
        ensures
            texts(r@) == account_lines(self@),
    {
        let wrap_label = wrap_text(self.label.as_str(), WRAP_WIDTH);
        let wrap_username = wrap_text(self.username.as_str(), WRAP_WIDTH);
        let wrap_email = wrap_text(self.email.as_str(), WRAP_WIDTH);
        let wrap_password = wrap_text(self.password.as_str(), WRAP_WIDTH);
        let wrap_description = wrap_text(self.description.as_str(), WRAP_WIDTH);

        let mut out = Self::format(6, "Label", &wrap_label);
        extend(&mut out, Self::format(3, "Username", &wrap_username));
        extend(&mut out, Self::format(6, "Email", &wrap_email));
        extend(&mut out, Self::format(3, "Password", &wrap_password));
        extend(&mut out, Self::format(0, "Description", &wrap_description));
        out
    }
}

/// The line above the frame of the account at `position`.
pub open spec fn header_line(position: nat) -> Seq<char> {
    "┌"@ + repeated("─"@, 19) + "< "@ + centered(decimal(position)) + " >"@ + repeated("─"@, 19)
        + "┐"@
}

/// The line below the frame of an account.
pub open spec fn footer_line() -> Seq<char> {
    "└"@ + repeated("─"@, 47) + "┘"@
}

/// The one line of an account in the short listing.
pub open spec fn short_line(position: nat, label: Seq<char>) -> Seq<char> {
    decimal(position) + ". "@ + label
}

/// The lines of the account at `position`, counted from 1.
pub open spec fn entry_lines(position: nat, a: AccountView, simplify: bool) -> Seq<Seq<char>> {
    if simplify {
        seq![short_line(position, a.label)]
    } else {
        seq![header_line(position)] + account_lines(a) + seq![footer_line()]
    }
}

/// The lines of all accounts of `s`, in order.
pub open spec fn listing(s: Seq<Account>, simplify: bool) -> Seq<Seq<char>>
    decreases s.len(),
{
    if s.len() == 0 {
        Seq::empty()
    } else {
        listing(s.drop_last(), simplify) + entry_lines(s.len(), s.last()@, simplify)
    }
}

/// The lines of the account at `position`, counted from 1: its frame with all
/// fields, or, simplified, its position and label alone.
pub fn display_entry(position: usize, account: &Account, simplify: bool) -> (r: Vec<String>)
    ensures
        texts(r@) == entry_lines(position as nat, account@, simplify),
{
    let mut out: Vec<String> = Vec::new();
    let number = decimal_text(position);
    if simplify {
        let mut line = number;
        line.append(". ");
        line.append(account.label.as_str());
        out.push(line);
        proof {
            assert(texts(out@) =~= entry_lines(position as nat, account@, simplify));
        }
    } else {
        let centered = center_align_text(number.as_str());
        let mut head = String::from_str("┌");
        push_repeated(&mut head, "─", 19);
        head.append("< ");
        head.append(centered.as_str());
        head.append(" >");
        push_repeated(&mut head, "─", 19);
        head.append("┐");
        let mut foot = String::from_str("└");
        push_repeated(&mut foot, "─", 47);
        foot.append("┘");
        proof {
            assert(head@ =~= header_line(position as nat));
            assert(foot@ =~= footer_line());
        }
        out.push(head);
        proof {
            assert(texts(out@) =~= seq![header_line(position as nat)]);
        }
        extend(&mut out, account.display());
        let ghost framed = out@;
        out.push(foot);
        proof {
            assert(texts(out@) =~= texts(framed) + seq![footer_line()]);
        }
    }
    out
}

/// The lines in which the collection is shown, account after account in the
/// order of the collection.
pub fn display_accounts(accounts: &Vec<Account>, simplify: bool) -> (r: Vec<String>)
    ensures
        texts(r@) == listing(accounts@, simplify),
{
    let mut out: Vec<String> = Vec::new();
    let mut k: usize = 0;
    proof {
        assert(texts(out@) =~= listing(accounts@.take(0), simplify));
    }
    while k < accounts.len()
        invariant
            k <= accounts.len(),
            texts(out@) == listing(accounts@.take(k as int), simplify),
        decreases accounts.len() - k,
    {
        extend(&mut out, display_entry(k + 1, &accounts[k], simplify));
        proof {
            let next = accounts@.take(k + 1);
            assert(next.drop_last() =~= accounts@.take(k as int));
            assert(next.last() == accounts@[k as int]);
        }
        k += 1;
    }
    proof {
        assert(accounts@.take(k as int) =~= accounts@);
    }
    out
}

} // verus!
