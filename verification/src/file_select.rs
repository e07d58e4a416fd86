//! What a file selection row shows: its icon and the label that sums up the
//! selected paths.

use vstd::prelude::*;
use crate::files::{basename, basename_spec};
use crate::text::texts;

verus! {

/// What a row lets the user pick.
#[derive(Clone, Copy, Debug, PartialEq, Eq, Structural)]
pub enum SelectType {
    File,
    Multiple,
    Folder,
}

impl Default for SelectType {
    fn default() -> (r: Self)
        ensures
            r == SelectType::File,
    {
        SelectType::File
    }
}

/// The icon of a row that was given none of its own: a folder for a folder
/// row, a document for the others.
pub open spec fn default_icon(select: SelectType) -> Seq<char> {
    if select == SelectType::Folder {
        "folder-symbolic"@
    } else {
        "document-open-symbolic"@
    }
}

/// The icon that a row shows: its own if it was given one, else the icon
/// that goes with what it selects.
pub open spec fn icon_spec(select: SelectType, icon: Option<Seq<char>>) -> Seq<char> {
    match icon {
        Some(name) => name,
        None => default_icon(select),
    }
}

/// The name of the icon that a row shows.
pub fn icon_name(select: SelectType, icon: Option<&str>) -> (r: String)
    ensures
        r@ == icon_spec(
            select,
            match icon {
                Some(name) => Some(name@),
                None => None,
            },
        ),
{
    match icon {
        Some(name) => name.to_owned(),
        None => match select {
            SelectType::Folder => "folder-symbolic".to_owned(),
            _ => "document-open-symbolic".to_owned(),
        },
    }
}

/// The decimal digit for a number below ten.
pub open spec fn digit(d: nat) -> Seq<char> {
    if d == 0 {
        "0"@
    } else if d == 1 {
        "1"@
    } else if d == 2 {
        "2"@
    } else if d == 3 {
        "3"@
    } else if d == 4 {
        "4"@
    } else if d == 5 {
        "5"@
    } else if d == 6 {
        "6"@
    } else if d == 7 {
        "7"@
    } else if d == 8 {
        "8"@
    } else {
        "9"@
    }
}

/// A number written in decimal, without leading zeros.
pub open spec fn decimal(n: nat) -> Seq<char>
    decreases n,
{
    if n < 10 {
        digit(n)
    } else {
        decimal(n / 10) + digit(n % 10)
    }
}

/// The digit for a number below ten.
fn digit_text(d: usize) -> (r: &'static str)
    requires
        d < 10,
    ensures
        r@ == digit(d as nat),
{
    if d == 0 {
        "0"
    } else if d == 1 {
        "1"
    } else if d == 2 {
        "2"
    } else if d == 3 {
        "3"
    } else if d == 4 {
        "4"
    } else if d == 5 {
        "5"
    } else if d == 6 {
        "6"
    } else if d == 7 {
        "7"
    } else if d == 8 {
        "8"
    } else {
        "9"
    }
}

/// Writes a number in decimal.
pub fn decimal_text(n: usize) -> (r: String)
    ensures
        r@ == decimal(n as nat),
    decreases n,
{
    if n < 10 {
        digit_text(n).to_owned()
    } else {
        let mut text = decimal_text(n / 10);
        text.append(digit_text(n % 10));
        text
    }
}

/// How a single selected path is shown: by its last component, or in full
/// when it has none.
pub open spec fn shown_name(path: Seq<char>) -> Seq<char> {
    if basename_spec(path).len() > 0 {
        basename_spec(path)
    } else if path.len() > 0 {
        path
    } else {
        "(None)"@
    }
}

/// The label of a row: `(None)` for an empty selection, the name of a
/// single path, and the number of paths for more.
pub open spec fn label_spec(paths: Seq<Seq<char>>) -> Seq<char> {
    if paths.len() == 0 {
        "(None)"@
    } else if paths.len() == 1 {
        shown_name(paths[0])
    } else {
        "("@ + decimal(paths.len()) + " files)"@
    }
}

/// The label that sums up the selected paths.
pub fn selection_label(paths: &Vec<String>) -> (r: String)
    ensures
        r@ == label_spec(texts(paths@)),
{
    let count = paths.len();
    if count == 0 {
        "(None)".to_owned()
    } else if count == 1 {
        let name = basename(paths[0].as_str());
        if !name.as_str().is_empty() {
            name
        } else if !paths[0].as_str().is_empty() {
            paths[0].clone()
        } else {
            "(None)".to_owned()
        }
    } else {
        let mut text = "(".to_owned();
        text.append(decimal_text(count).as_str());
        text.append(" files)");
        text
    }
}

} // verus!
