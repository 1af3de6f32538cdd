//! The menu's decisions: which operation a line of input selects, and the
//! text of the menu itself. The prompting, printing and looping live
//! outside the library.

use vstd::prelude::*;
use vstd::string::StringExecFns;

use crate::util::str_eq;

verus! {

/// The operations the menu offers.
#[derive(Debug, Clone)]
pub enum MenuChoice {
    Register,
    Login,
    GetKey,
    PutKey,
    DeleteKey,
    Logout,
    /// Anything that is not one of the six options.
    Invalid,
}

/// The menu a user picks from.
pub fn menu_text() -> (r: String)
    ensures
        r@ == "\nChoose an option:\n1) Register\n2) Login\n3) Get a key\n4) Put a key\n5) Delete a key\n6) Logout\n"@,
{
    String::from_str(
        "\nChoose an option:\n1) Register\n2) Login\n3) Get a key\n4) Put a key\n5) Delete a key\n6) Logout\n",
    )
}

/// Which operation a line of text selects: the digits 1 through 6 name
/// the six operations; every other line is invalid.
pub open spec fn choice_of(line: Seq<char>) -> MenuChoice {
    if line == "1"@ {
        MenuChoice::Register
    } else if line == "2"@ {
        MenuChoice::Login
    } else if line == "3"@ {
        MenuChoice::GetKey
    } else if line == "4"@ {
        MenuChoice::PutKey
    } else if line == "5"@ {
        MenuChoice::DeleteKey
    } else if line == "6"@ {
        MenuChoice::Logout
    } else {
        MenuChoice::Invalid
    }
}

/// Read a line of menu input as the operation it selects.
pub fn parse_menu_choice(line: &str) -> (r: MenuChoice)
    ensures
        r == choice_of(line@),
{
    if str_eq(line, "1") {
        MenuChoice::Register
    } else if str_eq(line, "2") {
        MenuChoice::Login
    } else if str_eq(line, "3") {
        MenuChoice::GetKey
    } else if str_eq(line, "4") {
        MenuChoice::PutKey
    } else if str_eq(line, "5") {
        MenuChoice::DeleteKey
    } else if str_eq(line, "6") {
        MenuChoice::Logout
    } else {
        MenuChoice::Invalid
    }
}

} // verus!
