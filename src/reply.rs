use vstd::prelude::*;
use vstd::string::to_string_from_display_ensures_for_str;

verus! {

/// The character of a decimal digit.
pub open spec fn digit_char(d: nat) -> char {
    if d == 0 {
        '0'
    } else if d == 1 {
        '1'
    } else if d == 2 {
        '2'
    } else if d == 3 {
        '3'
    } else if d == 4 {
        '4'
    } else if d == 5 {
        '5'
    } else if d == 6 {
        '6'
    } else if d == 7 {
        '7'
    } else if d == 8 {
        '8'
    } else {
        '9'
    }
}

/// The decimal notation of `n`, without sign or leading zeros.
pub open spec fn decimal(n: nat) -> Seq<char>
    decreases n,
{
    if n < 10 {
        seq![digit_char(n)]
    } else {
        decimal(n / 10).push(digit_char(n % 10))
    }
}

/// Relies on `ToString` for `u64`, whose `Display` writes the number in
/// decimal notation.
#[verifier::external_body]
fn decimal_text(n: u64) -> (r: String)
    ensures
        r@ == decimal(n as nat),
{
    n.to_string()
}

fn text(s: &str) -> (r: String)
    ensures
        r@ == s@,
{
    broadcast use to_string_from_display_ensures_for_str;

    s.to_string()
}

/// The answer to a successful user creation.
pub fn user_created_message(display_name: &String) -> (m: String)
    ensures
        m@ == "User "@ + display_name@ + " was successfully created"@,
{
    text("User ").concat(display_name.as_str()).concat(" was successfully created")
}

/// The answer to a successful user update, naming the user as now stored.
pub fn user_updated_message(display_name: &String) -> (m: String)
    ensures
        m@ == "User "@ + display_name@ + " was successfully updated"@,
{
    text("User ").concat(display_name.as_str()).concat(" was successfully updated")
}

/// The answer to a user deletion: the number of rows removed, zero included.
pub fn deleted_entries_message(rows_affected: u64) -> (m: String)
    ensures
        m@ == "Number of deleted entries: "@ + decimal(rows_affected as nat),
{
    let n = decimal_text(rows_affected);
    text("Number of deleted entries: ").concat(n.as_str())
}

} // verus!
