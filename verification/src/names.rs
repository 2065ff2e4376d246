//! Display names of members: a table from file id to name, and a generated
//! name for every id that the table lacks.

use std::collections::HashMap;
use vstd::prelude::*;

verus! {

broadcast use vstd::std_specs::hash::group_hash_axioms;

/// The character of one decimal digit.
pub open spec fn digit_char(d: nat) -> char {
    if d == 0 {
        '0'
    } else if d == 1 {
        '1'
    } else if d == 2 {
        '2'
    } else if d == 3 {
        '3'
    } else if d == 4 {
        '4'
    } else if d == 5 {
        '5'
    } else if d == 6 {
        '6'
    } else if d == 7 {
        '7'
    } else if d == 8 {
        '8'
    } else {
        '9'
    }
}

/// The decimal numeral of `n`, without leading zeros.
pub open spec fn decimal(n: nat) -> Seq<char>
    decreases n,
{
    if n < 10 {
        seq![digit_char(n)]
    } else {
        decimal(n / 10).push(digit_char(n % 10))
    }
}

/// What every generated name starts with.
pub open spec fn unknown_prefix() -> Seq<char> {
    seq!['U', 'N', 'K', 'N', 'O', 'W', 'N', '_', 'F', 'I', 'L', 'E']
}

/// The name generated for an id that the table lacks: the prefix and the id
/// in decimal.
pub open spec fn fallback_name(file_id: u16) -> Seq<char> {
    unknown_prefix() + decimal(file_id as nat)
}

/// The display name of `file_id` under the table `file_names`.
pub open spec fn resolved_name(file_id: u16, file_names: Map<u32, String>) -> Seq<char> {
    if file_names.contains_key(file_id as u32) {
        file_names[file_id as u32]@
    } else {
        fallback_name(file_id)
    }
}

fn digit_str(d: u16) -> (s: &'static str)
    requires
        d < 10,
    ensures
        s@ == seq![digit_char(d as nat)],
{
    proof {
        reveal_strlit("0");
        reveal_strlit("1");
        reveal_strlit("2");
        reveal_strlit("3");
        reveal_strlit("4");
        reveal_strlit("5");
        reveal_strlit("6");
        reveal_strlit("7");
        reveal_strlit("8");
        reveal_strlit("9");
    }
    let s: &'static str = if d == 0 {
        "0"
    } else if d == 1 {
        "1"
    } else if d == 2 {
        "2"
    } else if d == 3 {
        "3"
    } else if d == 4 {
        "4"
    } else if d == 5 {
        "5"
    } else if d == 6 {
        "6"
    } else if d == 7 {
        "7"
    } else if d == 8 {
        "8"
    } else {
        "9"
    };
    assert(s@ =~= seq![digit_char(d as nat)]);
    s
}

/// Appends the decimal numeral of `n` to `text`.
fn append_decimal(text: &mut String, n: u16)
    ensures
        final(text)@ == old(text)@ + decimal(n as nat),
    decreases n,
{
    if n >= 10 {
        append_decimal(text, n / 10);
    }
    text.append(digit_str(n % 10));
    assert(text@ =~= old(text)@ + decimal(n as nat));
}

/// The name under which the member with id `file_id` is written: its entry in
/// `file_names` where there is one, else `UNKNOWN_FILE` followed by the id in
/// decimal. Every id gets a name.
pub fn get_file_name(file_id: u16, file_names: &HashMap<u32, String>) -> (name: String)
    ensures
        name@ == resolved_name(file_id, file_names@),
{
    let key: u32 = file_id as u32;
    match file_names.get(&key) {
        Some(file_name) => file_name.clone(),
        None => {
            proof {
                reveal_strlit("UNKNOWN_FILE");
            }
            let mut name = String::from_str("UNKNOWN_FILE");
            assert(name@ =~= unknown_prefix());
            append_decimal(&mut name, file_id);
            name
        },
    }
}

} // verus!
