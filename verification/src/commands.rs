//! The name of the command by which a guild kennels.

use vstd::prelude::*;
use crate::text::chars_of;

verus! {

/// Whether `c` is a letter from `a` to `z`, small or capital.
pub open spec fn is_letter(c: char) -> bool {
    ('a' <= c && c <= 'z') || ('A' <= c && c <= 'Z')
}

/// Whether `name` can name the command: a letter, then one or more letters
/// or underscores, and nothing else.
pub open spec fn valid_command_name(name: Seq<char>) -> bool {
    &&& name.len() >= 2
    &&& is_letter(name[0])
    &&& forall|i: int| 1 <= i < name.len() ==> is_letter(#[trigger] name[i]) || name[i] == '_'
}

/// Whether `c` is a letter from `a` to `z`, small or capital.
pub fn letter(c: char) -> (is: bool)
    ensures
        is == is_letter(c),
{
    ('a' <= c && c <= 'z') || ('A' <= c && c <= 'Z')
}

/// Whether a guild may set `command` as the name of its command.
pub fn is_valid_command_name(command: &str) -> (valid: bool)
    ensures
        valid == valid_command_name(command@),
{
    let name = chars_of(command);
    if name.len() < 2 || !letter(name[0]) {
        return false;
    }
    let mut i: usize = 1;
    while i < name.len()
        invariant
            1 <= i <= name.len(),
            name@ == command@,
            is_letter(name@[0]),
            forall|j: int| 1 <= j < i ==> is_letter(#[trigger] name@[j]) || name@[j] == '_',
        decreases name.len() - i,
    {
        if !letter(name[i]) && name[i] != '_' {
            return false;
        }
        i = i + 1;
    }
    true
}

/// The name of the command where a guild has named none.
pub open spec fn default_command_name() -> Seq<char> {
    "kennel"@
}

/// The name that a guild asks for, or `kennel` where it asks for none.
pub fn command_or_default(command: Option<String>) -> (name: String)
    ensures
        name@ == match command {
            Some(given) => given@,
            None => default_command_name(),
        },
{
    match command {
        Some(given) => given,
        None => "kennel".to_string(),
    }
}

} // verus!
