//! Times written so that the reader's client shows how far off they are.

use vstd::prelude::*;
use crate::text::chars_of;
use crate::text::decimal;
use crate::text::push_all;
use crate::text::push_decimal;
use crate::text::string_of;

verus! {

/// The mark that stands for the time `seconds` after the Unix epoch and is
/// shown as a distance from the present, such as "in 3 minutes".
pub open spec fn relative_mark(seconds: nat) -> Seq<char> {
    "<t:"@ + decimal(seconds) + ":R>"@
}

/// Writes the mark for the time `seconds` after the Unix epoch.
pub fn relative_timestamp(seconds: u128) -> (mark: String)
    ensures
        mark@ == relative_mark(seconds as nat),
{
    let mut out = chars_of("<t:");
    push_decimal(&mut out, seconds);
    push_all(&mut out, &chars_of(":R>"));
    string_of(&out)
}

/// Times that can be written as a distance from the present.
pub trait GetRelativeTimestamp {
    /// The time in seconds since the Unix epoch.
    spec fn epoch_seconds(&self) -> nat;

    /// The mark that shows the time as a distance from the present.
    fn discord_relative_timestamp(&self) -> (mark: String)
        ensures
            mark@ == relative_mark(self.epoch_seconds()),
    ;
}

impl GetRelativeTimestamp for u64 {
    open spec fn epoch_seconds(&self) -> nat {
        *self as nat
    }

    fn discord_relative_timestamp(&self) -> (mark: String) {
        relative_timestamp(*self as u128)
    }
}

impl GetRelativeTimestamp for u128 {
    open spec fn epoch_seconds(&self) -> nat {
        *self as nat
    }

    fn discord_relative_timestamp(&self) -> (mark: String) {
        relative_timestamp(*self)
    }
}

} // verus!
