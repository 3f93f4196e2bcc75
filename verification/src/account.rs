//! Syntactic validity of account identifiers, as the host ledger defines it:
//! 2 to 64 bytes, lowercase ASCII letters and digits, with single `-`, `_` or
//! `.` separators that neither start nor end the identifier nor stand next to
//! each other.

use vstd::prelude::*;

verus! {

/// Separator bytes: `-`, `_` and `.`.
pub open spec fn is_separator(c: u8) -> bool {
    c == 45 || c == 95 || c == 46
}

/// Lowercase ASCII letters and digits.
pub open spec fn is_alphanumeric(c: u8) -> bool {
    (97 <= c <= 122) || (48 <= c <= 57)
}

/// A syntactically valid account identifier.
pub open spec fn valid_account_id(s: Seq<u8>) -> bool {
    &&& 2 <= s.len() <= 64
    &&& forall|i: int| 0 <= i < s.len() ==> is_alphanumeric(s[i]) || is_separator(s[i])
    &&& !is_separator(s[0])
    &&& !is_separator(s[s.len() - 1])
    &&& forall|i: int|
        #![trigger s[i]]
        0 <= i < s.len() - 1 ==> !(is_separator(s[i]) && is_separator(s[i + 1]))
}

/// Decides `valid_account_id` for a candidate identifier.
pub fn is_valid_account_id(account_id: &Vec<u8>) -> (r: bool)
    ensures
        r == valid_account_id(account_id@),
{
    if account_id.len() < 2 || account_id.len() > 64 {
        return false;
    }
    let mut last_was_separator = true;
    let mut i: usize = 0;
    while i < account_id.len()
        invariant
            i <= account_id.len(),
            2 <= account_id@.len() <= 64,
            forall|j: int| 0 <= j < i
                ==> is_alphanumeric(account_id@[j]) || is_separator(account_id@[j]),
            i > 0 ==> !is_separator(account_id@[0]),
            i > 0 ==> last_was_separator == is_separator(account_id@[i - 1]),
            i == 0 ==> last_was_separator,
            forall|j: int|
                #![trigger account_id@[j]]
                0 <= j < i - 1
                    ==> !(is_separator(account_id@[j]) && is_separator(account_id@[j + 1])),
        decreases account_id.len() - i,
    {
        let c = account_id[i];
        let current_is_separator: bool = if (97 <= c && c <= 122) || (48 <= c && c <= 57) {
            false
        } else if c == 45 || c == 95 || c == 46 {
            true
        } else {
            return false;
        };
        if current_is_separator && last_was_separator {
            return false;
        }
        last_was_separator = current_is_separator;
        i += 1;
    }
    !last_was_separator
}

} // verus!
