use vstd::prelude::*;

use crate::errors::StoreError;

verus! {

/// A character permitted inside an attachment identifier:
/// ASCII alphanumeric, `-`, or `_`.
pub open spec fn is_id_char(c: char) -> bool {
    ||| 'a' as u32 <= c as u32 && c as u32 <= 'z' as u32
    ||| 'A' as u32 <= c as u32 && c as u32 <= 'Z' as u32
    ||| '0' as u32 <= c as u32 && c as u32 <= '9' as u32
    ||| c == '-'
    ||| c == '_'
}

/// A valid attachment identifier: non-empty, every character in `[A-Za-z0-9_-]`.
pub open spec fn valid_id(s: Seq<char>) -> bool {
    &&& s.len() > 0
    &&& forall|i: int| 0 <= i < s.len() ==> is_id_char(s[i])
}

fn id_char(c: char) -> (r: bool)
    ensures
        r == is_id_char(c),
{
    let u = c as u32;
    (97 <= u && u <= 122) || (65 <= u && u <= 90) || (48 <= u && u <= 57) || c == '-' || c == '_'
}

/// Accepts an identifier iff it is non-empty and matches `[A-Za-z0-9_-]+`.
pub fn validate_attachment_id(attachment_id: &str) -> (r: Result<(), StoreError>)
    ensures
        r is Ok <==> valid_id(attachment_id@),
        attachment_id@.len() == 0 ==> r == Err::<(), StoreError>(StoreError::EmptyIdentifier),
        attachment_id@.len() > 0 && !valid_id(attachment_id@) ==> r == Err::<(), StoreError>(
            StoreError::InvalidIdentifierCharacter,
        ),
{
    let n = attachment_id.unicode_len();
    if n == 0 {
        return Err(StoreError::EmptyIdentifier);
    }
    let mut i: usize = 0;
    while i < n
        invariant
            n == attachment_id@.len(),
            i <= n,
            forall|j: int| 0 <= j < i ==> is_id_char(attachment_id@[j]),
        decreases n - i,
    {
        if !id_char(attachment_id.get_char(i)) {
            return Err(StoreError::InvalidIdentifierCharacter);
        }
        i += 1;
    }
    Ok(())
}

} // verus!
