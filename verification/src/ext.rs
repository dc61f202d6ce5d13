use vstd::prelude::*;

use crate::text::{trim_around, trim_dots, trim_ws, ws_trimmed};

verus! {

/// The view of an optional extension argument.
pub open spec fn opt_view(extension: Option<String>) -> Option<Seq<char>> {
    match extension {
        Some(e) => Some(e@),
        None => None,
    }
}

/// The canonical suffix form of a user-supplied extension: whitespace and
/// leading/trailing `.` characters trimmed; empty if nothing remains,
/// otherwise the remainder prefixed by a single `.`. Case is preserved.
pub open spec fn normalized_extension(extension: Option<Seq<char>>) -> Seq<char> {
    let given = match extension {
        Some(e) => e,
        None => Seq::<char>::empty(),
    };
    let raw = trim_around(ws_trimmed(given), |c: char| c == '.');
    if raw.len() == 0 {
        Seq::<char>::empty()
    } else {
        seq!['.'] + raw
    }
}

/// A normalized extension is empty or starts with a `.`.
pub proof fn lemma_normalized_extension_shape(extension: Option<Seq<char>>)
    ensures
        normalized_extension(extension).len() == 0 || normalized_extension(extension)[0] == '.',
{
}

/// Canonicalizes a user-supplied extension into a consistent suffix form.
pub fn normalize_extension(extension: Option<String>) -> (r: String)
    ensures
        r@ == normalized_extension(opt_view(extension)),
{
    let s: &str = match &extension {
        Some(e) => e.as_str(),
        None => "",
    };
    proof {
        reveal_strlit("");
        assert(s@ == (match opt_view(extension) {
            Some(e) => e,
            None => Seq::<char>::empty(),
        }));
    }
    let raw = trim_dots(trim_ws(s));
    if raw.unicode_len() == 0 {
        String::new()
    } else {
        proof {
            reveal_strlit(".");
            assert("."@ =~= seq!['.']);
        }
        String::from_str(".").concat(raw)
    }
}

} // verus!
