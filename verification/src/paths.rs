use vstd::prelude::*;

use crate::text::trim_back;

verus! {

/// `dir` and `name` joined with a single separator.
pub open spec fn joined_path(dir: Seq<char>, name: Seq<char>) -> Seq<char> {
    dir + seq!['/'] + name
}

/// The name of the managed directory under the application data root.
pub open spec fn managed_dir_name() -> Seq<char> {
    "paseo-desktop-attachments"@
}

/// The managed directory's path under the platform application-data root.
/// Creating the directory is the host's work; this fixes where it lives.
pub fn attachment_dir_path(app_data_root: &str) -> (r: String)
    ensures
        r@ == joined_path(app_data_root@, managed_dir_name()),
{
    proof {
        reveal_strlit("/");
        assert("/"@ =~= seq!['/']);
    }
    let r = String::from_str(app_data_root).concat("/").concat("paseo-desktop-attachments");
    proof {
        assert(r@ =~= joined_path(app_data_root@, managed_dir_name()));
    }
    r
}

/// The path of the attachment file for `attachment_id` with the (already
/// normalized) `extension` suffix, inside `attachment_dir`.
pub fn build_attachment_path(attachment_dir: &str, attachment_id: &str, extension: &str) -> (r:
    String)
    ensures
        r@ == joined_path(attachment_dir@, attachment_id@ + extension@),
{
    proof {
        reveal_strlit("/");
        assert("/"@ =~= seq!['/']);
    }
    let r = String::from_str(attachment_dir).concat("/").concat(attachment_id).concat(extension);
    proof {
        assert(r@ =~= joined_path(attachment_dir@, attachment_id@ + extension@));
    }
    r
}

/// The suffix of `s` after its last `/`, or all of `s` if it has none.
pub open spec fn after_last_slash(s: Seq<char>) -> Seq<char>
    decreases s.len(),
{
    if !s.contains('/') {
        s
    } else {
        after_last_slash(s.drop_first())
    }
}

/// The index of the last `.` in `s`, or `-1` if there is none.
pub open spec fn last_dot_index(s: Seq<char>) -> int
    decreases s.len(),
{
    if s.len() == 0 {
        -1
    } else if s[s.len() - 1] == '.' {
        s.len() - 1
    } else {
        last_dot_index(s.drop_last())
    }
}

/// The extension of the final path component of `source_path`, with the
/// meaning `std::path::Path::extension` gives it: trailing separators are
/// ignored; the components `.` and `..` have no extension; a name whose only
/// `.` is its first character has none; otherwise the extension is the part
/// of the name after its last `.`.
pub open spec fn source_extension_of(path: Seq<char>) -> Option<Seq<char>> {
    let trimmed = trim_back(path, |c: char| c == '/');
    let name = after_last_slash(trimmed);
    if name.len() == 1 && name[0] == '.' {
        None
    } else if name.len() == 2 && name[0] == '.' && name[1] == '.' {
        None
    } else {
        let k = last_dot_index(name);
        if k <= 0 {
            None
        } else {
            Some(name.subrange(k + 1, name.len() as int))
        }
    }
}

proof fn lemma_after_last_slash_is_suffix(t: Seq<char>, a: int)
    requires
        0 <= a <= t.len(),
        forall|i: int| a <= i < t.len() ==> t[i] != '/',
        a > 0 ==> t[a - 1] == '/',
    ensures
        after_last_slash(t) == t.subrange(a, t.len() as int),
    decreases a,
{
    if a == 0 {
        assert(!t.contains('/')) by {
            if t.contains('/') {
                let w = choose|i: int| 0 <= i < t.len() && t[i] == '/';
                assert(t[w] != '/');
            }
        }
        assert(t.subrange(0, t.len() as int) =~= t);
    } else {
        assert(t.contains('/')) by {
            assert(t[a - 1] == '/');
        }
        let rest = t.drop_first();
        lemma_after_last_slash_is_suffix(rest, a - 1);
        assert(rest.subrange(a - 1, rest.len() as int) =~= t.subrange(a, t.len() as int));
    }
}

proof fn lemma_last_dot_index_at(t: Seq<char>, k: int)
    requires
        -1 <= k < t.len(),
        k >= 0 ==> t[k] == '.',
        forall|i: int| k < i < t.len() ==> t[i] != '.',
    ensures
        last_dot_index(t) == k,
    decreases t.len(),
{
    if t.len() == 0 {
    } else if t[t.len() - 1] == '.' {
        assert(k == t.len() - 1);
    } else {
        assert(k < t.len() - 1);
        lemma_last_dot_index_at(t.drop_last(), k);
    }
}

/// Derives the extension of the copy source's own file name, for use when the
/// caller supplies none.
pub fn source_path_extension(source_path: &str) -> (r: Option<String>)
    ensures
        match r {
            Some(e) => source_extension_of(source_path@) == Some(e@),
            None => source_extension_of(source_path@) is None,
        },
{
    let n = source_path.unicode_len();
    let mut e: usize = n;
    while e > 0 && source_path.get_char(e - 1) == '/'
        invariant
            n == source_path@.len(),
            e <= n,
            forall|i: int| e <= i < n ==> source_path@[i] == '/',
        decreases e,
    {
        e -= 1;
    }
    let ghost whole = source_path@;
    let ghost trimmed = whole.subrange(0, e as int);
    proof {
        crate::text::lemma_trim_back_is_subrange(whole, |c: char| c == '/', e as int);
    }
    let mut a: usize = e;
    while a > 0 && source_path.get_char(a - 1) != '/'
        invariant
            n == source_path@.len(),
            a <= e <= n,
            forall|i: int| a <= i < e ==> source_path@[i] != '/',
        decreases a,
    {
        a -= 1;
    }
    let ghost name = whole.subrange(a as int, e as int);
    proof {
        lemma_after_last_slash_is_suffix(trimmed, a as int);
        assert(trimmed.subrange(a as int, trimmed.len() as int) =~= name);
    }
    if e - a == 1 && source_path.get_char(a) == '.' {
        return None;
    }
    if e - a == 2 && source_path.get_char(a) == '.' && source_path.get_char(a + 1) == '.' {
        return None;
    }
    let mut d: usize = e;
    while d > a && source_path.get_char(d - 1) != '.'
        invariant
            n == source_path@.len(),
            a <= d <= e <= n,
            forall|i: int| d <= i < e ==> source_path@[i] != '.',
        decreases d,
    {
        d -= 1;
    }
    if d > a + 1 {
        // the last `.` of the name sits at d - 1, past the name's first character
        proof {
            lemma_last_dot_index_at(name, d - 1 - a);
        }
        let ext = source_path.substring_char(d, e);
        proof {
            assert(name.subrange(d - a as int, name.len() as int) =~= source_path@.subrange(
                d as int,
                e as int,
            ));
        }
        Some(String::from_str(ext))
    } else {
        // no `.` in the name, or only its leading character
        proof {
            if d == a {
                lemma_last_dot_index_at(name, -1);
            } else {
                lemma_last_dot_index_at(name, 0);
            }
        }
        None
    }
}

} // verus!
