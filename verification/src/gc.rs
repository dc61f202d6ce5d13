use vstd::prelude::*;

use crate::listing::{models, DirEntry, EntryModel};
use crate::text::str_eq;

verus! {

/// The index of the first `.` in `s`, or `s.len()` if there is none.
pub open spec fn first_dot_index(s: Seq<char>) -> int
    decreases s.len(),
{
    if s.len() == 0 {
        0
    } else if s[0] == '.' {
        0
    } else {
        1 + first_dot_index(s.drop_first())
    }
}

/// The scan bound `k` identifies the first `.` of `s` (or `s.len()`).
pub proof fn lemma_first_dot_index_at(s: Seq<char>, k: int)
    requires
        0 <= k <= s.len(),
        forall|i: int| 0 <= i < k ==> s[i] != '.',
        k < s.len() ==> s[k] == '.',
    ensures
        first_dot_index(s) == k,
    decreases s.len(),
{
    if s.len() > 0 && s[0] != '.' {
        lemma_first_dot_index_at(s.drop_first(), k - 1);
    }
}

/// The identifier a file name stands for: the prefix before the first `.`,
/// or the whole name if it has none.
pub open spec fn derived_id(name: Seq<char>) -> Seq<char> {
    name.subrange(0, first_dot_index(name))
}

/// An entry the collector deletes: a regular file whose derived identifier is
/// non-empty and absent from the referenced set.
pub open spec fn gc_eligible(e: EntryModel, referenced: Seq<Seq<char>>) -> bool {
    &&& e.is_file
    &&& derived_id(e.name).len() > 0
    &&& !referenced.contains(derived_id(e.name))
}

/// The names the collector deletes, in listing order.
pub open spec fn gc_names(entries: Seq<EntryModel>, referenced: Seq<Seq<char>>) -> Seq<Seq<char>>
    decreases entries.len(),
{
    if entries.len() == 0 {
        Seq::empty()
    } else {
        let rest = gc_names(entries.drop_last(), referenced);
        if gc_eligible(entries.last(), referenced) {
            rest.push(entries.last().name)
        } else {
            rest
        }
    }
}

/// Every name the collector picks names a collectible entry, and every
/// collectible entry's name is picked.
pub proof fn lemma_gc_names_characterization(entries: Seq<EntryModel>, referenced: Seq<Seq<char>>)
    ensures
        forall|n: Seq<char>|
            gc_names(entries, referenced).contains(n) <==> exists|i: int|
                0 <= i < entries.len() && #[trigger] gc_eligible(entries[i], referenced)
                    && entries[i].name == n,
    decreases entries.len(),
{
    if entries.len() > 0 {
        let prefix = entries.drop_last();
        lemma_gc_names_characterization(prefix, referenced);
        assert forall|n: Seq<char>| gc_names(entries, referenced).contains(n) implies exists|i: int|
            0 <= i < entries.len() && #[trigger] gc_eligible(entries[i], referenced)
                && entries[i].name == n by {
            if gc_names(prefix, referenced).contains(n) {
                let i = choose|i: int|
                    0 <= i < prefix.len() && #[trigger] gc_eligible(prefix[i], referenced)
                        && prefix[i].name == n;
                assert(gc_eligible(entries[i], referenced) && entries[i].name == n);
            } else {
                assert(gc_eligible(entries[entries.len() - 1], referenced) && entries[entries.len()
                    - 1].name == n);
            }
        }
        assert forall|n: Seq<char>|
            exists|i: int|
                0 <= i < entries.len() && #[trigger] gc_eligible(entries[i], referenced)
                    && entries[i].name == n implies gc_names(entries, referenced).contains(n) by {
            let i = choose|i: int|
                0 <= i < entries.len() && #[trigger] gc_eligible(entries[i], referenced)
                    && entries[i].name == n;
            if i < entries.len() - 1 {
                assert(prefix[i] == entries[i]);
                assert(gc_names(prefix, referenced).contains(n));
                let j = choose|j: int| 0 <= j < gc_names(prefix, referenced).len() && gc_names(
                    prefix,
                    referenced,
                )[j] == n;
                assert(gc_names(entries, referenced)[j] == n);
            } else {
                assert(gc_names(entries, referenced).last() == n);
            }
        }
    }
}

/// The identifier a file name stands for, as the collector derives it.
pub fn derive_file_id(name: &str) -> (r: String)
    ensures
        r@ == derived_id(name@),
{
    let n = name.unicode_len();
    let mut k: usize = 0;
    while k < n && name.get_char(k) != '.'
        invariant
            n == name@.len(),
            k <= n,
            forall|i: int| 0 <= i < k ==> name@[i] != '.',
        decreases n - k,
    {
        k += 1;
    }
    proof {
        lemma_first_dot_index_at(name@, k as int);
    }
    String::from_str(name.substring_char(0, k))
}

/// Whether `needle` occurs among `haystack`'s strings.
pub fn contains_str(haystack: &Vec<String>, needle: &str) -> (r: bool)
    ensures
        r == haystack.deep_view().contains(needle@),
{
    let mut i: usize = 0;
    while i < haystack.len()
        invariant
            i <= haystack@.len(),
            forall|j: int| 0 <= j < i ==> haystack.deep_view()[j] != needle@,
        decreases haystack@.len() - i,
    {
        if str_eq(haystack[i].as_str(), needle) {
            proof {
                assert(haystack.deep_view()[i as int] == needle@);
            }
            return true;
        }
        i += 1;
    }
    false
}

/// Lists the files the collector must delete: every regular file whose
/// derived identifier is non-empty and not among `referenced_ids`. The
/// number deleted is the length of this listing.
pub fn collect_targets(entries: &Vec<DirEntry>, referenced_ids: &Vec<String>) -> (r: Vec<String>)
    ensures
        r.deep_view() == gc_names(models(entries@), referenced_ids.deep_view()),
{
    let ghost m = models(entries@);
    let ghost refs = referenced_ids.deep_view();
    let mut r: Vec<String> = Vec::new();
    let mut i: usize = 0;
    proof {
        assert(r.deep_view() =~= gc_names(m.take(0), refs));
    }
    while i < entries.len()
        invariant
            m == models(entries@),
            refs == referenced_ids.deep_view(),
            i <= entries.len(),
            m.len() == entries@.len(),
            r.deep_view() == gc_names(m.take(i as int), refs),
        decreases entries.len() - i,
    {
        let e = &entries[i];
        let ghost prev = r.deep_view();
        if e.is_file {
            let id = derive_file_id(e.name.as_str());
            if id.as_str().unicode_len() > 0 && !contains_str(referenced_ids, id.as_str()) {
                r.push(e.name.clone());
                proof {
                    assert(r.deep_view() =~= prev.push(e.name@));
                }
            }
        }
        proof {
            assert(m.take(i + 1).drop_last() =~= m.take(i as int));
            assert(m.take(i + 1).last() == entries@[i as int]@);
        }
        i += 1;
    }
    proof {
        assert(m.take(entries@.len() as int) =~= m);
    }
    r
}

} // verus!
