use vstd::prelude::*;

use crate::text::str_eq;

verus! {

/// One entry of the managed directory, as the host lists it: the entry's
/// file name and whether it is a regular file.
pub struct DirEntry {
    pub name: String,
    pub is_file: bool,
}

/// The mathematical model of a directory entry.
pub struct EntryModel {
    pub name: Seq<char>,
    pub is_file: bool,
}

impl View for DirEntry {
    type V = EntryModel;

    open spec fn view(&self) -> EntryModel {
        EntryModel { name: self.name@, is_file: self.is_file }
    }
}

/// The model of a directory listing.
pub open spec fn models(entries: Seq<DirEntry>) -> Seq<EntryModel> {
    entries.map_values(|e: DirEntry| e@)
}

/// Whether a file name belongs to `id`: it is `id` itself, or `id` followed
/// by a `.` and anything further.
pub open spec fn name_matches_id(name: Seq<char>, id: Seq<char>) -> bool {
    ||| name == id
    ||| (name.len() > id.len() && name.subrange(0, id.len() as int) == id && name[id.len() as int]
        == '.')
}

/// An entry the sweeper removes before a write for `id`: a regular file whose
/// name belongs to `id`.
pub open spec fn sweep_eligible(e: EntryModel, id: Seq<char>) -> bool {
    e.is_file && name_matches_id(e.name, id)
}

/// The names the sweeper removes for `id`, in listing order.
pub open spec fn sweep_names(entries: Seq<EntryModel>, id: Seq<char>) -> Seq<Seq<char>>
    decreases entries.len(),
{
    if entries.len() == 0 {
        Seq::empty()
    } else {
        let rest = sweep_names(entries.drop_last(), id);
        if sweep_eligible(entries.last(), id) {
            rest.push(entries.last().name)
        } else {
            rest
        }
    }
}

/// A listing after the entries bearing the given names are removed.
pub open spec fn remove_named(entries: Seq<EntryModel>, names: Seq<Seq<char>>) -> Seq<EntryModel>
    decreases entries.len(),
{
    if entries.len() == 0 {
        Seq::empty()
    } else {
        let rest = remove_named(entries.drop_last(), names);
        if names.contains(entries.last().name) {
            rest
        } else {
            rest.push(entries.last())
        }
    }
}

/// Removal keeps exactly the entries whose names are not among `names`.
pub proof fn lemma_remove_named_characterization(entries: Seq<EntryModel>, names: Seq<Seq<char>>)
    ensures
        forall|e: EntryModel|
            #![trigger remove_named(entries, names).contains(e)]
            remove_named(entries, names).contains(e) <==> entries.contains(e) && !names.contains(
                e.name,
            ),
    decreases entries.len(),
{
    if entries.len() > 0 {
        let prefix = entries.drop_last();
        lemma_remove_named_characterization(prefix, names);
        let out = remove_named(entries, names);
        let rest = remove_named(prefix, names);
        assert forall|e: EntryModel| out.contains(e) implies entries.contains(e) && !names.contains(
            e.name,
        ) by {
            let i = choose|i: int| 0 <= i < out.len() && out[i] == e;
            if names.contains(entries.last().name) || i < rest.len() {
                assert(rest[i] == e);
                assert(rest.contains(e));
                let k = choose|k: int| 0 <= k < prefix.len() && prefix[k] == e;
                assert(entries[k] == e);
            } else {
                assert(e == entries.last());
                assert(entries[entries.len() - 1] == e);
            }
        }
        assert forall|e: EntryModel|
            entries.contains(e) && !names.contains(e.name) implies out.contains(e) by {
            let i = choose|i: int| 0 <= i < entries.len() && entries[i] == e;
            if i < entries.len() - 1 {
                assert(prefix[i] == e);
                assert(remove_named(prefix, names).contains(e));
                let j = choose|j: int|
                    0 <= j < remove_named(prefix, names).len() && remove_named(prefix, names)[j]
                        == e;
                assert(out[j] == e);
            } else {
                assert(out.last() == e);
            }
        }
    }
}

/// Every name the sweeper picks names a sweep-eligible entry, and every
/// sweep-eligible entry's name is picked.
pub proof fn lemma_sweep_names_characterization(entries: Seq<EntryModel>, id: Seq<char>)
    ensures
        forall|n: Seq<char>|
            sweep_names(entries, id).contains(n) <==> exists|i: int|
                0 <= i < entries.len() && #[trigger] sweep_eligible(entries[i], id) && entries[i].name
                    == n,
    decreases entries.len(),
{
    if entries.len() > 0 {
        let prefix = entries.drop_last();
        lemma_sweep_names_characterization(prefix, id);
        assert forall|n: Seq<char>| sweep_names(entries, id).contains(n) implies exists|i: int|
            0 <= i < entries.len() && #[trigger] sweep_eligible(entries[i], id) && entries[i].name
                == n by {
            if sweep_names(prefix, id).contains(n) {
                let i = choose|i: int|
                    0 <= i < prefix.len() && #[trigger] sweep_eligible(prefix[i], id)
                        && prefix[i].name == n;
                assert(sweep_eligible(entries[i], id) && entries[i].name == n);
            } else {
                assert(sweep_eligible(entries[entries.len() - 1], id) && entries[entries.len()
                    - 1].name == n);
            }
        }
        assert forall|n: Seq<char>|
            exists|i: int|
                0 <= i < entries.len() && #[trigger] sweep_eligible(entries[i], id) && entries[i].name
                    == n implies sweep_names(entries, id).contains(n) by {
            let i = choose|i: int|
                0 <= i < entries.len() && #[trigger] sweep_eligible(entries[i], id)
                    && entries[i].name == n;
            if i < entries.len() - 1 {
                assert(prefix[i] == entries[i]);
                assert(sweep_names(prefix, id).contains(n));
                let j = choose|j: int| 0 <= j < sweep_names(prefix, id).len() && sweep_names(
                    prefix,
                    id,
                )[j] == n;
                assert(sweep_names(entries, id)[j] == n);
            } else {
                assert(sweep_names(entries, id).last() == n);
            }
        }
    }
}

/// Decides whether `name` belongs to `attachment_id`.
pub fn entry_name_matches(name: &str, attachment_id: &str) -> (r: bool)
    ensures
        r == name_matches_id(name@, attachment_id@),
{
    let nn = name.unicode_len();
    let ni = attachment_id.unicode_len();
    if nn == ni {
        return str_eq(name, attachment_id);
    }
    if nn < ni {
        return false;
    }
    let mut i: usize = 0;
    while i < ni
        invariant
            nn == name@.len(),
            ni == attachment_id@.len(),
            ni < nn,
            i <= ni,
            forall|j: int| 0 <= j < i ==> name@[j] == attachment_id@[j],
        decreases ni - i,
    {
        if name.get_char(i) != attachment_id.get_char(i) {
            return false;
        }
        i += 1;
    }
    proof {
        assert(name@.subrange(0, ni as int) =~= attachment_id@);
    }
    name.get_char(ni) == '.'
}

/// Lists the files the sweeper must remove before a write for
/// `attachment_id`: every regular file named `attachment_id` exactly or
/// starting with `attachment_id` followed by a `.`.
pub fn sweep_targets(entries: &Vec<DirEntry>, attachment_id: &str) -> (r: Vec<String>)
    ensures
        r.deep_view() == sweep_names(models(entries@), attachment_id@),
{
    let ghost m = models(entries@);
    let mut r: Vec<String> = Vec::new();
    let mut i: usize = 0;
    proof {
        assert(r.deep_view() =~= sweep_names(m.take(0), attachment_id@));
    }
    while i < entries.len()
        invariant
            m == models(entries@),
            i <= entries.len(),
            m.len() == entries@.len(),
            r.deep_view() == sweep_names(m.take(i as int), attachment_id@),
        decreases entries.len() - i,
    {
        let e = &entries[i];
        let ghost prev = r.deep_view();
        if e.is_file && entry_name_matches(e.name.as_str(), attachment_id) {
            r.push(e.name.clone());
            proof {
                assert(r.deep_view() =~= prev.push(e.name@));
            }
        }
        proof {
            assert(m.take(i + 1).drop_last() =~= m.take(i as int));
            assert(m.take(i + 1).last() == entries@[i as int]@);
        }
        i += 1;
    }
    proof {
        assert(m.take(entries@.len() as int) =~= m);
    }
    r
}

} // verus!
