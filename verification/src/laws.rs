use vstd::prelude::*;

use crate::gc::{
    derived_id, first_dot_index, gc_eligible, gc_names, lemma_first_dot_index_at,
    lemma_gc_names_characterization,
};
use crate::ident::{is_id_char, valid_id};
use crate::listing::{
    lemma_remove_named_characterization, lemma_sweep_names_characterization, name_matches_id,
    remove_named, sweep_eligible, sweep_names, EntryModel,
};

verus! {

/// No identifier character is a `.`, so a valid identifier holds no `.`.
proof fn lemma_id_chars_are_not_dots(id: Seq<char>)
    requires
        valid_id(id),
    ensures
        forall|i: int| 0 <= i < id.len() ==> id[i] != '.',
{
    assert forall|i: int| 0 <= i < id.len() implies id[i] != '.' by {
        assert(is_id_char(id[i]));
    }
}

/// After the sweeper runs for `id`, no file for `id` remains: every entry
/// left in the listing fails the sweep test.
pub proof fn lemma_sweep_clears_identifier(entries: Seq<EntryModel>, id: Seq<char>)
    ensures
        forall|e: EntryModel|
            remove_named(entries, sweep_names(entries, id)).contains(e) ==> !#[trigger]
                sweep_eligible(e, id),
{
    let picked = sweep_names(entries, id);
    lemma_remove_named_characterization(entries, picked);
    lemma_sweep_names_characterization(entries, id);
    assert forall|e: EntryModel|
        remove_named(entries, picked).contains(e) implies !#[trigger] sweep_eligible(e, id) by {
        if sweep_eligible(e, id) {
            let i = choose|i: int| 0 <= i < entries.len() && entries[i] == e;
            assert(sweep_eligible(entries[i], id) && entries[i].name == e.name);
            assert(picked.contains(e.name));
        }
    }
}

/// The overwrite invariant: sweeping the listing for `id` and then writing
/// the file `id + ext` leaves exactly one file for `id` — the new one, last
/// in the listing. `ext` is any normalized extension: empty, or starting
/// with a `.`.
pub proof fn lemma_overwrite_leaves_single_file(
    entries: Seq<EntryModel>,
    id: Seq<char>,
    ext: Seq<char>,
)
    requires
        valid_id(id),
        ext.len() == 0 || ext[0] == '.',
    ensures
        ({
            let written = EntryModel { name: id + ext, is_file: true };
            let after = remove_named(entries, sweep_names(entries, id)).push(written);
            forall|j: int|
                0 <= j < after.len() ==> (#[trigger] sweep_eligible(after[j], id) <==> j
                    == after.len() - 1)
        }),
{
    let written = EntryModel { name: id + ext, is_file: true };
    let swept = remove_named(entries, sweep_names(entries, id));
    let after = swept.push(written);
    lemma_sweep_clears_identifier(entries, id);
    assert(name_matches_id(id + ext, id)) by {
        if ext.len() == 0 {
            assert(id + ext =~= id);
        } else {
            assert((id + ext).subrange(0, id.len() as int) =~= id);
            assert((id + ext)[id.len() as int] == '.');
        }
    }
    assert forall|j: int|
        0 <= j < after.len() implies (#[trigger] sweep_eligible(after[j], id) <==> j == after.len()
        - 1) by {
        if j < after.len() - 1 {
            assert(after[j] == swept[j]);
            assert(swept.contains(swept[j]));
        } else {
            assert(after[j] == written);
        }
    }
}

/// A written file keeps its identifier: for a valid `id` and a normalized
/// extension, the collector derives exactly `id` back from the file name
/// `id + ext`. This couples ingest to garbage collection.
pub proof fn lemma_written_file_keeps_identifier(id: Seq<char>, ext: Seq<char>)
    requires
        valid_id(id),
        ext.len() == 0 || ext[0] == '.',
    ensures
        derived_id(id + ext) == id,
{
    let name = id + ext;
    lemma_id_chars_are_not_dots(id);
    if ext.len() == 0 {
        lemma_first_dot_index_at(name, name.len() as int);
    } else {
        lemma_first_dot_index_at(name, id.len() as int);
    }
    assert(name.subrange(0, id.len() as int) =~= id);
}

/// The sweeper spares every entry that does not belong to `id`: sweeping is
/// aimed, never collateral.
pub proof fn lemma_sweep_spares_unrelated(entries: Seq<EntryModel>, id: Seq<char>, e: EntryModel)
    requires
        entries.contains(e),
        !name_matches_id(e.name, id),
    ensures
        remove_named(entries, sweep_names(entries, id)).contains(e),
{
    let picked = sweep_names(entries, id);
    lemma_remove_named_characterization(entries, picked);
    lemma_sweep_names_characterization(entries, id);
    if picked.contains(e.name) {
        let i = choose|i: int|
            0 <= i < entries.len() && #[trigger] sweep_eligible(entries[i], id) && entries[i].name
                == e.name;
        assert(name_matches_id(e.name, id));
    }
}

/// The collector spares every entry whose derived identifier the caller
/// still references, whatever else the directory holds.
pub proof fn lemma_collect_spares_referenced(
    entries: Seq<EntryModel>,
    referenced: Seq<Seq<char>>,
    e: EntryModel,
)
    requires
        entries.contains(e),
        referenced.contains(derived_id(e.name)),
    ensures
        remove_named(entries, gc_names(entries, referenced)).contains(e),
{
    let targets = gc_names(entries, referenced);
    lemma_remove_named_characterization(entries, targets);
    lemma_gc_names_characterization(entries, referenced);
    if targets.contains(e.name) {
        let i = choose|i: int|
            0 <= i < entries.len() && #[trigger] gc_eligible(entries[i], referenced)
                && entries[i].name == e.name;
        assert(!referenced.contains(derived_id(e.name)));
    }
}

/// A file just written for a still-referenced identifier is never a
/// collection target: its name derives back to the identifier, and the
/// identifier is in the referenced set.
pub proof fn lemma_referenced_write_survives_collection(
    id: Seq<char>,
    ext: Seq<char>,
    referenced: Seq<Seq<char>>,
)
    requires
        valid_id(id),
        ext.len() == 0 || ext[0] == '.',
        referenced.contains(id),
    ensures
        !gc_eligible(EntryModel { name: id + ext, is_file: true }, referenced),
{
    lemma_written_file_keeps_identifier(id, ext);
}

/// Garbage collection is idempotent: once the collector's targets are
/// removed, a second collection against the same referenced set finds
/// nothing to delete.
pub proof fn lemma_collect_idempotent(entries: Seq<EntryModel>, referenced: Seq<Seq<char>>)
    ensures
        gc_names(remove_named(entries, gc_names(entries, referenced)), referenced)
            == Seq::<Seq<char>>::empty(),
{
    let targets = gc_names(entries, referenced);
    let rest = remove_named(entries, targets);
    let second = gc_names(rest, referenced);
    lemma_remove_named_characterization(entries, targets);
    lemma_gc_names_characterization(entries, referenced);
    lemma_gc_names_characterization(rest, referenced);
    if second.len() > 0 {
        assert(second.contains(second[0]));
        let i = choose|i: int|
            0 <= i < rest.len() && #[trigger] gc_eligible(rest[i], referenced) && rest[i].name
                == second[0];
        assert(rest.contains(rest[i]));
        let j = choose|j: int| 0 <= j < entries.len() && entries[j] == rest[i];
        assert(gc_eligible(entries[j], referenced));
        assert(targets.contains(entries[j].name));
        assert(false);
    }
    assert(second =~= Seq::<Seq<char>>::empty());
}

} // verus!
