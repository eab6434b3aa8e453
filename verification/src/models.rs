use vstd::prelude::*;

use crate::table::contains_text;
use crate::text::views;

verus! {

/// The model shown when the settings name none.
pub const DEFAULT_MODEL_PATH: &'static str = "/models/Aka.inx";

/// A mascot model that can be chosen in the settings.
#[derive(Debug, Clone, PartialEq, Eq)]
pub struct ModelEntry {
    pub file_name: String,
    pub display_name: String,
    pub path: String,
    pub is_bundled: bool,
    pub is_active: bool,
}

pub fn copy_entry(e: &ModelEntry) -> (r: ModelEntry)
    ensures
        r == *e,
{
    ModelEntry {
        file_name: e.file_name.clone(),
        display_name: e.display_name.clone(),
        path: e.path.clone(),
        is_bundled: e.is_bundled,
        is_active: e.is_active,
    }
}

pub open spec fn file_names(entries: Seq<ModelEntry>) -> Seq<Seq<char>> {
    entries.map_values(|e: ModelEntry| e.file_name@)
}

/// The entries whose file name no earlier entry has: where two models share a file name,
/// the one found first is listed.
pub open spec fn first_of_each_name(entries: Seq<ModelEntry>) -> Seq<ModelEntry>
    decreases entries.len(),
{
    if entries.len() == 0 {
        Seq::empty()
    } else {
        let rest = first_of_each_name(entries.drop_last());
        if file_names(entries.drop_last()).contains(entries.last().file_name@) {
            rest
        } else {
            rest.push(entries.last())
        }
    }
}

/// The model catalog from the models found, bundled ones first: one entry per file name.
pub fn collect_model_entries(found: &Vec<ModelEntry>) -> (r: Vec<ModelEntry>)
    ensures
        r@ == first_of_each_name(found@),
{
    let mut entries: Vec<ModelEntry> = Vec::new();
    let mut seen: Vec<String> = Vec::new();
    let mut i: usize = 0;
    while i < found.len()
        invariant
            i <= found.len(),
            entries@ == first_of_each_name(found@.take(i as int)),
            views(seen@) =~= file_names(found@.take(i as int)),
        decreases found.len() - i,
    {
        let ghost t = found@.take(i + 1);
        assert(t.drop_last() =~= found@.take(i as int));
        assert(t.last() == found@[i as int]);
        let name = found[i].file_name.clone();
        if !contains_text(&seen, name.as_str()) {
            entries.push(copy_entry(&found[i]));
        }
        seen.push(name);
        assert(file_names(t) =~= file_names(found@.take(i as int)).push(found@[i as int].file_name@));
        i += 1;
    }
    assert(found@.take(found@.len() as int) =~= found@);
    entries
}

} // verus!
