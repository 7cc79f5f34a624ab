//! The exclusion set and the export filter: three independent sets of ids
//! (account, vault, item) that record which nodes are excluded, the toggle
//! that flips one node's membership, and the non-cascading filter applied to
//! the flattened tree at save time.
use vstd::prelude::*;

use crate::format::ux::{
    spec_flatten, spec_unflatten, unflatten, EntryV, ExportData, ExportDataEntry,
};

verus! {

/// Ghost mirror of the exclusion state: one set of ids per node kind.
#[verifier::ext_equal]
pub struct ExclusionsV {
    pub accounts: Set<Seq<char>>,
    pub vaults: Set<Seq<char>>,
    pub items: Set<Seq<char>>,
}

/// No exclusions at all.
pub open spec fn empty_exclusions() -> ExclusionsV {
    ExclusionsV { accounts: Set::empty(), vaults: Set::empty(), items: Set::empty() }
}

/// A sequence of ids without repetition.
pub open spec fn nodup_ids(s: Seq<Seq<char>>) -> bool {
    forall|i: int, j: int| 0 <= i < j < s.len() ==> s[i] != s[j]
}

/// Whether an entry's own id is recorded in the set matching its kind.
/// No cascading: a parent's exclusion plays no part here.
pub open spec fn spec_entry_excluded(e: EntryV, ex: ExclusionsV) -> bool {
    match e {
        EntryV::Account(a) => ex.accounts.contains(a.attrs.uuid),
        EntryV::Vault(v) => ex.vaults.contains(v.attrs.uuid),
        EntryV::Item(i) => ex.items.contains(i.uuid),
    }
}

/// Flip one id's membership in one set.
pub open spec fn toggle_set(s: Set<Seq<char>>, id: Seq<char>) -> Set<Seq<char>> {
    if s.contains(id) {
        s.remove(id)
    } else {
        s.insert(id)
    }
}

/// Flip the membership of an entry's own id in the set matching its kind.
pub open spec fn spec_toggle(ex: ExclusionsV, e: EntryV) -> ExclusionsV {
    match e {
        EntryV::Account(a) => ExclusionsV {
            accounts: toggle_set(ex.accounts, a.attrs.uuid),
            vaults: ex.vaults,
            items: ex.items,
        },
        EntryV::Vault(v) => ExclusionsV {
            accounts: ex.accounts,
            vaults: toggle_set(ex.vaults, v.attrs.uuid),
            items: ex.items,
        },
        EntryV::Item(i) => ExclusionsV {
            accounts: ex.accounts,
            vaults: ex.vaults,
            items: toggle_set(ex.items, i.uuid),
        },
    }
}

/// The flat sequence with every entry whose own id is excluded removed, and
/// nothing else removed: an excluded vault's items stay unless excluded
/// themselves.
pub open spec fn spec_filter_entries(s: Seq<EntryV>, ex: ExclusionsV) -> Seq<EntryV>
    decreases s.len(),
{
    if s.len() == 0 {
        Seq::empty()
    } else {
        let rest = spec_filter_entries(s.drop_last(), ex);
        if !spec_entry_excluded(s.last(), ex) {
            rest.push(s.last())
        } else {
            rest
        }
    }
}

/// Export configuration: the pending output path and the three id lists.
/// The lists never hold an id twice, so membership and removal agree with
/// the set view.
pub struct ExportOptions {
    pub output_file: String,
    pub excluded_accounts: Vec<String>,
    pub excluded_vaults: Vec<String>,
    pub excluded_items: Vec<String>,
}

impl ExportOptions {
    /// The exclusion state the id lists record.
    pub open spec fn excl(&self) -> ExclusionsV {
        ExclusionsV {
            accounts: self.excluded_accounts.deep_view().to_set(),
            vaults: self.excluded_vaults.deep_view().to_set(),
            items: self.excluded_items.deep_view().to_set(),
        }
    }

    /// Each id list is free of repetition.
    pub open spec fn wf(&self) -> bool {
        &&& nodup_ids(self.excluded_accounts.deep_view())
        &&& nodup_ids(self.excluded_vaults.deep_view())
        &&& nodup_ids(self.excluded_items.deep_view())
    }

    /// Fresh options: empty path, nothing excluded.
    pub fn new() -> (r: ExportOptions)
        ensures
            r.wf(),
            r.excl() == empty_exclusions(),
            r.output_file@ == Seq::<char>::empty(),
    {
        let r = ExportOptions {
            output_file: String::new(),
            excluded_accounts: Vec::new(),
            excluded_vaults: Vec::new(),
            excluded_items: Vec::new(),
        };
        proof {
            assert(r.excluded_accounts.deep_view() =~= Seq::<Seq<char>>::empty());
            assert(r.excluded_vaults.deep_view() =~= Seq::<Seq<char>>::empty());
            assert(r.excluded_items.deep_view() =~= Seq::<Seq<char>>::empty());
            assert(r.excl().accounts =~= Set::<Seq<char>>::empty());
            assert(r.excl().vaults =~= Set::<Seq<char>>::empty());
            assert(r.excl().items =~= Set::<Seq<char>>::empty());
            assert(r.excl() =~= empty_exclusions());
        }
        r
    }

    /// Record the path the export will be written to.
    pub fn set_output_file(&mut self, output_file: String)
        ensures
            final(self).output_file == output_file,
            final(self).excluded_accounts == old(self).excluded_accounts,
            final(self).excluded_vaults == old(self).excluded_vaults,
            final(self).excluded_items == old(self).excluded_items,
    {
        self.output_file = output_file;
    }

    /// Whether this entry's own id is marked excluded. Looks only at the
    /// entry itself; hiding children of an excluded parent is the visibility
    /// projection's business, not this function's.
    pub fn export_data_entry_is_excluded(&self, export_data_entry: &ExportDataEntry) -> (r: bool)
        ensures
            r == spec_entry_excluded(export_data_entry.deep_view(), self.excl()),
    {
        match export_data_entry {
            ExportDataEntry::Account(account) => contains_id(
                &self.excluded_accounts,
                &account.attrs.uuid,
            ),
            ExportDataEntry::Vault(vault) => contains_id(&self.excluded_vaults, &vault.attrs.uuid),
            ExportDataEntry::Item(item) => contains_id(&self.excluded_items, &item.uuid),
        }
    }

    /// Toggle the entry's exclusion: remove its id from the matching set if
    /// present, insert it otherwise. The other two sets and the output path
    /// are untouched.
    pub fn process_export_data_entry(&mut self, export_data_entry: &ExportDataEntry)
        requires
            old(self).wf(),
        ensures
            final(self).wf(),
            final(self).excl() == spec_toggle(
                old(self).excl(),
                export_data_entry.deep_view(),
            ),
            final(self).output_file == old(self).output_file,
    {
        match export_data_entry {
            ExportDataEntry::Account(account) => {
                toggle_id(&mut self.excluded_accounts, &account.attrs.uuid);
            },
            ExportDataEntry::Vault(vault) => {
                toggle_id(&mut self.excluded_vaults, &vault.attrs.uuid);
            },
            ExportDataEntry::Item(item) => {
                toggle_id(&mut self.excluded_items, &item.uuid);
            },
        }
        proof {
            assert(self.excl() =~= spec_toggle(old(self).excl(), export_data_entry.deep_view()));
        }
    }

    /// The export filter: flatten the tree, drop exactly the entries whose
    /// own id is excluded, and reconstruct. Exclusion does not cascade here:
    /// a kept child of a removed parent is reattached positionally by the
    /// reconstruction, as [`unflatten`] describes.
    pub fn filter_export_data(&self, export_data: ExportData) -> (r: ExportData)
        ensures
            r.deep_view() == spec_unflatten(
                spec_filter_entries(spec_flatten(export_data.deep_view()), self.excl()),
            ),
    {
        let entries = export_data.flatten();
        let mut kept: Vec<ExportDataEntry> = Vec::new();
        let mut i: usize = 0;
        proof {
            assert(kept.deep_view() =~= spec_filter_entries(
                entries.deep_view().take(0),
                self.excl(),
            ));
        }
        while i < entries.len()
            invariant
                i <= entries.len(),
                kept.deep_view() == spec_filter_entries(
                    entries.deep_view().take(i as int),
                    self.excl(),
                ),
            decreases entries.len() - i,
        {
            let ghost pre = entries.deep_view().take(i as int);
            let ghost post = entries.deep_view().take(i as int + 1);
            proof {
                assert(post.drop_last() =~= pre);
                assert(post.last() == entries.deep_view()[i as int]);
            }
            let entry = &entries[i];
            if !self.export_data_entry_is_excluded(entry) {
                let ghost kept0 = kept.deep_view();
                kept.push(entry.clone());
                proof {
                    assert(kept.deep_view() =~= kept0.push(entry.deep_view()));
                }
            }
            i += 1;
        }
        proof {
            assert(entries.deep_view().take(entries@.len() as int) =~= entries.deep_view());
        }
        unflatten(kept)
    }
}

/// Whether the id occurs in the list, compared by contents.
fn contains_id(v: &Vec<String>, id: &String) -> (r: bool)
    ensures
        r == v.deep_view().contains(id@),
{
    let mut i: usize = 0;
    while i < v.len()
        invariant
            i <= v.len(),
            forall|k: int| 0 <= k < i ==> v.deep_view()[k] != id@,
        decreases v.len() - i,
    {
        if v[i] == *id {
            proof {
                assert(v.deep_view()[i as int] == id@);
            }
            return true;
        }
        i += 1;
    }
    false
}

/// The index of the id in the list, if it occurs.
fn position_of(v: &Vec<String>, id: &String) -> (r: Option<usize>)
    ensures
        match r {
            Some(p) => p < v@.len() && v.deep_view()[p as int] == id@,
            None => !v.deep_view().contains(id@),
        },
{
    let mut i: usize = 0;
    while i < v.len()
        invariant
            i <= v.len(),
            forall|k: int| 0 <= k < i ==> v.deep_view()[k] != id@,
        decreases v.len() - i,
    {
        if v[i] == *id {
            return Some(i);
        }
        i += 1;
    }
    None
}

/// Removing the entry at `p` from a repetition-free id list removes exactly
/// that id's membership and keeps the list repetition-free.
proof fn lemma_remove_membership(s: Seq<Seq<char>>, p: int)
    requires
        0 <= p < s.len(),
        nodup_ids(s),
    ensures
        nodup_ids(s.remove(p)),
        forall|y: Seq<char>| #[trigger] s.remove(p).contains(y) <==> (s.contains(y) && y != s[p]),
{
    let r = s.remove(p);
    assert forall|y: Seq<char>| #[trigger] r.contains(y) implies (s.contains(y) && y != s[p]) by {
        let i = choose|i: int| 0 <= i < r.len() && r[i] == y;
        if i < p {
            assert(s[i] == y);
        } else {
            assert(s[i + 1] == y);
        }
    };
    assert forall|y: Seq<char>| s.contains(y) && y != s[p] implies #[trigger] r.contains(y) by {
        let i = choose|i: int| 0 <= i < s.len() && s[i] == y;
        if i < p {
            assert(r[i] == y);
        } else {
            assert(i != p);
            assert(r[i - 1] == y);
        }
    };
}

/// Flip one id in one id list, keeping the list repetition-free.
fn toggle_id(v: &mut Vec<String>, id: &String)
    requires
        nodup_ids(old(v).deep_view()),
    ensures
        nodup_ids(final(v).deep_view()),
        final(v).deep_view().to_set() == toggle_set(old(v).deep_view().to_set(), id@),
{
    let ghost s0 = v.deep_view();
    match position_of(v, id) {
        Some(p) => {
            v.remove(p);
            proof {
                assert(v.deep_view() =~= s0.remove(p as int));
                lemma_remove_membership(s0, p as int);
                assert(v.deep_view().to_set() =~= s0.to_set().remove(id@));
            }
        },
        None => {
            v.push(id.clone());
            proof {
                assert(v.deep_view() =~= s0.push(id@));
                assert(forall|y: Seq<char>| #[trigger] s0.push(id@).contains(y) <==> (
                s0.contains(y) || y == id@)) by {
                    assert forall|y: Seq<char>| #[trigger] s0.push(id@).contains(y) implies (
                    s0.contains(y) || y == id@) by {
                        let i = choose|i: int| 0 <= i < s0.push(id@).len() && s0.push(id@)[i] == y;
                        if i < s0.len() {
                            assert(s0[i] == y);
                        }
                    };
                    assert forall|y: Seq<char>| s0.contains(y) || y == id@ implies #[trigger] s0
                        .push(id@).contains(y) by {
                        if y == id@ {
                            assert(s0.push(id@)[s0.len() as int] == y);
                        } else {
                            let i = choose|i: int| 0 <= i < s0.len() && s0[i] == y;
                            assert(s0.push(id@)[i] == y);
                        }
                    };
                }
                assert(v.deep_view().to_set() =~= s0.to_set().insert(id@));
                assert(nodup_ids(v.deep_view()));
            }
        },
    }
}

/// Toggling the same entry twice restores the original exclusion state:
/// the toggle is its own inverse.
pub proof fn lemma_toggle_twice(ex: ExclusionsV, e: EntryV)
    ensures
        spec_toggle(spec_toggle(ex, e), e) == ex,
{
    match e {
        EntryV::Account(a) => {
            assert(toggle_set(toggle_set(ex.accounts, a.attrs.uuid), a.attrs.uuid) =~= ex.accounts);
        },
        EntryV::Vault(v) => {
            assert(toggle_set(toggle_set(ex.vaults, v.attrs.uuid), v.attrs.uuid) =~= ex.vaults);
        },
        EntryV::Item(i) => {
            assert(toggle_set(toggle_set(ex.items, i.uuid), i.uuid) =~= ex.items);
        },
    }
    assert(spec_toggle(spec_toggle(ex, e), e) =~= ex);
}

/// The filter never removes an entry whose own id is absent from the
/// exclusion set, however its parent stands: every unexcluded entry of the
/// sequence is still present after filtering.
pub proof fn lemma_filter_keeps_unexcluded(s: Seq<EntryV>, ex: ExclusionsV, i: int)
    requires
        0 <= i < s.len(),
        !spec_entry_excluded(s[i], ex),
    ensures
        spec_filter_entries(s, ex).contains(s[i]),
    decreases s.len(),
{
    let rest = spec_filter_entries(s.drop_last(), ex);
    if i == s.len() - 1 {
        assert(spec_filter_entries(s, ex) == rest.push(s[i]));
        assert(rest.push(s[i])[rest.len() as int] == s[i]);
    } else {
        assert(s.drop_last()[i] == s[i]);
        lemma_filter_keeps_unexcluded(s.drop_last(), ex, i);
        let j = choose|j: int| 0 <= j < rest.len() && rest[j] == s[i];
        if !spec_entry_excluded(s.last(), ex) {
            assert(rest.push(s.last())[j] == s[i]);
        }
    }
}

/// Everything the filter keeps stood in the sequence and is not excluded
/// itself: together with the law above, an entry survives filtering exactly
/// when its own id is not excluded.
pub proof fn lemma_filter_exact(s: Seq<EntryV>, ex: ExclusionsV, j: int)
    requires
        0 <= j < spec_filter_entries(s, ex).len(),
    ensures
        s.contains(spec_filter_entries(s, ex)[j]),
        !spec_entry_excluded(spec_filter_entries(s, ex)[j], ex),
    decreases s.len(),
{
    let out = spec_filter_entries(s, ex);
    let rest = spec_filter_entries(s.drop_last(), ex);
    if j < rest.len() {
        lemma_filter_exact(s.drop_last(), ex, j);
        let i = choose|i: int| 0 <= i < s.drop_last().len() && s.drop_last()[i] == rest[j];
        assert(s[i] == rest[j]);
        assert(out[j] == rest[j]);
    } else {
        assert(!spec_entry_excluded(s.last(), ex));
        assert(out[j] == s.last());
        assert(s[s.len() - 1] == s.last());
    }
}

} // verus!
