//! The navigator: the visibility projection that decides which entries are
//! shown while browsing, the path-input line editor, and the state machine
//! that key events and background results drive.
use vstd::prelude::*;

use crate::export::{
    empty_exclusions, spec_entry_excluded, spec_toggle, ExclusionsV, ExportOptions,
};
use crate::format::ux::{
    spec_flatten, spec_flatten_account, spec_flatten_accounts, spec_flatten_items,
    spec_flatten_vault, spec_flatten_vaults, AccountV, EntryV, ExportData, ExportDataEntry,
    ExportDataV, ItemV, VaultV,
};
use crate::op::OPError;

verus! {

// ---------------------------------------------------------------------------
// Cursor clamping
// ---------------------------------------------------------------------------
/// The clamped cursor: a valid index into a list of the given length, or
/// zero when the list is empty; an in-range cursor is kept as it is.
pub open spec fn spec_clamp(cursor: int, len: int) -> int {
    if len == 0 {
        0
    } else if cursor < len {
        cursor
    } else {
        len - 1
    }
}

/// Clamp a cursor index to the bounds of a list of the given length.
pub fn clamp_cursor(cursor: usize, len: usize) -> (r: usize)
    ensures
        r as int == spec_clamp(cursor as int, len as int),
{
    if len == 0 {
        0
    } else if cursor < len {
        cursor
    } else {
        len - 1
    }
}

// ---------------------------------------------------------------------------
// The visibility projection
// ---------------------------------------------------------------------------
/// State of the projection scan: what has been emitted, and whether the
/// current account's or the current vault's subtree is being suppressed.
#[verifier::ext_equal]
pub struct ProjectV {
    pub out: Seq<EntryV>,
    pub sup_account: bool,
    pub sup_vault: bool,
}

/// The scan's starting state: nothing emitted, nothing suppressed.
pub open spec fn project_init() -> ProjectV {
    ProjectV { out: Seq::empty(), sup_account: false, sup_vault: false }
}

/// One step of the projection. An Account entry is always emitted and sets
/// account suppression from its own exclusion; a Vault entry is dropped
/// under a suppressed account, else emitted, setting vault suppression from
/// its own exclusion; an Item entry is dropped under either suppression.
pub open spec fn project_step(st: ProjectV, e: EntryV, ex: ExclusionsV) -> ProjectV {
    match e {
        EntryV::Account(a) => ProjectV {
            out: st.out.push(e),
            sup_account: ex.accounts.contains(a.attrs.uuid),
            sup_vault: st.sup_vault,
        },
        EntryV::Vault(v) => {
            if st.sup_account {
                st
            } else {
                ProjectV {
                    out: st.out.push(e),
                    sup_account: false,
                    sup_vault: ex.vaults.contains(v.attrs.uuid),
                }
            }
        },
        EntryV::Item(i) => {
            if st.sup_account || st.sup_vault {
                st
            } else {
                ProjectV {
                    out: st.out.push(e),
                    sup_account: st.sup_account,
                    sup_vault: st.sup_vault,
                }
            }
        },
    }
}

/// Run the projection scan over a whole entry sequence.
pub open spec fn project_from(st: ProjectV, s: Seq<EntryV>, ex: ExclusionsV) -> ProjectV
    decreases s.len(),
{
    if s.len() == 0 {
        st
    } else {
        project_step(project_from(st, s.drop_last(), ex), s.last(), ex)
    }
}

/// The visible subsequence of a flat entry sequence: one forward pass with
/// cascading suppression. An excluded node stays visible itself; only its
/// descendants vanish from the browsing view.
pub open spec fn spec_project(s: Seq<EntryV>, ex: ExclusionsV) -> Seq<EntryV> {
    project_from(project_init(), s, ex).out
}

/// Compute the visible entries of a flat sequence under the given options.
pub fn project(entries: &Vec<ExportDataEntry>, opts: &ExportOptions) -> (r: Vec<ExportDataEntry>)
    ensures
        r.deep_view() == spec_project(entries.deep_view(), opts.excl()),
{
    let mut out: Vec<ExportDataEntry> = Vec::new();
    let mut sup_account: bool = false;
    let mut sup_vault: bool = false;
    let mut i: usize = 0;
    proof {
        assert(out.deep_view() =~= Seq::<EntryV>::empty());
        assert(project_from(project_init(), entries.deep_view().take(0), opts.excl())
            =~= (ProjectV { out: out.deep_view(), sup_account, sup_vault }));
    }
    while i < entries.len()
        invariant
            i <= entries.len(),
            project_from(project_init(), entries.deep_view().take(i as int), opts.excl())
                == (ProjectV { out: out.deep_view(), sup_account, sup_vault }),
        decreases entries.len() - i,
    {
        let ghost st0 = project_from(
            project_init(),
            entries.deep_view().take(i as int),
            opts.excl(),
        );
        proof {
            let post = entries.deep_view().take(i as int + 1);
            assert(post.drop_last() =~= entries.deep_view().take(i as int));
            assert(post.last() == entries.deep_view()[i as int]);
        }
        let ghost out0 = out.deep_view();
        let entry = &entries[i];
        match entry {
            ExportDataEntry::Account(_) => {
                let exl = opts.export_data_entry_is_excluded(entry);
                out.push(entry.clone());
                sup_account = exl;
                proof {
                    assert(out.deep_view() =~= out0.push(entry.deep_view()));
                    assert(project_step(st0, entries.deep_view()[i as int], opts.excl())
                        =~= (ProjectV { out: out.deep_view(), sup_account, sup_vault }));
                }
            },
            ExportDataEntry::Vault(_) => {
                if !sup_account {
                    let exl = opts.export_data_entry_is_excluded(entry);
                    out.push(entry.clone());
                    sup_vault = exl;
                    proof {
                        assert(out.deep_view() =~= out0.push(entry.deep_view()));
                    }
                }
                proof {
                    assert(project_step(st0, entries.deep_view()[i as int], opts.excl())
                        =~= (ProjectV { out: out.deep_view(), sup_account, sup_vault }));
                }
            },
            ExportDataEntry::Item(_) => {
                if !sup_account && !sup_vault {
                    out.push(entry.clone());
                    proof {
                        assert(out.deep_view() =~= out0.push(entry.deep_view()));
                    }
                }
                proof {
                    assert(project_step(st0, entries.deep_view()[i as int], opts.excl())
                        =~= (ProjectV { out: out.deep_view(), sup_account, sup_vault }));
                }
            },
        }
        i += 1;
    }
    proof {
        assert(entries.deep_view().take(entries@.len() as int) =~= entries.deep_view());
    }
    out
}

// ---------------------------------------------------------------------------
// What the projection of a flattened tree contains, structurally
// ---------------------------------------------------------------------------
/// The visible walk of one account's vaults: every vault entry, each
/// followed by its items exactly when the vault itself is not excluded.
pub open spec fn spec_visible_vaults(vaults: Seq<VaultV>, ex: ExclusionsV) -> Seq<EntryV>
    decreases vaults.len(),
{
    if vaults.len() == 0 {
        Seq::empty()
    } else {
        spec_visible_vaults(vaults.drop_last(), ex) + seq![EntryV::Vault(vaults.last())] + (
        if ex.vaults.contains(vaults.last().attrs.uuid) {
            Seq::empty()
        } else {
            spec_flatten_items(vaults.last().items)
        })
    }
}

/// The visible walk of the accounts: every account entry, each followed by
/// its visible vaults exactly when the account itself is not excluded.
pub open spec fn spec_visible_accounts(accounts: Seq<AccountV>, ex: ExclusionsV) -> Seq<EntryV>
    decreases accounts.len(),
{
    if accounts.len() == 0 {
        Seq::empty()
    } else {
        spec_visible_accounts(accounts.drop_last(), ex) + seq![
            EntryV::Account(accounts.last()),
        ] + (if ex.accounts.contains(accounts.last().attrs.uuid) {
            Seq::empty()
        } else {
            spec_visible_vaults(accounts.last().vaults, ex)
        })
    }
}

/// The entries of a tree that cascading suppression leaves visible.
pub open spec fn spec_visible(d: ExportDataV, ex: ExclusionsV) -> Seq<EntryV> {
    spec_visible_accounts(d.accounts, ex)
}

/// Projecting a concatenation is projecting the parts in turn.
proof fn lemma_project_concat(st: ProjectV, s1: Seq<EntryV>, s2: Seq<EntryV>, ex: ExclusionsV)
    ensures
        project_from(st, s1 + s2, ex) == project_from(project_from(st, s1, ex), s2, ex),
    decreases s2.len(),
{
    if s2.len() == 0 {
        assert(s1 + s2 =~= s1);
    } else {
        assert((s1 + s2).drop_last() =~= s1 + s2.drop_last());
        lemma_project_concat(st, s1, s2.drop_last(), ex);
        assert((s1 + s2).last() == s2.last());
    }
}

/// A run of item entries is emitted whole, or dropped whole under an active
/// suppression; the flags never change.
proof fn lemma_project_items(st: ProjectV, items: Seq<ItemV>, ex: ExclusionsV)
    ensures
        project_from(st, spec_flatten_items(items), ex) == (ProjectV {
            out: if st.sup_account || st.sup_vault {
                st.out
            } else {
                st.out + spec_flatten_items(items)
            },
            sup_account: st.sup_account,
            sup_vault: st.sup_vault,
        }),
    decreases items.len(),
{
    if items.len() == 0 {
        assert(spec_flatten_items(items) =~= Seq::<EntryV>::empty());
        assert(st.out + spec_flatten_items(items) =~= st.out);
        assert(project_from(st, spec_flatten_items(items), ex) =~= (ProjectV {
            out: if st.sup_account || st.sup_vault {
                st.out
            } else {
                st.out + spec_flatten_items(items)
            },
            sup_account: st.sup_account,
            sup_vault: st.sup_vault,
        }));
    } else {
        lemma_project_items(st, items.drop_last(), ex);
        let flat = spec_flatten_items(items);
        assert(flat.drop_last() == spec_flatten_items(items.drop_last()));
        assert(flat.last() == EntryV::Item(items.last()));
        let st1 = project_from(st, flat.drop_last(), ex);
        assert(project_from(st, flat, ex) == project_step(st1, flat.last(), ex));
        if !(st.sup_account || st.sup_vault) {
            assert((st.out + spec_flatten_items(items.drop_last())).push(
                EntryV::Item(items.last()),
            ) =~= st.out + flat);
        }
        assert(project_from(st, flat, ex) =~= (ProjectV {
            out: if st.sup_account || st.sup_vault {
                st.out
            } else {
                st.out + flat
            },
            sup_account: st.sup_account,
            sup_vault: st.sup_vault,
        }));
    }
}

/// A run of flattened vaults under a live account is emitted as its visible
/// walk; under a suppressed account it vanishes entirely and the state is
/// untouched.
proof fn lemma_project_vaults(st: ProjectV, vaults: Seq<VaultV>, ex: ExclusionsV)
    ensures
        project_from(st, spec_flatten_vaults(vaults), ex) == (ProjectV {
            out: if st.sup_account {
                st.out
            } else {
                st.out + spec_visible_vaults(vaults, ex)
            },
            sup_account: st.sup_account,
            sup_vault: if st.sup_account || vaults.len() == 0 {
                st.sup_vault
            } else {
                ex.vaults.contains(vaults.last().attrs.uuid)
            },
        }),
    decreases vaults.len(),
{
    if vaults.len() == 0 {
        assert(spec_flatten_vaults(vaults) =~= Seq::<EntryV>::empty());
        assert(st.out + spec_visible_vaults(vaults, ex) =~= st.out);
        assert(project_from(st, spec_flatten_vaults(vaults), ex) =~= (ProjectV {
            out: if st.sup_account {
                st.out
            } else {
                st.out + spec_visible_vaults(vaults, ex)
            },
            sup_account: st.sup_account,
            sup_vault: st.sup_vault,
        }));
    } else {
        let dl = vaults.drop_last();
        let lastv = vaults.last();
        lemma_project_vaults(st, dl, ex);
        let st1 = project_from(st, spec_flatten_vaults(dl), ex);
        lemma_project_concat(st, spec_flatten_vaults(dl), spec_flatten_vault(lastv), ex);
        assert(spec_flatten_vaults(vaults) == spec_flatten_vaults(dl)
            + spec_flatten_vault(lastv));
        lemma_project_concat(st1, seq![EntryV::Vault(lastv)], spec_flatten_items(lastv.items), ex);
        assert(seq![EntryV::Vault(lastv)].drop_last() =~= Seq::<EntryV>::empty());
        assert(project_from(st1, Seq::<EntryV>::empty(), ex) == st1);
        assert(seq![EntryV::Vault(lastv)].last() == EntryV::Vault(lastv));
        let st2 = project_step(st1, EntryV::Vault(lastv), ex);
        assert(project_from(st1, seq![EntryV::Vault(lastv)], ex) == st2);
        lemma_project_items(st2, lastv.items, ex);
        let st3 = project_from(st, spec_flatten_vaults(vaults), ex);
        if st.sup_account {
            assert(st3 =~= st);
        } else {
            assert(st1.out == st.out + spec_visible_vaults(dl, ex));
            assert(st2.out == st1.out.push(EntryV::Vault(lastv)));
            if ex.vaults.contains(lastv.attrs.uuid) {
                assert(st3.out == st2.out);
                assert((st.out + spec_visible_vaults(dl, ex)).push(EntryV::Vault(lastv))
                    =~= st.out + spec_visible_vaults(vaults, ex));
            } else {
                assert(st3.out == st2.out + spec_flatten_items(lastv.items));
                assert((st.out + spec_visible_vaults(dl, ex)).push(EntryV::Vault(lastv))
                    + spec_flatten_items(lastv.items) =~= st.out + spec_visible_vaults(
                    vaults,
                    ex,
                ));
            }
            assert(st3 =~= (ProjectV {
                out: st.out + spec_visible_vaults(vaults, ex),
                sup_account: st.sup_account,
                sup_vault: ex.vaults.contains(lastv.attrs.uuid),
            }));
        }
    }
}

/// A run of flattened accounts is emitted as its visible walk, whatever the
/// incoming flags: every account entry shows, and an account's subtree shows
/// exactly when the account itself is not excluded.
proof fn lemma_project_accounts(st: ProjectV, accounts: Seq<AccountV>, ex: ExclusionsV)
    ensures
        project_from(st, spec_flatten_accounts(accounts), ex).out == st.out
            + spec_visible_accounts(accounts, ex),
        accounts.len() > 0 ==> project_from(st, spec_flatten_accounts(accounts), ex).sup_account
            == ex.accounts.contains(accounts.last().attrs.uuid),
        accounts.len() == 0 ==> project_from(st, spec_flatten_accounts(accounts), ex) == st,
    decreases accounts.len(),
{
    if accounts.len() == 0 {
        assert(spec_flatten_accounts(accounts) =~= Seq::<EntryV>::empty());
        assert(st.out + spec_visible_accounts(accounts, ex) =~= st.out);
    } else {
        let dl = accounts.drop_last();
        let lasta = accounts.last();
        lemma_project_accounts(st, dl, ex);
        let st1 = project_from(st, spec_flatten_accounts(dl), ex);
        lemma_project_concat(st, spec_flatten_accounts(dl), spec_flatten_account(lasta), ex);
        assert(spec_flatten_accounts(accounts) == spec_flatten_accounts(dl)
            + spec_flatten_account(lasta));
        lemma_project_concat(st1, seq![EntryV::Account(lasta)], spec_flatten_vaults(lasta.vaults),
            ex);
        assert(seq![EntryV::Account(lasta)].drop_last() =~= Seq::<EntryV>::empty());
        assert(project_from(st1, Seq::<EntryV>::empty(), ex) == st1);
        assert(seq![EntryV::Account(lasta)].last() == EntryV::Account(lasta));
        let st2 = project_step(st1, EntryV::Account(lasta), ex);
        assert(project_from(st1, seq![EntryV::Account(lasta)], ex) == st2);
        assert(st2.out == st1.out.push(EntryV::Account(lasta)));
        assert(st2.sup_account == ex.accounts.contains(lasta.attrs.uuid));
        lemma_project_vaults(st2, lasta.vaults, ex);
        let st3 = project_from(st, spec_flatten_accounts(accounts), ex);
        if ex.accounts.contains(lasta.attrs.uuid) {
            assert(st3.out == st2.out);
            assert((st.out + spec_visible_accounts(dl, ex)).push(EntryV::Account(lasta))
                =~= st.out + spec_visible_accounts(accounts, ex));
        } else {
            assert(st3.out == st2.out + spec_visible_vaults(lasta.vaults, ex));
            assert((st.out + spec_visible_accounts(dl, ex)).push(EntryV::Account(lasta))
                + spec_visible_vaults(lasta.vaults, ex) =~= st.out + spec_visible_accounts(
                accounts,
                ex,
            ));
        }
    }
}

/// The projection of a flattened tree is exactly the tree's visible walk:
/// every entry it holds is not suppressed by an ancestor's exclusion, and
/// every flattened entry it omits has its owning account or vault excluded.
/// An excluded entry itself stays visible; only descendants are hidden.
pub proof fn lemma_project_flatten(d: ExportDataV, ex: ExclusionsV)
    ensures
        spec_project(spec_flatten(d), ex) == spec_visible(d, ex),
{
    lemma_project_accounts(project_init(), d.accounts, ex);
    assert(Seq::<EntryV>::empty() + spec_visible_accounts(d.accounts, ex)
        =~= spec_visible_accounts(d.accounts, ex));
}


// ---------------------------------------------------------------------------
// The path-input line editor
// ---------------------------------------------------------------------------
/// Turn the edited characters into the path string handed onwards.
/// Relies on String's FromIterator over char: collecting an iterator of
/// characters yields exactly those characters, in order.
#[verifier::external_body]
fn chars_to_string(chars: &Vec<char>) -> (s: String)
    ensures
        s@ == chars@,
{
    chars.iter().collect()
}

/// A minimal line editor: the buffered characters and the caret position.
pub struct Input {
    pub chars: Vec<char>,
    pub pos: usize,
}

impl Input {
    /// The caret never leaves the buffer, and the buffer is a machine-
    /// representable vector.
    pub open spec fn wf(&self) -> bool {
        &&& self.pos <= self.chars@.len()
        &&& self.chars@.len() <= usize::MAX
    }

    /// An empty buffer with the caret at its start.
    pub fn new() -> (r: Input)
        ensures
            r.chars@ == Seq::<char>::empty(),
            r.pos == 0,
            r.wf(),
    {
        Input { chars: Vec::new(), pos: 0 }
    }

    /// The buffered text as a string.
    pub fn buffer(&self) -> (s: String)
        ensures
            s@ == self.chars@,
    {
        chars_to_string(&self.chars)
    }

    /// Empty the buffer and reset the caret.
    pub fn clear(&mut self)
        ensures
            final(self).chars@ == Seq::<char>::empty(),
            final(self).pos == 0,
    {
        self.chars = Vec::new();
        self.pos = 0;
    }

    /// Insert a character at the caret and step the caret past it.
    pub fn insert_char(&mut self, c: char)
        requires
            old(self).wf(),
        ensures
            final(self).wf(),
            final(self).chars@ == old(self).chars@.insert(old(self).pos as int, c),
            final(self).pos == old(self).pos + 1,
    {
        let p = self.pos;
        self.chars.insert(p, c);
        let n = self.chars.len();
        proof {
            assert(p + 1 <= n);
        }
        self.pos = p + 1;
    }

    /// Delete the character before the caret, if any, stepping the caret back.
    pub fn backspace(&mut self)
        requires
            old(self).wf(),
        ensures
            final(self).wf(),
            old(self).pos > 0 ==> final(self).chars@ == old(self).chars@.remove(
                old(self).pos - 1,
            ) && final(self).pos == old(self).pos - 1,
            old(self).pos == 0 ==> *final(self) == *old(self),
    {
        if self.pos > 0 {
            let p = self.pos - 1;
            self.chars.remove(p);
            self.pos = p;
        }
    }

    /// Step the caret back, if possible.
    pub fn move_left(&mut self)
        ensures
            final(self).chars == old(self).chars,
            final(self).pos == if old(self).pos > 0 {
                (old(self).pos - 1) as usize
            } else {
                0usize
            },
    {
        if self.pos > 0 {
            self.pos = self.pos - 1;
        }
    }

    /// Step the caret forward, if possible.
    pub fn move_right(&mut self)
        requires
            old(self).wf(),
        ensures
            final(self).chars == old(self).chars,
            final(self).pos == if old(self).pos < old(self).chars@.len() {
                (old(self).pos + 1) as usize
            } else {
                old(self).pos
            },
    {
        if self.pos < self.chars.len() {
            self.pos = self.pos + 1;
        }
    }
}

// ---------------------------------------------------------------------------
// Keys, messages, commands
// ---------------------------------------------------------------------------
/// The key events the navigator understands.
#[derive(Clone, Copy, Debug, PartialEq, Eq, Structural)]
pub enum Key {
    Esc,
    Enter,
    Up,
    Down,
    Left,
    Right,
    Backspace,
    Char(char),
}

/// What the event loop must do after a transition: stop, save the export to
/// the pending path, or schedule another animation tick.
#[derive(Clone, Copy, Debug, PartialEq, Eq, Structural)]
pub enum Command {
    Quit,
    Save,
    ScheduleTick,
}

/// One event fed into the navigator: a finished background load (either
/// way), an animation tick, or a key press.
pub enum Message {
    Loaded(ExportData),
    LoadFailed(OPError),
    Tick,
    Key(Key),
}

// ---------------------------------------------------------------------------
// The navigator state machine
// ---------------------------------------------------------------------------
/// The navigator's whole state: the loaded tree and its two derived lists,
/// the last error, the loading indicator phase, the path editor, the
/// exclusion state, and the cursor into the visible list.
pub struct Model {
    pub export_data: Option<ExportData>,
    pub flattened_export_data: Option<Vec<ExportDataEntry>>,
    pub viewable_entries: Vec<ExportDataEntry>,
    pub error: Option<OPError>,
    pub loading_indicator_count: usize,
    pub export_path_input: Input,
    pub export_options: ExportOptions,
    pub current_selection: usize,
}

/// The model with only the cursor changed.
pub open spec fn with_cursor(pre: Model, cursor: usize) -> Model {
    Model {
        export_data: pre.export_data,
        flattened_export_data: pre.flattened_export_data,
        viewable_entries: pre.viewable_entries,
        error: pre.error,
        loading_indicator_count: pre.loading_indicator_count,
        export_path_input: pre.export_path_input,
        export_options: pre.export_options,
        current_selection: cursor,
    }
}

/// The model with only the error changed.
pub open spec fn with_error(pre: Model, e: OPError) -> Model {
    Model {
        export_data: pre.export_data,
        flattened_export_data: pre.flattened_export_data,
        viewable_entries: pre.viewable_entries,
        error: Some(e),
        loading_indicator_count: pre.loading_indicator_count,
        export_path_input: pre.export_path_input,
        export_options: pre.export_options,
        current_selection: pre.current_selection,
    }
}

/// The model with only the loading indicator changed.
pub open spec fn with_loading(pre: Model, n: usize) -> Model {
    Model {
        export_data: pre.export_data,
        flattened_export_data: pre.flattened_export_data,
        viewable_entries: pre.viewable_entries,
        error: pre.error,
        loading_indicator_count: n,
        export_path_input: pre.export_path_input,
        export_options: pre.export_options,
        current_selection: pre.current_selection,
    }
}

/// The next indicator phase: cycles one through five while loading, and
/// stays at zero once loading has ended.
pub open spec fn spec_bump(n: usize) -> usize {
    if n == 5 {
        1usize
    } else if n > 0 {
        (n + 1) as usize
    } else {
        0usize
    }
}

/// What one editing key does to the buffer and the caret.
pub open spec fn spec_edit_chars(chars: Seq<char>, pos: int, key: Key) -> (Seq<char>, int) {
    match key {
        Key::Char(c) => (chars.insert(pos, c), pos + 1),
        Key::Backspace => if pos > 0 {
            (chars.remove(pos - 1), pos - 1)
        } else {
            (chars, pos)
        },
        Key::Left => (chars, if pos > 0 {
            pos - 1
        } else {
            0
        }),
        Key::Right => (chars, if pos < chars.len() {
            pos + 1
        } else {
            pos
        }),
        _ => (chars, pos),
    }
}

/// An editing key reached the path editor: the buffer and caret change as
/// [`spec_edit_chars`] says, the edited text becomes the pending output
/// path, and everything else stands still.
pub open spec fn edit_transition(pre: Model, post: Model, key: Key) -> bool {
    let e = spec_edit_chars(pre.export_path_input.chars@, pre.export_path_input.pos as int, key);
    &&& post.export_path_input.chars@ == e.0
    &&& post.export_path_input.pos as int == e.1
    &&& post.export_options.output_file@ == e.0
    &&& post.export_options.excluded_accounts == pre.export_options.excluded_accounts
    &&& post.export_options.excluded_vaults == pre.export_options.excluded_vaults
    &&& post.export_options.excluded_items == pre.export_options.excluded_items
    &&& post.export_data == pre.export_data
    &&& post.flattened_export_data == pre.flattened_export_data
    &&& post.viewable_entries == pre.viewable_entries
    &&& post.error == pre.error
    &&& post.loading_indicator_count == pre.loading_indicator_count
    &&& post.current_selection == pre.current_selection
}

/// The toggle key fired: the entry under the cursor (in the visible list)
/// has its exclusion flipped, the visible list is recomputed under the new
/// exclusion state, and the cursor is clamped to it. With nothing visible,
/// the exclusion state stands.
pub open spec fn toggle_transition(pre: Model, post: Model) -> bool {
    let target = if pre.viewable_entries@.len() > 0 {
        spec_toggle(
            pre.export_options.excl(),
            pre.viewable_entries.deep_view()[pre.current_selection as int],
        )
    } else {
        pre.export_options.excl()
    };
    &&& post.export_options.excl() == target
    &&& post.export_options.output_file == pre.export_options.output_file
    &&& post.export_data == pre.export_data
    &&& post.flattened_export_data == pre.flattened_export_data
    &&& post.error == pre.error
    &&& post.loading_indicator_count == pre.loading_indicator_count
    &&& post.export_path_input == pre.export_path_input
    &&& match pre.export_data {
        Some(d) => post.viewable_entries.deep_view() == spec_project(
            spec_flatten(d.deep_view()),
            target,
        ),
        None => post.viewable_entries == pre.viewable_entries,
    }
    &&& post.current_selection as int == spec_clamp(
        pre.current_selection as int,
        post.viewable_entries@.len() as int,
    )
}

/// What one key press does to the navigator. Escape always quits at once.
/// Before the tree is loaded every other key is ignored. Once loaded: Enter
/// with a non-empty path asks for a save and changes nothing, Enter with an
/// empty path does nothing at all, Up and Down move the cursor without
/// wrapping, the space character toggles the entry under the cursor, and
/// every other key edits the path buffer.
pub open spec fn key_transition(pre: Model, post: Model, key: Key, cmd: Option<Command>) -> bool {
    if key is Esc {
        &&& post == pre
        &&& cmd == Some(Command::Quit)
    } else if pre.export_data is None {
        &&& post == pre
        &&& cmd is None
    } else {
        match key {
            Key::Enter => {
                &&& post == pre
                &&& cmd == (if pre.export_path_input.chars@.len() > 0 {
                    Some(Command::Save)
                } else {
                    None::<Command>
                })
            },
            Key::Up => {
                &&& post == with_cursor(
                    pre,
                    if pre.current_selection > 0 {
                        (pre.current_selection - 1) as usize
                    } else {
                        0usize
                    },
                )
                &&& cmd is None
            },
            Key::Down => {
                &&& post == with_cursor(
                    pre,
                    if pre.current_selection + 1 < pre.viewable_entries@.len() {
                        (pre.current_selection + 1) as usize
                    } else {
                        pre.current_selection
                    },
                )
                &&& cmd is None
            },
            Key::Char(c) => {
                if c == ' ' {
                    &&& toggle_transition(pre, post)
                    &&& cmd is None
                } else {
                    &&& edit_transition(pre, post, key)
                    &&& cmd is None
                }
            },
            Key::Backspace | Key::Left | Key::Right => {
                &&& edit_transition(pre, post, key)
                &&& cmd is None
            },
            Key::Esc => false,
        }
    }
}

/// What one message does to the navigator. A successful load caches the
/// tree, recomputes both derived lists, and ends the loading animation; a
/// failed load records the error and ends the animation; a tick advances the
/// indicator and reschedules itself only while loading; a key follows
/// [`key_transition`].
pub open spec fn update_transition(
    pre: Model,
    post: Model,
    msg: Message,
    cmd: Option<Command>,
) -> bool {
    match msg {
        Message::Loaded(d) => {
            &&& post.export_data == Some(d)
            &&& post.flattened_export_data matches Some(f) && f.deep_view() == spec_flatten(
                d.deep_view(),
            )
            &&& post.viewable_entries.deep_view() == spec_project(
                spec_flatten(d.deep_view()),
                pre.export_options.excl(),
            )
            &&& post.current_selection as int == spec_clamp(
                pre.current_selection as int,
                post.viewable_entries@.len() as int,
            )
            &&& post.loading_indicator_count == 0
            &&& post.error == pre.error
            &&& post.export_options == pre.export_options
            &&& post.export_path_input == pre.export_path_input
            &&& cmd is None
        },
        Message::LoadFailed(e) => {
            &&& post == with_loading(with_error(pre, e), 0)
            &&& cmd is None
        },
        Message::Tick => {
            if pre.loading_indicator_count > 0 {
                &&& post == with_loading(pre, spec_bump(pre.loading_indicator_count))
                &&& cmd == Some(Command::ScheduleTick)
            } else {
                &&& post == pre
                &&& cmd is None
            }
        },
        Message::Key(k) => key_transition(pre, post, k, cmd),
    }
}

impl Model {
    /// The navigator's standing invariant: the exclusion lists are
    /// repetition-free, the indicator phase is in its cycle, the caret is in
    /// the buffer, the flat list is the flattening of the cached tree, the
    /// visible list is the projection of the flat list under the current
    /// exclusions, and the cursor indexes the visible list or is zero when
    /// the list is empty.
    pub open spec fn inv(&self) -> bool {
        &&& self.export_options.wf()
        &&& self.loading_indicator_count <= 5
        &&& self.export_path_input.wf()
        &&& match self.export_data {
            Some(d) => {
                &&& self.flattened_export_data matches Some(f) && f.deep_view() == spec_flatten(
                    d.deep_view(),
                )
                &&& self.viewable_entries.deep_view() == spec_project(
                    spec_flatten(d.deep_view()),
                    self.export_options.excl(),
                )
            },
            None => {
                &&& self.flattened_export_data is None
                &&& self.viewable_entries@.len() == 0
            },
        }
        &&& if self.viewable_entries@.len() == 0 {
            self.current_selection == 0
        } else {
            self.current_selection < self.viewable_entries@.len()
        }
    }

    /// A fresh navigator: nothing loaded, nothing excluded, indicator
    /// running, cursor at the top.
    pub fn new() -> (r: Model)
        ensures
            r.inv(),
            r.export_data is None,
            r.flattened_export_data is None,
            r.viewable_entries@.len() == 0,
            r.error is None,
            r.loading_indicator_count == 1,
            r.export_path_input.chars@.len() == 0,
            r.export_path_input.pos == 0,
            r.export_options.excl() == empty_exclusions(),
            r.export_options.output_file@ == Seq::<char>::empty(),
            r.current_selection == 0,
    {
        Model {
            export_data: None,
            flattened_export_data: None,
            viewable_entries: Vec::new(),
            error: None,
            loading_indicator_count: 1,
            export_path_input: Input::new(),
            export_options: ExportOptions::new(),
            current_selection: 0,
        }
    }

    /// Cache a freshly loaded tree and its flattening. The visible list is
    /// not touched here; recompute it before relying on the invariant.
    pub fn cache_export_data(&mut self, export_data: ExportData)
        ensures
            final(self).export_data == Some(export_data),
            final(self).flattened_export_data matches Some(f) && f.deep_view() == spec_flatten(
                export_data.deep_view(),
            ),
            final(self).viewable_entries == old(self).viewable_entries,
            final(self).error == old(self).error,
            final(self).loading_indicator_count == old(self).loading_indicator_count,
            final(self).export_path_input == old(self).export_path_input,
            final(self).export_options == old(self).export_options,
            final(self).current_selection == old(self).current_selection,
    {
        let flat = export_data.flatten();
        self.flattened_export_data = Some(flat);
        self.export_data = Some(export_data);
    }

    /// Whether the flat entry at the given index is itself excluded.
    pub fn is_entry_excluded(&self, idx: usize) -> (r: bool)
        requires
            self.flattened_export_data matches Some(f) && idx < f@.len(),
        ensures
            r == spec_entry_excluded(
                self.flattened_export_data->Some_0.deep_view()[idx as int],
                self.export_options.excl(),
            ),
    {
        match &self.flattened_export_data {
            Some(f) => self.export_options.export_data_entry_is_excluded(&f[idx]),
            None => {
                proof {
                    assert(false);
                }
                false
            },
        }
    }

    /// Toggle the exclusion of the entry under the cursor, resolved against
    /// the visible list. With nothing visible there is nothing to toggle.
    pub fn process_current_entry(&mut self)
        requires
            old(self).export_options.wf(),
            old(self).viewable_entries@.len() > 0 ==> old(self).current_selection < old(
                self,
            ).viewable_entries@.len(),
        ensures
            final(self).export_options.wf(),
            final(self).export_options.excl() == (if old(self).viewable_entries@.len() > 0 {
                spec_toggle(
                    old(self).export_options.excl(),
                    old(self).viewable_entries.deep_view()[old(self).current_selection as int],
                )
            } else {
                old(self).export_options.excl()
            }),
            final(self).export_options.output_file == old(self).export_options.output_file,
            final(self).export_data == old(self).export_data,
            final(self).flattened_export_data == old(self).flattened_export_data,
            final(self).viewable_entries == old(self).viewable_entries,
            final(self).error == old(self).error,
            final(self).loading_indicator_count == old(self).loading_indicator_count,
            final(self).export_path_input == old(self).export_path_input,
            final(self).current_selection == old(self).current_selection,
    {
        if self.viewable_entries.len() > 0 {
            let entry = &self.viewable_entries[self.current_selection];
            self.export_options.process_export_data_entry(entry);
        }
    }

    /// Recompute the visible list from the cached flat list and the current
    /// exclusions, and clamp the cursor to it.
    pub fn cache_viewable_entries(&mut self)
        requires
            old(self).export_data matches Some(d) && old(self).flattened_export_data matches Some(
                f,
            ) && f.deep_view() == spec_flatten(d.deep_view()),
        ensures
            final(self).viewable_entries.deep_view() == spec_project(
                spec_flatten(old(self).export_data->Some_0.deep_view()),
                old(self).export_options.excl(),
            ),
            final(self).current_selection as int == spec_clamp(
                old(self).current_selection as int,
                final(self).viewable_entries@.len() as int,
            ),
            final(self).export_data == old(self).export_data,
            final(self).flattened_export_data == old(self).flattened_export_data,
            final(self).error == old(self).error,
            final(self).loading_indicator_count == old(self).loading_indicator_count,
            final(self).export_path_input == old(self).export_path_input,
            final(self).export_options == old(self).export_options,
    {
        match &self.flattened_export_data {
            Some(f) => {
                let visible = project(f, &self.export_options);
                self.viewable_entries = visible;
            },
            None => {
                proof {
                    assert(false);
                }
            },
        }
        self.current_selection = clamp_cursor(self.current_selection, self.viewable_entries.len());
    }

    /// Step the cursor down by one, clamped to the last visible entry.
    pub fn move_down(&mut self)
        requires
            old(self).viewable_entries@.len() == 0 ==> old(self).current_selection == 0,
            old(self).viewable_entries@.len() > 0 ==> old(self).current_selection < old(
                self,
            ).viewable_entries@.len(),
        ensures
            *final(self) == with_cursor(
                *old(self),
                if old(self).current_selection + 1 < old(self).viewable_entries@.len() {
                    (old(self).current_selection + 1) as usize
                } else {
                    old(self).current_selection
                },
            ),
    {
        let len = self.viewable_entries.len();
        if len > 0 && self.current_selection < len - 1 {
            self.current_selection = self.current_selection + 1;
        }
    }

    /// Step the cursor up by one, stopping at the top.
    pub fn move_up(&mut self)
        ensures
            *final(self) == with_cursor(
                *old(self),
                if old(self).current_selection > 0 {
                    (old(self).current_selection - 1) as usize
                } else {
                    0usize
                },
            ),
    {
        if self.current_selection > 0 {
            self.current_selection = self.current_selection - 1;
        }
    }

    /// Advance the loading indicator one phase around its cycle.
    pub fn bump_loading_indicator(&mut self)
        requires
            old(self).loading_indicator_count <= 5,
        ensures
            *final(self) == with_loading(
                *old(self),
                spec_bump(old(self).loading_indicator_count),
            ),
    {
        if self.loading_indicator_count == 5 {
            self.loading_indicator_count = 1;
        } else if self.loading_indicator_count > 0 {
            self.loading_indicator_count = self.loading_indicator_count + 1;
        }
    }

    /// Record that writing the export file failed, staying interactive so
    /// the path can be corrected and the save retried.
    pub fn record_save_error(&mut self, message: String)
        requires
            old(self).inv(),
        ensures
            final(self).inv(),
            *final(self) == with_error(*old(self), OPError::SaveError(message)),
    {
        self.error = Some(OPError::SaveError(message));
    }

    /// Process one key press, as [`key_transition`] says.
    pub fn process_key_event(&mut self, key: Key) -> (cmd: Option<Command>)
        requires
            old(self).inv(),
        ensures
            final(self).inv(),
            key_transition(*old(self), *final(self), key, cmd),
    {
        match key {
            Key::Esc => {
                return Some(Command::Quit);
            },
            _ => {},
        }
        if self.export_data.is_none() {
            return None;
        }
        match key {
            Key::Enter => {
                if self.export_path_input.chars.len() > 0 {
                    Some(Command::Save)
                } else {
                    None
                }
            },
            Key::Up => {
                self.move_up();
                None
            },
            Key::Down => {
                self.move_down();
                None
            },
            Key::Char(c) => {
                if c == ' ' {
                    self.process_current_entry();
                    self.cache_viewable_entries();
                    None
                } else {
                    self.export_path_input.insert_char(c);
                    let buf = self.export_path_input.buffer();
                    self.export_options.set_output_file(buf);
                    None
                }
            },
            Key::Backspace => {
                self.export_path_input.backspace();
                let buf = self.export_path_input.buffer();
                self.export_options.set_output_file(buf);
                None
            },
            Key::Left => {
                self.export_path_input.move_left();
                let buf = self.export_path_input.buffer();
                self.export_options.set_output_file(buf);
                None
            },
            Key::Right => {
                self.export_path_input.move_right();
                let buf = self.export_path_input.buffer();
                self.export_options.set_output_file(buf);
                None
            },
            Key::Esc => None,
        }
    }

    /// Integrate one message, as [`update_transition`] says.
    pub fn update(&mut self, msg: Message) -> (cmd: Option<Command>)
        requires
            old(self).inv(),
        ensures
            final(self).inv(),
            update_transition(*old(self), *final(self), msg, cmd),
    {
        match msg {
            Message::Loaded(export_data) => {
                self.cache_export_data(export_data);
                self.cache_viewable_entries();
                self.loading_indicator_count = 0;
                None
            },
            Message::LoadFailed(error) => {
                self.error = Some(error);
                self.loading_indicator_count = 0;
                None
            },
            Message::Tick => {
                if self.loading_indicator_count > 0 {
                    self.bump_loading_indicator();
                    Some(Command::ScheduleTick)
                } else {
                    None
                }
            },
            Message::Key(key) => self.process_key_event(key),
        }
    }
}

} // verus!
