//! The export tree: accounts that own vaults that own items, together with
//! the flatten/reconstruct codec that turns the tree into an ordered list of
//! tagged entries and back.
//!
//! Contracts are stated over a ghost mirror of the tree (the `*V` types),
//! reached through [`DeepView`]: strings become `Seq<char>`, vectors become
//! `Seq` of the mirrored elements.
use vstd::prelude::*;

use crate::format::cli;

verus! {

// ---------------------------------------------------------------------------
// Ghost mirror of the tree
// ---------------------------------------------------------------------------
/// Ghost mirror of [`AccountAttributes`].
#[verifier::ext_equal]
pub struct AccountAttributesV {
    pub name: Seq<char>,
    pub email: Seq<char>,
    pub uuid: Seq<char>,
    pub domain: Seq<char>,
}

/// Ghost mirror of [`Account`].
#[verifier::ext_equal]
pub struct AccountV {
    pub attrs: AccountAttributesV,
    pub vaults: Seq<VaultV>,
}

/// Ghost mirror of [`VaultAttributes`].
#[verifier::ext_equal]
pub struct VaultAttributesV {
    pub uuid: Seq<char>,
    pub name: Seq<char>,
    pub type_: Seq<char>,
}

/// Ghost mirror of [`Vault`].
#[verifier::ext_equal]
pub struct VaultV {
    pub attrs: VaultAttributesV,
    pub items: Seq<ItemV>,
}

/// Ghost mirror of [`Item`].
#[verifier::ext_equal]
pub struct ItemV {
    pub uuid: Seq<char>,
    pub created_at: Seq<char>,
    pub updated_at: Seq<char>,
    pub category_uuid: Seq<char>,
    pub overview: OverviewV,
    pub details: ItemDetailsV,
}

/// Ghost mirror of [`Overview`].
#[verifier::ext_equal]
pub struct OverviewV {
    pub title: Seq<char>,
    pub url: Option<Seq<char>>,
    pub urls: Seq<URLV>,
    pub tags: Seq<Seq<char>>,
}

/// Ghost mirror of [`URL`].
#[verifier::ext_equal]
pub struct URLV {
    pub url: Seq<char>,
}

/// Ghost mirror of [`ItemDetails`].
#[verifier::ext_equal]
pub struct ItemDetailsV {
    pub login_fields: Seq<LoginFieldV>,
}

/// Ghost mirror of [`LoginField`].
#[verifier::ext_equal]
pub struct LoginFieldV {
    pub value: Option<Seq<char>>,
    pub name: Option<Seq<char>>,
    pub type_: Seq<char>,
    pub designation: Option<Seq<char>>,
}

/// Ghost mirror of [`ExportData`].
#[verifier::ext_equal]
pub struct ExportDataV {
    pub accounts: Seq<AccountV>,
}

/// Ghost mirror of [`ExportDataEntry`].
#[verifier::ext_equal]
pub enum EntryV {
    Account(AccountV),
    Vault(VaultV),
    Item(ItemV),
}

// ---------------------------------------------------------------------------
// The tree itself
// ---------------------------------------------------------------------------
/// Identifying attributes of an account.
#[derive(PartialEq, Eq)]
pub struct AccountAttributes {
    pub name: String,
    pub email: String,
    pub uuid: String,
    pub domain: String,
}

/// An account and the vaults it owns, in order.
#[derive(PartialEq, Eq)]
pub struct Account {
    pub attrs: AccountAttributes,
    pub vaults: Vec<Vault>,
}

/// Identifying attributes of a vault.
#[derive(PartialEq, Eq)]
pub struct VaultAttributes {
    pub uuid: String,
    pub name: String,
    pub type_: String,
}

/// A vault and the items it owns, in order.
#[derive(PartialEq, Eq)]
pub struct Vault {
    pub attrs: VaultAttributes,
    pub items: Vec<Item>,
}

/// A stored item.
#[derive(PartialEq, Eq)]
pub struct Item {
    pub uuid: String,
    pub created_at: String,
    pub updated_at: String,
    pub category_uuid: String,
    pub overview: Overview,
    pub details: ItemDetails,
}

/// Descriptive front matter of an item.
#[derive(PartialEq, Eq)]
pub struct Overview {
    pub title: String,
    pub url: Option<String>,
    pub urls: Vec<URL>,
    pub tags: Vec<String>,
}

/// A url of an item's overview.
#[derive(PartialEq, Eq)]
pub struct URL {
    pub url: String,
}

/// The detail block of an item.
#[derive(PartialEq, Eq)]
pub struct ItemDetails {
    pub login_fields: Vec<LoginField>,
}

/// One login field of an item's details.
#[derive(PartialEq, Eq)]
pub struct LoginField {
    pub value: Option<String>,
    pub name: Option<String>,
    pub type_: String,
    pub designation: Option<String>,
}

/// A generic titled field.
#[derive(PartialEq, Eq)]
pub struct Field {
    pub title: String,
    pub id: String,
    pub value: String,
}

/// A password a stored item held earlier.
#[derive(PartialEq, Eq)]
pub struct PreviousPassword {
    pub value: String,
    pub time: u32,
}

/// The whole export tree: every account, in order.
#[derive(PartialEq, Eq)]
pub struct ExportData {
    pub accounts: Vec<Account>,
}

/// One node of the tree, tagged by kind: the unit of navigation, exclusion
/// and flattening. It owns a full copy of the node it stands for.
#[derive(PartialEq, Eq)]
pub enum ExportDataEntry {
    Account(Account),
    Vault(Vault),
    Item(Item),
}

// ---------------------------------------------------------------------------
// DeepView: from the tree to its ghost mirror
// ---------------------------------------------------------------------------
impl DeepView for AccountAttributes {
    type V = AccountAttributesV;

    open spec fn deep_view(&self) -> AccountAttributesV {
        AccountAttributesV {
            name: self.name@,
            email: self.email@,
            uuid: self.uuid@,
            domain: self.domain@,
        }
    }
}

impl DeepView for Account {
    type V = AccountV;

    open spec fn deep_view(&self) -> AccountV {
        AccountV { attrs: self.attrs.deep_view(), vaults: self.vaults.deep_view() }
    }
}

impl DeepView for VaultAttributes {
    type V = VaultAttributesV;

    open spec fn deep_view(&self) -> VaultAttributesV {
        VaultAttributesV { uuid: self.uuid@, name: self.name@, type_: self.type_@ }
    }
}

impl DeepView for Vault {
    type V = VaultV;

    open spec fn deep_view(&self) -> VaultV {
        VaultV { attrs: self.attrs.deep_view(), items: self.items.deep_view() }
    }
}

impl DeepView for Item {
    type V = ItemV;

    open spec fn deep_view(&self) -> ItemV {
        ItemV {
            uuid: self.uuid@,
            created_at: self.created_at@,
            updated_at: self.updated_at@,
            category_uuid: self.category_uuid@,
            overview: self.overview.deep_view(),
            details: self.details.deep_view(),
        }
    }
}

impl DeepView for Overview {
    type V = OverviewV;

    open spec fn deep_view(&self) -> OverviewV {
        OverviewV {
            title: self.title@,
            url: self.url.deep_view(),
            urls: self.urls.deep_view(),
            tags: self.tags.deep_view(),
        }
    }
}

impl DeepView for URL {
    type V = URLV;

    open spec fn deep_view(&self) -> URLV {
        URLV { url: self.url@ }
    }
}

impl DeepView for ItemDetails {
    type V = ItemDetailsV;

    open spec fn deep_view(&self) -> ItemDetailsV {
        ItemDetailsV { login_fields: self.login_fields.deep_view() }
    }
}

impl DeepView for LoginField {
    type V = LoginFieldV;

    open spec fn deep_view(&self) -> LoginFieldV {
        LoginFieldV {
            value: self.value.deep_view(),
            name: self.name.deep_view(),
            type_: self.type_@,
            designation: self.designation.deep_view(),
        }
    }
}

impl DeepView for ExportData {
    type V = ExportDataV;

    open spec fn deep_view(&self) -> ExportDataV {
        ExportDataV { accounts: self.accounts.deep_view() }
    }
}

impl DeepView for ExportDataEntry {
    type V = EntryV;

    open spec fn deep_view(&self) -> EntryV {
        match self {
            ExportDataEntry::Account(a) => EntryV::Account(a.deep_view()),
            ExportDataEntry::Vault(v) => EntryV::Vault(v.deep_view()),
            ExportDataEntry::Item(i) => EntryV::Item(i.deep_view()),
        }
    }
}

// ---------------------------------------------------------------------------
// Cloning that provably preserves the mirrored value
// ---------------------------------------------------------------------------
/// Clone an optional string; the copy holds the very same value.
fn clone_opt_string(o: &Option<String>) -> (r: Option<String>)
    ensures
        r == *o,
{
    match o {
        Some(s) => Some(s.clone()),
        None => None,
    }
}

impl Clone for AccountAttributes {
    fn clone(&self) -> (res: Self)
        ensures
            res == *self,
    {
        AccountAttributes {
            name: self.name.clone(),
            email: self.email.clone(),
            uuid: self.uuid.clone(),
            domain: self.domain.clone(),
        }
    }
}

impl Clone for VaultAttributes {
    fn clone(&self) -> (res: Self)
        ensures
            res == *self,
    {
        VaultAttributes {
            uuid: self.uuid.clone(),
            name: self.name.clone(),
            type_: self.type_.clone(),
        }
    }
}

impl Clone for URL {
    fn clone(&self) -> (res: Self)
        ensures
            res == *self,
    {
        URL { url: self.url.clone() }
    }
}

impl Clone for LoginField {
    fn clone(&self) -> (res: Self)
        ensures
            res == *self,
    {
        LoginField {
            value: clone_opt_string(&self.value),
            name: clone_opt_string(&self.name),
            type_: self.type_.clone(),
            designation: clone_opt_string(&self.designation),
        }
    }
}

impl Clone for Overview {
    fn clone(&self) -> (res: Self)
        ensures
            res.deep_view() == self.deep_view(),
    {
        let urls = self.urls.clone();
        let tags = self.tags.clone();
        proof {
            assert(urls.deep_view() =~= self.urls.deep_view());
            assert(tags.deep_view() =~= self.tags.deep_view());
        }
        Overview {
            title: self.title.clone(),
            url: clone_opt_string(&self.url),
            urls,
            tags,
        }
    }
}

impl Clone for ItemDetails {
    fn clone(&self) -> (res: Self)
        ensures
            res.deep_view() == self.deep_view(),
    {
        let login_fields = self.login_fields.clone();
        proof {
            assert(login_fields.deep_view() =~= self.login_fields.deep_view());
        }
        ItemDetails { login_fields }
    }
}

impl Clone for Item {
    fn clone(&self) -> (res: Self)
        ensures
            res.deep_view() == self.deep_view(),
    {
        Item {
            uuid: self.uuid.clone(),
            created_at: self.created_at.clone(),
            updated_at: self.updated_at.clone(),
            category_uuid: self.category_uuid.clone(),
            overview: self.overview.clone(),
            details: self.details.clone(),
        }
    }
}

impl Clone for Vault {
    fn clone(&self) -> (res: Self)
        ensures
            res.deep_view() == self.deep_view(),
    {
        let items = self.items.clone();
        proof {
            assert(items.deep_view() =~= self.items.deep_view());
        }
        Vault { attrs: self.attrs.clone(), items }
    }
}

impl Clone for Account {
    fn clone(&self) -> (res: Self)
        ensures
            res.deep_view() == self.deep_view(),
    {
        let vaults = self.vaults.clone();
        proof {
            assert(vaults.deep_view() =~= self.vaults.deep_view());
        }
        Account { attrs: self.attrs.clone(), vaults }
    }
}

impl Clone for ExportData {
    fn clone(&self) -> (res: Self)
        ensures
            res.deep_view() == self.deep_view(),
    {
        let accounts = self.accounts.clone();
        proof {
            assert(accounts.deep_view() =~= self.accounts.deep_view());
        }
        ExportData { accounts }
    }
}

impl Clone for ExportDataEntry {
    fn clone(&self) -> (res: Self)
        ensures
            res.deep_view() == self.deep_view(),
    {
        match self {
            ExportDataEntry::Account(a) => ExportDataEntry::Account(a.clone()),
            ExportDataEntry::Vault(v) => ExportDataEntry::Vault(v.clone()),
            ExportDataEntry::Item(i) => ExportDataEntry::Item(i.clone()),
        }
    }
}


// ---------------------------------------------------------------------------
// Flattening: the tree as an ordered entry sequence
// ---------------------------------------------------------------------------
/// Entries of a vault's items, in order.
pub open spec fn spec_flatten_items(items: Seq<ItemV>) -> Seq<EntryV>
    decreases items.len(),
{
    if items.len() == 0 {
        Seq::empty()
    } else {
        spec_flatten_items(items.drop_last()).push(EntryV::Item(items.last()))
    }
}

/// A vault's entry followed by the entries of its items.
pub open spec fn spec_flatten_vault(v: VaultV) -> Seq<EntryV> {
    seq![EntryV::Vault(v)] + spec_flatten_items(v.items)
}

/// The flattened vaults of one account, in order.
pub open spec fn spec_flatten_vaults(vaults: Seq<VaultV>) -> Seq<EntryV>
    decreases vaults.len(),
{
    if vaults.len() == 0 {
        Seq::empty()
    } else {
        spec_flatten_vaults(vaults.drop_last()) + spec_flatten_vault(vaults.last())
    }
}

/// An account's entry followed by its flattened vaults.
pub open spec fn spec_flatten_account(a: AccountV) -> Seq<EntryV> {
    seq![EntryV::Account(a)] + spec_flatten_vaults(a.vaults)
}

/// The flattened accounts, in order: the preorder walk of the whole tree.
pub open spec fn spec_flatten_accounts(accounts: Seq<AccountV>) -> Seq<EntryV>
    decreases accounts.len(),
{
    if accounts.len() == 0 {
        Seq::empty()
    } else {
        spec_flatten_accounts(accounts.drop_last()) + spec_flatten_account(accounts.last())
    }
}

/// The deterministic preorder serialization of the tree: each account,
/// then its vaults in order, each vault followed by its items in order.
/// Exclusion state plays no part here.
pub open spec fn spec_flatten(d: ExportDataV) -> Seq<EntryV> {
    spec_flatten_accounts(d.accounts)
}

impl ExportData {
    /// Flatten the tree into the ordered entry list used for navigation,
    /// exclusion lookup and export filtering. No entry is omitted.
    pub fn flatten(&self) -> (entries: Vec<ExportDataEntry>)
        ensures
            entries.deep_view() == spec_flatten(self.deep_view()),
    {
        let mut entries: Vec<ExportDataEntry> = Vec::new();
        let mut a: usize = 0;
        proof {
            assert(entries.deep_view() =~= spec_flatten_accounts(
                self.accounts.deep_view().take(0),
            ));
        }
        while a < self.accounts.len()
            invariant
                a <= self.accounts.len(),
                entries.deep_view() == spec_flatten_accounts(
                    self.accounts.deep_view().take(a as int),
                ),
            decreases self.accounts.len() - a,
        {
            let ghost entries0 = entries.deep_view();
            let account = &self.accounts[a];
            let ghost av = self.accounts.deep_view()[a as int];
            entries.push(ExportDataEntry::Account(account.clone()));
            proof {
                assert(entries.deep_view() =~= entries0 + seq![EntryV::Account(av)]);
            }
            let mut v: usize = 0;
            proof {
                assert(spec_flatten_vaults(av.vaults.take(0)) =~= Seq::<EntryV>::empty());
                assert(entries.deep_view() =~= entries0 + seq![EntryV::Account(av)]
                    + spec_flatten_vaults(av.vaults.take(0)));
            }
            while v < account.vaults.len()
                invariant
                    v <= account.vaults.len(),
                    account == &self.accounts@[a as int],
                    av == self.accounts.deep_view()[a as int],
                    a < self.accounts@.len(),
                    av.vaults == account.vaults.deep_view(),
                    entries.deep_view() == entries0 + seq![EntryV::Account(av)]
                        + spec_flatten_vaults(av.vaults.take(v as int)),
                decreases account.vaults.len() - v,
            {
                let ghost base = entries0 + seq![EntryV::Account(av)]
                    + spec_flatten_vaults(av.vaults.take(v as int));
                let vault = &account.vaults[v];
                let ghost vv = av.vaults[v as int];
                entries.push(ExportDataEntry::Vault(vault.clone()));
                proof {
                    assert(entries.deep_view() =~= base + seq![EntryV::Vault(vv)]);
                }
                let mut it: usize = 0;
                proof {
                    assert(spec_flatten_items(vv.items.take(0)) =~= Seq::<EntryV>::empty());
                    assert(entries.deep_view() =~= base + seq![EntryV::Vault(vv)]
                        + spec_flatten_items(vv.items.take(0)));
                }
                while it < vault.items.len()
                    invariant
                        it <= vault.items.len(),
                        vault == &self.accounts@[a as int].vaults@[v as int],
                        a < self.accounts@.len(),
                        v < self.accounts@[a as int].vaults@.len(),
                        vv.items == vault.items.deep_view(),
                        entries.deep_view() == base + seq![EntryV::Vault(vv)]
                            + spec_flatten_items(vv.items.take(it as int)),
                    decreases vault.items.len() - it,
                {
                    let item = &vault.items[it];
                    entries.push(ExportDataEntry::Item(item.clone()));
                    proof {
                        let pre = vv.items.take(it as int);
                        let post = vv.items.take(it as int + 1);
                        assert(post.drop_last() =~= pre);
                        assert(post.last() == vv.items[it as int]);
                        assert(spec_flatten_items(post) == spec_flatten_items(pre).push(
                            EntryV::Item(vv.items[it as int]),
                        ));
                        assert(item.deep_view() == vv.items[it as int]);
                        assert(entries.deep_view() =~= (base + seq![EntryV::Vault(vv)]
                            + spec_flatten_items(pre)).push(EntryV::Item(vv.items[it as int])));
                        assert(entries.deep_view() =~= base + seq![EntryV::Vault(vv)]
                            + spec_flatten_items(post));
                    }
                    it += 1;
                }
                proof {
                    assert(vv.items.take(vv.items.len() as int) =~= vv.items);
                    let prev = av.vaults.take(v as int);
                    let nowv = av.vaults.take(v as int + 1);
                    assert(nowv.drop_last() =~= prev);
                    assert(nowv.last() == vv);
                    assert(spec_flatten_vaults(nowv) == spec_flatten_vaults(prev)
                        + spec_flatten_vault(vv));
                    assert(entries.deep_view() =~= entries0 + seq![EntryV::Account(av)]
                        + spec_flatten_vaults(nowv));
                }
                v += 1;
            }
            proof {
                assert(av.vaults.take(av.vaults.len() as int) =~= av.vaults);
                let preva = self.accounts.deep_view().take(a as int);
                let nowa = self.accounts.deep_view().take(a as int + 1);
                assert(nowa.drop_last() =~= preva);
                assert(nowa.last() == av);
                assert(spec_flatten_account(av) =~= seq![EntryV::Account(av)]
                    + spec_flatten_vaults(av.vaults));
                assert(entries.deep_view() =~= spec_flatten_accounts(nowa));
            }
            a += 1;
        }
        proof {
            assert(self.accounts.deep_view().take(self.accounts@.len() as int)
                =~= self.accounts.deep_view());
        }
        entries
    }
}

// ---------------------------------------------------------------------------
// Reconstruction: from an entry sequence back to a tree
// ---------------------------------------------------------------------------
/// State of the single reconstruction scan: the accounts already closed,
/// and the account currently being rebuilt, if any.
#[verifier::ext_equal]
pub struct RebuildV {
    pub done: Seq<AccountV>,
    pub cur: Option<AccountV>,
}

/// The scan's starting state: nothing rebuilt yet.
pub open spec fn rebuild_init() -> RebuildV {
    RebuildV { done: Seq::empty(), cur: None }
}

/// Close the account under construction, if any.
pub open spec fn rebuild_flush(st: RebuildV) -> Seq<AccountV> {
    match st.cur {
        Some(a) => st.done.push(a),
        None => st.done,
    }
}

/// One step of the scan. An Account entry closes the prior account and opens
/// a fresh one carrying the entry's attributes alone; a Vault entry appends
/// an empty vault to the current account; an Item entry appends to the
/// current account's most recent vault. A Vault or Item entry whose parent
/// is absent from the sequence is dropped.
pub open spec fn rebuild_step(st: RebuildV, e: EntryV) -> RebuildV {
    match e {
        EntryV::Account(a) => RebuildV {
            done: rebuild_flush(st),
            cur: Some(AccountV { attrs: a.attrs, vaults: Seq::empty() }),
        },
        EntryV::Vault(v) => match st.cur {
            Some(acc) => RebuildV {
                done: st.done,
                cur: Some(
                    AccountV {
                        attrs: acc.attrs,
                        vaults: acc.vaults.push(VaultV { attrs: v.attrs, items: Seq::empty() }),
                    },
                ),
            },
            None => st,
        },
        EntryV::Item(i) => match st.cur {
            Some(acc) => {
                if acc.vaults.len() > 0 {
                    let lv = acc.vaults.last();
                    RebuildV {
                        done: st.done,
                        cur: Some(
                            AccountV {
                                attrs: acc.attrs,
                                vaults: acc.vaults.update(
                                    acc.vaults.len() - 1,
                                    VaultV { attrs: lv.attrs, items: lv.items.push(i) },
                                ),
                            },
                        ),
                    }
                } else {
                    st
                }
            },
            None => st,
        },
    }
}

/// Run the scan over a whole entry sequence.
pub open spec fn rebuild_from(st: RebuildV, entries: Seq<EntryV>) -> RebuildV
    decreases entries.len(),
{
    if entries.len() == 0 {
        st
    } else {
        rebuild_step(rebuild_from(st, entries.drop_last()), entries.last())
    }
}

/// The tree that reconstructing an entry sequence yields: every entry is
/// attached to the parent most recently opened before it, and entries whose
/// parent never appeared are dropped.
pub open spec fn spec_unflatten(entries: Seq<EntryV>) -> ExportDataV {
    ExportDataV { accounts: rebuild_flush(rebuild_from(rebuild_init(), entries)) }
}

/// Reconstruct a tree from an ordered entry sequence: the inverse of
/// [`ExportData::flatten`] on unfiltered sequences. The scan keeps one
/// current account and appends each Vault entry to it and each Item entry
/// to its most recent vault, so it assumes every entry follows the entry of
/// its parent, possibly after siblings; an entry whose parent was removed
/// from the sequence is attached to the parent that most recently preceded
/// it, or dropped when none did.
pub fn unflatten(entries: Vec<ExportDataEntry>) -> (r: ExportData)
    ensures
        r.deep_view() == spec_unflatten(entries.deep_view()),
{
    let mut done: Vec<Account> = Vec::new();
    let mut cur_attrs: Option<AccountAttributes> = None;
    let mut cur_vaults: Vec<Vault> = Vec::new();
    let mut cur_vault_attrs: Option<VaultAttributes> = None;
    let mut cur_items: Vec<Item> = Vec::new();
    let mut i: usize = 0;
    proof {
        assert(entries.deep_view().take(0) =~= Seq::<EntryV>::empty());
    }
    while i < entries.len()
        invariant
            i <= entries.len(),
            cur_attrs is None ==> cur_vault_attrs is None && cur_vaults@.len() == 0,
            cur_vault_attrs is None ==> cur_items@.len() == 0 && cur_vaults@.len() == 0,
            rebuild_from(rebuild_init(), entries.deep_view().take(i as int)) == (RebuildV {
                done: done.deep_view(),
                cur: rebuild_cur(cur_attrs, cur_vaults.deep_view(), cur_vault_attrs,
                    cur_items.deep_view()),
            }),
        decreases entries.len() - i,
    {
        let ghost st0 = rebuild_from(rebuild_init(), entries.deep_view().take(i as int));
        proof {
            let post = entries.deep_view().take(i as int + 1);
            assert(post.drop_last() =~= entries.deep_view().take(i as int));
            assert(post.last() == entries.deep_view()[i as int]);
        }
        let ghost old_done = done.deep_view();
        let ghost old_ca = cur_attrs;
        let ghost old_cva = cur_vault_attrs;
        let ghost old_vaults = cur_vaults.deep_view();
        let ghost old_items = cur_items.deep_view();
        proof {
            assert(st0.done == old_done);
            assert(st0.cur == rebuild_cur(old_ca, old_vaults, old_cva, old_items));
        }
        match &entries[i] {
            ExportDataEntry::Account(a) => {
                let cva = cur_vault_attrs;
                cur_vault_attrs = None;
                let ci = cur_items;
                cur_items = Vec::new();
                match cva {
                    Some(va) => {
                        cur_vaults.push(Vault { attrs: va, items: ci });
                    },
                    None => {},
                }
                proof {
                    assert(cur_vaults.deep_view() =~= (match old_cva {
                        Some(va) => old_vaults.push(
                            VaultV { attrs: va.deep_view(), items: old_items },
                        ),
                        None => old_vaults,
                    }));
                }
                let ca = cur_attrs;
                let cv = cur_vaults;
                cur_vaults = Vec::new();
                match ca {
                    Some(aa) => {
                        done.push(Account { attrs: aa, vaults: cv });
                    },
                    None => {},
                }
                cur_attrs = Some(a.attrs.clone());
                proof {
                    if old_ca is Some {
                        assert(st0.cur matches Some(sc) && sc =~= AccountV {
                            attrs: old_ca->Some_0.deep_view(),
                            vaults: (match old_cva {
                                Some(va) => old_vaults.push(
                                    VaultV { attrs: va.deep_view(), items: old_items },
                                ),
                                None => old_vaults,
                            }),
                        });
                        assert(done.deep_view() =~= rebuild_flush(st0));
                    } else {
                        assert(st0.cur is None);
                        assert(done.deep_view() =~= rebuild_flush(st0));
                    }
                    assert(cur_vaults.deep_view() =~= Seq::<VaultV>::empty());
                    assert(cur_items.deep_view() =~= Seq::<ItemV>::empty());
                    assert(rebuild_cur(cur_attrs, cur_vaults.deep_view(), cur_vault_attrs,
                        cur_items.deep_view()) matches Some(acc) && acc =~= AccountV {
                        attrs: a.deep_view().attrs,
                        vaults: Seq::empty(),
                    });
                }
            },
            ExportDataEntry::Vault(v) => {
                if cur_attrs.is_some() {
                    let cva = cur_vault_attrs;
                    let ci = cur_items;
                    cur_items = Vec::new();
                    match cva {
                        Some(va) => {
                            cur_vaults.push(Vault { attrs: va, items: ci });
                        },
                        None => {},
                    }
                    cur_vault_attrs = Some(v.attrs.clone());
                    proof {
                        assert(cur_vaults.deep_view() =~= (match old_cva {
                            Some(va) => old_vaults.push(
                                VaultV { attrs: va.deep_view(), items: old_items },
                            ),
                            None => old_vaults,
                        }));
                        assert(cur_items.deep_view() =~= Seq::<ItemV>::empty());
                        let stepped = rebuild_step(st0, entries.deep_view()[i as int]);
                        assert(stepped.done == done.deep_view());
                        let newcur = rebuild_cur(cur_attrs, cur_vaults.deep_view(),
                            cur_vault_attrs, cur_items.deep_view());
                        assert(st0.cur matches Some(oc) && stepped.cur matches Some(sc)
                            && sc.vaults == oc.vaults.push(
                            VaultV { attrs: v.deep_view().attrs, items: Seq::empty() },
                        ));
                        assert(newcur matches Some(nc) && stepped.cur matches Some(sc)
                            && nc.vaults =~= sc.vaults && nc =~= sc);
                    }
                }
            },
            ExportDataEntry::Item(item) => {
                if cur_attrs.is_some() && cur_vault_attrs.is_some() {
                    cur_items.push(item.clone());
                    proof {
                        assert(cur_items.deep_view() =~= old_items.push(item.deep_view()));
                        assert(entries.deep_view()[i as int] == EntryV::Item(item.deep_view()));
                        let stepped = rebuild_step(st0, entries.deep_view()[i as int]);
                        assert(stepped.done == done.deep_view());
                        let newcur = rebuild_cur(cur_attrs, cur_vaults.deep_view(),
                            cur_vault_attrs, cur_items.deep_view());
                        let lvv = VaultV {
                            attrs: old_cva->Some_0.deep_view(),
                            items: old_items,
                        };
                        assert(st0.cur matches Some(oc) && oc.vaults.len() > 0
                            && oc.vaults =~= old_vaults.push(lvv)
                            && oc.vaults.last() == lvv);
                        assert(stepped.cur matches Some(sc) && sc.vaults =~= old_vaults.push(
                            VaultV { attrs: lvv.attrs, items: old_items.push(item.deep_view()) },
                        ));
                        assert(newcur matches Some(nc) && nc.vaults =~= old_vaults.push(
                            VaultV { attrs: lvv.attrs, items: old_items.push(item.deep_view()) },
                        ));
                        assert(newcur matches Some(nc) && stepped.cur matches Some(sc)
                            && nc.vaults =~= sc.vaults && nc =~= sc);
                    }
                }
            },
        }
        i += 1;
    }
    proof {
        assert(entries.deep_view().take(entries@.len() as int) =~= entries.deep_view());
    }
    let ghost fin = rebuild_from(rebuild_init(), entries.deep_view());
    let ghost old_done = done.deep_view();
    let ghost old_ca = cur_attrs;
    let ghost old_cva = cur_vault_attrs;
    let ghost old_vaults = cur_vaults.deep_view();
    let ghost old_items = cur_items.deep_view();
    let cva = cur_vault_attrs;
    let ci = cur_items;
    match cva {
        Some(va) => {
            cur_vaults.push(Vault { attrs: va, items: ci });
        },
        None => {},
    }
    proof {
        assert(cur_vaults.deep_view() =~= (match old_cva {
            Some(va) => old_vaults.push(VaultV { attrs: va.deep_view(), items: old_items }),
            None => old_vaults,
        }));
    }
    let ca = cur_attrs;
    let cv = cur_vaults;
    match ca {
        Some(aa) => {
            done.push(Account { attrs: aa, vaults: cv });
        },
        None => {},
    }
    proof {
        assert(fin.done == old_done);
        assert(fin.cur == rebuild_cur(old_ca, old_vaults, old_cva, old_items));
        if old_ca is Some {
            assert(fin.cur matches Some(sc) && sc =~= AccountV {
                attrs: old_ca->Some_0.deep_view(),
                vaults: (match old_cva {
                    Some(va) => old_vaults.push(
                        VaultV { attrs: va.deep_view(), items: old_items },
                    ),
                    None => old_vaults,
                }),
            });
        }
        assert(done.deep_view() =~= rebuild_flush(fin));
    }
    ExportData { accounts: done }
}

/// The account under construction, assembled from the scan's working pieces:
/// its attributes, the vaults already closed, and the still-open vault.
pub open spec fn rebuild_cur(
    attrs: Option<AccountAttributes>,
    vaults: Seq<VaultV>,
    vault_attrs: Option<VaultAttributes>,
    items: Seq<ItemV>,
) -> Option<AccountV> {
    match attrs {
        None => None,
        Some(aa) => Some(
            AccountV {
                attrs: aa.deep_view(),
                vaults: match vault_attrs {
                    Some(va) => vaults.push(VaultV { attrs: va.deep_view(), items }),
                    None => vaults,
                },
            },
        ),
    }
}


// ---------------------------------------------------------------------------
// The round-trip law: reconstructing a flattened tree gives the tree back
// ---------------------------------------------------------------------------
/// Processing a concatenation is processing the parts in turn.
proof fn lemma_rebuild_concat(st: RebuildV, s1: Seq<EntryV>, s2: Seq<EntryV>)
    ensures
        rebuild_from(st, s1 + s2) == rebuild_from(rebuild_from(st, s1), s2),
    decreases s2.len(),
{
    if s2.len() == 0 {
        assert(s1 + s2 =~= s1);
    } else {
        assert((s1 + s2).drop_last() =~= s1 + s2.drop_last());
        lemma_rebuild_concat(st, s1, s2.drop_last());
        assert((s1 + s2).last() == s2.last());
    }
}

/// The state after the current account's most recent vault took more items.
spec fn with_items_added(st: RebuildV, items: Seq<ItemV>) -> RebuildV {
    match st.cur {
        Some(acc) => {
            if acc.vaults.len() > 0 {
                let lv = acc.vaults.last();
                RebuildV {
                    done: st.done,
                    cur: Some(
                        AccountV {
                            attrs: acc.attrs,
                            vaults: acc.vaults.update(
                                acc.vaults.len() - 1,
                                VaultV { attrs: lv.attrs, items: lv.items + items },
                            ),
                        },
                    ),
                }
            } else {
                st
            }
        },
        None => st,
    }
}

/// Item entries all land in the current account's most recent vault.
proof fn lemma_rebuild_items(st: RebuildV, items: Seq<ItemV>)
    requires
        st.cur matches Some(acc) && acc.vaults.len() > 0,
    ensures
        rebuild_from(st, spec_flatten_items(items)) == with_items_added(st, items),
    decreases items.len(),
{
    let acc = st.cur->Some_0;
    let n = acc.vaults.len() - 1;
    let lv = acc.vaults.last();
    if items.len() == 0 {
        assert(spec_flatten_items(items) =~= Seq::<EntryV>::empty());
        assert(lv.items + items =~= lv.items);
        assert(VaultV { attrs: lv.attrs, items: lv.items + items } =~= lv);
        assert(acc.vaults.update(n, lv) =~= acc.vaults);
        assert(with_items_added(st, items) =~= st);
    } else {
        lemma_rebuild_items(st, items.drop_last());
        let st1 = with_items_added(st, items.drop_last());
        let flat = spec_flatten_items(items);
        assert(flat.drop_last() == spec_flatten_items(items.drop_last()));
        assert(flat.last() == EntryV::Item(items.last()));
        assert(rebuild_from(st, flat) == rebuild_step(st1, EntryV::Item(items.last())));
        let acc1 = st1.cur->Some_0;
        assert(acc1.vaults.len() == acc.vaults.len());
        assert(acc1.vaults.last() == (VaultV {
            attrs: lv.attrs,
            items: lv.items + items.drop_last(),
        }));
        let stepped = rebuild_step(st1, EntryV::Item(items.last()));
        assert((lv.items + items.drop_last()).push(items.last()) =~= lv.items + items);
        assert(stepped.cur matches Some(sa) && with_items_added(st, items).cur matches Some(wa)
            && sa.vaults =~= wa.vaults && sa =~= wa);
        assert(stepped =~= with_items_added(st, items));
    }
}

/// The state after the current account took a run of complete vaults.
spec fn with_vaults_added(st: RebuildV, vaults: Seq<VaultV>) -> RebuildV {
    match st.cur {
        Some(acc) => RebuildV {
            done: st.done,
            cur: Some(AccountV { attrs: acc.attrs, vaults: acc.vaults + vaults }),
        },
        None => st,
    }
}

/// Flattened vaults rebuild exactly onto the current account, in order.
proof fn lemma_rebuild_vaults(st: RebuildV, vaults: Seq<VaultV>)
    requires
        st.cur is Some,
    ensures
        rebuild_from(st, spec_flatten_vaults(vaults)) == with_vaults_added(st, vaults),
    decreases vaults.len(),
{
    let acc = st.cur->Some_0;
    if vaults.len() == 0 {
        assert(spec_flatten_vaults(vaults) =~= Seq::<EntryV>::empty());
        assert(acc.vaults + vaults =~= acc.vaults);
        assert(AccountV { attrs: acc.attrs, vaults: acc.vaults + vaults } =~= acc);
        assert(with_vaults_added(st, vaults) =~= st);
    } else {
        let dl = vaults.drop_last();
        let lastv = vaults.last();
        lemma_rebuild_vaults(st, dl);
        let st1 = with_vaults_added(st, dl);
        lemma_rebuild_concat(st, spec_flatten_vaults(dl), spec_flatten_vault(lastv));
        assert(spec_flatten_vaults(vaults) == spec_flatten_vaults(dl)
            + spec_flatten_vault(lastv));
        // one vault entry, then its items
        lemma_rebuild_concat(st1, seq![EntryV::Vault(lastv)], spec_flatten_items(lastv.items));
        assert(seq![EntryV::Vault(lastv)].drop_last() =~= Seq::<EntryV>::empty());
        assert(rebuild_from(st1, Seq::<EntryV>::empty()) == st1);
        assert(seq![EntryV::Vault(lastv)].last() == EntryV::Vault(lastv));
        let st2 = rebuild_step(st1, EntryV::Vault(lastv));
        assert(rebuild_from(st1, seq![EntryV::Vault(lastv)]) == st2);
        let acc2 = st2.cur->Some_0;
        assert(acc2.vaults.len() > 0);
        lemma_rebuild_items(st2, lastv.items);
        let st3 = with_items_added(st2, lastv.items);
        assert(rebuild_from(st, spec_flatten_vaults(vaults)) == st3);
        assert(acc2.vaults.last() == (VaultV { attrs: lastv.attrs, items: Seq::empty() }));
        let builtlast = VaultV { attrs: lastv.attrs, items: Seq::empty() + lastv.items };
        assert(builtlast =~= lastv);
        assert(st3.cur matches Some(a3) && a3.vaults =~= acc.vaults + vaults && a3 =~= (AccountV {
            attrs: acc.attrs,
            vaults: acc.vaults + vaults,
        }));
        assert(st3 =~= with_vaults_added(st, vaults));
    }
}

/// Flattened accounts rebuild to: every account but the last closed, the
/// last still current and complete.
proof fn lemma_rebuild_accounts(st: RebuildV, accounts: Seq<AccountV>)
    requires
        accounts.len() > 0,
    ensures
        rebuild_from(st, spec_flatten_accounts(accounts)) == (RebuildV {
            done: rebuild_flush(st) + accounts.drop_last(),
            cur: Some(accounts.last()),
        }),
    decreases accounts.len(),
{
    let dl = accounts.drop_last();
    let lasta = accounts.last();
    lemma_rebuild_concat(st, spec_flatten_accounts(dl), spec_flatten_account(lasta));
    assert(spec_flatten_accounts(accounts) == spec_flatten_accounts(dl)
        + spec_flatten_account(lasta));
    let st1 = rebuild_from(st, spec_flatten_accounts(dl));
    if dl.len() == 0 {
        assert(spec_flatten_accounts(dl) =~= Seq::<EntryV>::empty());
        assert(st1 == st);
        assert(rebuild_flush(st1) =~= rebuild_flush(st) + dl);
    } else {
        lemma_rebuild_accounts(st, dl);
        assert(rebuild_flush(st1) =~= rebuild_flush(st) + dl);
    }
    // the last account's own entry, then its vaults
    lemma_rebuild_concat(st1, seq![EntryV::Account(lasta)], spec_flatten_vaults(lasta.vaults));
    assert(seq![EntryV::Account(lasta)].drop_last() =~= Seq::<EntryV>::empty());
    assert(rebuild_from(st1, Seq::<EntryV>::empty()) == st1);
    assert(seq![EntryV::Account(lasta)].last() == EntryV::Account(lasta));
    let st2 = rebuild_step(st1, EntryV::Account(lasta));
    assert(rebuild_from(st1, seq![EntryV::Account(lasta)]) == st2);
    lemma_rebuild_vaults(st2, lasta.vaults);
    let st3 = with_vaults_added(st2, lasta.vaults);
    assert(st3.cur matches Some(a3) && a3.vaults =~= lasta.vaults && a3 =~= lasta);
    assert(st3 =~= (RebuildV {
        done: rebuild_flush(st) + accounts.drop_last(),
        cur: Some(accounts.last()),
    }));
}

/// The round-trip law: reconstructing the flattening of any tree gives the
/// tree back unchanged, when nothing was filtered out in between.
pub proof fn lemma_unflatten_flatten(d: ExportDataV)
    ensures
        spec_unflatten(spec_flatten(d)) == d,
{
    if d.accounts.len() == 0 {
        assert(spec_flatten_accounts(d.accounts) =~= Seq::<EntryV>::empty());
        assert(rebuild_from(rebuild_init(), spec_flatten(d)) == rebuild_init());
        assert(spec_unflatten(spec_flatten(d)).accounts =~= d.accounts);
        assert(spec_unflatten(spec_flatten(d)) =~= d);
    } else {
        lemma_rebuild_accounts(rebuild_init(), d.accounts);
        let fin = rebuild_from(rebuild_init(), spec_flatten(d));
        assert(rebuild_flush(rebuild_init()) =~= Seq::<AccountV>::empty());
        assert(fin.done =~= d.accounts.drop_last());
        assert(rebuild_flush(fin) =~= d.accounts);
        assert(spec_unflatten(spec_flatten(d)) =~= d);
    }
}


// ---------------------------------------------------------------------------
// Assembling the tree from the client's records
// ---------------------------------------------------------------------------
/// The address of the first primary url, if any.
pub open spec fn spec_primary_url(urls: Seq<cli::URL>) -> Option<Seq<char>>
    decreases urls.len(),
{
    if urls.len() == 0 {
        None
    } else if urls[0].primary {
        Some(urls[0].href@)
    } else {
        spec_primary_url(urls.skip(1))
    }
}

/// The overview urls an item's url records give.
pub open spec fn spec_urls_of(urls: Seq<cli::URL>) -> Seq<URLV> {
    Seq::new(urls.len(), |i: int| URLV { url: urls[i].href@ })
}

/// The login fields an item's field records give: value kept, label as
/// name, type kept, purpose as designation.
pub open spec fn spec_login_fields_of(fields: Seq<cli::Field>) -> Seq<LoginFieldV> {
    Seq::new(
        fields.len(),
        |i: int| LoginFieldV {
            value: fields[i].value.deep_view(),
            name: fields[i].label.deep_view(),
            type_: fields[i].type_@,
            designation: fields[i].purpose.deep_view(),
        },
    )
}

/// The item a listing line and the fetched detail record assemble to.
pub open spec fn spec_build_item(listed_item: cli::ListedItem, item: cli::Item) -> ItemV {
    let urls = match item.urls {
        Some(us) => us@,
        None => Seq::<cli::URL>::empty(),
    };
    ItemV {
        uuid: listed_item.id@,
        created_at: listed_item.created_at@,
        updated_at: listed_item.updated_at@,
        category_uuid: listed_item.category@,
        overview: OverviewV {
            title: listed_item.title@,
            url: spec_primary_url(urls),
            urls: spec_urls_of(urls),
            tags: match listed_item.tags {
                Some(t) => t.deep_view(),
                None => Seq::empty(),
            },
        },
        details: ItemDetailsV { login_fields: spec_login_fields_of(item.fields@) },
    }
}


/// The address of the first url record marked primary, if any.
fn find_primary_url(urls: &Vec<cli::URL>) -> (r: Option<String>)
    ensures
        r.deep_view() == spec_primary_url(urls@),
{
    let mut i: usize = 0;
    proof {
        assert(urls@.skip(0) =~= urls@);
    }
    while i < urls.len()
        invariant
            i <= urls.len(),
            spec_primary_url(urls@) == spec_primary_url(urls@.skip(i as int)),
        decreases urls.len() - i,
    {
        proof {
            assert(urls@.skip(i as int)[0] == urls@[i as int]);
        }
        if urls[i].primary {
            proof {
                assert(spec_primary_url(urls@.skip(i as int)) == Some(urls@[i as int].href@));
            }
            return Some(urls[i].href.clone());
        }
        proof {
            assert(urls@.skip(i as int).skip(1) =~= urls@.skip(i as int + 1));
        }
        i += 1;
    }
    proof {
        assert(urls@.skip(urls@.len() as int) =~= Seq::<cli::URL>::empty());
    }
    None
}

/// Gathers the listings the tree is assembled from. The client calls that
/// fetch them stand outside; the assembly itself is here.
#[derive(Clone)]
pub struct UXExporter {
    pub listed_vaults: Vec<cli::ListedVault>,
    pub listed_items: Vec<cli::ListedItem>,
}

impl UXExporter {
    /// An exporter with nothing listed yet.
    pub fn new() -> (r: UXExporter)
        ensures
            r.listed_vaults@.len() == 0,
            r.listed_items@.len() == 0,
    {
        UXExporter { listed_vaults: Vec::new(), listed_items: Vec::new() }
    }

    /// Whether a listed item belongs to the vault with the given id.
    pub fn item_in_vault(listed_item: &cli::ListedItem, vault_id: &String) -> (r: bool)
        ensures
            r == (listed_item.vault.id@ == vault_id@),
    {
        listed_item.vault.id == *vault_id
    }

    /// Assemble one item from its listing line and its fetched detail
    /// record: identifiers and timestamps from the listing, the overview's
    /// primary url as the first url record marked primary, every url kept in
    /// order, absent tag and url lists read as empty, and each field mapped
    /// to a login field.
    pub fn build_item(&self, listed_item: &cli::ListedItem, item: &cli::Item) -> (r: Item)
        ensures
            r.deep_view() == spec_build_item(*listed_item, *item),
    {
        let empty_urls: Vec<cli::URL> = Vec::new();
        let urls: &Vec<cli::URL> = match &item.urls {
            Some(us) => us,
            None => &empty_urls,
        };
        proof {
            assert(urls@ =~= (match item.urls {
                Some(us) => us@,
                None => Seq::<cli::URL>::empty(),
            }));
        }
        // the first url marked primary, if any
        let primary = find_primary_url(urls);
        // every url, in order
        let mut out_urls: Vec<URL> = Vec::new();
        let mut j: usize = 0;
        while j < urls.len()
            invariant
                j <= urls.len(),
                out_urls.deep_view() == spec_urls_of(urls@).take(j as int),
            decreases urls.len() - j,
        {
            let ghost before = out_urls.deep_view();
            out_urls.push(URL { url: urls[j].href.clone() });
            proof {
                assert(out_urls.deep_view() =~= before.push(URLV { url: urls@[j as int].href@ }));
                assert(out_urls.deep_view() =~= spec_urls_of(urls@).take(j as int + 1));
            }
            j += 1;
        }
        proof {
            assert(spec_urls_of(urls@).take(urls@.len() as int) =~= spec_urls_of(urls@));
        }
        // tags, an absent list read as empty
        let tags: Vec<String> = match &listed_item.tags {
            Some(t) => t.clone(),
            None => Vec::new(),
        };
        proof {
            assert(tags.deep_view() =~= (match listed_item.tags {
                Some(t) => t.deep_view(),
                None => Seq::<Seq<char>>::empty(),
            }));
        }
        // each field record, mapped to a login field
        let mut login_fields: Vec<LoginField> = Vec::new();
        let mut k: usize = 0;
        while k < item.fields.len()
            invariant
                k <= item.fields@.len(),
                login_fields.deep_view() == spec_login_fields_of(item.fields@).take(k as int),
            decreases item.fields@.len() - k,
        {
            let ghost before = login_fields.deep_view();
            let field = &item.fields[k];
            login_fields.push(
                LoginField {
                    value: clone_opt_string(&field.value),
                    name: clone_opt_string(&field.label),
                    type_: field.type_.clone(),
                    designation: clone_opt_string(&field.purpose),
                },
            );
            proof {
                assert(login_fields.deep_view() =~= before.push(
                    spec_login_fields_of(item.fields@)[k as int],
                ));
                assert(login_fields.deep_view() =~= spec_login_fields_of(item.fields@).take(
                    k as int + 1,
                ));
            }
            k += 1;
        }
        proof {
            assert(spec_login_fields_of(item.fields@).take(item.fields@.len() as int)
                =~= spec_login_fields_of(item.fields@));
        }
        let r = Item {
            uuid: listed_item.id.clone(),
            created_at: listed_item.created_at.clone(),
            updated_at: listed_item.updated_at.clone(),
            category_uuid: listed_item.category.clone(),
            overview: Overview { title: listed_item.title.clone(), url: primary, urls: out_urls, tags },
            details: ItemDetails { login_fields },
        };
        proof {
            assert(r.deep_view() =~= spec_build_item(*listed_item, *item));
        }
        r
    }

    /// Assemble one vault from its listing line, its fetched detail record,
    /// and its already assembled items: id and name from the listing, the
    /// kind tag from the detail record, the items as given.
    pub fn build_vault(&self, listed_vault: &cli::ListedVault, vault: &cli::Vault, items: Vec<
        Item,
    >) -> (r: Vault)
        ensures
            r.attrs.uuid@ == listed_vault.id@,
            r.attrs.name@ == listed_vault.name@,
            r.attrs.type_@ == vault.type_@,
            r.items == items,
    {
        Vault {
            attrs: VaultAttributes {
                uuid: listed_vault.id.clone(),
                name: listed_vault.name.clone(),
                type_: vault.type_.clone(),
            },
            items,
        }
    }

    /// Assemble one account from its listing line, its fetched detail
    /// record, and its already assembled vaults: the email from the listing,
    /// name, id and domain from the detail record, the vaults as given.
    pub fn build_account(&self, listed_account: &cli::ListedAccount, account: &cli::Account, vaults: Vec<
        Vault,
    >) -> (r: Account)
        ensures
            r.attrs.name@ == account.name@,
            r.attrs.email@ == listed_account.email@,
            r.attrs.uuid@ == account.id@,
            r.attrs.domain@ == account.domain@,
            r.vaults == vaults,
    {
        Account {
            attrs: AccountAttributes {
                name: account.name.clone(),
                email: listed_account.email.clone(),
                uuid: account.id.clone(),
                domain: account.domain.clone(),
            },
            vaults,
        }
    }
}

} // verus!
