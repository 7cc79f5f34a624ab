//! The exclusion set, the toggle, the projection and the export filter on
//! the scenario tree: one account "A", one vault "V" under it, two items
//! "I1" and "I2" under the vault.
use op_export::export::ExportOptions;
use op_export::format::ux::{
    Account, AccountAttributes, ExportData, ExportDataEntry, Item, ItemDetails, Overview, Vault,
    VaultAttributes,
};
use op_export::model::project;

fn s(x: &str) -> String {
    x.to_string()
}

fn item(id: &str) -> Item {
    Item {
        uuid: s(id),
        created_at: s("2023-01-01T00:00:00Z"),
        updated_at: s("2023-01-02T00:00:00Z"),
        category_uuid: s("001"),
        overview: Overview { title: s(id), url: None, urls: vec![], tags: vec![] },
        details: ItemDetails { login_fields: vec![] },
    }
}

fn scenario_tree() -> ExportData {
    ExportData {
        accounts: vec![Account {
            attrs: AccountAttributes {
                name: s("account"),
                email: s("user@example.com"),
                uuid: s("A"),
                domain: s("example.1password.com"),
            },
            vaults: vec![Vault {
                attrs: VaultAttributes { uuid: s("V"), name: s("vault"), type_: s("P") },
                items: vec![item("I1"), item("I2")],
            }],
        }],
    }
}

fn entry_ids(entries: &[ExportDataEntry]) -> Vec<String> {
    entries
        .iter()
        .map(|e| match e {
            ExportDataEntry::Account(a) => a.attrs.uuid.clone(),
            ExportDataEntry::Vault(v) => v.attrs.uuid.clone(),
            ExportDataEntry::Item(i) => i.uuid.clone(),
        })
        .collect()
}

fn vault_entry() -> ExportDataEntry {
    ExportDataEntry::Vault(Vault {
        attrs: VaultAttributes { uuid: s("V"), name: s("vault"), type_: s("P") },
        items: vec![],
    })
}

fn account_entry() -> ExportDataEntry {
    ExportDataEntry::Account(Account {
        attrs: AccountAttributes {
            name: s("account"),
            email: s("user@example.com"),
            uuid: s("A"),
            domain: s("example.1password.com"),
        },
        vaults: vec![],
    })
}

#[test]
fn toggle_twice_restores_membership() {
    let mut opts = ExportOptions::new();
    let e = vault_entry();
    assert!(!opts.export_data_entry_is_excluded(&e));
    opts.process_export_data_entry(&e);
    assert!(opts.export_data_entry_is_excluded(&e));
    opts.process_export_data_entry(&e);
    assert!(!opts.export_data_entry_is_excluded(&e));
}

#[test]
fn toggle_twice_restores_membership_from_excluded() {
    let mut opts = ExportOptions::new();
    let e = ExportDataEntry::Item(item("I1"));
    opts.process_export_data_entry(&e);
    assert!(opts.export_data_entry_is_excluded(&e));
    opts.process_export_data_entry(&e);
    opts.process_export_data_entry(&e);
    assert!(opts.export_data_entry_is_excluded(&e));
}

#[test]
fn exclusion_is_per_kind_and_per_id() {
    let mut opts = ExportOptions::new();
    opts.process_export_data_entry(&vault_entry());
    // the account is not excluded by the vault's id, nor an item of equal id
    assert!(!opts.export_data_entry_is_excluded(&account_entry()));
    let mut item_v = item("V");
    item_v.uuid = s("V");
    assert!(!opts.export_data_entry_is_excluded(&ExportDataEntry::Item(item_v)));
    assert!(opts.export_data_entry_is_excluded(&vault_entry()));
}

#[test]
fn exclude_vault_hides_items_from_projection() {
    // scenario: exclude "V"; project yields only the account and the vault
    let d = scenario_tree();
    let mut opts = ExportOptions::new();
    opts.process_export_data_entry(&vault_entry());
    let visible = project(&d.flatten(), &opts);
    assert_eq!(entry_ids(&visible), vec![s("A"), s("V")]);
}

#[test]
fn exclude_vault_filter_removes_only_the_vault_entry() {
    // scenario: exclude "V"; the filtered tree keeps the account, the vault
    // itself is removed, and its items have no parent left to attach to
    let d = scenario_tree();
    let mut opts = ExportOptions::new();
    opts.process_export_data_entry(&vault_entry());
    let filtered = opts.filter_export_data(d);
    assert_eq!(filtered.accounts.len(), 1);
    assert_eq!(filtered.accounts[0].attrs.uuid, s("A"));
    assert!(filtered.accounts[0].vaults.is_empty());
}

#[test]
fn exclude_account_projects_to_account_alone() {
    // scenario: exclude "A"; project yields only the account entry
    let d = scenario_tree();
    let mut opts = ExportOptions::new();
    opts.process_export_data_entry(&account_entry());
    let visible = project(&d.flatten(), &opts);
    assert_eq!(entry_ids(&visible), vec![s("A")]);
}

#[test]
fn exclude_account_filter_removes_the_whole_account() {
    // scenario: exclude "A"; its vault and items have no account entry left
    // to attach to, so the reconstructed tree holds no vaults at all
    let d = scenario_tree();
    let mut opts = ExportOptions::new();
    opts.process_export_data_entry(&account_entry());
    let filtered = opts.filter_export_data(d);
    assert!(filtered.accounts.is_empty());
}

#[test]
fn filter_keeps_entries_whose_own_id_is_not_excluded() {
    // exclude only "I1": the filter is non-cascading, so "I2" stays
    let d = scenario_tree();
    let mut opts = ExportOptions::new();
    opts.process_export_data_entry(&ExportDataEntry::Item(item("I1")));
    let filtered = opts.filter_export_data(d);
    assert_eq!(filtered.accounts.len(), 1);
    assert_eq!(filtered.accounts[0].vaults.len(), 1);
    let items = &filtered.accounts[0].vaults[0].items;
    assert_eq!(items.len(), 1);
    assert_eq!(items[0].uuid, s("I2"));
}

#[test]
fn excluded_entry_stays_visible_itself() {
    // exclusion hides descendants from the view, never the node itself
    let d = scenario_tree();
    let mut opts = ExportOptions::new();
    opts.process_export_data_entry(&ExportDataEntry::Item(item("I1")));
    let visible = project(&d.flatten(), &opts);
    assert_eq!(entry_ids(&visible), vec![s("A"), s("V"), s("I1"), s("I2")]);
}

#[test]
fn filter_without_exclusions_keeps_the_tree() {
    let d = scenario_tree();
    let opts = ExportOptions::new();
    let filtered = opts.filter_export_data(scenario_tree());
    assert!(filtered == d);
}

#[test]
fn set_output_file_records_the_path() {
    let mut opts = ExportOptions::new();
    assert_eq!(opts.output_file, s(""));
    opts.set_output_file(s("/tmp/export.json"));
    assert_eq!(opts.output_file, s("/tmp/export.json"));
}

#[test]
fn filter_reattaches_orphaned_vault_to_preceding_account() {
    // two accounts; excluding the second leaves its vault's entry right
    // after the first account's entries, so reconstruction attaches it to
    // the first account: the positional hazard the codec documents
    let mut d = scenario_tree();
    d.accounts.push(Account {
        attrs: AccountAttributes {
            name: s("second"),
            email: s("second@example.com"),
            uuid: s("B"),
            domain: s("example.1password.com"),
        },
        vaults: vec![Vault {
            attrs: VaultAttributes { uuid: s("W"), name: s("work"), type_: s("P") },
            items: vec![],
        }],
    });
    let mut opts = ExportOptions::new();
    opts.process_export_data_entry(&ExportDataEntry::Account(Account {
        attrs: AccountAttributes {
            name: s("second"),
            email: s("second@example.com"),
            uuid: s("B"),
            domain: s("example.1password.com"),
        },
        vaults: vec![],
    }));
    let filtered = opts.filter_export_data(d);
    assert_eq!(filtered.accounts.len(), 1);
    assert_eq!(filtered.accounts[0].attrs.uuid, s("A"));
    let vault_ids: Vec<String> =
        filtered.accounts[0].vaults.iter().map(|v| v.attrs.uuid.clone()).collect();
    assert_eq!(vault_ids, vec![s("V"), s("W")]);
}
