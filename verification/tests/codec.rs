//! The flatten/reconstruct codec on concrete trees.
use op_export::format::ux::{
    unflatten, Account, AccountAttributes, ExportData, ExportDataEntry, Item, ItemDetails,
    LoginField, Overview, Vault, VaultAttributes, URL,
};

fn s(x: &str) -> String {
    x.to_string()
}

fn item(id: &str, title: &str) -> Item {
    Item {
        uuid: s(id),
        created_at: s("2023-01-01T00:00:00Z"),
        updated_at: s("2023-01-02T00:00:00Z"),
        category_uuid: s("001"),
        overview: Overview {
            title: s(title),
            url: Some(s("https://example.com")),
            urls: vec![URL { url: s("https://example.com") }],
            tags: vec![s("tag1")],
        },
        details: ItemDetails {
            login_fields: vec![LoginField {
                value: Some(s("user")),
                name: Some(s("username")),
                type_: s("T"),
                designation: Some(s("username")),
            }],
        },
    }
}

fn vault(id: &str, name: &str, items: Vec<Item>) -> Vault {
    Vault {
        attrs: VaultAttributes { uuid: s(id), name: s(name), type_: s("P") },
        items,
    }
}

fn account(id: &str, name: &str, vaults: Vec<Vault>) -> Account {
    Account {
        attrs: AccountAttributes {
            name: s(name),
            email: s("user@example.com"),
            uuid: s(id),
            domain: s("example.1password.com"),
        },
        vaults,
    }
}

fn two_account_tree() -> ExportData {
    ExportData {
        accounts: vec![
            account(
                "A1",
                "first",
                vec![
                    vault("V1", "personal", vec![item("I1", "one"), item("I2", "two")]),
                    vault("V2", "work", vec![item("I3", "three")]),
                ],
            ),
            account("A2", "second", vec![vault("V3", "empty", vec![])]),
        ],
    }
}

#[test]
fn flatten_is_preorder() {
    let d = two_account_tree();
    let entries = d.flatten();
    let kinds: Vec<&str> = entries
        .iter()
        .map(|e| match e {
            ExportDataEntry::Account(_) => "A",
            ExportDataEntry::Vault(_) => "V",
            ExportDataEntry::Item(_) => "I",
        })
        .collect();
    assert_eq!(kinds, vec!["A", "V", "I", "I", "V", "I", "A", "V"]);
    match &entries[0] {
        ExportDataEntry::Account(a) => assert_eq!(a.attrs.uuid, s("A1")),
        _ => panic!("first entry must be the first account"),
    }
    match &entries[7] {
        ExportDataEntry::Vault(v) => assert_eq!(v.attrs.uuid, s("V3")),
        _ => panic!("last entry must be the second account's vault"),
    }
}

#[test]
fn reconstruct_flatten_is_identity() {
    let d = two_account_tree();
    let rebuilt = unflatten(d.flatten());
    assert!(rebuilt == d);
}

#[test]
fn reconstruct_flatten_is_identity_on_empty_tree() {
    let d = ExportData { accounts: vec![] };
    let rebuilt = unflatten(d.flatten());
    assert!(rebuilt == d);
}

#[test]
fn reconstruct_drops_vault_without_account() {
    // a vault entry with no account before it is dropped, and its items with it
    let d = two_account_tree();
    let entries = d.flatten();
    let orphans: Vec<ExportDataEntry> = entries
        .into_iter()
        .filter(|e| !matches!(e, ExportDataEntry::Account(_)))
        .collect();
    let rebuilt = unflatten(orphans);
    assert!(rebuilt.accounts.is_empty());
}

#[test]
fn reconstruct_reads_children_from_the_sequence() {
    // the account entry's own embedded children are ignored; the entries
    // that follow it decide the rebuilt tree
    let acc = account("A1", "first", vec![vault("V1", "personal", vec![item("I1", "one")])]);
    let rebuilt = unflatten(vec![ExportDataEntry::Account(acc)]);
    assert_eq!(rebuilt.accounts.len(), 1);
    assert!(rebuilt.accounts[0].vaults.is_empty());
    assert_eq!(rebuilt.accounts[0].attrs.uuid, s("A1"));
}
