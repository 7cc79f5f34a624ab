//! Assembling the export tree from the client's records.
use op_export::format::cli;
use op_export::format::ux::UXExporter;

fn s(x: &str) -> String {
    x.to_string()
}

fn listed_item(id: &str, vault_id: &str, tags: Option<Vec<String>>) -> cli::ListedItem {
    cli::ListedItem {
        id: s(id),
        title: s("title of ") + id,
        tags,
        version: 1,
        vault: cli::OnlyID { id: s(vault_id) },
        category: s("001"),
        last_edited_by: s("someone"),
        created_at: s("2023-01-01T00:00:00Z"),
        updated_at: s("2023-01-02T00:00:00Z"),
    }
}

fn detail_item(fields: Vec<cli::Field>, urls: Option<Vec<cli::URL>>) -> cli::Item {
    cli::Item {
        listed_item: listed_item("I1", "V1", None),
        sections: vec![],
        fields,
        urls,
    }
}

fn field(label: &str, value: &str, purpose: Option<&str>) -> cli::Field {
    cli::Field {
        id: s(label),
        type_: s("T"),
        purpose: purpose.map(s),
        label: Some(s(label)),
        value: Some(s(value)),
        password_details: None,
    }
}

#[test]
fn build_item_maps_identifiers_and_timestamps() {
    let ux = UXExporter::new();
    let li = listed_item("I1", "V1", Some(vec![s("personal")]));
    let built = ux.build_item(&li, &detail_item(vec![], None));
    assert_eq!(built.uuid, s("I1"));
    assert_eq!(built.created_at, s("2023-01-01T00:00:00Z"));
    assert_eq!(built.updated_at, s("2023-01-02T00:00:00Z"));
    assert_eq!(built.category_uuid, s("001"));
    assert_eq!(built.overview.title, s("title of I1"));
    assert_eq!(built.overview.tags, vec![s("personal")]);
}

#[test]
fn build_item_reads_absent_lists_as_empty() {
    let ux = UXExporter::new();
    let built = ux.build_item(&listed_item("I1", "V1", None), &detail_item(vec![], None));
    assert!(built.overview.tags.is_empty());
    assert!(built.overview.urls.is_empty());
    assert!(built.overview.url.is_none());
    assert!(built.details.login_fields.is_empty());
}

#[test]
fn build_item_picks_the_first_primary_url() {
    let ux = UXExporter::new();
    let urls = vec![
        cli::URL { primary: false, href: s("https://a.example.com") },
        cli::URL { primary: true, href: s("https://b.example.com") },
        cli::URL { primary: true, href: s("https://c.example.com") },
    ];
    let built = ux.build_item(&listed_item("I1", "V1", None), &detail_item(vec![], Some(urls)));
    assert_eq!(built.overview.url, Some(s("https://b.example.com")));
    let hrefs: Vec<String> = built.overview.urls.iter().map(|u| u.url.clone()).collect();
    assert_eq!(
        hrefs,
        vec![s("https://a.example.com"), s("https://b.example.com"), s("https://c.example.com")]
    );
}

#[test]
fn build_item_maps_fields_to_login_fields() {
    let ux = UXExporter::new();
    let fields = vec![
        field("username", "user", Some("username")),
        cli::Field {
            id: s("note"),
            type_: s("N"),
            purpose: None,
            label: None,
            value: None,
            password_details: None,
        },
    ];
    let built = ux.build_item(&listed_item("I1", "V1", None), &detail_item(fields, None));
    assert_eq!(built.details.login_fields.len(), 2);
    let first = &built.details.login_fields[0];
    assert_eq!(first.value, Some(s("user")));
    assert_eq!(first.name, Some(s("username")));
    assert_eq!(first.type_, s("T"));
    assert_eq!(first.designation, Some(s("username")));
    let second = &built.details.login_fields[1];
    assert!(second.value.is_none());
    assert!(second.name.is_none());
    assert_eq!(second.type_, s("N"));
    assert!(second.designation.is_none());
}

#[test]
fn item_in_vault_compares_the_vault_id() {
    let li = listed_item("I1", "V1", None);
    assert!(UXExporter::item_in_vault(&li, &s("V1")));
    assert!(!UXExporter::item_in_vault(&li, &s("V2")));
}

#[test]
fn build_vault_takes_listing_and_detail_apart() {
    let ux = UXExporter::new();
    let lv = cli::ListedVault { id: s("V1"), name: s("personal") };
    let detail = cli::Vault {
        listed_vault: cli::ListedVault { id: s("V1"), name: s("personal") },
        attribute_version: 1,
        content_version: 2,
        items: 0,
        type_: s("P"),
        created_at: s("2023-01-01T00:00:00Z"),
        updated_at: s("2023-01-02T00:00:00Z"),
    };
    let built = ux.build_vault(&lv, &detail, vec![]);
    assert_eq!(built.attrs.uuid, s("V1"));
    assert_eq!(built.attrs.name, s("personal"));
    assert_eq!(built.attrs.type_, s("P"));
    assert!(built.items.is_empty());
}

#[test]
fn build_account_takes_listing_and_detail_apart() {
    let ux = UXExporter::new();
    let la = cli::ListedAccount {
        url: s("https://example.1password.com"),
        email: s("user@example.com"),
        user_uuid: s("U1"),
        shorthand: None,
    };
    let detail = cli::Account {
        id: s("A1"),
        name: s("first"),
        domain: s("example.1password.com"),
        type_: s("I"),
        state: s("A"),
        created_at: s("2023-01-01T00:00:00Z"),
    };
    let built = ux.build_account(&la, &detail, vec![]);
    assert_eq!(built.attrs.name, s("first"));
    assert_eq!(built.attrs.email, s("user@example.com"));
    assert_eq!(built.attrs.uuid, s("A1"));
    assert_eq!(built.attrs.domain, s("example.1password.com"));
    assert!(built.vaults.is_empty());
}

#[test]
fn new_exporter_has_nothing_listed() {
    let ux = UXExporter::new();
    assert!(ux.listed_vaults.is_empty());
    assert!(ux.listed_items.is_empty());
}
