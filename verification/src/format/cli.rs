//! Records in the shape the credential store's command-line client reports
//! them. The client itself is driven from outside the library; these types
//! hold the plain values its responses carry, and the assembly logic in
//! [`crate::format::ux`] reads them.
use vstd::prelude::*;

verus! {

/// A record that only carries an identifier.
#[derive(Clone)]
pub struct OnlyID {
    pub id: String,
}

/// A stored document, as listed by the client.
#[derive(Clone)]
pub struct Document {
    pub id: String,
    pub title: String,
    pub version: usize,
    pub vault: OnlyID,
    pub last_edited_by: String,
    pub created_at: String,
    pub updated_at: String,
    pub overview_ainfo: Option<String>,
}

/// One line of the account listing.
#[derive(Clone)]
pub struct ListedAccount {
    pub url: String,
    pub email: String,
    pub user_uuid: String,
    pub shorthand: Option<String>,
}

/// The full account record fetched by id.
#[derive(Clone)]
pub struct Account {
    pub id: String,
    pub name: String,
    pub domain: String,
    pub type_: String,
    pub state: String,
    pub created_at: String,
}

/// One line of the vault listing.
#[derive(Clone)]
pub struct ListedVault {
    pub id: String,
    pub name: String,
}

/// The full vault record fetched by id.
#[derive(Clone)]
pub struct Vault {
    pub listed_vault: ListedVault,
    pub attribute_version: usize,
    pub content_version: usize,
    pub items: usize,
    pub type_: String,
    pub created_at: String,
    pub updated_at: String,
}

/// One line of the item listing.
#[derive(Clone)]
pub struct ListedItem {
    pub id: String,
    pub title: String,
    pub tags: Option<Vec<String>>,
    pub version: usize,
    pub vault: OnlyID,
    pub category: String,
    pub last_edited_by: String,
    pub created_at: String,
    pub updated_at: String,
}

/// The full item record fetched by id.
#[derive(Clone)]
pub struct Item {
    pub listed_item: ListedItem,
    pub sections: Vec<OnlyID>,
    pub fields: Vec<Field>,
    pub urls: Option<Vec<URL>>,
}

/// One field of a stored item.
#[derive(Clone)]
pub struct Field {
    pub id: String,
    pub type_: String,
    pub purpose: Option<String>,
    pub label: Option<String>,
    pub value: Option<String>,
    pub password_details: Option<PasswordDetails>,
}

/// Password metadata attached to a field.
#[derive(Clone)]
pub struct PasswordDetails {
    pub entropy: Option<usize>,
    pub generated: Option<bool>,
    pub strength: String,
}

/// A url attached to an item.
#[derive(Clone)]
pub struct URL {
    pub primary: bool,
    pub href: String,
}

} // verus!
