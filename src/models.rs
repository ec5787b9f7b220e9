//! The shapes of the resources that the API returns.

use vstd::prelude::*;

verus! {

/// A password hashed with bcrypt.
#[derive(Debug)]
pub struct AlgoBcrypt {
    /// The hashing algorithm.
    pub algo_type: String,
}

/// A boolean attribute of a collection.
#[derive(Clone, Debug, Default, PartialEq)]
pub struct AttributeBoolean {
    /// The attribute's key.
    pub key: String,
    /// The attribute's type.
    pub attribute_type: String,
    /// One of `available`, `processing`, `deleting`, `stuck` or `failed`.
    pub status: String,
    /// The error met while creating or deleting the attribute.
    pub error: String,
    /// Whether the attribute is required.
    pub xrequired: Option<bool>,
    /// Whether the attribute is an array.
    pub array: Option<bool>,
    /// The value used where none is given; never set on a required attribute.
    pub xdefault: Option<String>,
}

/// The attributes of a collection, of any type.
#[derive(Debug)]
pub struct AttributeList {
    /// How many attributes the collection has.
    pub total: u64,
    /// The attributes, as JSON.
    pub attributes: serde_json::Value,
}

/// A country.
#[derive(Clone, Debug, Default, PartialEq)]
pub struct Country {
    /// The country's name.
    pub name: String,
    /// Its two-letter ISO 3166-1 code.
    pub code: String,
}

/// A page of countries.
#[derive(Debug)]
pub struct CountryList {
    /// How many countries matched the query.
    pub total: u64,
    /// The countries of this page.
    pub countries: Vec<Country>,
}

/// A database.
#[derive(Clone, Debug, Default, PartialEq)]
pub struct Database {
    /// The database's ID.
    pub id: String,
    /// Its name.
    pub name: String,
    /// When it was created, in ISO 8601.
    pub created_at: String,
    /// When it was last updated, in ISO 8601.
    pub updated_at: String,
    /// Whether it is enabled.
    pub enabled: bool,
}

/// A page of databases.
#[derive(Clone, Debug, Default, PartialEq)]
pub struct DatabaseList {
    /// How many databases matched the query.
    pub total: u64,
    /// The databases of this page.
    pub databases: Vec<Database>,
}

/// The state of one background queue.
#[derive(Debug)]
pub struct HealthQueue {
    /// How many actions wait in the queue.
    pub size: u64,
}

/// A JSON Web Token.
#[derive(Debug)]
pub struct JWT {
    /// The encoded token.
    pub jwt: String,
}

/// The recovery codes of multi-factor authentication.
#[derive(Debug)]
pub struct MfaRecoveryCodes {
    /// The codes, as JSON.
    pub recovery_codes: Vec<serde_json::Value>,
}

} // verus!
