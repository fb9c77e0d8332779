use vstd::prelude::*;

verus! {

/// A stored login credential.
#[derive(Debug, Clone)]
pub struct PasswordEntry {
    pub id: Option<i64>,
    pub website: String,
    pub username: String,
    pub password: String,
    pub notes: Option<String>,
    pub created_at: Option<String>,
    pub updated_at: Option<String>,
}

/// A stored free-text note.
#[derive(Debug, Clone)]
pub struct Note {
    pub id: Option<i64>,
    pub title: String,
    pub content: String,
    pub created_at: Option<String>,
    pub updated_at: Option<String>,
}

/// One row of the store's configuration table.
#[derive(Debug, Clone)]
pub struct Config {
    pub key: String,
    pub value: String,
}

/// An assessment of a candidate password.
#[derive(Debug, Clone)]
pub struct PasswordStrength {
    /// Score from 0 (weakest) to 4 (strongest).
    pub score: u8,
    pub feedback: Vec<String>,
    pub warning: Option<String>,
}

/// Character classes used when generating a password.
#[derive(Debug, Clone, Copy, PartialEq, Eq, Structural)]
pub struct GeneratorOptions {
    pub include_uppercase: bool,
    pub include_lowercase: bool,
    pub include_numbers: bool,
    pub include_symbols: bool,
    pub exclude_ambiguous: bool,
}

impl Default for GeneratorOptions {
    /// Letters of both cases and digits, no symbols, ambiguous characters excluded.
    fn default() -> (r: Self)
        ensures
            r == (GeneratorOptions {
                include_uppercase: true,
                include_lowercase: true,
                include_numbers: true,
                include_symbols: false,
                exclude_ambiguous: true,
            }),
    {
        GeneratorOptions {
            include_uppercase: true,
            include_lowercase: true,
            include_numbers: true,
            include_symbols: false,
            exclude_ambiguous: true,
        }
    }
}

} // verus!
