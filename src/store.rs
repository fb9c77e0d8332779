use vstd::prelude::*;
use vstd::string::StringExecFns;

verus! {

/// Configuration key under which the master-password hash is stored.
pub const MASTER_PASSWORD_KEY: &'static str = "master_password_hash";

/// Name of the directory, under the user's data directory, holding vaults.
pub const VAULT_DIR_NAME: &'static str = "vault";

/// The decimal digits, in order of value.
pub open spec fn decimal_alphabet() -> Seq<char> {
    seq!['0', '1', '2', '3', '4', '5', '6', '7', '8', '9']
}

/// Decimal text of `n`, without leading zeros.
pub open spec fn decimal_of(n: nat) -> Seq<char>
    decreases n,
{
    if n < 10 {
        seq![decimal_alphabet()[n as int]]
    } else {
        decimal_of(n / 10) + seq![decimal_alphabet()[(n % 10) as int]]
    }
}

/// Relies on the `Display` of `u64` through `ToString::to_string`: decimal
/// digits without sign or leading zeros.
#[verifier::external_body]
fn decimal_text(n: u64) -> (r: String)
    ensures
        r@ == decimal_of(n as nat),
{
    n.to_string()
}

/// File name of a vault created at Unix time `timestamp`: `vault_<seconds>.db`.
pub fn vault_file_name(timestamp: u64) -> (r: String)
    ensures
        r@ == "vault_"@ + decimal_of(timestamp as nat) + ".db"@,
{
    let digits = decimal_text(timestamp);
    let mut name = String::from_str("vault_");
    name.append(digits.as_str());
    name.append(".db");
    name
}

/// The SQL `LIKE` pattern matching any text that contains `query`.
pub fn search_pattern(query: &str) -> (r: String)
    ensures
        r@ == "%"@ + query@ + "%"@,
{
    let mut pattern = String::from_str("%");
    pattern.append(query);
    pattern.append("%");
    pattern
}

/// The first schema version not yet applied when `current` is applied.
pub open spec fn first_pending(current: i64) -> int {
    if current < 0 {
        1
    } else {
        current + 1
    }
}

/// Versions of the `count` numbered migrations (1 to `count`) still to apply
/// on a schema at version `current`, in ascending order.
pub fn pending_migrations(current: i64, count: usize) -> (r: Vec<i64>)
    requires
        count < i64::MAX,
    ensures
        r@.len() == if first_pending(current) <= count { count - first_pending(current) + 1 } else { 0 },
        forall|i: int| 0 <= i < r@.len() ==> r@[i] == first_pending(current) + i,
{
    let mut versions: Vec<i64> = Vec::new();
    for index in 0..count
        invariant
            count < i64::MAX,
            versions@.len() == if first_pending(current) <= index { index - first_pending(current) + 1 } else { 0 },
            forall|i: int| 0 <= i < versions@.len() ==> versions@[i] == first_pending(current) + i,
    {
        let version: i64 = index as i64 + 1;
        if version > current {
            versions.push(version);
        }
    }
    versions
}

} // verus!
