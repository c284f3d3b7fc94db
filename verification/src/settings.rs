//! Which settings are secrets, where each setting is stored, and how
//! secrets left in the synced settings table move to the local store.
use vstd::prelude::*;

use crate::text::{owned, str_eq};

verus! {

/// The keys kept in the local secrets store, never in the synced settings.
pub open spec fn sensitive_keys() -> Seq<Seq<char>> {
    seq![
        "ai_api_key"@,
        "oauth_access_token"@,
        "oauth_refresh_token"@,
        "oauth_expires_at"@,
        "oauth_account_id"@,
    ]
}

/// The API key setting, the one secret the settings UI reads back.
pub const AI_API_KEY: &'static str = "ai_api_key";

/// Whether `key` names a secret.
pub fn is_sensitive_key(key: &str) -> (b: bool)
    ensures
        b == sensitive_keys().contains(key@),
{
    let keys: [&'static str; 5] = [
        "ai_api_key",
        "oauth_access_token",
        "oauth_refresh_token",
        "oauth_expires_at",
        "oauth_account_id",
    ];
    let mut i: usize = 0;
    while i < 5
        invariant
            i <= 5,
            forall|k: int| 0 <= k < 5 ==> #[trigger] keys@[k]@ == sensitive_keys()[k],
            forall|k: int| 0 <= k < i ==> sensitive_keys()[k] != key@,
        decreases 5 - i,
    {
        if str_eq(keys[i], key) {
            assert(sensitive_keys()[i as int] == key@);
            return true;
        }
        i = i + 1;
    }
    false
}

/// The secret keys, in order.
pub fn sensitive_key_list() -> (r: Vec<&'static str>)
    ensures
        r@.len() == sensitive_keys().len(),
        forall|i: int| 0 <= i < r@.len() ==> (#[trigger] r@[i])@ == sensitive_keys()[i],
{
    let mut v: Vec<&'static str> = Vec::new();
    v.push("ai_api_key");
    v.push("oauth_access_token");
    v.push("oauth_refresh_token");
    v.push("oauth_expires_at");
    v.push("oauth_account_id");
    v
}

/// Where a setting lives.
#[derive(Debug, Clone, Copy, PartialEq, Eq, Structural)]
pub enum SettingStore {
    /// The local secrets database.
    Secrets,
    /// The synced settings table.
    Settings,
}

/// Secrets go to the secrets store; every other key to the settings table.
pub fn setting_store(key: &str) -> (s: SettingStore)
    ensures
        s == (if sensitive_keys().contains(key@) { SettingStore::Secrets } else { SettingStore::Settings }),
{
    if is_sensitive_key(key) {
        SettingStore::Secrets
    } else {
        SettingStore::Settings
    }
}

/// The `LIKE` pattern removing every secret under a prefix.
pub fn secrets_prefix_pattern(prefix: &str) -> (r: String)
    ensures
        r@ == prefix@ + "%"@,
{
    let mut s = owned(prefix);
    s.append("%");
    s
}

/// What migrating one secret does, given its value in the settings table
/// and in the secrets store: a value already in the store wins, and the
/// settings copy is always removed.
pub open spec fn migrate_secret_spec<V>(in_settings: Option<V>, in_secrets: Option<V>) -> (Option<V>, Option<V>) {
    match in_settings {
        Some(v) => (None, match in_secrets {
            Some(s) => Some(s),
            None => Some(v),
        }),
        None => (None, in_secrets),
    }
}

/// The writes migrating one secret needs: insert into the store only when
/// the settings table has it and the store does not; delete from the
/// settings table whenever it has it.
#[derive(Debug, Clone, Copy, PartialEq, Eq, Structural)]
pub struct SecretMigration {
    pub insert_into_secrets: bool,
    pub delete_from_settings: bool,
}

/// The writes for one secret.
pub fn migrate_secret_step(in_settings: bool, in_secrets: bool) -> (m: SecretMigration)
    ensures
        m.insert_into_secrets == (in_settings && !in_secrets),
        m.delete_from_settings == in_settings,
{
    SecretMigration { insert_into_secrets: in_settings && !in_secrets, delete_from_settings: in_settings }
}

/// The writes of one step carry out the migration: afterwards the
/// settings table has no copy and the store keeps its own value, else
/// the migrated one. Migrating again changes nothing.
pub proof fn law_secret_migration<V>(in_settings: Option<V>, in_secrets: Option<V>)
    ensures
        ({
            let m = SecretMigration {
                insert_into_secrets: in_settings is Some && in_secrets is None,
                delete_from_settings: in_settings is Some,
            };
            let settings_after = if m.delete_from_settings { None } else { in_settings };
            let secrets_after = if m.insert_into_secrets { in_settings } else { in_secrets };
            (settings_after, secrets_after) == migrate_secret_spec(in_settings, in_secrets)
        }),
        migrate_secret_spec(in_settings, in_secrets).0 is None,
        migrate_secret_spec(migrate_secret_spec(in_settings, in_secrets).0, migrate_secret_spec(in_settings, in_secrets).1)
            == migrate_secret_spec(in_settings, in_secrets),
{
}

/// A map's value under `k`, if any.
pub open spec fn opt_get<V>(m: Map<Seq<char>, V>, k: Seq<char>) -> Option<V> {
    if m.dom().contains(k) {
        Some(m[k])
    } else {
        None
    }
}

/// `m` with `k` set to `o`'s value, or removed when `o` is `None`.
pub open spec fn set_opt<V>(m: Map<Seq<char>, V>, k: Seq<char>, o: Option<V>) -> Map<Seq<char>, V> {
    match o {
        Some(v) => m.insert(k, v),
        None => m.remove(k),
    }
}

/// Both tables after migrating the secrets `keys` one after another.
pub open spec fn migrate_all<V>(settings: Map<Seq<char>, V>, secrets: Map<Seq<char>, V>, keys: Seq<Seq<char>>) -> (
    Map<Seq<char>, V>,
    Map<Seq<char>, V>,
)
    decreases keys.len(),
{
    if keys.len() == 0 {
        (settings, secrets)
    } else {
        let prev = migrate_all(settings, secrets, keys.drop_last());
        let k = keys.last();
        let step = migrate_secret_spec(opt_get(prev.0, k), opt_get(prev.1, k));
        (set_opt(prev.0, k, step.0), set_opt(prev.1, k, step.1))
    }
}

/// Migrating the secret keys over the whole tables: afterwards the settings
/// table holds none of them and keeps every other row; the store keeps
/// what it had and gains each secret it lacked from the settings table;
/// nothing else changes.
pub proof fn law_secret_migration_tables<V>(
    settings: Map<Seq<char>, V>,
    secrets: Map<Seq<char>, V>,
    keys: Seq<Seq<char>>,
    k: Seq<char>,
)
    ensures
        ({
            let (s2, t2) = migrate_all(settings, secrets, keys);
            &&& keys.contains(k) ==> opt_get(s2, k) is None && opt_get(t2, k) == (match opt_get(secrets, k) {
                Some(v) => Some(v),
                None => opt_get(settings, k),
            })
            &&& !keys.contains(k) ==> opt_get(s2, k) == opt_get(settings, k) && opt_get(t2, k) == opt_get(secrets, k)
        }),
    decreases keys.len(),
{
    if keys.len() > 0 {
        let rest = keys.drop_last();
        law_secret_migration_tables(settings, secrets, rest, k);
        assert(keys.contains(k) == (rest.contains(k) || keys.last() == k)) by {
            if keys.contains(k) && keys.last() != k {
                let i = choose|i: int| 0 <= i < keys.len() && keys[i] == k;
                assert(rest[i] == k);
            }
            if rest.contains(k) {
                let i = choose|i: int| 0 <= i < rest.len() && rest[i] == k;
                assert(keys[i] == k);
            }
            if keys.last() == k {
                assert(keys[keys.len() - 1] == k);
            }
        }
    }
}

/// The settings the UI reads: the stored pairs without any API key entry,
/// then the API key from the secrets store when there is one.
pub open spec fn with_api_key_spec(pairs: Seq<(Seq<char>, Seq<char>)>, key: Option<Seq<char>>) -> Seq<(Seq<char>, Seq<char>)> {
    let kept = pairs.filter(|p: (Seq<char>, Seq<char>)| p.0 != AI_API_KEY@);
    match key {
        Some(k) => kept.push((AI_API_KEY@, k)),
        None => pairs,
    }
}

/// The pairs as characters.
pub open spec fn pairs_view(v: Seq<(String, String)>) -> Seq<(Seq<char>, Seq<char>)> {
    v.map_values(|p: (String, String)| (p.0@, p.1@))
}

/// Merges the API key from the secrets store into the settings listing.
pub fn with_api_key(pairs: Vec<(String, String)>, api_key: Option<String>) -> (r: Vec<(String, String)>)
    ensures
        pairs_view(r@) == with_api_key_spec(pairs_view(pairs@), match api_key {
            Some(k) => Some(k@),
            None => None,
        }),
{
    let k = match api_key {
        Some(k) => k,
        None => return pairs,
    };
    let ghost pred = |p: (Seq<char>, Seq<char>)| p.0 != AI_API_KEY@;
    let mut kept: Vec<(String, String)> = Vec::new();
    let mut i: usize = 0;
    while i < pairs.len()
        invariant
            i <= pairs@.len(),
            pred == (|p: (Seq<char>, Seq<char>)| p.0 != AI_API_KEY@),
            pairs_view(kept@) == pairs_view(pairs@).take(i as int).filter(pred),
        decreases pairs@.len() - i,
    {
        let ghost pv = pairs_view(pairs@);
        proof {
            assert(pv.take(i + 1) =~= pv.take(i as int).push(pv[i as int]));
            pv.take(i as int).lemma_filter_push(pv[i as int], pred);
        }
        if !str_eq(pairs[i].0.as_str(), AI_API_KEY) {
            let ghost before = kept@;
            kept.push((owned(pairs[i].0.as_str()), owned(pairs[i].1.as_str())));
            proof {
                assert(pairs_view(kept@) =~= pairs_view(before).push(pv[i as int]));
            }
        }
        i = i + 1;
    }
    assert(pairs_view(pairs@).take(pairs@.len() as int) =~= pairs_view(pairs@));
    let ghost before = kept@;
    kept.push((owned(AI_API_KEY), k));
    assert(pairs_view(kept@) =~= pairs_view(before).push((AI_API_KEY@, pairs_view(kept@).last().1)));
    kept
}

} // verus!
