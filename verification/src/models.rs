//! The Codex model catalog: turning the `/models` envelope into picker
//! entries, the bundled fallback list, and the account-scoped cache that
//! decides when the catalog is fetched again.
use vstd::prelude::*;

use crate::text::{owned, str_eq};

verus! {

/// One entry of the model picker.
#[derive(Debug, PartialEq)]
pub struct CodexModel {
    pub slug: String,
    pub display_name: String,
    pub description: String,
    pub supported_reasoning_levels: Vec<String>,
}

/// The abstract content of a [`CodexModel`].
pub struct ModelInfo {
    pub slug: Seq<char>,
    pub display_name: Seq<char>,
    pub description: Seq<char>,
    pub levels: Seq<Seq<char>>,
}

/// The characters of each string of a list.
pub open spec fn strings_view(v: Seq<String>) -> Seq<Seq<char>> {
    v.map_values(|s: String| s@)
}

impl View for CodexModel {
    type V = ModelInfo;

    open spec fn view(&self) -> ModelInfo {
        ModelInfo {
            slug: self.slug@,
            display_name: self.display_name@,
            description: self.description@,
            levels: strings_view(self.supported_reasoning_levels@),
        }
    }
}

/// The content of each model of a list.
pub open spec fn models_view(v: Seq<CodexModel>) -> Seq<ModelInfo> {
    v.map_values(|m: CodexModel| m@)
}

/// A copy of a list of strings.
pub fn clone_strings(v: &Vec<String>) -> (r: Vec<String>)
    ensures
        strings_view(r@) == strings_view(v@),
{
    let mut out: Vec<String> = Vec::new();
    let mut i: usize = 0;
    while i < v.len()
        invariant
            i <= v@.len(),
            out@.len() == i,
            forall|j: int| 0 <= j < i ==> out@[j]@ == v@[j]@,
        decreases v@.len() - i,
    {
        out.push(v[i].clone());
        i = i + 1;
    }
    assert(strings_view(out@) =~= strings_view(v@));
    out
}

impl CodexModel {
    /// A copy of this model.
    pub fn duplicate(&self) -> (r: CodexModel)
        ensures
            r@ == self@,
    {
        CodexModel {
            slug: self.slug.clone(),
            display_name: self.display_name.clone(),
            description: self.description.clone(),
            supported_reasoning_levels: clone_strings(&self.supported_reasoning_levels),
        }
    }
}

/// A copy of a list of models.
pub fn clone_models(v: &[CodexModel]) -> (r: Vec<CodexModel>)
    ensures
        models_view(r@) == models_view(v@),
{
    let mut out: Vec<CodexModel> = Vec::new();
    let mut i: usize = 0;
    while i < v.len()
        invariant
            i <= v@.len(),
            out@.len() == i,
            forall|j: int| 0 <= j < i ==> out@[j]@ == v@[j]@,
        decreases v@.len() - i,
    {
        out.push(v[i].duplicate());
        i = i + 1;
    }
    assert(models_view(out@) =~= models_view(v@));
    out
}

/// The catalog handed to the picker, with whether it is the bundled list.
#[derive(Debug)]
pub struct CodexModelList {
    pub models: Vec<CodexModel>,
    pub from_fallback: bool,
}

/// A reasoning level as the server ships it: a bare effort string, or an
/// object carrying the effort.
#[derive(Debug)]
pub enum RawReasoningLevel {
    Effort(String),
    Preset { effort: String },
}

/// The effort name of a reasoning level.
pub open spec fn effort_spec(l: RawReasoningLevel) -> Seq<char> {
    match l {
        RawReasoningLevel::Effort(e) => e@,
        RawReasoningLevel::Preset { effort } => effort@,
    }
}

impl RawReasoningLevel {
    /// The effort name, whichever form the level came in.
    pub fn into_effort(self) -> (r: String)
        ensures
            r@ == effort_spec(self),
    {
        match self {
            RawReasoningLevel::Effort(effort) => effort,
            RawReasoningLevel::Preset { effort } => effort,
        }
    }
}

/// One model of the `/models` envelope as parsed.
#[derive(Debug)]
pub struct RawModel {
    pub slug: String,
    pub display_name: Option<String>,
    pub description: Option<String>,
    pub visibility: Option<String>,
    pub supported_reasoning_levels: Option<Vec<RawReasoningLevel>>,
}

/// The `/models` envelope as parsed.
#[derive(Debug)]
pub struct ModelsEnvelope {
    pub models: Vec<RawModel>,
}

/// The server hides a model by `visibility` `hidden` or `hide`; anything
/// else, or no visibility, keeps it listed.
pub open spec fn is_listed(m: RawModel) -> bool {
    match m.visibility {
        Some(v) => v@ != "hidden"@ && v@ != "hide"@,
        None => true,
    }
}

/// The picker entry of a listed model: the display name falls back to the
/// slug, the description to empty, the levels to none.
pub open spec fn model_info_of(m: RawModel) -> ModelInfo {
    ModelInfo {
        slug: m.slug@,
        display_name: match m.display_name {
            Some(d) => d@,
            None => m.slug@,
        },
        description: match m.description {
            Some(d) => d@,
            None => Seq::empty(),
        },
        levels: match m.supported_reasoning_levels {
            Some(ls) => ls@.map_values(|l: RawReasoningLevel| effort_spec(l)),
            None => Seq::empty(),
        },
    }
}

/// The picker entries of an envelope's models, in order, hidden ones dropped.
pub open spec fn catalog_spec(raws: Seq<RawModel>) -> Seq<ModelInfo>
    decreases raws.len(),
{
    if raws.len() == 0 {
        Seq::empty()
    } else {
        let rest = catalog_spec(raws.drop_last());
        if is_listed(raws.last()) {
            rest.push(model_info_of(raws.last()))
        } else {
            rest
        }
    }
}

fn is_listed_exec(m: &RawModel) -> (b: bool)
    ensures
        b == is_listed(*m),
{
    match &m.visibility {
        Some(v) => !str_eq(v.as_str(), "hidden") && !str_eq(v.as_str(), "hide"),
        None => true,
    }
}

fn efforts(levels: Vec<RawReasoningLevel>) -> (r: Vec<String>)
    ensures
        strings_view(r@) == levels@.map_values(|l: RawReasoningLevel| effort_spec(l)),
{
    let ghost orig = levels@;
    assert(orig.skip(0) =~= orig);
    let mut out: Vec<String> = Vec::new();
    let mut rest = levels;
    while rest.len() > 0
        invariant
            out@.len() + rest@.len() == orig.len(),
            rest@ == orig.skip(out@.len() as int),
            forall|j: int| 0 <= j < out@.len() ==> out@[j]@ == effort_spec(orig[j]),
        decreases rest@.len(),
    {
        let l = rest.remove(0);
        out.push(l.into_effort());
        assert(rest@ =~= orig.skip(out@.len() as int));
    }
    assert(strings_view(out@) =~= orig.map_values(|l: RawReasoningLevel| effort_spec(l)));
    out
}

fn model_from_raw(m: RawModel) -> (r: CodexModel)
    ensures
        r@ == model_info_of(m),
{
    let RawModel { slug, display_name, description, visibility: _, supported_reasoning_levels } = m;
    let display_name = match display_name {
        Some(d) => d,
        None => slug.clone(),
    };
    let description = match description {
        Some(d) => d,
        None => String::new(),
    };
    let levels = match supported_reasoning_levels {
        Some(ls) => efforts(ls),
        None => Vec::new(),
    };
    let r = CodexModel { slug, display_name, description, supported_reasoning_levels: levels };
    assert(r@.levels =~= model_info_of(m).levels);
    r
}

/// The picker entries of a parsed `/models` envelope: hidden models
/// dropped, missing optional fields filled in, order kept.
pub fn catalog_from_envelope(envelope: ModelsEnvelope) -> (r: Vec<CodexModel>)
    ensures
        models_view(r@) == catalog_spec(envelope.models@),
{
    let ghost orig = envelope.models@;
    let mut rest = envelope.models;
    let total = rest.len();
    let mut out: Vec<CodexModel> = Vec::new();
    let mut taken: usize = 0;
    assert(orig.skip(0) =~= orig);
    while rest.len() > 0
        invariant
            taken + rest@.len() == orig.len(),
            total == orig.len(),
            rest@ == orig.skip(taken as int),
            models_view(out@) == catalog_spec(orig.take(taken as int)),
        decreases rest@.len(),
    {
        let m = rest.remove(0);
        assert(rest@ =~= orig.skip(taken + 1));
        proof {
            assert(m == orig[taken as int]);
            assert(orig.take(taken + 1).drop_last() =~= orig.take(taken as int));
            assert(orig.take(taken + 1).last() == orig[taken as int]);
        }
        if is_listed_exec(&m) {
            let entry = model_from_raw(m);
            out.push(entry);
            assert(models_view(out@) =~= catalog_spec(orig.take(taken + 1)));
        }
        taken = taken + 1;
    }
    assert(orig.take(taken as int) =~= orig);
    out
}

/// The bundled catalog: three Codex models with no reasoning levels, so
/// the picker offers its own effort list.
pub open spec fn fallback_spec() -> Seq<ModelInfo> {
    seq![
        ModelInfo {
            slug: "gpt-5.3-codex"@,
            display_name: "GPT-5.3 Codex"@,
            description: Seq::empty(),
            levels: Seq::empty(),
        },
        ModelInfo {
            slug: "gpt-5.2-codex"@,
            display_name: "GPT-5.2 Codex"@,
            description: Seq::empty(),
            levels: Seq::empty(),
        },
        ModelInfo {
            slug: "gpt-5.1-codex-max"@,
            display_name: "GPT-5.1 Codex Max"@,
            description: Seq::empty(),
            levels: Seq::empty(),
        },
    ]
}

fn bundled_model(slug: &str, name: &str) -> (r: CodexModel)
    ensures
        r@ == (ModelInfo {
            slug: slug@,
            display_name: name@,
            description: Seq::empty(),
            levels: Seq::empty(),
        }),
{
    let r = CodexModel {
        slug: owned(slug),
        display_name: owned(name),
        description: String::new(),
        supported_reasoning_levels: Vec::new(),
    };
    assert(r@.levels =~= Seq::<Seq<char>>::empty());
    r
}

/// The bundled catalog used before sign-in or when the fetch fails.
pub fn fallback_models() -> (r: Vec<CodexModel>)
    ensures
        models_view(r@) == fallback_spec(),
{
    let mut v: Vec<CodexModel> = Vec::new();
    v.push(bundled_model("gpt-5.3-codex", "GPT-5.3 Codex"));
    v.push(bundled_model("gpt-5.2-codex", "GPT-5.2 Codex"));
    v.push(bundled_model("gpt-5.1-codex-max", "GPT-5.1 Codex Max"));
    assert(models_view(v@) =~= fallback_spec());
    v
}


/// How long a fetched catalog is served from the cache, in milliseconds.
pub const CACHE_TTL_MS: u64 = 300_000;

/// The catalog fetched for one account, and when.
#[derive(Debug)]
pub struct CacheEntry {
    pub account_id: String,
    pub stored_at: u64,
    pub models: Vec<CodexModel>,
}

/// The abstract content of a cache entry.
pub struct CacheState {
    pub account: Seq<char>,
    pub stored_at: u64,
    pub models: Seq<ModelInfo>,
}

/// The last catalog fetched, scoped to the account it was fetched for.
/// Times are milliseconds on a monotonic clock.
#[derive(Debug)]
pub struct ModelListCache {
    entry: Option<CacheEntry>,
}

impl View for ModelListCache {
    type V = Option<CacheState>;

    closed spec fn view(&self) -> Option<CacheState> {
        match self.entry {
            Some(e) => Some(
                CacheState {
                    account: e.account_id@,
                    stored_at: e.stored_at,
                    models: models_view(e.models@),
                },
            ),
            None => None,
        }
    }
}

/// The characters of an optional string slice.
pub open spec fn opt_str_view(o: Option<&str>) -> Option<Seq<char>> {
    match o {
        Some(s) => Some(s@),
        None => None,
    }
}

/// Time since `at`, zero when the clock reads earlier.
pub open spec fn elapsed(now: u64, at: u64) -> int {
    if now >= at {
        now - at
    } else {
        0
    }
}

/// The cached catalog served to `account` at `now`: only for the account
/// it was stored for, only within the TTL, never without an account.
pub open spec fn cache_lookup(c: Option<CacheState>, account: Option<Seq<char>>, now: u64) -> Option<
    Seq<ModelInfo>,
> {
    match account {
        Some(a) => match c {
            Some(e) => if e.account == a && elapsed(now, e.stored_at) < CACHE_TTL_MS {
                Some(e.models)
            } else {
                None
            },
            None => None,
        },
        None => None,
    }
}

/// The cache after storing `models` for `account` at `now`; without an
/// account nothing is stored.
pub open spec fn cache_store(
    c: Option<CacheState>,
    account: Option<Seq<char>>,
    models: Seq<ModelInfo>,
    now: u64,
) -> Option<CacheState> {
    match account {
        Some(a) => Some(CacheState { account: a, stored_at: now, models }),
        None => c,
    }
}

impl ModelListCache {
    /// An empty cache.
    pub fn new() -> (r: Self)
        ensures
            r@ is None,
    {
        ModelListCache { entry: None }
    }

    /// The catalog cached for `account_id` if it is still fresh at `now`.
    pub fn get_at(&self, account_id: Option<&str>, now: u64) -> (r: Option<Vec<CodexModel>>)
        ensures
            match r {
                Some(v) => cache_lookup(self@, opt_str_view(account_id), now) == Some(
                    models_view(v@),
                ),
                None => cache_lookup(self@, opt_str_view(account_id), now) is None,
            },
    {
        match account_id {
            None => None,
            Some(a) => match &self.entry {
                None => None,
                Some(e) => {
                    let age = if now >= e.stored_at {
                        now - e.stored_at
                    } else {
                        0
                    };
                    if str_eq(e.account_id.as_str(), a) && age < CACHE_TTL_MS {
                        Some(clone_models(e.models.as_slice()))
                    } else {
                        None
                    }
                },
            },
        }
    }

    /// Stores `models` as the catalog of `account_id`, fetched at `now`;
    /// a request without an account stores nothing.
    pub fn put_at(&mut self, account_id: Option<&str>, models: &[CodexModel], now: u64)
        ensures
            final(self)@ == cache_store(old(self)@, opt_str_view(account_id), models_view(models@), now),
    {
        match account_id {
            None => {},
            Some(a) => {
                self.entry = Some(
                    CacheEntry { account_id: owned(a), stored_at: now, models: clone_models(models) },
                );
            },
        }
    }
}

/// A catalog stored for an account is served to that account while it is
/// fresh.
pub proof fn law_cache_hit_within_ttl(
    c: Option<CacheState>,
    account: Seq<char>,
    models: Seq<ModelInfo>,
    stored: u64,
    now: u64,
)
    requires
        stored <= now,
        now - stored < CACHE_TTL_MS,
    ensures
        cache_lookup(cache_store(c, Some(account), models, stored), Some(account), now) == Some(
            models,
        ),
{
}

/// A catalog is not served once the TTL has run out.
pub proof fn law_cache_expires(
    c: Option<CacheState>,
    account: Seq<char>,
    models: Seq<ModelInfo>,
    stored: u64,
    now: u64,
)
    requires
        stored <= now,
        now - stored >= CACHE_TTL_MS,
    ensures
        cache_lookup(cache_store(c, Some(account), models, stored), Some(account), now) is None,
{
}

/// A catalog stored for one account is never served to another.
pub proof fn law_cache_scoped_to_account(
    c: Option<CacheState>,
    account: Seq<char>,
    other: Seq<char>,
    models: Seq<ModelInfo>,
    stored: u64,
    now: u64,
)
    requires
        account != other,
    ensures
        cache_lookup(cache_store(c, Some(account), models, stored), Some(other), now) is None,
{
}

/// Without an account identity the cache neither stores nor serves.
pub proof fn law_cache_skipped_without_identity(
    c: Option<CacheState>,
    models: Seq<ModelInfo>,
    now: u64,
)
    ensures
        cache_store(c, None, models, now) == c,
        cache_lookup(c, None, now) is None,
{
}

/// What the catalog resolution does before any network call.
#[derive(Debug)]
pub enum CatalogStep {
    /// Answer with this list now.
    Serve(CodexModelList),
    /// Fetch the catalog for the signed-in account.
    Fetch,
}

/// First half of catalog resolution. Signed out: the bundled list, without
/// looking at the cache. Signed in: the account's fresh cached catalog if
/// there is one, else a fetch.
pub fn catalog_before_fetch(signed_in: bool, account_id: Option<&str>, cache: &ModelListCache, now: u64) -> (r: CatalogStep)
    ensures
        !signed_in ==> (r matches CatalogStep::Serve(l) && l.from_fallback && models_view(l.models@)
            == fallback_spec()),
        signed_in ==> match cache_lookup(cache@, opt_str_view(account_id), now) {
            Some(ms) => r matches CatalogStep::Serve(l) && !l.from_fallback && models_view(
                l.models@,
            ) == ms,
            None => r is Fetch,
        },
{
    if !signed_in {
        return CatalogStep::Serve(CodexModelList { models: fallback_models(), from_fallback: true });
    }
    match cache.get_at(account_id, now) {
        Some(models) => CatalogStep::Serve(CodexModelList { models, from_fallback: false }),
        None => CatalogStep::Fetch,
    }
}

/// Second half of catalog resolution, given the fetch result (`None` when
/// it failed). A non-empty catalog is cached for the account and served;
/// a failed or empty fetch serves the bundled list, which is never cached.
pub fn catalog_after_fetch(
    fetched: Option<Vec<CodexModel>>,
    account_id: Option<&str>,
    cache: &mut ModelListCache,
    now: u64,
) -> (r: CodexModelList)
    ensures
        match fetched {
            Some(ms) if ms@.len() > 0 => !r.from_fallback && models_view(r.models@) == models_view(
                ms@,
            ) && final(cache)@ == cache_store(
                old(cache)@,
                opt_str_view(account_id),
                models_view(ms@),
                now,
            ),
            _ => r.from_fallback && models_view(r.models@) == fallback_spec() && final(cache)@
                == old(cache)@,
        },
{
    match fetched {
        Some(models) => {
            if models.len() > 0 {
                cache.put_at(account_id, models.as_slice(), now);
                CodexModelList { models, from_fallback: false }
            } else {
                CodexModelList { models: fallback_models(), from_fallback: true }
            }
        },
        None => CodexModelList { models: fallback_models(), from_fallback: true },
    }
}

} // verus!
