use quill::models::{
    catalog_from_envelope, fallback_models, CodexModel, ModelListCache, ModelsEnvelope, RawModel,
    RawReasoningLevel, CACHE_TTL_MS,
};

fn model(slug: &str) -> CodexModel {
    CodexModel {
        slug: slug.to_string(),
        display_name: slug.to_string(),
        description: String::new(),
        supported_reasoning_levels: Vec::new(),
    }
}

const NOW: u64 = 1_000_000;

#[test]
fn cache_hit_within_ttl() {
    let mut cache = ModelListCache::new();
    let now = NOW;
    cache.put_at(Some("acct"), &[model("a")], now);

    let hit = cache.get_at(Some("acct"), now + CACHE_TTL_MS - 1_000);
    assert_eq!(hit, Some(vec![model("a")]));
}

#[test]
fn cache_miss_after_ttl() {
    let mut cache = ModelListCache::new();
    let now = NOW;
    cache.put_at(Some("acct"), &[model("a")], now);

    assert_eq!(cache.get_at(Some("acct"), now + CACHE_TTL_MS), None);
    assert_eq!(cache.get_at(Some("acct"), now + CACHE_TTL_MS + 60_000), None);
}

#[test]
fn cache_empty_misses() {
    let cache = ModelListCache::new();
    assert_eq!(cache.get_at(Some("acct"), NOW), None);
}

#[test]
fn cache_scoped_to_account() {
    let mut cache = ModelListCache::new();
    let now = NOW;
    cache.put_at(Some("acct_a"), &[model("a")], now);

    assert_eq!(cache.get_at(Some("acct_b"), now), None);
    assert_eq!(cache.get_at(Some("acct_a"), now), Some(vec![model("a")]));
}

#[test]
fn cache_skipped_without_account_identity() {
    let mut cache = ModelListCache::new();
    let now = NOW;

    cache.put_at(None, &[model("a")], now);
    assert_eq!(cache.get_at(Some("acct"), now), None);

    cache.put_at(Some("acct"), &[model("a")], now);
    assert_eq!(cache.get_at(None, now), None);
}

#[test]
fn fallback_contains_default_model() {
    let models = fallback_models();
    assert!(models.iter().any(|m| m.slug == "gpt-5.3-codex"));
    assert!(models.iter().all(|m| m.supported_reasoning_levels.is_empty()));
}

#[test]
fn cache_replaced_by_newer_put() {
    let mut cache = ModelListCache::new();
    cache.put_at(Some("acct"), &[model("a")], NOW);
    cache.put_at(Some("acct"), &[model("b")], NOW + 10);
    assert_eq!(cache.get_at(Some("acct"), NOW + 20), Some(vec![model("b")]));
}

#[test]
fn fallback_lists_three_bundled_models_in_order() {
    let slugs: Vec<String> = fallback_models().into_iter().map(|m| m.slug).collect();
    assert_eq!(slugs, vec!["gpt-5.3-codex", "gpt-5.2-codex", "gpt-5.1-codex-max"]);
}

fn raw(slug: &str, visibility: Option<&str>) -> RawModel {
    RawModel {
        slug: slug.to_string(),
        display_name: None,
        description: None,
        visibility: visibility.map(String::from),
        supported_reasoning_levels: None,
    }
}

#[test]
fn parse_live_catalog_shape() {
    let preset = |e: &str| RawReasoningLevel::Preset { effort: e.to_string() };
    let envelope = ModelsEnvelope {
        models: vec![RawModel {
            slug: "gpt-5.6-sol".to_string(),
            display_name: Some("GPT-5.6-Sol".to_string()),
            description: Some("Latest frontier agentic coding model.".to_string()),
            visibility: Some("list".to_string()),
            supported_reasoning_levels: Some(vec![
                preset("low"),
                preset("medium"),
                preset("high"),
                preset("xhigh"),
                preset("max"),
                preset("ultra"),
            ]),
        }],
    };
    let models = catalog_from_envelope(envelope);
    assert_eq!(models.len(), 1);
    assert_eq!(models[0].slug, "gpt-5.6-sol");
    assert_eq!(models[0].display_name, "GPT-5.6-Sol");
    assert_eq!(models[0].description, "Latest frontier agentic coding model.");
    assert_eq!(
        models[0].supported_reasoning_levels,
        vec!["low", "medium", "high", "xhigh", "max", "ultra"]
    );
}

#[test]
fn parse_accepts_bare_string_reasoning_levels() {
    let mut m = raw("m", None);
    m.supported_reasoning_levels = Some(vec![
        RawReasoningLevel::Effort("low".to_string()),
        RawReasoningLevel::Effort("high".to_string()),
    ]);
    let models = catalog_from_envelope(ModelsEnvelope { models: vec![m] });
    assert_eq!(models[0].supported_reasoning_levels, vec!["low", "high"]);
}

#[test]
fn parse_tolerates_missing_optional_fields() {
    let models = catalog_from_envelope(ModelsEnvelope { models: vec![raw("gpt-5.3-codex", None)] });
    assert_eq!(models.len(), 1);
    assert_eq!(models[0].display_name, "gpt-5.3-codex");
    assert_eq!(models[0].description, "");
    assert!(models[0].supported_reasoning_levels.is_empty());
}

#[test]
fn visibility_filter_drops_hidden_keeps_rest() {
    let envelope = ModelsEnvelope {
        models: vec![
            raw("shown", Some("list")),
            raw("hidden-model", Some("hidden")),
            raw("hide-model", Some("hide")),
            raw("no-visibility", None),
            raw("future-variant", Some("experimental")),
        ],
    };
    let slugs: Vec<String> = catalog_from_envelope(envelope).into_iter().map(|m| m.slug).collect();
    assert_eq!(slugs, vec!["shown", "no-visibility", "future-variant"]);
}
