use warp_local::ai::custom_model::{
    resolve_custom_provider_model, CustomModel, CustomModelProvider, CustomModelProviders, LLMId,
    RequestParams,
};

fn provider(base_url: &str, api_key: &str, models: &[(&str, &str)]) -> CustomModelProvider {
    CustomModelProvider {
        base_url: base_url.to_string(),
        api_key: api_key.to_string(),
        models: models
            .iter()
            .map(|(slug, config_key)| CustomModel {
                slug: slug.to_string(),
                config_key: config_key.to_string(),
            })
            .collect(),
    }
}

fn request_params_with_custom_provider_model(selected_model: &str) -> RequestParams {
    RequestParams {
        model: LLMId::new(selected_model),
        custom_model_providers: Some(CustomModelProviders {
            providers: vec![
                provider("https://other.example/v1", "other-key", &[("ignored-model", "cfg-other")]),
                provider("https://custom.example/v1", "custom-key", &[("llama-local", "cfg-selected")]),
            ],
        }),
    }
}

#[test]
fn local_only_custom_provider_model_resolution_matches_selected_config_key() {
    let params = request_params_with_custom_provider_model("cfg-selected");

    let model = resolve_custom_provider_model(&params)
        .expect("selected custom model config key should resolve");

    assert_eq!(model.base_url, "https://custom.example/v1");
    assert_eq!(model.api_key, "custom-key");
    assert_eq!(model.model_slug, "llama-local");
}

#[test]
fn local_only_custom_provider_model_resolution_ignores_non_selected_models() {
    let params = request_params_with_custom_provider_model("not-configured");

    assert!(resolve_custom_provider_model(&params).is_none());
}

#[test]
fn resolution_without_custom_providers_is_none() {
    let params = RequestParams { model: LLMId::new("cfg-selected"), custom_model_providers: None };
    assert!(resolve_custom_provider_model(&params).is_none());

    let params = RequestParams {
        model: LLMId::new("cfg-selected"),
        custom_model_providers: Some(CustomModelProviders { providers: vec![] }),
    };
    assert!(resolve_custom_provider_model(&params).is_none());
}

#[test]
fn resolution_matches_config_key_not_slug() {
    let params = request_params_with_custom_provider_model("llama-local");
    assert!(resolve_custom_provider_model(&params).is_none());
}

#[test]
fn first_configured_match_wins() {
    let params = RequestParams {
        model: LLMId::new("shared"),
        custom_model_providers: Some(CustomModelProviders {
            providers: vec![
                provider("https://none.example", "k0", &[("m0", "other")]),
                provider("https://first.example", "k1", &[("m1a", "x"), ("m1b", "shared"), ("m1c", "shared")]),
                provider("https://second.example", "k2", &[("m2", "shared")]),
            ],
        }),
    };
    let model = resolve_custom_provider_model(&params).expect("a provider lists the key");
    assert_eq!(model.base_url, "https://first.example");
    assert_eq!(model.api_key, "k1");
    assert_eq!(model.model_slug, "m1b");
}

#[test]
fn later_providers_do_not_take_over_a_resolved_model() {
    let mut params = request_params_with_custom_provider_model("cfg-selected");
    params
        .custom_model_providers
        .as_mut()
        .unwrap()
        .providers
        .push(provider("https://late.example/v1", "late-key", &[("late", "cfg-selected")]));
    let model = resolve_custom_provider_model(&params).unwrap();
    assert_eq!(model.base_url, "https://custom.example/v1");
    assert_eq!(model.model_slug, "llama-local");
}

#[test]
fn llm_id_keeps_its_text() {
    assert_eq!(LLMId::new("cfg-selected").as_str(), "cfg-selected");
}
