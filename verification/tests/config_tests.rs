use yaoscope::config::image_data_url;
use yaoscope::config::message_has_images;
use yaoscope::config::resolve_service_config;
use yaoscope::config::AppConfig;
use yaoscope::config::ConfigError;
use yaoscope::config::ImageAttachment;
use yaoscope::config::Message;
use yaoscope::config::ModelConfig;

fn model(name: &str, base_url: &str, key: Option<&str>, category: Option<&str>) -> ModelConfig {
    ModelConfig {
        name: name.to_string(),
        provider: "openai".to_string(),
        base_url: base_url.to_string(),
        api_key: key.map(|k| k.to_string()),
        category: category.map(|c| c.to_string()),
        supports_vision: None,
    }
}

fn base_config(models: Option<Vec<ModelConfig>>) -> AppConfig {
    AppConfig {
        provider: "openai".to_string(),
        base_url: "http://localhost".to_string(),
        api_key: None,
        model: None,
        models,
        streaming_enabled: None,
        default_think: None,
        max_context_messages: None,
        vl_model: None,
        light_model: None,
        advanced_model: None,
        language: None,
        mcp_max_retries: None,
        mcp_reflection_enabled: None,
        embedding_url: None,
        embedding_model: None,
        embedding_api_key: None,
        embedding_model_path: None,
        rerank_url: None,
        rerank_model: None,
        rerank_api_key: None,
    }
}

fn full_model_list() -> Vec<ModelConfig> {
    vec![
        model("small", "http://s", Some("k1"), Some("light")),
        model("big", "http://b", Some("k1"), Some("advanced")),
        model("eyes", "http://v", None, Some("vl")),
        model("embed", "http://e", Some("k1"), Some("embedding")),
        model("untagged", "http://u", None, None),
    ]
}

#[test]
fn categories_fill_the_roles() {
    let cfg = base_config(Some(full_model_list()));
    let sc = resolve_service_config(&cfg).unwrap();
    assert_eq!(sc.light.model, "small");
    assert_eq!(sc.light.api_base, "http://s");
    assert_eq!(sc.advanced.model, "big");
    assert_eq!(sc.vl.model, "eyes");
    assert_eq!(sc.vl.api_key, "");
    assert_eq!(sc.embedding.model, "embed");
    // The main role is always the advanced model.
    assert_eq!(sc.main.model, "big");
    assert_eq!(sc.main.api_base, "http://b");
    // No rerank configuration: empty fields.
    assert_eq!(sc.rerank.model, "");
    assert_eq!(sc.rerank.api_base, "");
}

#[test]
fn a_later_tag_overrides_an_earlier_one() {
    let mut models = full_model_list();
    models.push(model("bigger", "http://b2", None, Some("advanced")));
    let cfg = base_config(Some(models));
    let sc = resolve_service_config(&cfg).unwrap();
    assert_eq!(sc.advanced.model, "bigger");
    assert_eq!(sc.main.model, "bigger");
}

#[test]
fn explicit_choice_overrides_the_scan() {
    let mut cfg = base_config(Some(full_model_list()));
    cfg.advanced_model = Some("untagged".to_string());
    let sc = resolve_service_config(&cfg).unwrap();
    assert_eq!(sc.advanced.model, "untagged");
    assert_eq!(sc.advanced.api_base, "http://u");
    assert_eq!(sc.main.model, "untagged");
}

#[test]
fn missing_explicit_choice_is_rejected() {
    let mut cfg = base_config(Some(full_model_list()));
    cfg.vl_model = Some("nosuch".to_string());
    let err = resolve_service_config(&cfg).unwrap_err();
    assert!(matches!(&err, ConfigError::VlNotFound(n) if n == "nosuch"));
    assert_eq!(
        err.message(),
        "Specified vl_model 'nosuch' not found in models configuration"
    );

    let mut cfg = base_config(Some(full_model_list()));
    cfg.advanced_model = Some("ghost".to_string());
    let err = resolve_service_config(&cfg).unwrap_err();
    assert!(matches!(&err, ConfigError::AdvancedNotFound(n) if n == "ghost"));
    assert_eq!(
        err.message(),
        "Specified advanced_model 'ghost' not found in models configuration"
    );

    let mut cfg = base_config(Some(full_model_list()));
    cfg.light_model = Some("ghost".to_string());
    let err = resolve_service_config(&cfg).unwrap_err();
    assert!(matches!(&err, ConfigError::LightNotFound(n) if n == "ghost"));
    assert_eq!(
        err.message(),
        "Specified light_model 'ghost' not found in models configuration"
    );
}

#[test]
fn missing_or_empty_list_is_rejected() {
    let err = resolve_service_config(&base_config(None)).unwrap_err();
    assert!(matches!(err, ConfigError::MissingModels));
    assert_eq!(err.message(), "Missing required 'models' configuration in settings");
    let err = resolve_service_config(&base_config(Some(Vec::new()))).unwrap_err();
    assert!(matches!(err, ConfigError::EmptyModels));
}

#[test]
fn unfilled_roles_are_rejected_in_order() {
    let cfg = base_config(Some(vec![model("small", "http://s", None, Some("light"))]));
    let err = resolve_service_config(&cfg).unwrap_err();
    assert!(matches!(err, ConfigError::AdvancedMissing));
    assert_eq!(err.message(), "Advanced model not configured, 主线零降级");

    let cfg = base_config(Some(vec![
        model("small", "http://s", None, Some("light")),
        model("big", "http://b", None, Some("advanced")),
    ]));
    let err = resolve_service_config(&cfg).unwrap_err();
    assert!(matches!(err, ConfigError::VlMissing));

    let cfg = base_config(Some(vec![
        model("big", "http://b", None, Some("advanced")),
        model("eyes", "http://v", None, Some("vl")),
    ]));
    let err = resolve_service_config(&cfg).unwrap_err();
    assert!(matches!(err, ConfigError::LightMissing));
}

#[test]
fn independent_embedding_service_wins() {
    let mut cfg = base_config(Some(full_model_list()));
    cfg.embedding_model = Some("ada".to_string());
    cfg.embedding_url = Some("http://emb".to_string());
    cfg.embedding_api_key = Some("k2".to_string());
    let sc = resolve_service_config(&cfg).unwrap();
    assert_eq!(sc.embedding.model, "ada");
    assert_eq!(sc.embedding.api_base, "http://emb");
}

#[test]
fn named_embedding_model_is_looked_up_in_the_list() {
    let mut cfg = base_config(Some(full_model_list()));
    cfg.embedding_model = Some("untagged".to_string());
    let sc = resolve_service_config(&cfg).unwrap();
    assert_eq!(sc.embedding.model, "untagged");
    assert_eq!(sc.embedding.api_base, "http://u");
    // An unknown name without an independent URL falls back to the scan.
    cfg.embedding_model = Some("nosuch".to_string());
    let sc = resolve_service_config(&cfg).unwrap();
    assert_eq!(sc.embedding.model, "embed");
}

#[test]
fn rerank_comes_from_its_own_fields() {
    let mut cfg = base_config(Some(full_model_list()));
    cfg.rerank_model = Some("rr".to_string());
    cfg.rerank_url = Some("http://rr".to_string());
    let sc = resolve_service_config(&cfg).unwrap();
    assert_eq!(sc.rerank.model, "rr");
    assert_eq!(sc.rerank.api_base, "http://rr");
    assert_eq!(sc.rerank.api_key, "");
}

#[test]
fn vision_format_is_needed_only_with_images() {
    let image = ImageAttachment {
        id: "1".to_string(),
        name: "shot.png".to_string(),
        url: "file:///shot.png".to_string(),
        base64: "AAAA".to_string(),
        mime_type: "image/png".to_string(),
        size: 3,
    };
    let with_images = Message {
        role: "user".to_string(),
        content: "look".to_string(),
        images: Some(vec![image]),
    };
    let empty_images = Message {
        role: "user".to_string(),
        content: "hi".to_string(),
        images: Some(Vec::new()),
    };
    let no_images = Message { role: "user".to_string(), content: "hi".to_string(), images: None };
    assert!(message_has_images(&with_images));
    assert!(!message_has_images(&empty_images));
    assert!(!message_has_images(&no_images));
}

#[test]
fn image_data_url_is_exact() {
    let image = ImageAttachment {
        id: "1".to_string(),
        name: "shot.png".to_string(),
        url: "file:///shot.png".to_string(),
        base64: "AAAA".to_string(),
        mime_type: "image/png".to_string(),
        size: 3,
    };
    assert_eq!(image_data_url(&image), "data:image/png;base64,AAAA");
}
