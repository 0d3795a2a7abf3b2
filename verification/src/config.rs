//! Application configuration and its resolution into a service model
//! configuration.
//!
//! The configuration lists models, each optionally tagged with a category,
//! and may in addition name explicit choices per role. Resolution turns that
//! into one endpoint per role — main, advanced, vision, light, embedding,
//! rerank — or rejects the configuration: a named choice must exist in the
//! list, and the advanced, vision and light roles must end up filled. The
//! host loads the configuration from disk and sends the resolved form to the
//! agent service; both of those steps stay with the host.

use vstd::prelude::*;
use vstd::string::StringExecFns;
use crate::resolver::str_eq;

verus! {

/// One configured model.
#[derive(Debug)]
pub struct ModelConfig {
    /// Model name, unique enough to select by.
    pub name: String,
    /// Provider the model is served by.
    pub provider: String,
    /// Base URL of the serving endpoint.
    pub base_url: String,
    /// Credential for the endpoint, if any.
    pub api_key: Option<String>,
    /// Role category, such as "light", "advanced", "vl" or "embedding".
    pub category: Option<String>,
    /// Whether the model accepts image input.
    pub supports_vision: Option<bool>,
}

/// The application configuration, as far as the resolution logic reads it.
#[derive(Debug)]
pub struct AppConfig {
    /// Default provider name.
    pub provider: String,
    /// Default base URL.
    pub base_url: String,
    /// Default credential.
    pub api_key: Option<String>,
    /// Explicitly selected default model.
    pub model: Option<String>,
    /// The configured models.
    pub models: Option<Vec<ModelConfig>>,
    /// Whether streaming responses are enabled.
    pub streaming_enabled: Option<bool>,
    /// Whether extended reasoning is requested by default.
    pub default_think: Option<bool>,
    /// Bound on the conversation context handed to the model.
    pub max_context_messages: Option<u32>,
    /// Explicit choice for the vision role.
    pub vl_model: Option<String>,
    /// Explicit choice for the light role.
    pub light_model: Option<String>,
    /// Explicit choice for the advanced role.
    pub advanced_model: Option<String>,
    /// UI language.
    pub language: Option<String>,
    /// Bound on tool-call retries.
    pub mcp_max_retries: Option<u32>,
    /// Whether tool-call reflection is enabled.
    pub mcp_reflection_enabled: Option<bool>,
    /// Embedding service URL, configured independently of the model list.
    pub embedding_url: Option<String>,
    /// Embedding model name.
    pub embedding_model: Option<String>,
    /// Embedding service credential.
    pub embedding_api_key: Option<String>,
    /// Path of a local embedding model.
    pub embedding_model_path: Option<String>,
    /// Rerank service URL.
    pub rerank_url: Option<String>,
    /// Rerank model name.
    pub rerank_model: Option<String>,
    /// Rerank service credential.
    pub rerank_api_key: Option<String>,
}

/// One chat message.
#[derive(Debug)]
pub struct Message {
    /// Who the message is from.
    pub role: String,
    /// The message text.
    pub content: String,
    /// Images attached to the message.
    pub images: Option<Vec<ImageAttachment>>,
}

/// One image attached to a chat message.
#[derive(Debug)]
pub struct ImageAttachment {
    /// Identifier of the attachment.
    pub id: String,
    /// File name of the image.
    pub name: String,
    /// Source URL of the image.
    pub url: String,
    /// The image data, encoded for transport.
    pub base64: String,
    /// Media type of the image.
    pub mime_type: String,
    /// Size of the image in bytes.
    pub size: u64,
}

/// One resolved serving endpoint.
#[derive(Debug)]
pub struct ServiceEndpoint {
    /// Model name.
    pub model: String,
    /// Base URL of the endpoint.
    pub api_base: String,
    /// Credential, empty when none is configured.
    pub api_key: String,
}

/// The resolved service model configuration, one endpoint per role.
#[derive(Debug)]
pub struct ServiceConfig {
    /// The main role; always the advanced model.
    pub main: ServiceEndpoint,
    /// The advanced role.
    pub advanced: ServiceEndpoint,
    /// The vision role.
    pub vl: ServiceEndpoint,
    /// The light role.
    pub light: ServiceEndpoint,
    /// The embedding role; empty fields when not configured.
    pub embedding: ServiceEndpoint,
    /// The rerank role; empty fields when not configured.
    pub rerank: ServiceEndpoint,
}

/// Why a configuration cannot be resolved.
#[derive(Debug)]
pub enum ConfigError {
    /// The configuration has no model list at all.
    MissingModels,
    /// The model list is empty.
    EmptyModels,
    /// The explicitly chosen advanced model is not in the list.
    AdvancedNotFound(String),
    /// The explicitly chosen vision model is not in the list.
    VlNotFound(String),
    /// The explicitly chosen light model is not in the list.
    LightNotFound(String),
    /// No advanced model is chosen or tagged.
    AdvancedMissing,
    /// No vision model is chosen or tagged.
    VlMissing,
    /// No light model is chosen or tagged.
    LightMissing,
}

impl ConfigError {
    /// A human-readable description of the failure.
    pub fn message(&self) -> (r: String)
        ensures
            *self is MissingModels ==> r@ == "Missing required 'models' configuration in settings"@,
            *self is EmptyModels ==> r@ == "Empty 'models' configuration in settings"@,
            *self matches ConfigError::AdvancedNotFound(n) ==> r@ == "Specified advanced_model '"@
                + n@ + "' not found in models configuration"@,
            *self matches ConfigError::VlNotFound(n) ==> r@ == "Specified vl_model '"@ + n@
                + "' not found in models configuration"@,
            *self matches ConfigError::LightNotFound(n) ==> r@ == "Specified light_model '"@ + n@
                + "' not found in models configuration"@,
            *self is AdvancedMissing ==> r@ == "Advanced model not configured, 主线零降级"@,
            *self is VlMissing ==> r@
                == "No VL model configured. Please set 'vl_model' or add a 'vl' category model"@,
            *self is LightMissing ==> r@
                == "No light model configured. Please set 'light_model' or add a 'light' category model"@,
    {
        match self {
            ConfigError::MissingModels => String::from_str(
                "Missing required 'models' configuration in settings",
            ),
            ConfigError::EmptyModels => String::from_str(
                "Empty 'models' configuration in settings",
            ),
            ConfigError::AdvancedNotFound(n) => {
                let mut m = String::from_str("Specified advanced_model '");
                m.append(n.as_str());
                m.append("' not found in models configuration");
                m
            },
            ConfigError::VlNotFound(n) => {
                let mut m = String::from_str("Specified vl_model '");
                m.append(n.as_str());
                m.append("' not found in models configuration");
                m
            },
            ConfigError::LightNotFound(n) => {
                let mut m = String::from_str("Specified light_model '");
                m.append(n.as_str());
                m.append("' not found in models configuration");
                m
            },
            ConfigError::AdvancedMissing => String::from_str("Advanced model not configured, 主线零降级"),
            ConfigError::VlMissing => String::from_str(
                "No VL model configured. Please set 'vl_model' or add a 'vl' category model",
            ),
            ConfigError::LightMissing => String::from_str(
                "No light model configured. Please set 'light_model' or add a 'light' category model",
            ),
        }
    }
}

/// The text of an optional string, empty when absent.
pub open spec fn spec_opt_or_empty(v: Option<String>) -> Seq<char> {
    match v {
        Some(s) => s@,
        None => Seq::empty(),
    }
}

/// Whether a model is tagged with the given category.
pub open spec fn spec_has_category(e: ModelConfig, cat: Seq<char>) -> bool {
    e.category matches Some(c) && c@ == cat
}

/// The last model in the list tagged with the given category, if any — a
/// later tag overrides an earlier one.
pub open spec fn spec_last_category(models: Seq<ModelConfig>, cat: Seq<char>) -> Option<ModelConfig>
    decreases models.len(),
{
    if models.len() == 0 {
        None
    } else if spec_has_category(models.last(), cat) {
        Some(models.last())
    } else {
        spec_last_category(models.drop_last(), cat)
    }
}

/// The first model in the list with the given name, if any.
pub open spec fn spec_first_named(models: Seq<ModelConfig>, name: Seq<char>) -> Option<ModelConfig>
    decreases models.len(),
{
    if models.len() == 0 {
        None
    } else if models[0].name@ == name {
        Some(models[0])
    } else {
        spec_first_named(models.drop_first(), name)
    }
}

/// The model filling a role: the explicitly chosen one when a choice is
/// named, otherwise the last model tagged with the role's category.
pub open spec fn spec_slot(
    models: Seq<ModelConfig>,
    specified: Option<String>,
    cat: Seq<char>,
) -> Option<ModelConfig> {
    match specified {
        Some(n) => spec_first_named(models, n@),
        None => spec_last_category(models, cat),
    }
}

/// The name of an explicit choice that is missing from the list, if any.
pub open spec fn spec_missing_override(specified: Option<String>, models: Seq<ModelConfig>) -> Option<
    String,
> {
    match specified {
        Some(n) => if spec_first_named(models, n@) is None {
            Some(n)
        } else {
            None
        },
        None => None,
    }
}

/// Whether an endpoint is the one a model configures.
pub open spec fn spec_endpoint_matches(ep: ServiceEndpoint, e: ModelConfig) -> bool {
    &&& ep.model@ == e.name@
    &&& ep.api_base@ == e.base_url@
    &&& ep.api_key@ == spec_opt_or_empty(e.api_key)
}

/// Whether an endpoint has all fields empty.
pub open spec fn spec_endpoint_empty(ep: ServiceEndpoint) -> bool {
    ep.model@ == Seq::<char>::empty() && ep.api_base@ == Seq::<char>::empty() && ep.api_key@
        == Seq::<char>::empty()
}

/// The embedding endpoint falling out of the category scan alone.
pub open spec fn spec_scanned_embedding(models: Seq<ModelConfig>, ep: ServiceEndpoint) -> bool {
    match spec_last_category(models, "embedding"@) {
        Some(e) => spec_endpoint_matches(ep, e),
        None => spec_endpoint_empty(ep),
    }
}

/// Whether `ep` is the embedding endpoint the configuration resolves to: an
/// independently configured embedding service wins; otherwise a choice named
/// in the list; otherwise the category scan.
pub open spec fn spec_embedding_endpoint(
    cfg: &AppConfig,
    models: Seq<ModelConfig>,
    ep: ServiceEndpoint,
) -> bool {
    match cfg.embedding_model {
        Some(n) => if cfg.embedding_url is Some {
            ep.model@ == n@ && ep.api_base@ == spec_opt_or_empty(cfg.embedding_url) && ep.api_key@
                == spec_opt_or_empty(cfg.embedding_api_key)
        } else {
            match spec_first_named(models, n@) {
                Some(e) => spec_endpoint_matches(ep, e),
                None => spec_scanned_embedding(models, ep),
            }
        },
        None => spec_scanned_embedding(models, ep),
    }
}

/// The first reason the configuration is rejected, if any: no or empty model
/// list; an explicit choice (advanced, vision, light, in that order) missing
/// from the list; a role (advanced, vision, light, in that order) left
/// unfilled.
pub open spec fn spec_config_error(cfg: &AppConfig) -> Option<ConfigError> {
    match cfg.models {
        None => Some(ConfigError::MissingModels),
        Some(models) => {
            let ms = models@;
            if ms.len() == 0 {
                Some(ConfigError::EmptyModels)
            } else {
                match spec_missing_override(cfg.advanced_model, ms) {
                    Some(n) => Some(ConfigError::AdvancedNotFound(n)),
                    None => match spec_missing_override(cfg.vl_model, ms) {
                        Some(n) => Some(ConfigError::VlNotFound(n)),
                        None => match spec_missing_override(cfg.light_model, ms) {
                            Some(n) => Some(ConfigError::LightNotFound(n)),
                            None => if spec_slot(ms, cfg.advanced_model, "advanced"@) is None {
                                Some(ConfigError::AdvancedMissing)
                            } else if spec_slot(ms, cfg.vl_model, "vl"@) is None {
                                Some(ConfigError::VlMissing)
                            } else if spec_slot(ms, cfg.light_model, "light"@) is None {
                                Some(ConfigError::LightMissing)
                            } else {
                                None
                            },
                        },
                    },
                }
            }
        },
    }
}

/// Whether a resolved configuration is exactly what `cfg` resolves to.
pub open spec fn spec_resolved_config(cfg: &AppConfig, sc: ServiceConfig) -> bool {
    cfg.models matches Some(models) && {
        let ms = models@;
        &&& spec_slot(ms, cfg.advanced_model, "advanced"@) matches Some(e)
            && spec_endpoint_matches(sc.advanced, e) && spec_endpoint_matches(sc.main, e)
        &&& spec_slot(ms, cfg.vl_model, "vl"@) matches Some(e) && spec_endpoint_matches(sc.vl, e)
        &&& spec_slot(ms, cfg.light_model, "light"@) matches Some(e) && spec_endpoint_matches(
            sc.light,
            e,
        )
        &&& spec_embedding_endpoint(cfg, ms, sc.embedding)
        &&& sc.rerank.model@ == spec_opt_or_empty(cfg.rerank_model)
        &&& sc.rerank.api_base@ == spec_opt_or_empty(cfg.rerank_url)
        &&& sc.rerank.api_key@ == spec_opt_or_empty(cfg.rerank_api_key)
    }
}

proof fn lemma_category_literals_distinct()
    ensures
        "light"@ != "advanced"@,
        "light"@ != "vl"@,
        "light"@ != "embedding"@,
        "advanced"@ != "vl"@,
        "advanced"@ != "embedding"@,
        "vl"@ != "embedding"@,
{
    reveal_strlit("light");
    reveal_strlit("advanced");
    reveal_strlit("vl");
    reveal_strlit("embedding");
    assert("light"@.len() == 5);
    assert("advanced"@.len() == 8);
    assert("vl"@.len() == 2);
    assert("embedding"@.len() == 9);
}

fn has_category(e: &ModelConfig, cat: &str) -> (r: bool)
    ensures
        r == spec_has_category(*e, cat@),
{
    match &e.category {
        Some(c) => str_eq(c.as_str(), cat),
        None => false,
    }
}

proof fn lemma_first_named_at(models: Seq<ModelConfig>, name: Seq<char>, i: int)
    requires
        0 <= i < models.len(),
        forall|j: int| 0 <= j < i ==> models[j].name@ != name,
        models[i].name@ == name,
    ensures
        spec_first_named(models, name) == Some(models[i]),
    decreases models.len(),
{
    if i == 0 {
    } else {
        lemma_first_named_at(models.drop_first(), name, i - 1);
    }
}

proof fn lemma_first_named_none(models: Seq<ModelConfig>, name: Seq<char>)
    requires
        forall|j: int| 0 <= j < models.len() ==> models[j].name@ != name,
    ensures
        spec_first_named(models, name) is None,
    decreases models.len(),
{
    if models.len() == 0 {
    } else {
        lemma_first_named_none(models.drop_first(), name);
    }
}

/// Index of the first model with the given name.
fn find_named(models: &Vec<ModelConfig>, name: &str) -> (r: Option<usize>)
    ensures
        r matches Some(j) ==> 0 <= j < models@.len() && spec_first_named(models@, name@) == Some(
            models@[j as int],
        ),
        r is None ==> spec_first_named(models@, name@) is None,
{
    let n = models.len();
    let mut i: usize = 0;
    while i < n
        invariant
            n == models@.len(),
            0 <= i <= n,
            forall|j: int| 0 <= j < i ==> models@[j].name@ != name@,
        decreases n - i,
    {
        if str_eq(models[i].name.as_str(), name) {
            proof {
                lemma_first_named_at(models@, name@, i as int);
            }
            return Some(i);
        }
        i += 1;
    }
    proof {
        lemma_first_named_none(models@, name@);
    }
    None
}

/// The endpoint a model configures.
fn endpoint_from(e: &ModelConfig) -> (r: ServiceEndpoint)
    ensures
        spec_endpoint_matches(r, *e),
{
    ServiceEndpoint {
        model: e.name.clone(),
        api_base: e.base_url.clone(),
        api_key: match &e.api_key {
            Some(k) => k.clone(),
            None => String::new(),
        },
    }
}

/// The text of an optional string, empty when absent.
fn opt_string_or_empty(v: &Option<String>) -> (r: String)
    ensures
        r@ == spec_opt_or_empty(*v),
{
    match v {
        Some(s) => s.clone(),
        None => String::new(),
    }
}

/// Tracks, during the category scan, the index of the last model so far that
/// fills the category.
spec fn spec_scan_tracks(
    models: Seq<ModelConfig>,
    upto: int,
    idx: Option<usize>,
    cat: Seq<char>,
) -> bool {
    match idx {
        Some(j) => 0 <= j < upto && spec_last_category(models.subrange(0, upto), cat) == Some(
            models[j as int],
        ),
        None => spec_last_category(models.subrange(0, upto), cat) is None,
    }
}

/// Resolves the configuration into one endpoint per role, or rejects it.
///
/// The category scan fills the advanced, vision, light and embedding roles
/// with the last model of each category; an explicitly chosen model
/// overrides the scan and must exist in the list; the main role is always
/// the advanced model; an independently configured embedding service takes
/// precedence over the list; the rerank role comes from its own fields
/// alone. Resolution fails exactly when the list is absent or empty, an
/// explicit choice is missing from the list, or the advanced, vision or
/// light role ends up unfilled.
pub fn resolve_service_config(cfg: &AppConfig) -> (r: Result<ServiceConfig, ConfigError>)
    ensures
        r is Ok <==> spec_config_error(cfg) is None,
        r matches Err(e) ==> spec_config_error(cfg) == Some(e),
        r matches Ok(sc) ==> spec_resolved_config(cfg, sc),
{
    let models = match &cfg.models {
        Some(m) => m,
        None => {
            return Err(ConfigError::MissingModels);
        },
    };
    let n = models.len();
    if n == 0 {
        return Err(ConfigError::EmptyModels);
    }
    let mut light_idx: Option<usize> = None;
    let mut advanced_idx: Option<usize> = None;
    let mut vl_idx: Option<usize> = None;
    let mut embedding_idx: Option<usize> = None;
    for i in 0..n
        invariant
            n == models@.len(),
            spec_scan_tracks(models@, i as int, light_idx, "light"@),
            spec_scan_tracks(models@, i as int, advanced_idx, "advanced"@),
            spec_scan_tracks(models@, i as int, vl_idx, "vl"@),
            spec_scan_tracks(models@, i as int, embedding_idx, "embedding"@),
    {
        proof {
            lemma_category_literals_distinct();
            assert(models@.subrange(0, i + 1 as int).drop_last() =~= models@.subrange(0, i as int));
            assert(models@.subrange(0, i + 1 as int).last() == models@[i as int]);
        }
        let entry = &models[i];
        if has_category(entry, "light") {
            light_idx = Some(i);
        } else if has_category(entry, "advanced") {
            advanced_idx = Some(i);
        } else if has_category(entry, "vl") {
            vl_idx = Some(i);
        } else if has_category(entry, "embedding") {
            embedding_idx = Some(i);
        }
    }
    proof {
        assert(models@.subrange(0, n as int) =~= models@);
    }
    let advanced_sel: Option<usize> = match &cfg.advanced_model {
        Some(name) => match find_named(models, name.as_str()) {
            Some(j) => Some(j),
            None => {
                return Err(ConfigError::AdvancedNotFound(name.clone()));
            },
        },
        None => advanced_idx,
    };
    let vl_sel: Option<usize> = match &cfg.vl_model {
        Some(name) => match find_named(models, name.as_str()) {
            Some(j) => Some(j),
            None => {
                return Err(ConfigError::VlNotFound(name.clone()));
            },
        },
        None => vl_idx,
    };
    let light_sel: Option<usize> = match &cfg.light_model {
        Some(name) => match find_named(models, name.as_str()) {
            Some(j) => Some(j),
            None => {
                return Err(ConfigError::LightNotFound(name.clone()));
            },
        },
        None => light_idx,
    };
    let advanced_j = match advanced_sel {
        Some(j) => j,
        None => {
            return Err(ConfigError::AdvancedMissing);
        },
    };
    let vl_j = match vl_sel {
        Some(j) => j,
        None => {
            return Err(ConfigError::VlMissing);
        },
    };
    let light_j = match light_sel {
        Some(j) => j,
        None => {
            return Err(ConfigError::LightMissing);
        },
    };
    let embedding = match (&cfg.embedding_model, &cfg.embedding_url) {
        (Some(m), Some(u)) => ServiceEndpoint {
            model: m.clone(),
            api_base: u.clone(),
            api_key: opt_string_or_empty(&cfg.embedding_api_key),
        },
        (Some(m), None) => match find_named(models, m.as_str()) {
            Some(j) => endpoint_from(&models[j]),
            None => match embedding_idx {
                Some(j) => endpoint_from(&models[j]),
                None => ServiceEndpoint {
                    model: String::new(),
                    api_base: String::new(),
                    api_key: String::new(),
                },
            },
        },
        (None, _) => match embedding_idx {
            Some(j) => endpoint_from(&models[j]),
            None => ServiceEndpoint {
                model: String::new(),
                api_base: String::new(),
                api_key: String::new(),
            },
        },
    };
    let rerank = ServiceEndpoint {
        model: opt_string_or_empty(&cfg.rerank_model),
        api_base: opt_string_or_empty(&cfg.rerank_url),
        api_key: opt_string_or_empty(&cfg.rerank_api_key),
    };
    Ok(
        ServiceConfig {
            main: endpoint_from(&models[advanced_j]),
            advanced: endpoint_from(&models[advanced_j]),
            vl: endpoint_from(&models[vl_j]),
            light: endpoint_from(&models[light_j]),
            embedding,
            rerank,
        },
    )
}

/// Whether a chat message carries at least one image and so must be sent in
/// the vision request format.
pub fn message_has_images(msg: &Message) -> (r: bool)
    ensures
        r == (msg.images matches Some(images) && images@.len() > 0),
{
    match &msg.images {
        Some(images) => images.len() > 0,
        None => false,
    }
}

/// The inline data URL an attached image is sent as.
pub fn image_data_url(image: &ImageAttachment) -> (r: String)
    ensures
        r@ == "data:"@ + image.mime_type@ + ";base64,"@ + image.base64@,
{
    let mut url = String::from_str("data:");
    url.append(image.mime_type.as_str());
    url.append(";base64,");
    url.append(image.base64.as_str());
    url
}

} // verus!
