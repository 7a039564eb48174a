use bindr::config::Config;
use bindr::config::ConfigToml;
use bindr::config::ModelInfoToml;
use bindr::config::ModelProviderToml;
use bindr::config::UiConfigToml;
use bindr::config::ModelInfo;
use bindr::config::ModelProvider;
use bindr::config::UiConfig;

fn provider(name: &str, base_url: &str, env: Option<&str>) -> ModelProvider {
    ModelProvider {
        name: name.into(),
        base_url: base_url.into(),
        api_key_env: env.map(String::from),
        models: vec![ModelInfo {
            id: String::from("model-1"),
            name: String::from("Model One"),
            description: String::from("A model"),
            is_premium: false,
        }],
    }
}

fn sample_config() -> Config {
    Config {
        selected_provider: String::from("openai"),
        api_keys: vec![],
        default_model: String::from("gpt-4o-mini"),
        model_providers: vec![
            (String::from("openai"), provider("OpenAI", "https://api.openai.com/v1", Some("OPENAI_API_KEY"))),
            (String::from("anthropic"), provider("Anthropic", "https://api.anthropic.com", Some("ANTHROPIC_API_KEY"))),
            (String::from("xai"), provider("xAI", "https://api.x.ai/v1", Some("XAI_API_KEY"))),
            (String::from("google"), provider("Google", "https://generativelanguage.googleapis.com/v1beta", Some("GOOGLE_API_KEY"))),
        ],
        user_instructions: None,
        bindr_home: String::from("/home/someone/.bindr"),
        projects_dir: String::from("/home/someone/.bindr/projects"),
        cwd: String::from("/home/someone/project"),
        ui: UiConfig {
            theme: String::from("dark"),
            show_usage_counter: true,
            auto_save_interval: 30,
        },
    }
}

#[test]
fn the_selected_provider_is_found_in_the_catalog() {
    let config = sample_config();
    let current = config.get_current_provider().expect("openai should be present");
    assert_eq!(current.name, "OpenAI");
    assert_eq!(current.base_url, "https://api.openai.com/v1");
}

#[test]
fn an_unknown_selection_has_no_provider() {
    let mut config = sample_config();
    config.set_selected_provider(String::from("nowhere"));
    assert!(config.get_current_provider().is_none());
}

#[test]
fn api_keys_are_stored_and_read_back() {
    let mut config = sample_config();
    assert!(!config.has_api_key());
    assert_eq!(config.get_api_key(), None);
    config.set_api_key(String::from("openai"), String::from("SECRET-REDACTED"));
    assert!(config.has_api_key());
    assert_eq!(config.get_api_key(), Some(String::from("SECRET-REDACTED")));
}

#[test]
fn setting_a_key_twice_replaces_it() {
    let mut config = sample_config();
    config.set_api_key(String::from("openai"), String::from("first"));
    config.set_api_key(String::from("openai"), String::from("second"));
    assert_eq!(config.get_api_key(), Some(String::from("second")));
    assert_eq!(config.api_keys.len(), 1);
}

#[test]
fn keys_of_other_providers_do_not_count() {
    let mut config = sample_config();
    config.set_api_key(String::from("anthropic"), String::from("k"));
    assert!(!config.has_api_key());
    config.set_selected_provider(String::from("anthropic"));
    assert!(config.has_api_key());
}

#[test]
fn providers_come_out_sorted_by_display_name() {
    let config = sample_config();
    let providers = config.get_providers();
    let names: Vec<&str> = providers.iter().map(|(_, p)| p.name.as_str()).collect();
    assert_eq!(names, vec!["Anthropic", "Google", "OpenAI", "xAI"]);
    let ids: Vec<&str> = providers.iter().map(|(id, _)| id.as_str()).collect();
    assert_eq!(ids, vec!["anthropic", "google", "openai", "xai"]);
}

#[test]
fn the_custom_model_becomes_the_default() {
    let mut config = sample_config();
    config.set_custom_model(String::from("openrouter/special"));
    assert_eq!(config.default_model, "openrouter/special");
}

#[test]
fn usage_is_not_tracked_yet() {
    let config = sample_config();
    assert_eq!(config.get_usage_info(), (0, 100));
}

#[test]
fn the_stock_catalog_lists_six_providers_in_order() {
    let catalog = Config::create_default_model_providers();
    let ids: Vec<&str> = catalog.iter().map(|(id, _)| id.as_str()).collect();
    assert_eq!(ids, vec!["openai", "anthropic", "google", "xai", "openrouter", "mistral"]);
    let openai = &catalog[0].1;
    assert_eq!(openai.name, "OpenAI");
    assert_eq!(openai.base_url, "https://api.openai.com/v1");
    assert_eq!(openai.api_key_env.as_deref(), Some("OPENAI_API_KEY"));
    assert_eq!(openai.models.len(), 4);
    assert_eq!(openai.models[0].id, "gpt-5");
    assert!(openai.models[0].is_premium);
    assert_eq!(openai.models[3].id, "gpt-3.5-turbo");
    assert!(!openai.models[3].is_premium);
    let openrouter = &catalog[4].1;
    assert_eq!(openrouter.base_url, "https://openrouter.ai/api");
    assert_eq!(openrouter.models.len(), 10);
}

#[test]
fn merging_keeps_stored_names_and_refreshes_the_rest() {
    let mut providers = vec![
        (
            String::from("openai"),
            provider("My OpenAI", "https://old.example/v1", None),
        ),
        (
            String::from("local"),
            provider("Local", "http://localhost:8080", None),
        ),
    ];
    Config::merge_builtin_provider_catalog(&mut providers);
    let openai = &providers
        .iter()
        .find(|(id, _)| id == "openai")
        .expect("openai kept")
        .1;
    assert_eq!(openai.name, "My OpenAI");
    assert_eq!(openai.base_url, "https://api.openai.com/v1");
    assert_eq!(openai.models.len(), 4);
    let local = &providers
        .iter()
        .find(|(id, _)| id == "local")
        .expect("local kept")
        .1;
    assert_eq!(local.base_url, "http://localhost:8080");
    for id in ["anthropic", "google", "xai", "openrouter", "mistral"] {
        assert!(providers.iter().any(|(key, _)| key == id), "{} appended", id);
    }
    assert_eq!(providers.len(), 7);
}

#[test]
fn the_on_disk_shape_carries_every_field() {
    let mut config = sample_config();
    config.set_api_key(String::from("openai"), String::from("stored")); 
    let toml = config.to_config_toml();
    assert_eq!(toml.selected_provider.as_deref(), Some("openai"));
    assert_eq!(toml.default_model.as_deref(), Some("gpt-4o-mini"));
    let keys = toml.api_keys.expect("keys present");
    assert_eq!(keys, vec![(String::from("openai"), String::from("stored"))]);
    let providers = toml.model_providers.expect("providers present");
    assert_eq!(providers.len(), 4);
    assert_eq!(providers[0].0, "openai");
    assert_eq!(providers[0].1.name, "OpenAI");
    assert_eq!(providers[0].1.models[0].id, "model-1");
    assert_eq!(providers[0].1.models[0].description.as_deref(), Some("A model"));
    let ui = toml.ui.expect("ui present");
    assert_eq!(ui.theme.as_deref(), Some("dark"));
    assert_eq!(ui.show_emojis, Some(true));
    assert_eq!(ui.max_history_lines, Some(30));
}

#[test]
fn an_empty_file_yields_the_stock_configuration() {
    let config = Config::from_config_toml(
        ConfigToml::default(),
        String::from("/home/someone/.bindr"),
        String::from("/home/someone/project"),
    );
    assert_eq!(config.selected_provider, "openai");
    assert_eq!(config.default_model, "gpt-5");
    assert!(config.api_keys.is_empty());
    assert_eq!(config.projects_dir, "/home/someone/.bindr/projects");
    assert_eq!(config.ui.theme, "default");
    assert!(config.ui.show_usage_counter);
    assert_eq!(config.ui.auto_save_interval, 30);
    assert_eq!(config.model_providers.len(), 6);
    assert_eq!(config.model_providers[0].0, "openai");
}

#[test]
fn a_legacy_aggregator_url_is_rewritten_on_load() {
    let toml = ConfigToml {
        selected_provider: Some(String::from("openrouter")),
        default_model: None,
        api_keys: None,
        model_providers: Some(vec![(
            String::from("openrouter"),
            ModelProviderToml {
                name: String::from("My Router"),
                base_url: String::from("https://openrouter.ai/api/v1/"),
                api_key_env: None,
                models: vec![],
            },
        )]),
        ui: None,
    };
    let config = Config::from_config_toml(toml, String::from("/h/.bindr"), String::from("/h"));
    let openrouter = &config
        .model_providers
        .iter()
        .find(|(id, _)| id == "openrouter")
        .expect("openrouter present")
        .1;
    assert_eq!(openrouter.name, "My Router");
    assert_eq!(openrouter.base_url, "https://openrouter.ai/api");
    assert_eq!(openrouter.models.len(), 10);
}

#[test]
fn loaded_models_carry_no_premium_flag() {
    let toml = ConfigToml {
        selected_provider: None,
        default_model: None,
        api_keys: None,
        model_providers: Some(vec![(
            String::from("local"),
            ModelProviderToml {
                name: String::from("Local"),
                base_url: String::from("http://localhost:8080"),
                api_key_env: None,
                models: vec![ModelInfoToml {
                    id: String::from("tiny"),
                    name: String::from("Tiny"),
                    description: None,
                }],
            },
        )]),
        ui: Some(UiConfigToml {
            theme: None,
            show_emojis: Some(false),
            max_history_lines: Some(250),
        }),
    };
    let config = Config::from_config_toml(toml, String::from("/h/.bindr"), String::from("/h"));
    let local = &config
        .model_providers
        .iter()
        .find(|(id, _)| id == "local")
        .expect("local present")
        .1;
    assert_eq!(local.models.len(), 1);
    assert!(!local.models[0].is_premium);
    assert_eq!(local.models[0].description, "");
    assert!(!config.ui.show_usage_counter);
    assert_eq!(config.ui.theme, "default");
    assert_eq!(config.ui.auto_save_interval, 250);
}
