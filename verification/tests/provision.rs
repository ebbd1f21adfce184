use pulumimi::provision::{
    addition_for, entry_point_source, environment_configs, generate_config,
    generate_resource_snippet, get_subscription_info, handle_additional_resources, output_path,
    pipeline_source, snippet_for, subscription_for, AzureSubscription, SnippetTemplates,
};
use pulumimi::record::ProjectConfig;
use pulumimi::settings::Settings;

fn templates() -> SnippetTemplates {
    SnippetTemplates {
        typescript: "// {{project_name}} entry for {{project_name}}\n".to_string(),
        database: "// database of {{project_name}}\n".to_string(),
        storage: "// storage\n".to_string(),
        service_bus: "// service bus\n".to_string(),
        cache: "// cache\n".to_string(),
        keyvault: "// keyvault\n".to_string(),
        registry: "// registry\n".to_string(),
        pipeline: "name: {{project_name}}-pipeline\n".to_string(),
    }
}

#[test]
fn test_generate_config() {
    let azure_subscription = AzureSubscription {
        env: "dev".to_string(),
        id: "1234-5678-91011".to_string(),
        _name: "dev01".to_string(),
        tier: "bronze".to_string(),
        virtual_subnets: vec!["subnet1".to_string(), "subnet2".to_string()],
    };

    let config = ProjectConfig {
        resource_name: "test_app".to_string(),
        environments: vec!["dev".to_string()],
        additional_resources: vec![],
        owner_email: "owner@example.com".to_string(),
    };

    let config = generate_config(&config, &azure_subscription);

    assert_eq!(
        config.config.get("test_app:virtualSubnetworks").unwrap(),
        "subnet1,subnet2"
    );
    assert_eq!(config.config.get("test_app:tier").unwrap(), "bronze");
    assert_eq!(
        config.config.get("test_app:subscriptionId").unwrap(),
        "1234-5678-91011"
    );
    assert_eq!(config.config.get("test_app:location").unwrap(), "eastus2");
    assert_eq!(config.config.get("test_app:env").unwrap(), "dev");
    assert_eq!(config.environment, vec!["meta".to_string()]);
}

#[test]
fn test_get_subscription_info() {
    let dev_subscription = get_subscription_info("dev");
    assert_eq!(dev_subscription.env, "dev");
    assert_eq!(dev_subscription.id, "1234-5678-91011");
    assert_eq!(dev_subscription.tier, "bronze");

    let prod_subscription = get_subscription_info("prod");
    assert_eq!(prod_subscription.env, "prod");
    assert_eq!(prod_subscription.id, "1234-5678-91011");
    assert_eq!(prod_subscription.tier, "platinum");
}

#[test]
fn every_environment_has_its_subscription() {
    let test = get_subscription_info("test");
    assert_eq!(test._name, "nonprod01");
    assert_eq!(test.tier, "silver");
    assert_eq!(test.virtual_subnets, vec!["", ""]);
    let stage = get_subscription_info("stage");
    assert_eq!(stage._name, "preprod01");
    assert_eq!(stage.tier, "gold");
    let fallback = get_subscription_info("");
    assert_eq!(fallback.env, "default");
    assert_eq!(fallback.id, "default-id");
    assert_eq!(fallback._name, "default-name");
    assert_eq!(fallback.tier, "default-tier");
    assert_eq!(fallback.virtual_subnets, vec!["default-subnet"]);
}

#[test]
fn unknown_environment_has_no_subscription() {
    assert!(subscription_for("invalid_env").is_none());
    assert!(subscription_for("Dev").is_none());
    assert!(subscription_for("dev").is_some());
}

#[test]
fn generated_config_holds_all_eight_settings() {
    let record = ProjectConfig {
        resource_name: "shop".to_string(),
        environments: vec![],
        additional_resources: vec![],
        owner_email: "me@shop.io".to_string(),
    };
    let generated = generate_config(&record, &get_subscription_info("stage"));
    assert_eq!(generated.config.len(), 8);
    assert_eq!(generated.config.get("shop:owneremail").unwrap(), "me@shop.io");
    assert_eq!(generated.config.get("shop:virtualSubnetworks").unwrap(), ",");
    assert_eq!(generated.config.get("shop:tier").unwrap(), "gold");
    assert_eq!(generated.config.get("shop:app").unwrap(), "shop");
    assert_eq!(
        generated.config.get("azure-native:location").unwrap(),
        "eastus2"
    );
    assert!(generated.config.get("shop:missing").is_none());
}

#[test]
fn project_named_like_the_provider_shares_the_location() {
    let record = ProjectConfig {
        resource_name: "azure-native".to_string(),
        environments: vec![],
        additional_resources: vec![],
        owner_email: String::new(),
    };
    let generated = generate_config(&record, &get_subscription_info("dev"));
    assert_eq!(generated.config.len(), 7);
    assert_eq!(
        generated.config.get("azure-native:location").unwrap(),
        "eastus2"
    );
}

#[test]
fn settings_keep_one_value_per_name() {
    let mut settings = Settings::new();
    assert_eq!(settings.len(), 0);
    assert!(settings.get("a").is_none());
    settings.insert("a".to_string(), "1".to_string());
    settings.insert("b".to_string(), "2".to_string());
    settings.insert("a".to_string(), "3".to_string());
    assert_eq!(settings.len(), 2);
    assert_eq!(settings.get("a").unwrap(), "3");
    assert_eq!(settings.get("b").unwrap(), "2");
    let first = settings.entry(0);
    assert_eq!((first.0.as_str(), first.1.as_str()), ("a", "3"));
}

#[test]
fn each_environment_gets_its_settings() {
    let record = ProjectConfig::default("shop");
    let files = environment_configs(&record);
    let names: Vec<&str> = files.iter().map(|file| file.0.as_str()).collect();
    assert_eq!(names, vec!["dev", "test", "stage", "prod"]);
    let tiers: Vec<&str> = files
        .iter()
        .map(|file| file.1.config.get("shop:tier").unwrap().as_str())
        .collect();
    assert_eq!(tiers, vec!["bronze", "silver", "gold", "platinum"]);
    assert_eq!(files[3].1.config.get("shop:env").unwrap(), "prod");
    assert_eq!(files[0].1.environment, vec!["meta"]);
}

#[test]
fn snippet_is_found_whatever_the_case() {
    let templates = templates();
    assert_eq!(
        generate_resource_snippet(&templates, "DataBase", Some("shop")),
        "// database of shop\n"
    );
    assert_eq!(
        generate_resource_snippet(&templates, "ContainerRegistry", None),
        "// registry\n"
    );
}

#[test]
fn snippet_without_a_name_is_called_myapp() {
    let templates = templates();
    assert_eq!(
        generate_resource_snippet(&templates, "database", None),
        "// database of myapp\n"
    );
}

#[test]
fn unknown_resource_gives_the_entry_point() {
    let templates = templates();
    assert_eq!(
        generate_resource_snippet(&templates, "test_resource", Some("test_name")),
        "// test_name entry for test_name\n"
    );
    assert_eq!(snippet_for(&templates, "service bus"), templates.typescript);
    assert_eq!(snippet_for(&templates, "servicebus"), "// service bus\n");
    assert_eq!(snippet_for(&templates, "storage"), "// storage\n");
    assert_eq!(snippet_for(&templates, "cache"), "// cache\n");
    assert_eq!(snippet_for(&templates, "keyvault"), "// keyvault\n");
}

#[test]
fn additions_go_by_spaced_names() {
    let templates = templates();
    assert_eq!(addition_for(&templates, "container registry"), Some("// registry\n"));
    assert_eq!(addition_for(&templates, "service bus"), Some("// service bus\n"));
    assert_eq!(addition_for(&templates, "database"), Some("// database of {{project_name}}\n"));
    assert_eq!(addition_for(&templates, "containerregistry"), None);
    assert_eq!(addition_for(&templates, "Database"), None);
    assert_eq!(addition_for(&templates, ""), None);
}

#[test]
fn handle_additional_resources_appends_in_order() {
    let templates = templates();
    let mut modified_index = templates.typescript.clone();
    let additional_resources = vec![
        "container registry".to_string(),
        "database".to_string(),
        "cache".to_string(),
        "storage".to_string(),
        "service bus".to_string(),
        "keyvault".to_string(),
    ];
    let final_index =
        handle_additional_resources(&templates, &mut modified_index, &additional_resources);
    assert!(final_index.contains(&templates.registry));
    assert!(final_index.contains(&templates.database));
    assert!(final_index.contains(&templates.cache));
    assert!(final_index.contains(&templates.storage));
    assert!(final_index.contains(&templates.service_bus));
    assert!(final_index.contains(&templates.keyvault));
    assert_eq!(final_index, modified_index);
    assert_eq!(
        final_index,
        "// {{project_name}} entry for {{project_name}}\n// registry\n// database of {{project_name}}\n// cache\n// storage\n// service bus\n// keyvault\n"
    );
}

#[test]
fn handle_additional_resources_lowers_and_skips() {
    let templates = templates();
    let mut modified_index = String::from("head\n");
    let listed = vec![
        "KeyVault".to_string(),
        "servicebus".to_string(),
        "CACHE".to_string(),
    ];
    let whole = handle_additional_resources(&templates, &mut modified_index, &listed);
    assert_eq!(whole, "head\n// keyvault\n// cache\n");
}

#[test]
fn entry_point_names_the_project() {
    let templates = templates();
    let config = ProjectConfig {
        resource_name: "test_app".to_string(),
        environments: vec!["dev".to_string(), "prod".to_string()],
        additional_resources: vec!["database".to_string(), "keyvault".to_string()],
        owner_email: "".to_string(),
    };
    assert_eq!(
        entry_point_source(&templates, &config),
        "// test_app entry for test_app\n// database of {{project_name}}\n// keyvault\n"
    );
}

#[test]
fn pipeline_names_the_project() {
    let templates = templates();
    let config = ProjectConfig::default("myapp");
    assert_eq!(pipeline_source(&templates, &config), "name: myapp-pipeline\n");
}

#[test]
fn output_path_joins_with_a_slash() {
    assert_eq!(output_path("/tmp/out", "index.ts"), "/tmp/out/index.ts");
    assert_eq!(output_path(".", "dev.yaml"), "./dev.yaml");
}
