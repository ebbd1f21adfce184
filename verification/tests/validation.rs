use pulumimi::record::ProjectConfig;
use pulumimi::session::App;
use pulumimi::validation::validate_inputs;

fn app_with(name: &str, contact: &str, environments: Vec<String>) -> App {
    let mut app = App::new();
    app.config.resource_name = name.to_string();
    app.config.owner_email = contact.to_string();
    app.config.environments = environments;
    app
}

#[test]
fn test_validate_inputs() {
    let mut app = App::new();
    app.config.resource_name = "test".to_string();
    app.config.owner_email = "".to_owned();
    app.config.environments = vec!["dev".to_string()];
    assert_eq!(
        validate_inputs(&app),
        Err("Owner email cannot be empty.".to_string())
    );
}

#[test]
fn empty_name_is_reported_first() {
    let app = app_with("", "", vec![]);
    assert_eq!(
        validate_inputs(&app),
        Err("Resource name cannot be empty.".to_string())
    );
}

#[test]
fn empty_name_is_reported_even_with_contact_and_environment() {
    let app = app_with("", "a@b.com", vec!["dev".to_string()]);
    assert_eq!(
        validate_inputs(&app),
        Err("Resource name cannot be empty.".to_string())
    );
}

#[test]
fn empty_contact_is_reported_before_environments() {
    let app = app_with("test", "", vec![]);
    assert_eq!(
        validate_inputs(&app),
        Err("Owner email cannot be empty.".to_string())
    );
}

#[test]
fn no_environment_is_reported() {
    let app = app_with("test", "a@b.com", vec![]);
    assert_eq!(
        validate_inputs(&app),
        Err("At least one environment must be selected".to_string())
    );
}

#[test]
fn complete_record_passes() {
    let app = app_with("test", "a@b.com", vec!["dev".to_string()]);
    assert_eq!(validate_inputs(&app), Ok(()));
}

#[test]
fn resources_may_be_empty() {
    let mut app = app_with("test", "a@b.com", vec!["dev".to_string()]);
    app.config.additional_resources = Vec::new();
    assert_eq!(validate_inputs(&app), Ok(()));
}

#[test]
fn contact_shape_is_not_checked() {
    let app = app_with("!!", "not an address", vec!["prod".to_string()]);
    assert_eq!(validate_inputs(&app), Ok(()));
}

#[test]
fn fresh_session_lacks_only_the_contact() {
    let app = App::new();
    assert_eq!(
        validate_inputs(&app),
        Err("Owner email cannot be empty.".to_string())
    );
}

#[test]
fn default_record_selects_everything() {
    let config = ProjectConfig::default("shop");
    assert_eq!(config.resource_name, "shop");
    assert_eq!(config.owner_email, "");
    assert_eq!(config.environments, vec!["dev", "test", "stage", "prod"]);
    assert_eq!(
        config.additional_resources,
        vec![
            "database",
            "cache",
            "servicebus",
            "storage",
            "keyvault",
            "containerregistry"
        ]
    );
}
