use slyh::config::{
    choose_locale, plan_config_dir, preferred_locale, ConfigDirError, ConfigDirPlan,
    LocalesConfig,
};

#[test]
fn default_locales_force_nothing() {
    assert_eq!(LocalesConfig::default(), LocalesConfig { force_locale: None });
}

#[test]
fn forced_locale_wins() {
    assert_eq!(
        choose_locale(Some("ru-RU".to_string()), Some("de-DE".to_string())),
        "ru-RU"
    );
    let config = LocalesConfig { force_locale: Some("ru-RU".to_string()) };
    assert_eq!(preferred_locale(&config), "ru-RU");
}

#[test]
fn system_locale_then_fallback() {
    assert_eq!(choose_locale(None, Some("de-DE".to_string())), "de-DE");
    assert_eq!(choose_locale(None, None), "en-US");
}

#[test]
fn preferred_locale_without_force_follows_the_system() {
    let config = LocalesConfig::default();
    let expected = sys_locale::get_locale().unwrap_or_else(|| "en-US".to_string());
    assert_eq!(preferred_locale(&config), expected);
}

#[test]
fn config_dir_plans() {
    assert_eq!(plan_config_dir(false, false, false), Err(ConfigDirError::ConfigDirNotFound));
    assert_eq!(plan_config_dir(false, true, true), Err(ConfigDirError::ConfigDirNotFound));
    assert_eq!(plan_config_dir(true, true, false), Err(ConfigDirError::NotADirectory));
    assert_eq!(plan_config_dir(true, false, false), Ok(ConfigDirPlan::Create));
    assert_eq!(plan_config_dir(true, true, true), Ok(ConfigDirPlan::UseExisting));
}

#[test]
fn config_dir_messages() {
    assert_eq!(
        ConfigDirError::ConfigDirNotFound.message("/x"),
        "Config directory not found"
    );
    assert_eq!(
        ConfigDirError::NotADirectory.message("/home/u/.config/slyh"),
        "/home/u/.config/slyh is not a directory"
    );
}

#[test]
fn config_dir_checks_settle_after_creation() {
    assert_eq!(plan_config_dir(true, false, false), Ok(ConfigDirPlan::Create));
    // After the directory has been created, the same checks create nothing.
    assert_eq!(plan_config_dir(true, true, true), Ok(ConfigDirPlan::UseExisting));
}
