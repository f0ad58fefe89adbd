use newsletter::configuration::{DatabaseSettings, Environment, SslMode};

#[test]
fn environments_are_named_in_lower_case() {
    assert_eq!(Environment::Local.as_str(), "local");
    assert_eq!(Environment::Production.as_str(), "production");
}

#[test]
fn environment_names_are_read_in_any_case() {
    assert_eq!(Environment::try_from("LOCAL".to_string()), Ok(Environment::Local));
    assert_eq!(
        Environment::try_from("Production".to_string()),
        Ok(Environment::Production)
    );
}

#[test]
fn an_unknown_environment_is_refused() {
    assert_eq!(
        Environment::try_from("Staging".to_string()),
        Err("staging is not a supported environment. Use `local` or `production`".to_string())
    );
}

#[test]
fn lower_case_names_are_read_as_they_are() {
    assert_eq!(
        Environment::from_lowercase("local".to_string()),
        Ok(Environment::Local)
    );
    assert_eq!(
        Environment::from_lowercase("LOCAL".to_string()),
        Err("LOCAL is not a supported environment. Use `local` or `production`".to_string())
    );
}

#[test]
fn ssl_is_required_only_when_configured() {
    let mut settings = DatabaseSettings {
        username: "postgres".to_string(),
        password: "not-a-real-secret".to_string(),
        host: "localhost".to_string(),
        port: 5432,
        database_name: "newsletter".to_string(),
        require_ssl: true,
    };
    assert_eq!(settings.ssl_mode(), SslMode::Require);
    settings.require_ssl = false;
    assert_eq!(settings.ssl_mode(), SslMode::Prefer);
}
