use journal_cli::config::{JournalConfig, CONFIG_FILE_NAME, DEFAULT_TEMPLATE};
use journal_cli::error::JournalError;
use journal_cli::template::render;

#[test]
fn config_file_has_its_name() {
    assert_eq!(CONFIG_FILE_NAME, "journal-cli.yaml");
}

#[test]
fn config_paths_lie_under_the_root() {
    let config = JournalConfig::for_root("/home/me/demo");
    assert_eq!(config.entry_path, "/home/me/demo/entries");
    assert_eq!(config.article_path, "/home/me/demo/articles");
    assert_eq!(config.journal_template, DEFAULT_TEMPLATE);
}

#[test]
fn config_of_an_empty_root() {
    let config = JournalConfig::for_root("");
    assert_eq!(config.entry_path, "/entries");
    assert_eq!(config.article_path, "/articles");
}

#[test]
fn default_template_holds_one_token() {
    assert_eq!(DEFAULT_TEMPLATE.matches("{}").count(), 1);
    assert!(DEFAULT_TEMPLATE.starts_with("# {}\n\n"));
}

#[test]
fn default_template_has_the_four_headings() {
    let headings: Vec<&str> =
        DEFAULT_TEMPLATE.lines().filter(|line| line.starts_with("## ")).collect();
    assert_eq!(headings.len(), 4);
    assert!(headings[0].starts_with("## Concrete Experience"));
    assert!(headings[1].starts_with("## Reflective Observation"));
    assert!(headings[2].starts_with("## Abstract Conceptualization"));
    assert!(headings[3].starts_with("## Active Experimentation"));
}

#[test]
fn default_template_rendered() {
    let text = render(DEFAULT_TEMPLATE, "2024/12/25");
    assert!(text.starts_with("# 2024/12/25\n\n## Concrete Experience"));
    assert_eq!(text, DEFAULT_TEMPLATE.replace("{}", "2024/12/25"));
    assert!(!text.contains("{}"));
}

#[test]
fn equal_configs_are_equal() {
    let one = JournalConfig::for_root("/a");
    let other = one.clone();
    assert_eq!(one, other);
    assert_ne!(one, JournalConfig::for_root("/b"));
}

#[test]
fn every_error_has_its_message() {
    assert_eq!(JournalError::AlreadyExists.message(), "already exists");
    assert_eq!(JournalError::ConfigNotFound.message(), "configuration file not found");
    assert_eq!(JournalError::ConfigParseError.message(), "configuration file is not valid");
    assert_eq!(JournalError::DirectoryCreateError.message(), "directory could not be created");
    assert_eq!(JournalError::FileWriteError.message(), "file could not be written");
}

fn yaml_of(config: &JournalConfig) -> String {
    let mut fields = serde_yaml::Mapping::new();
    fields.insert(
        serde_yaml::Value::String(String::from("entry_path")),
        serde_yaml::Value::String(config.entry_path.clone()),
    );
    fields.insert(
        serde_yaml::Value::String(String::from("article_path")),
        serde_yaml::Value::String(config.article_path.clone()),
    );
    fields.insert(
        serde_yaml::Value::String(String::from("journal_template")),
        serde_yaml::Value::String(config.journal_template.clone()),
    );
    serde_yaml::to_string(&serde_yaml::Value::Mapping(fields)).unwrap()
}

fn config_of(text: &str) -> JournalConfig {
    let fields: serde_yaml::Value = serde_yaml::from_str(text).unwrap();
    JournalConfig {
        entry_path: String::from(fields["entry_path"].as_str().unwrap()),
        article_path: String::from(fields["article_path"].as_str().unwrap()),
        journal_template: String::from(fields["journal_template"].as_str().unwrap()),
    }
}

#[test]
fn config_fields_survive_yaml() {
    let config = JournalConfig::for_root("/home/me/demo");
    assert_eq!(config_of(&yaml_of(&config)), config);
    let odd = JournalConfig {
        entry_path: String::from("123"),
        article_path: String::from(" true: [x] # y"),
        journal_template: String::from("{}\n\t'quoted' \"twice\"\n"),
    };
    assert_eq!(config_of(&yaml_of(&odd)), odd);
}
