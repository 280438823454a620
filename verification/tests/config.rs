use chainhook_event_observer::config::{
    ConfigValue, NotebookConfig, PaperConfig, PaperConfigFile, ProjectConfig, ProjectConfigFile,
};

fn text(value: &str) -> ConfigValue {
    ConfigValue::String(value.to_string())
}

fn table(entries: Vec<(&str, ConfigValue)>) -> ConfigValue {
    ConfigValue::Table(entries.into_iter().map(|(key, value)| (key.to_string(), value)).collect())
}

fn file(contracts: Option<ConfigValue>, notebooks: Option<ConfigValue>) -> PaperConfigFile {
    PaperConfigFile { project: ProjectConfig { name: "paper".to_string() }, contracts, notebooks }
}

fn notebook(name: &str, path: &str) -> NotebookConfig {
    NotebookConfig { name: name.to_string(), path: path.to_string() }
}

#[test]
fn config_keeps_the_project() {
    let config = PaperConfig::from_config_file(file(None, None));
    assert_eq!(config.project, ProjectConfig { name: "paper".to_string() });
    assert!(config.contracts.is_empty());
    assert!(config.notebooks.is_empty());
}

#[test]
fn config_lists_notebooks_with_a_path() {
    let notebooks = table(vec![
        ("alpha", table(vec![("path", text("notebooks/alpha.md"))])),
        ("beta", table(vec![("title", text("Beta")), ("path", text("notebooks/beta.md"))])),
    ]);
    let config = PaperConfig::from_config_file(file(None, Some(notebooks)));
    assert_eq!(
        config.notebooks,
        vec![notebook("alpha", "notebooks/alpha.md"), notebook("beta", "notebooks/beta.md")]
    );
}

#[test]
fn config_skips_entries_that_describe_no_notebook() {
    let notebooks = table(vec![
        ("no_path", table(vec![("title", text("x"))])),
        ("path_is_no_text", table(vec![("path", ConfigValue::Other)])),
        ("path_is_a_table", table(vec![("path", table(vec![]))])),
        ("no_table", text("notebooks/x.md")),
        ("other", ConfigValue::Other),
        ("empty", table(vec![])),
        ("kept", table(vec![("path", text("kept.md"))])),
    ]);
    let config = PaperConfig::from_config_file(file(None, Some(notebooks)));
    assert_eq!(config.notebooks, vec![notebook("kept", "kept.md")]);
}

#[test]
fn config_reads_notebooks_from_a_table_only() {
    for notebooks in [None, Some(text("notebooks")), Some(ConfigValue::Other), Some(table(vec![]))] {
        let config = PaperConfig::from_config_file(file(None, notebooks));
        assert!(config.notebooks.is_empty());
    }
}

#[test]
fn config_holds_no_contract() {
    let contracts = table(vec![
        ("counter", table(vec![("path", text("contracts/counter.clar")), ("version", text("1"))])),
    ]);
    let notebooks = table(vec![("alpha", table(vec![("path", text("alpha.md"))]))]);
    let config = PaperConfig::from_config_file(file(Some(contracts), Some(notebooks)));
    assert!(config.contracts.is_empty());
    assert_eq!(config.notebooks, vec![notebook("alpha", "alpha.md")]);
}

#[test]
fn project_config_file_names_the_project() {
    let project = ProjectConfigFile { name: "paper".to_string() };
    assert_eq!(project.name, "paper");
}
