//! The configuration of a project, as read from its configuration file.
//!
//! The file is parsed elsewhere. What arrives here is the parsed file: the
//! project, and the two tables of contracts and notebooks as values that are
//! still to be looked through.

use std::collections::HashMap;
use vstd::prelude::*;

verus! {

/// A value of a parsed configuration file: text, a table, or a value of a
/// kind that nothing here reads. A table keeps its entries in the order of
/// the parsed file, each key once.
#[derive(Debug, PartialEq, Eq)]
pub enum ConfigValue {
    String(String),
    Table(Vec<(String, ConfigValue)>),
    Other,
}

/// The project, as the file names it.
#[derive(Debug, PartialEq, Eq)]
pub struct ProjectConfigFile {
    pub name: String,
}

/// The parsed configuration file.
#[derive(Debug, PartialEq, Eq)]
pub struct PaperConfigFile {
    pub project: ProjectConfig,
    pub contracts: Option<ConfigValue>,
    pub notebooks: Option<ConfigValue>,
}

/// The project. Its view is its name.
#[derive(Debug, PartialEq, Eq)]
pub struct ProjectConfig {
    pub name: String,
}

impl View for ProjectConfig {
    type V = Seq<char>;

    open spec fn view(&self) -> Seq<char> {
        self.name@
    }
}

/// A contract of the project.
#[derive(Debug, PartialEq, Eq)]
pub struct ContractConfig {
    pub version: String,
    pub path: String,
}

/// A notebook of the project.
#[derive(Debug, PartialEq, Eq)]
pub struct NotebookConfig {
    pub name: String,
    pub path: String,
}

/// The view of `NotebookConfig`.
pub struct NotebookConfigView {
    pub name: Seq<char>,
    pub path: Seq<char>,
}

impl View for NotebookConfig {
    type V = NotebookConfigView;

    open spec fn view(&self) -> NotebookConfigView {
        NotebookConfigView { name: self.name@, path: self.path@ }
    }
}

/// The views of `notebooks`, in order.
pub open spec fn notebooks_view(notebooks: Seq<NotebookConfig>) -> Seq<NotebookConfigView> {
    notebooks.map_values(|notebook: NotebookConfig| notebook@)
}

/// The configuration of a project.
#[derive(Debug)]
pub struct PaperConfig {
    pub project: ProjectConfig,
    pub contracts: HashMap<String, ContractConfig>,
    pub notebooks: Vec<NotebookConfig>,
}

/// The value that the first entry of `entries` with the key `key` holds.
pub open spec fn table_get(entries: Seq<(String, ConfigValue)>, key: Seq<char>) -> Option<
    ConfigValue,
>
    decreases entries.len(),
{
    if entries.len() == 0 {
        None
    } else if entries.first().0@ == key {
        Some(entries.first().1)
    } else {
        table_get(entries.drop_first(), key)
    }
}

/// The text under `path` in `settings`, if `settings` is a table that holds
/// text there.
pub open spec fn path_of(settings: ConfigValue) -> Option<Seq<char>> {
    match settings {
        ConfigValue::Table(entries) => match table_get(entries@, "path"@) {
            Some(ConfigValue::String(path)) => Some(path@),
            _ => None,
        },
        _ => None,
    }
}

/// The notebook that an entry of the table of notebooks describes, if it
/// describes one: the key is its name, and the value tells its path.
pub open spec fn notebook_of(entry: (String, ConfigValue)) -> Option<NotebookConfigView> {
    match path_of(entry.1) {
        Some(path) => Some(NotebookConfigView { name: entry.0@, path }),
        None => None,
    }
}

/// `notebook_of`, as the choice that is made among the entries of a table.
pub open spec fn describing() -> spec_fn((String, ConfigValue)) -> Option<NotebookConfigView> {
    |entry: (String, ConfigValue)| notebook_of(entry)
}

/// The notebooks that `notebooks` describes, in the order of its entries.
/// Anything but a table describes none.
pub open spec fn notebooks_of(notebooks: Option<ConfigValue>) -> Seq<NotebookConfigView> {
    match notebooks {
        Some(ConfigValue::Table(entries)) => entries@.filter_map(describing()),
        _ => Seq::empty(),
    }
}

fn find_path(settings: &ConfigValue) -> (found: Option<String>)
    ensures
        match found {
            Some(path) => path_of(*settings) == Some(path@),
            None => path_of(*settings) is None,
        },
{
    match settings {
        ConfigValue::Table(entries) => {
            let key = "path".to_owned();
            let mut i: usize = 0;
            assert(entries@.skip(0) =~= entries@);
            while i < entries.len()
                invariant
                    i <= entries.len(),
                    key@ == "path"@,
                    *settings == ConfigValue::Table(*entries),
                    table_get(entries@, "path"@) == table_get(entries@.skip(i as int), "path"@),
                decreases entries.len() - i,
            {
                proof {
                    assert(entries@.skip(i as int).drop_first() =~= entries@.skip(i + 1));
                }
                if entries[i].0 == key {
                    return match &entries[i].1 {
                        ConfigValue::String(path) => Some(path.clone()),
                        _ => None,
                    };
                }
                i += 1;
            }
            None
        },
        _ => None,
    }
}

impl PaperConfig {
    /// Builds the configuration of a project from its parsed file.
    ///
    /// Each entry of the table of notebooks whose value is a table with text
    /// under `path` gives a notebook, named by the key of the entry; the
    /// other entries give none. The table of contracts is not read: the
    /// configuration holds no contract.
    pub fn from_config_file(config_file: PaperConfigFile) -> (config: PaperConfig)
        ensures
            config.project@ == config_file.project@,
            config.contracts@.len() == 0,
            notebooks_view(config.notebooks@) == notebooks_of(config_file.notebooks),
    {
        let mut notebooks: Vec<NotebookConfig> = Vec::new();
        match &config_file.notebooks {
            Some(ConfigValue::Table(entries)) => {
                let mut i: usize = 0;
                while i < entries.len()
                    invariant
                        i <= entries.len(),
                        notebooks_view(notebooks@) == entries@.take(i as int).filter_map(
                            describing(),
                        ),
                    decreases entries.len() - i,
                {
                    proof {
                        entries@.lemma_filter_map_take_succ(describing(), i as int);
                    }
                    match find_path(&entries[i].1) {
                        Some(path) => {
                            notebooks.push(NotebookConfig { name: entries[i].0.clone(), path });
                        },
                        None => {},
                    }
                    i += 1;
                }
                assert(entries@.take(i as int) =~= entries@);
            },
            _ => {},
        }
        PaperConfig { project: config_file.project, contracts: HashMap::new(), notebooks }
    }
}

} // verus!
