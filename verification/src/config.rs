use vstd::prelude::*;
use vstd::string::StringExecFns;

verus! {

/// One declared project: a name, a remote URL, a local path (absolute or
/// relative to the effective parent directory), and an optional ordered list
/// of branches to bring up to date.
pub struct ProjectConfig {
    pub project: String,
    pub url: String,
    pub path: String,
    pub pull_branches: Option<Vec<String>>,
}

/// Run-wide settings: an optional parent directory for projects whose path
/// is relative.
pub struct GlobalConfig {
    pub default_clone_parent_directory: Option<String>,
}

/// A whole configuration document: global settings plus the project list.
pub struct AppConfig {
    pub global_config: Option<GlobalConfig>,
    pub projects: Vec<ProjectConfig>,
}

pub struct ProjectConfigView {
    pub project: Seq<char>,
    pub url: Seq<char>,
    pub path: Seq<char>,
    pub pull_branches: Option<Seq<Seq<char>>>,
}

pub struct GlobalConfigView {
    pub default_clone_parent_directory: Option<Seq<char>>,
}

pub struct AppConfigView {
    pub global_config: Option<GlobalConfigView>,
    pub projects: Seq<ProjectConfigView>,
}

impl View for ProjectConfig {
    type V = ProjectConfigView;

    open spec fn view(&self) -> ProjectConfigView {
        ProjectConfigView {
            project: self.project@,
            url: self.url@,
            path: self.path@,
            pull_branches: match self.pull_branches {
                Some(ref bs) => Some(bs.deep_view()),
                None => None,
            },
        }
    }
}

impl View for GlobalConfig {
    type V = GlobalConfigView;

    open spec fn view(&self) -> GlobalConfigView {
        GlobalConfigView {
            default_clone_parent_directory: match self.default_clone_parent_directory {
                Some(ref d) => Some(d@),
                None => None,
            },
        }
    }
}

impl View for AppConfig {
    type V = AppConfigView;

    open spec fn view(&self) -> AppConfigView {
        AppConfigView {
            global_config: match self.global_config {
                Some(ref g) => Some(g@),
                None => None,
            },
            projects: self.projects.deep_view(),
        }
    }
}

impl DeepView for ProjectConfig {
    type V = ProjectConfigView;

    open spec fn deep_view(&self) -> ProjectConfigView {
        self@
    }
}

/// A rejected configuration, with the reason.
pub enum ConfigError {
    /// The configuration file could not be read.
    ReadFile { path: String, message: String },
    /// The configuration file is not a well-formed document.
    Parse { message: String },
    /// A project entry breaks a validation rule.
    Validation { project_name: String, message: String },
    /// The configuration file does not exist.
    NotFound { path: String },
    /// The document holds no projects at all.
    NoProjects,
}

pub enum ConfigErrorView {
    ReadFile { path: Seq<char>, message: Seq<char> },
    Parse { message: Seq<char> },
    Validation { project_name: Seq<char>, message: Seq<char> },
    NotFound { path: Seq<char> },
    NoProjects,
}

impl View for ConfigError {
    type V = ConfigErrorView;

    open spec fn view(&self) -> ConfigErrorView {
        match self {
            ConfigError::ReadFile { path, message } => ConfigErrorView::ReadFile {
                path: path@,
                message: message@,
            },
            ConfigError::Parse { message } => ConfigErrorView::Parse { message: message@ },
            ConfigError::Validation { project_name, message } => ConfigErrorView::Validation {
                project_name: project_name@,
                message: message@,
            },
            ConfigError::NotFound { path } => ConfigErrorView::NotFound { path: path@ },
            ConfigError::NoProjects => ConfigErrorView::NoProjects,
        }
    }
}

/// What validation of a single project entry must return: the first broken
/// rule, in the order name, URL, path; success only when all three fields
/// are non-empty.
pub open spec fn spec_validate_project(c: ProjectConfigView) -> Result<(), ConfigErrorView> {
    if c.project.len() == 0 {
        Err(ConfigErrorView::Validation {
            project_name: "Unknown (empty name)"@,
            message: "Project name cannot be empty"@,
        })
    } else if c.url.len() == 0 {
        Err(ConfigErrorView::Validation {
            project_name: c.project,
            message: "Repository URL cannot be empty"@,
        })
    } else if c.path.len() == 0 {
        Err(ConfigErrorView::Validation {
            project_name: c.project,
            message: "Path cannot be empty"@,
        })
    } else {
        Ok(())
    }
}

/// Checks one project entry: name, URL and path must all be non-empty.
pub fn validate_project_config(config: &ProjectConfig) -> (r: Result<(), ConfigError>)
    ensures
        match r {
            Ok(_) => spec_validate_project(config@) is Ok,
            Err(e) => spec_validate_project(config@) == Err::<(), ConfigErrorView>(e@),
        },
{
    if config.project.as_str().is_empty() {
        return Err(ConfigError::Validation {
            project_name: String::from_str("Unknown (empty name)"),
            message: String::from_str("Project name cannot be empty"),
        });
    }
    if config.url.as_str().is_empty() {
        return Err(ConfigError::Validation {
            project_name: config.project.clone(),
            message: String::from_str("Repository URL cannot be empty"),
        });
    }
    if config.path.as_str().is_empty() {
        return Err(ConfigError::Validation {
            project_name: config.project.clone(),
            message: String::from_str("Path cannot be empty"),
        });
    }
    Ok(())
}

/// What validation of a project list must return: the error of the first
/// invalid entry, or success when every entry is valid.
pub open spec fn spec_validate_projects(ps: Seq<ProjectConfigView>) -> Result<(), ConfigErrorView>
    decreases ps.len(),
{
    if ps.len() == 0 {
        Ok(())
    } else {
        match spec_validate_project(ps[0]) {
            Err(e) => Err(e),
            Ok(_) => spec_validate_projects(ps.drop_first()),
        }
    }
}

/// Checks a whole configuration document: the project list must be
/// non-empty, and every entry must pass `validate_project_config`.
pub fn validate_app_config(config: &AppConfig) -> (r: Result<(), ConfigError>)
    ensures
        match r {
            Ok(_) => config@.projects.len() > 0 && spec_validate_projects(config@.projects) is Ok,
            Err(e) => if config@.projects.len() == 0 {
                e@ is NoProjects
            } else {
                spec_validate_projects(config@.projects) == Err::<(), ConfigErrorView>(e@)
            },
        },
{
    if config.projects.len() == 0 {
        return Err(ConfigError::NoProjects);
    }
    let n = config.projects.len();
    proof {
        assert(config@.projects.skip(0) =~= config@.projects);
    }
    let mut i: usize = 0;
    while i < n
        invariant
            0 <= i <= n,
            n == config.projects.len(),
            spec_validate_projects(config@.projects)
                == spec_validate_projects(config@.projects.skip(i as int)),
        decreases n - i,
    {
        let ghost pre = config@.projects.skip(i as int);
        match validate_project_config(&config.projects[i]) {
            Ok(_) => {
                proof {
                    assert(pre[0] == config@.projects[i as int]);
                    assert(pre.drop_first() =~= config@.projects.skip(i + 1 as int));
                }
            },
            Err(e) => {
                proof {
                    assert(pre[0] == config@.projects[i as int]);
                }
                return Err(e);
            },
        }
        i = i + 1;
    }
    proof {
        assert(config@.projects.skip(n as int) =~= Seq::<ProjectConfigView>::empty());
    }
    Ok(())
}

} // verus!
