//! Deployment statuses, the error taxonomy, and the total mappings between
//! them.
//!
//! Every failure a pipeline step can hit is a `ServiceError`; every state the
//! pipeline can report is a `ServiceStatus`. `ServiceStatus::from_error` is
//! the one exhaustive mapping from errors to displayable statuses, and
//! `ServiceStatus::to_string` renders any status as a short label. Both are
//! total over their enums, so every error path has a defined display.

use vstd::prelude::*;

verus! {

/// A closed set of states representing pipeline progress or outcome. Never
/// persisted; it exists only as the payload of transient events.
#[derive(Clone, Debug, PartialEq, Eq)]
pub enum ServiceStatus {
    Inactive,
    Running,
    DiscoveryFailed,
    CommandFailed(String),
    CloneOrPullFailed,
    DeploymentRequested,
    Cloning,
    Pulling,
    Stopping,
    Starting,
    Copying,
    RewritingConfig,
    Unknown,
}

/// Mathematical model of a `ServiceStatus`: the same cases over `Seq<char>`.
pub enum ServiceStatusView {
    Inactive,
    Running,
    DiscoveryFailed,
    CommandFailed(Seq<char>),
    CloneOrPullFailed,
    DeploymentRequested,
    Cloning,
    Pulling,
    Stopping,
    Starting,
    Copying,
    RewritingConfig,
    Unknown,
}

impl View for ServiceStatus {
    type V = ServiceStatusView;

    open spec fn view(&self) -> ServiceStatusView {
        match self {
            ServiceStatus::Inactive => ServiceStatusView::Inactive,
            ServiceStatus::Running => ServiceStatusView::Running,
            ServiceStatus::DiscoveryFailed => ServiceStatusView::DiscoveryFailed,
            ServiceStatus::CommandFailed(m) => ServiceStatusView::CommandFailed(m@),
            ServiceStatus::CloneOrPullFailed => ServiceStatusView::CloneOrPullFailed,
            ServiceStatus::DeploymentRequested => ServiceStatusView::DeploymentRequested,
            ServiceStatus::Cloning => ServiceStatusView::Cloning,
            ServiceStatus::Pulling => ServiceStatusView::Pulling,
            ServiceStatus::Stopping => ServiceStatusView::Stopping,
            ServiceStatus::Starting => ServiceStatusView::Starting,
            ServiceStatus::Copying => ServiceStatusView::Copying,
            ServiceStatus::RewritingConfig => ServiceStatusView::RewritingConfig,
            ServiceStatus::Unknown => ServiceStatusView::Unknown,
        }
    }
}

/// One failure kind per way a pipeline step can go wrong: a command that could
/// not be invoked (with the invocation error's text), a non-zero exit, output
/// that matched no expected sentinel, undecodable output, a compose document
/// with a missing or ill-shaped key (with the key's name), and the dedicated
/// step-level outcomes for discovery, clone-or-pull, start, stop, remove and
/// copy.
#[derive(Clone, Debug, PartialEq, Eq)]
pub enum ServiceError {
    Command(String),
    Status,
    Unexpected,
    Parse,
    Unknown,
    Discovery,
    CloneOrPull,
    Start,
    Stop,
    Remove,
    Copy,
    Yaml,
    Key(String),
}

/// Mathematical model of a `ServiceError`.
pub enum ServiceErrorView {
    Command(Seq<char>),
    Status,
    Unexpected,
    Parse,
    Unknown,
    Discovery,
    CloneOrPull,
    Start,
    Stop,
    Remove,
    Copy,
    Yaml,
    Key(Seq<char>),
}

impl View for ServiceError {
    type V = ServiceErrorView;

    open spec fn view(&self) -> ServiceErrorView {
        match self {
            ServiceError::Command(m) => ServiceErrorView::Command(m@),
            ServiceError::Status => ServiceErrorView::Status,
            ServiceError::Unexpected => ServiceErrorView::Unexpected,
            ServiceError::Parse => ServiceErrorView::Parse,
            ServiceError::Unknown => ServiceErrorView::Unknown,
            ServiceError::Discovery => ServiceErrorView::Discovery,
            ServiceError::CloneOrPull => ServiceErrorView::CloneOrPull,
            ServiceError::Start => ServiceErrorView::Start,
            ServiceError::Stop => ServiceErrorView::Stop,
            ServiceError::Remove => ServiceErrorView::Remove,
            ServiceError::Copy => ServiceErrorView::Copy,
            ServiceError::Yaml => ServiceErrorView::Yaml,
            ServiceError::Key(k) => ServiceErrorView::Key(k@),
        }
    }
}

/// A failure of the persistence collaborator, distinguishable from every
/// pipeline error so callers can report a database problem separately from a
/// deployment problem. Carries the underlying driver's message.
#[derive(Clone, Debug, PartialEq, Eq)]
pub enum DBError {
    Sql(String),
}

/// Mathematical model of a `DBError`.
pub enum DBErrorView {
    Sql(Seq<char>),
}

impl View for DBError {
    type V = DBErrorView;

    open spec fn view(&self) -> DBErrorView {
        match self {
            DBError::Sql(m) => DBErrorView::Sql(m@),
        }
    }
}

impl DBError {
    /// The short human-readable description of a persistence failure.
    pub fn message(&self) -> (r: String)
        ensures
            r@ == db_error_message(self@),
    {
        match self {
            DBError::Sql(_) => String::from_str("Unable to use database"),
        }
    }
}

/// The label `DBError::message` returns for each case.
pub open spec fn db_error_message(e: DBErrorView) -> Seq<char> {
    match e {
        DBErrorView::Sql(_) => "Unable to use database"@,
    }
}

/// The status `ServiceStatus::from_error` maps each error to: the three
/// outcomes with dedicated recovery meaning keep their own states, and every
/// other failure collapses into `CommandFailed` with a cause-specific message.
pub open spec fn status_of_error(e: ServiceErrorView) -> ServiceStatusView {
    match e {
        ServiceErrorView::Command(m) => ServiceStatusView::CommandFailed(m),
        ServiceErrorView::Status => ServiceStatusView::CommandFailed(
            "Command resulted in failure status"@,
        ),
        ServiceErrorView::Unexpected => ServiceStatusView::CommandFailed(
            "Command resulted in unexpected string"@,
        ),
        ServiceErrorView::Parse => ServiceStatusView::CommandFailed(
            "Failed to parse command output"@,
        ),
        ServiceErrorView::Start => ServiceStatusView::CommandFailed(
            "Failed to start Docker service"@,
        ),
        ServiceErrorView::Stop => ServiceStatusView::CommandFailed(
            "Failed to stop Docker service"@,
        ),
        ServiceErrorView::Remove => ServiceStatusView::CommandFailed(
            "Failed to remove live directory contents"@,
        ),
        ServiceErrorView::Copy => ServiceStatusView::CommandFailed(
            "Failed to copy repo contents"@,
        ),
        ServiceErrorView::Yaml => ServiceStatusView::CommandFailed("Failed to parse YAML file"@),
        ServiceErrorView::Key(k) => ServiceStatusView::CommandFailed(
            "Failed to find key '"@ + k + "'"@,
        ),
        ServiceErrorView::Unknown => ServiceStatusView::Unknown,
        ServiceErrorView::Discovery => ServiceStatusView::DiscoveryFailed,
        ServiceErrorView::CloneOrPull => ServiceStatusView::CloneOrPullFailed,
    }
}

/// The label `ServiceStatus::to_string` renders each status as.
pub open spec fn status_label(s: ServiceStatusView) -> Seq<char> {
    match s {
        ServiceStatusView::Inactive => "Inactive"@,
        ServiceStatusView::Running => "Running"@,
        ServiceStatusView::DiscoveryFailed => "Failed to discover service"@,
        ServiceStatusView::CommandFailed(m) => "Failed command | "@ + m,
        ServiceStatusView::CloneOrPullFailed => "Failed to clone or pull"@,
        ServiceStatusView::DeploymentRequested => "Deployment requested..."@,
        ServiceStatusView::Cloning => "Cloning repo..."@,
        ServiceStatusView::Pulling => "Pulling repo..."@,
        ServiceStatusView::Stopping => "Stopping service..."@,
        ServiceStatusView::Starting => "Starting service..."@,
        ServiceStatusView::Copying => "Copying repo..."@,
        ServiceStatusView::RewritingConfig => "Rewriting docker-compose.yml..."@,
        ServiceStatusView::Unknown => "Unknown status"@,
    }
}

impl ServiceStatus {
    /// The one exhaustive mapping from a failure kind to a displayable status;
    /// every error path in the pipeline decides what to publish through it.
    pub fn from_error(se: ServiceError) -> (r: Self)
        ensures
            r@ == status_of_error(se@),
    {
        match se {
            ServiceError::Command(e) => Self::CommandFailed(e),
            ServiceError::Status => Self::CommandFailed(
                String::from_str("Command resulted in failure status"),
            ),
            ServiceError::Unexpected => Self::CommandFailed(
                String::from_str("Command resulted in unexpected string"),
            ),
            ServiceError::Parse => Self::CommandFailed(
                String::from_str("Failed to parse command output"),
            ),
            ServiceError::Start => Self::CommandFailed(
                String::from_str("Failed to start Docker service"),
            ),
            ServiceError::Stop => Self::CommandFailed(
                String::from_str("Failed to stop Docker service"),
            ),
            ServiceError::Remove => Self::CommandFailed(
                String::from_str("Failed to remove live directory contents"),
            ),
            ServiceError::Copy => Self::CommandFailed(
                String::from_str("Failed to copy repo contents"),
            ),
            ServiceError::Yaml => Self::CommandFailed(String::from_str("Failed to parse YAML file")),
            ServiceError::Key(k) => Self::CommandFailed(
                String::from_str("Failed to find key '").concat(k.as_str()).concat("'"),
            ),
            ServiceError::Unknown => Self::Unknown,
            ServiceError::Discovery => Self::DiscoveryFailed,
            ServiceError::CloneOrPull => Self::CloneOrPullFailed,
        }
    }

    /// Renders the status as its short human-readable label.
    pub fn to_string(self) -> (r: String)
        ensures
            r@ == status_label(self@),
    {
        match self {
            Self::Inactive => String::from_str("Inactive"),
            Self::Running => String::from_str("Running"),
            Self::DiscoveryFailed => String::from_str("Failed to discover service"),
            Self::CommandFailed(s) => String::from_str("Failed command | ").concat(s.as_str()),
            Self::CloneOrPullFailed => String::from_str("Failed to clone or pull"),
            Self::DeploymentRequested => String::from_str("Deployment requested..."),
            Self::Cloning => String::from_str("Cloning repo..."),
            Self::Pulling => String::from_str("Pulling repo..."),
            Self::Stopping => String::from_str("Stopping service..."),
            Self::Starting => String::from_str("Starting service..."),
            Self::Copying => String::from_str("Copying repo..."),
            Self::RewritingConfig => String::from_str("Rewriting docker-compose.yml..."),
            Self::Unknown => String::from_str("Unknown status"),
        }
    }
}

impl ServiceStatus {
    /// A copy with the same model; unlike the derived clone, the copy is
    /// known to carry the same message.
    pub fn duplicate(&self) -> (r: Self)
        ensures
            r@ == self@,
    {
        match self {
            Self::Inactive => Self::Inactive,
            Self::Running => Self::Running,
            Self::DiscoveryFailed => Self::DiscoveryFailed,
            Self::CommandFailed(m) => Self::CommandFailed(m.clone()),
            Self::CloneOrPullFailed => Self::CloneOrPullFailed,
            Self::DeploymentRequested => Self::DeploymentRequested,
            Self::Cloning => Self::Cloning,
            Self::Pulling => Self::Pulling,
            Self::Stopping => Self::Stopping,
            Self::Starting => Self::Starting,
            Self::Copying => Self::Copying,
            Self::RewritingConfig => Self::RewritingConfig,
            Self::Unknown => Self::Unknown,
        }
    }
}

impl ServiceError {
    /// A copy with the same model; unlike the derived clone, the copy is
    /// known to carry the same message.
    pub fn duplicate(&self) -> (r: Self)
        ensures
            r@ == self@,
    {
        match self {
            Self::Command(m) => Self::Command(m.clone()),
            Self::Status => Self::Status,
            Self::Unexpected => Self::Unexpected,
            Self::Parse => Self::Parse,
            Self::Unknown => Self::Unknown,
            Self::Discovery => Self::Discovery,
            Self::CloneOrPull => Self::CloneOrPull,
            Self::Start => Self::Start,
            Self::Stop => Self::Stop,
            Self::Remove => Self::Remove,
            Self::Copy => Self::Copy,
            Self::Yaml => Self::Yaml,
            Self::Key(k) => Self::Key(k.clone()),
        }
    }
}

impl ServiceError {
    /// The short human-readable description of the failure kind, as callers
    /// log or display it.
    pub fn message(&self) -> (r: String)
        ensures
            r@ == error_message(self@),
    {
        match self {
            ServiceError::Command(_) => String::from_str("No response from system command"),
            ServiceError::Status => String::from_str("System command resulted in failure"),
            ServiceError::Unexpected => String::from_str("System command returned unexpected output"),
            ServiceError::Parse => String::from_str("Failed to parse output string"),
            ServiceError::Unknown => String::from_str("Error unknown to Service domain"),
            ServiceError::Discovery => String::from_str("Error in Service discovery in Docker"),
            ServiceError::CloneOrPull => String::from_str("Error cloning or pulling a repo"),
            ServiceError::Start => String::from_str("Error starting the Docker service"),
            ServiceError::Stop => String::from_str("Error stopping the Docker service"),
            ServiceError::Remove => String::from_str("Error removing the contents of a directory"),
            ServiceError::Copy => String::from_str("Error copying the contents of a directory"),
            ServiceError::Yaml => String::from_str("Error parsing YAML file"),
            ServiceError::Key(_) => String::from_str("Error parsing expected key"),
        }
    }
}

/// The label `ServiceError::message` returns for each failure kind.
pub open spec fn error_message(e: ServiceErrorView) -> Seq<char> {
    match e {
        ServiceErrorView::Command(_) => "No response from system command"@,
        ServiceErrorView::Status => "System command resulted in failure"@,
        ServiceErrorView::Unexpected => "System command returned unexpected output"@,
        ServiceErrorView::Parse => "Failed to parse output string"@,
        ServiceErrorView::Unknown => "Error unknown to Service domain"@,
        ServiceErrorView::Discovery => "Error in Service discovery in Docker"@,
        ServiceErrorView::CloneOrPull => "Error cloning or pulling a repo"@,
        ServiceErrorView::Start => "Error starting the Docker service"@,
        ServiceErrorView::Stop => "Error stopping the Docker service"@,
        ServiceErrorView::Remove => "Error removing the contents of a directory"@,
        ServiceErrorView::Copy => "Error copying the contents of a directory"@,
        ServiceErrorView::Yaml => "Error parsing YAML file"@,
        ServiceErrorView::Key(_) => "Error parsing expected key"@,
    }
}

} // verus!
