//! Service definitions and the correlation-label convention.
//!
//! A `Service` is the identity and deployment parameters of one managed
//! service. Its `name` doubles as the staging-directory name and as the exact
//! substring embedded in the correlation label `|||name|||`, so names must be
//! unique across definitions: collisions cause directory and label
//! collisions.

use vstd::prelude::*;

verus! {

/// Identity and deployment parameters for one managed service, as the
/// persistence collaborator stores them.
#[derive(Clone, Debug, PartialEq, Eq)]
pub struct Service {
    pub id: i64,
    pub name: String,
    pub compose_name: String,
    pub repo_url: String,
    pub access_url: String,
    pub active: bool,
    pub cred_file: Option<String>,
    pub use_key: bool,
}

/// Mathematical model of a `Service`.
pub struct ServiceView {
    pub id: int,
    pub name: Seq<char>,
    pub compose_name: Seq<char>,
    pub repo_url: Seq<char>,
    pub access_url: Seq<char>,
    pub active: bool,
    pub cred_file: Option<Seq<char>>,
    pub use_key: bool,
}

impl View for Service {
    type V = ServiceView;

    open spec fn view(&self) -> ServiceView {
        ServiceView {
            id: self.id as int,
            name: self.name@,
            compose_name: self.compose_name@,
            repo_url: self.repo_url@,
            access_url: self.access_url@,
            active: self.active,
            cred_file: match self.cred_file {
                Option::Some(cf) => Option::Some(cf@),
                Option::None => Option::None,
            },
            use_key: self.use_key,
        }
    }
}

/// The correlation label for a service name: the name fenced by triple bars.
/// Running containers are matched back to a definition by finding this exact
/// substring in their label string.
pub open spec fn label_of(name: Seq<char>) -> Seq<char> {
    "|||"@ + name + "|||"@
}

impl Service {
    /// The correlation label embedded in the service's compose unit and
    /// searched for in container listings.
    pub fn label_name(&self) -> (r: String)
        ensures
            r@ == label_of(self@.name),
    {
        String::from_str("|||").concat(self.name.as_str()).concat("|||")
    }

    /// The labels the tagger appends to the service's compose unit: exactly
    /// the correlation label.
    pub fn make_labels(&self) -> (r: Vec<String>)
        ensures
            r@.len() == 1,
            r@[0]@ == label_of(self@.name),
    {
        let mut labels: Vec<String> = Vec::new();
        labels.push(self.label_name());
        labels
    }
}

/// Application configuration: where the database lives, where to listen, and
/// the root under which service directories are kept. Loaded from the
/// environment by the surrounding application.
#[derive(Clone, Debug, PartialEq, Eq)]
pub struct Config {
    pub db_url: String,
    pub app_host: String,
    pub app_port: u16,
    pub services_root_dir: String,
}

/// Mathematical model of a `Config`.
pub struct ConfigView {
    pub db_url: Seq<char>,
    pub app_host: Seq<char>,
    pub app_port: u16,
    pub services_root_dir: Seq<char>,
}

impl View for Config {
    type V = ConfigView;

    open spec fn view(&self) -> ConfigView {
        ConfigView {
            db_url: self.db_url@,
            app_host: self.app_host@,
            app_port: self.app_port,
            services_root_dir: self.services_root_dir@,
        }
    }
}

} // verus!
