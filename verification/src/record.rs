//! The record that the wizard builds.
//!
//! The selected environments and resources are kept as lists of keys in
//! insertion order, which is the order in which they are shown and written
//! out.

use vstd::prelude::*;
use crate::fields::{environment_keys, resource_keys, environment_options, resource_options};
use crate::fields::{AppEnvironment, ResourceType};
use crate::text::{texts, holds_all, owned_texts, contains_text};

verus! {

/// The configuration value being assembled.
#[derive(Debug, Clone)]
pub struct ProjectConfig {
    pub resource_name: String,
    pub environments: Vec<String>,
    pub additional_resources: Vec<String>,
    pub owner_email: String,
}

/// What a record holds, as plain text.
pub struct ConfigView {
    pub resource_name: Seq<char>,
    pub environments: Seq<Seq<char>>,
    pub additional_resources: Seq<Seq<char>>,
    pub owner_email: Seq<char>,
}

impl View for ProjectConfig {
    type V = ConfigView;

    open spec fn view(&self) -> ConfigView {
        ConfigView {
            resource_name: self.resource_name@,
            environments: texts(self.environments@),
            additional_resources: texts(self.additional_resources@),
            owner_email: self.owner_email@,
        }
    }
}

impl ConfigView {
    /// The record a session starts from: the given name, no owner, and
    /// every environment and resource selected.
    pub open spec fn initial(name: Seq<char>) -> ConfigView {
        ConfigView {
            resource_name: name,
            environments: environment_keys(),
            additional_resources: resource_keys(),
            owner_email: Seq::empty(),
        }
    }

    pub open spec fn has_environment(self, environment: AppEnvironment) -> bool {
        self.environments.contains(environment.spec_key())
    }

    pub open spec fn has_resource(self, resource: ResourceType) -> bool {
        self.additional_resources.contains(resource.spec_key())
    }

    /// The set of selected environments.
    pub open spec fn selected_environments(self) -> Set<AppEnvironment> {
        Set::new(|e: AppEnvironment| self.has_environment(e))
    }

    /// The set of selected resources.
    pub open spec fn selected_resources(self) -> Set<ResourceType> {
        Set::new(|r: ResourceType| self.has_resource(r))
    }

    /// Both selections hold only keys of their group, each at most once.
    pub open spec fn wf(self) -> bool {
        &&& self.environments.no_duplicates()
        &&& self.additional_resources.no_duplicates()
        &&& forall|i: int|
            0 <= i < self.environments.len() ==> environment_keys().contains(
                #[trigger] self.environments[i],
            )
        &&& forall|i: int|
            0 <= i < self.additional_resources.len() ==> resource_keys().contains(
                #[trigger] self.additional_resources[i],
            )
    }
}

impl ProjectConfig {
    /// A record named `name` with no owner and everything selected.
    pub fn default(name: &str) -> (config: ProjectConfig)
        ensures
            config@ == ConfigView::initial(name@),
    {
        let environment_names = environment_options();
        let resource_names = resource_options();
        let environments = owned_texts(environment_names.as_slice());
        let additional_resources = owned_texts(resource_names.as_slice());
        ProjectConfig {
            resource_name: name.to_owned(),
            environments,
            additional_resources,
            owner_email: String::new(),
        }
    }

    /// Whether the environment is selected.
    pub fn has_environment(&self, environment: AppEnvironment) -> (selected: bool)
        ensures
            selected == self@.has_environment(environment),
    {
        contains_text(&self.environments, environment.key())
    }

    /// Whether the resource is selected.
    pub fn has_resource(&self, resource: ResourceType) -> (selected: bool)
        ensures
            selected == self@.has_resource(resource),
    {
        contains_text(&self.additional_resources, resource.key())
    }
}

/// The starting record is well formed and has every environment and every
/// resource selected.
pub proof fn lemma_initial_record(name: Seq<char>)
    ensures
        ConfigView::initial(name).wf(),
        forall|e: AppEnvironment| ConfigView::initial(name).has_environment(e),
        forall|r: ResourceType| ConfigView::initial(name).has_resource(r),
        holds_all(ConfigView::initial(name).environments, environment_keys()),
        holds_all(ConfigView::initial(name).additional_resources, resource_keys()),
{
    crate::fields::lemma_environment_keys();
    crate::fields::lemma_resource_keys();
    let start = ConfigView::initial(name);
    assert forall|i: int| 0 <= i < start.environments.len() implies environment_keys().contains(
        #[trigger] start.environments[i],
    ) by {}
    assert forall|i: int|
        0 <= i < start.additional_resources.len() implies resource_keys().contains(
        #[trigger] start.additional_resources[i],
    ) by {}
}

} // verus!
