//! What is generated from a finished record: the settings of each
//! environment and the source files of the project.

use vstd::prelude::*;
use vstd::string::StringExecFns;
use crate::fields::{environment_keys, environment_options};
use crate::record::{ConfigView, ProjectConfig};
use crate::settings::Settings;
use crate::text::{join_texts, joined, owned_texts, same_text, slices, texts};

verus! {

/// The region every project is deployed to.
pub open spec fn spec_location() -> Seq<char> {
    "eastus2"@
}

/// The subscription that an environment is deployed to.
#[derive(Debug)]
pub struct AzureSubscription {
    pub env: String,
    pub id: String,
    pub _name: String,
    pub tier: String,
    pub virtual_subnets: Vec<String>,
}

/// What a subscription holds, as plain text.
pub struct SubscriptionView {
    pub env: Seq<char>,
    pub id: Seq<char>,
    pub name: Seq<char>,
    pub tier: Seq<char>,
    pub virtual_subnets: Seq<Seq<char>>,
}

impl View for AzureSubscription {
    type V = SubscriptionView;

    open spec fn view(&self) -> SubscriptionView {
        SubscriptionView {
            env: self.env@,
            id: self.id@,
            name: self._name@,
            tier: self.tier@,
            virtual_subnets: texts(self.virtual_subnets@),
        }
    }
}

/// The subscription of one of the four environments: they share one
/// identifier and have two unnamed subnets each.
pub open spec fn spec_known_subscription(
    env: Seq<char>,
    name: Seq<char>,
    tier: Seq<char>,
) -> SubscriptionView {
    SubscriptionView { env, id: "1234-5678-91011"@, name, tier, virtual_subnets: seq![""@, ""@] }
}

/// The subscription of an environment, by its key. The empty key stands
/// for the default subscription; any other text names no subscription.
pub open spec fn spec_subscription(environment: Seq<char>) -> Option<SubscriptionView> {
    if environment == "dev"@ {
        Some(spec_known_subscription("dev"@, "dev01"@, "bronze"@))
    } else if environment == "test"@ {
        Some(spec_known_subscription("test"@, "nonprod01"@, "silver"@))
    } else if environment == "stage"@ {
        Some(spec_known_subscription("stage"@, "preprod01"@, "gold"@))
    } else if environment == "prod"@ {
        Some(spec_known_subscription("prod"@, "prod01"@, "platinum"@))
    } else if environment == ""@ {
        Some(
            SubscriptionView {
                env: "default"@,
                id: "default-id"@,
                name: "default-name"@,
                tier: "default-tier"@,
                virtual_subnets: seq!["default-subnet"@],
            },
        )
    } else {
        None
    }
}

fn known_subscription(env: &str, name: &str, tier: &str) -> (subscription: AzureSubscription)
    ensures
        subscription@ == spec_known_subscription(env@, name@, tier@),
{
    let subnets = ["", ""];
    let virtual_subnets = owned_texts(subnets.as_slice());
    assert(texts(virtual_subnets@) == seq![""@, ""@]);
    AzureSubscription {
        env: env.to_owned(),
        id: "1234-5678-91011".to_owned(),
        _name: name.to_owned(),
        tier: tier.to_owned(),
        virtual_subnets,
    }
}

/// Looks the subscription of an environment up; `None` for a text that
/// names none.
pub fn subscription_for(environment: &str) -> (subscription: Option<AzureSubscription>)
    ensures
        subscription.is_some() <==> spec_subscription(environment@).is_some(),
        subscription matches Some(found) ==> Some(found@) == spec_subscription(environment@),
{
    if same_text(environment, "dev") {
        Some(known_subscription("dev", "dev01", "bronze"))
    } else if same_text(environment, "test") {
        Some(known_subscription("test", "nonprod01", "silver"))
    } else if same_text(environment, "stage") {
        Some(known_subscription("stage", "preprod01", "gold"))
    } else if same_text(environment, "prod") {
        Some(known_subscription("prod", "prod01", "platinum"))
    } else if same_text(environment, "") {
        let subnets = ["default-subnet"];
        let virtual_subnets = owned_texts(subnets.as_slice());
        assert(texts(virtual_subnets@) == seq!["default-subnet"@]);
        Some(
            AzureSubscription {
                env: "default".to_owned(),
                id: "default-id".to_owned(),
                _name: "default-name".to_owned(),
                tier: "default-tier".to_owned(),
                virtual_subnets,
            },
        )
    } else {
        None
    }
}

/// The subscription of an environment that has one.
pub fn get_subscription_info(environment: &str) -> (subscription: AzureSubscription)
    requires
        spec_subscription(environment@).is_some(),
    ensures
        Some(subscription@) == spec_subscription(environment@),
{
    subscription_for(environment).unwrap()
}

/// The settings of one environment of a project.
#[derive(Debug)]
pub struct Config {
    /// The settings by name.
    pub config: Settings,
    /// Tags of the environment.
    pub environment: Vec<String>,
}

/// A text made of two.
pub fn prefixed(prefix: &str, rest: &str) -> (whole: String)
    ensures
        whole@ == prefix@ + rest@,
{
    let mut whole = String::from_str(prefix);
    whole.append(rest);
    whole
}

/// The settings that a record and a subscription give: the owner, the
/// subnets joined by commas, the tier, the subscription, the region, the
/// environment and the project, each under the project's name, and the
/// region once more under the provider's.
pub open spec fn spec_settings(record: ConfigView, subscription: SubscriptionView) -> Map<
    Seq<char>,
    Seq<char>,
> {
    let app = record.resource_name;
    Map::<Seq<char>, Seq<char>>::empty().insert(app + ":owneremail"@, record.owner_email).insert(
        app + ":virtualSubnetworks"@,
        joined(subscription.virtual_subnets, ","@),
    ).insert(app + ":tier"@, subscription.tier).insert(
        app + ":subscriptionId"@,
        subscription.id,
    ).insert(app + ":location"@, spec_location()).insert(app + ":env"@, subscription.env).insert(
        app + ":app"@,
        app,
    ).insert("azure-native:location"@, spec_location())
}

/// Builds the settings of the environment that the subscription belongs
/// to.
pub fn generate_config(
    infra_config: &ProjectConfig,
    azure_subscription: &AzureSubscription,
) -> (generated: Config)
    ensures
        generated.config.wf(),
        generated.config@ == spec_settings(infra_config@, azure_subscription@),
        texts(generated.environment@) == seq!["meta"@],
{
    let location = "eastus2";
    let app_name = infra_config.resource_name.as_str();
    let mut config = Settings::new();
    config.insert(prefixed(app_name, ":owneremail"), infra_config.owner_email.as_str().to_owned());
    config.insert(
        prefixed(app_name, ":virtualSubnetworks"),
        join_texts(&azure_subscription.virtual_subnets, ","),
    );
    config.insert(prefixed(app_name, ":tier"), azure_subscription.tier.as_str().to_owned());
    config.insert(prefixed(app_name, ":subscriptionId"), azure_subscription.id.as_str().to_owned());
    config.insert(prefixed(app_name, ":location"), location.to_owned());
    config.insert(prefixed(app_name, ":env"), azure_subscription.env.as_str().to_owned());
    config.insert(prefixed(app_name, ":app"), app_name.to_owned());
    config.insert("azure-native:location".to_owned(), location.to_owned());
    let tags = ["meta"];
    let environment = owned_texts(tags.as_slice());
    assert(texts(environment@) == seq!["meta"@]);
    Config { config, environment }
}

/// The texts that the source files are made from.
#[derive(Debug)]
pub struct SnippetTemplates {
    /// The entry point of a project.
    pub typescript: String,
    pub database: String,
    pub storage: String,
    pub service_bus: String,
    pub cache: String,
    pub keyvault: String,
    pub registry: String,
    /// The build pipeline of a project.
    pub pipeline: String,
}

/// The templates as plain text.
pub struct TemplatesView {
    pub typescript: Seq<char>,
    pub database: Seq<char>,
    pub storage: Seq<char>,
    pub service_bus: Seq<char>,
    pub cache: Seq<char>,
    pub keyvault: Seq<char>,
    pub registry: Seq<char>,
    pub pipeline: Seq<char>,
}

impl View for SnippetTemplates {
    type V = TemplatesView;

    open spec fn view(&self) -> TemplatesView {
        TemplatesView {
            typescript: self.typescript@,
            database: self.database@,
            storage: self.storage@,
            service_bus: self.service_bus@,
            cache: self.cache@,
            keyvault: self.keyvault@,
            registry: self.registry@,
            pipeline: self.pipeline@,
        }
    }
}

/// The text that `str::to_lowercase` of the standard library gives for a
/// text.
pub uninterp spec fn lowercase(text: Seq<char>) -> Seq<char>;

/// `str::to_lowercase` of the standard library: the result is the
/// lowercase form of the text, which depends on the text alone.
pub assume_specification[ str::to_lowercase ](text: &str) -> (lower: String)
    ensures
        lower@ == lowercase(text@),
;

/// The text that `str::replace` of the standard library gives for a text,
/// a text to look for and a text to put in its place.
pub uninterp spec fn replaced(text: Seq<char>, from: Seq<char>, to: Seq<char>) -> Seq<char>;

/// `str::replace` of the standard library, with a text as the pattern: the
/// result depends on the three texts alone.
#[verifier::external_body]
fn replace_text(text: &str, from: &str, to: &str) -> (result: String)
    ensures
        result@ == replaced(text@, from@, to@),
{
    text.replace(from, to)
}

/// The mark that stands for the project's name in a template.
pub open spec fn spec_placeholder() -> Seq<char> {
    "{{project_name}}"@
}

/// The name put into a snippet that is asked for without one.
pub open spec fn spec_default_name() -> Seq<char> {
    "myapp"@
}

/// The code that a resource adds to the entry point of a project, by the
/// resource's name in lowercase; a name that is not on the list adds
/// nothing.
pub open spec fn spec_addition(templates: TemplatesView, lowered: Seq<char>) -> Option<Seq<char>> {
    if lowered == "container registry"@ {
        Some(templates.registry)
    } else if lowered == "database"@ {
        Some(templates.database)
    } else if lowered == "cache"@ {
        Some(templates.cache)
    } else if lowered == "storage"@ {
        Some(templates.storage)
    } else if lowered == "service bus"@ {
        Some(templates.service_bus)
    } else if lowered == "keyvault"@ {
        Some(templates.keyvault)
    } else {
        None
    }
}

/// The template of a snippet, by the resource's key in lowercase; any
/// other text gives the entry point of a project.
pub open spec fn spec_snippet(templates: TemplatesView, lowered: Seq<char>) -> Seq<char> {
    if lowered == "containerregistry"@ {
        templates.registry
    } else if lowered == "database"@ {
        templates.database
    } else if lowered == "cache"@ {
        templates.cache
    } else if lowered == "storage"@ {
        templates.storage
    } else if lowered == "servicebus"@ {
        templates.service_bus
    } else if lowered == "keyvault"@ {
        templates.keyvault
    } else {
        templates.typescript
    }
}

/// All that a list of resources adds to the entry point, in the order of
/// the list.
pub open spec fn spec_additions(templates: TemplatesView, resources: Seq<Seq<char>>) -> Seq<char>
    decreases resources.len(),
{
    if resources.len() == 0 {
        Seq::empty()
    } else {
        let last = spec_addition(templates, lowercase(resources.last()));
        spec_additions(templates, resources.drop_last()) + match last {
            Some(code) => code,
            None => Seq::empty(),
        }
    }
}

/// The code that a resource adds to the entry point, by its name in
/// lowercase.
pub fn addition_for<'a>(templates: &'a SnippetTemplates, lowered: &str) -> (code: Option<&'a str>)
    ensures
        code.is_some() <==> spec_addition(templates@, lowered@).is_some(),
        code matches Some(text) ==> Some(text@) == spec_addition(templates@, lowered@),
{
    if same_text(lowered, "container registry") {
        Some(templates.registry.as_str())
    } else if same_text(lowered, "database") {
        Some(templates.database.as_str())
    } else if same_text(lowered, "cache") {
        Some(templates.cache.as_str())
    } else if same_text(lowered, "storage") {
        Some(templates.storage.as_str())
    } else if same_text(lowered, "service bus") {
        Some(templates.service_bus.as_str())
    } else if same_text(lowered, "keyvault") {
        Some(templates.keyvault.as_str())
    } else {
        None
    }
}

/// The template of a snippet, by the resource's key in lowercase.
pub fn snippet_for<'a>(templates: &'a SnippetTemplates, lowered: &str) -> (template: &'a str)
    ensures
        template@ == spec_snippet(templates@, lowered@),
{
    if same_text(lowered, "containerregistry") {
        templates.registry.as_str()
    } else if same_text(lowered, "database") {
        templates.database.as_str()
    } else if same_text(lowered, "cache") {
        templates.cache.as_str()
    } else if same_text(lowered, "storage") {
        templates.storage.as_str()
    } else if same_text(lowered, "servicebus") {
        templates.service_bus.as_str()
    } else if same_text(lowered, "keyvault") {
        templates.keyvault.as_str()
    } else {
        templates.typescript.as_str()
    }
}

/// Appends to the entry point the code of each listed resource, in the
/// order of the list and whatever the case of the names, and gives the
/// whole back.
pub fn handle_additional_resources(
    templates: &SnippetTemplates,
    modified_index: &mut String,
    additional_resources: &[String],
) -> (whole: String)
    ensures
        final(modified_index)@ == old(modified_index)@ + spec_additions(
            templates@,
            texts(additional_resources@),
        ),
        whole@ == final(modified_index)@,
{
    let ghost names = texts(additional_resources@);
    let mut i: usize = 0;
    assert(names.take(0) == Seq::<Seq<char>>::empty());
    assert(modified_index@ + Seq::<char>::empty() == modified_index@);
    while i < additional_resources.len()
        invariant
            i <= additional_resources.len(),
            names == texts(additional_resources@),
            modified_index@ == old(modified_index)@ + spec_additions(
                templates@,
                names.take(i as int),
            ),
        decreases additional_resources.len() - i,
    {
        let ghost done = spec_additions(templates@, names.take(i as int));
        assert(names.take(i + 1).drop_last() == names.take(i as int));
        assert(names.take(i + 1).last() == additional_resources@[i as int]@);
        let lowered = additional_resources[i].as_str().to_lowercase();
        match addition_for(templates, lowered.as_str()) {
            Some(code) => {
                modified_index.append(code);
                assert(modified_index@ == old(modified_index)@ + (done + code@));
            },
            None => {
                assert(done + Seq::<char>::empty() == done);
            },
        }
        i += 1;
    }
    assert(names.take(i as int) == names);
    modified_index.as_str().to_owned()
}

/// The snippet of a resource with the given name in place of the
/// placeholder, or the default name where none is given.
pub fn generate_resource_snippet(
    templates: &SnippetTemplates,
    resource: &str,
    name: Option<&str>,
) -> (snippet: String)
    ensures
        snippet@ == replaced(
            spec_snippet(templates@, lowercase(resource@)),
            spec_placeholder(),
            match name {
                Some(given) => given@,
                None => spec_default_name(),
            },
        ),
{
    let lowered = resource.to_lowercase();
    let raw_snippet = snippet_for(templates, lowered.as_str());
    match name {
        Some(given) => replace_text(raw_snippet, "{{project_name}}", given),
        None => replace_text(raw_snippet, "{{project_name}}", "myapp"),
    }
}

/// The entry point of a project: the template with the project's name in
/// place of the placeholder, followed by the code of the record's
/// resources.
pub fn entry_point_source(templates: &SnippetTemplates, project_config: &ProjectConfig) -> (source:
    String)
    ensures
        source@ == replaced(
            templates@.typescript,
            spec_placeholder(),
            project_config@.resource_name,
        ) + spec_additions(templates@, project_config@.additional_resources),
{
    let mut modified_index = replace_text(
        templates.typescript.as_str(),
        "{{project_name}}",
        project_config.resource_name.as_str(),
    );
    handle_additional_resources(
        templates,
        &mut modified_index,
        project_config.additional_resources.as_slice(),
    )
}

/// The build pipeline of a project: the template with the project's name
/// in place of the placeholder.
pub fn pipeline_source(templates: &SnippetTemplates, config: &ProjectConfig) -> (source: String)
    ensures
        source@ == replaced(templates@.pipeline, spec_placeholder(), config@.resource_name),
{
    replace_text(templates.pipeline.as_str(), "{{project_name}}", config.resource_name.as_str())
}

/// The settings of each of the four environments, each with the
/// environment's key, in the order of the form.
pub fn environment_configs(config: &ProjectConfig) -> (files: Vec<(String, Config)>)
    ensures
        files@.len() == 4,
        forall|i: int|
            0 <= i < 4 ==> {
                let file = #[trigger] files@[i];
                &&& file.0@ == environment_keys()[i]
                &&& spec_subscription(environment_keys()[i]).is_some()
                &&& file.1.config.wf()
                &&& file.1.config@ == spec_settings(
                    config@,
                    spec_subscription(environment_keys()[i]).unwrap(),
                )
                &&& texts(file.1.environment@) == seq!["meta"@]
            },
{
    let environments = environment_options();
    let mut files: Vec<(String, Config)> = Vec::new();
    let mut i: usize = 0;
    while i < environments.len()
        invariant
            i <= 4,
            environments@.len() == 4,
            slices(environments@) == environment_keys(),
            files@.len() == i,
            forall|k: int|
                0 <= k < i ==> {
                    let file = #[trigger] files@[k];
                    &&& file.0@ == environment_keys()[k]
                    &&& spec_subscription(environment_keys()[k]).is_some()
                    &&& file.1.config.wf()
                    &&& file.1.config@ == spec_settings(
                        config@,
                        spec_subscription(environment_keys()[k]).unwrap(),
                    )
                    &&& texts(file.1.environment@) == seq!["meta"@]
                },
        decreases environments.len() - i,
    {
        let env = environments[i];
        assert(env@ == environment_keys()[i as int]) by {
            assert(slices(environments@)[i as int] == environments@[i as int]@);
        }
        let azure_subscription = get_subscription_info(env);
        let generated = generate_config(config, &azure_subscription);
        files.push((env.to_owned(), generated));
        i += 1;
    }
    files
}

/// The path of a file in a directory.
pub fn output_path(directory: &str, file: &str) -> (path: String)
    ensures
        path@ == directory@ + "/"@ + file@,
{
    let mut path = String::from_str(directory);
    path.append("/");
    path.append(file);
    path
}

/// The default record of a project that is built without the wizard; a
/// project without a name is turned down.
pub fn named_config(name: Option<&str>) -> (config: Result<ProjectConfig, String>)
    ensures
        name.is_some() <==> config.is_ok(),
        config matches Ok(record) ==> record@ == ConfigView::initial(name.unwrap()@),
        config matches Err(reason) ==> reason@ == "Name is required"@,
{
    match name {
        Some(given) => Ok(ProjectConfig::default(given)),
        None => Err("Name is required".to_owned()),
    }
}

} // verus!
