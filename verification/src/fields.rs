//! The fixed catalogue of form rows: two text fields, four environment
//! toggles and six resource toggles, separated by two section headers.

use vstd::prelude::*;
use crate::text::slices;

verus! {

/// Number of rows on the form, section headers included.
pub const TOTAL_ROWS: usize = 14;

/// Number of rows that are not toggles: two text fields and two headers.
pub const SELECTION_OFFSET: usize = 4;

/// Number of rows that can take the focus.
pub const NAVIGABLE_ROWS: usize = 12;

/// Row of the header above the environment toggles.
pub const ENVIRONMENTS_HEADER: usize = 2;

/// Row of the header above the resource toggles.
pub const RESOURCES_HEADER: usize = 7;

/// A deployment environment that can be selected on the form.
#[derive(Clone, Copy, Debug, PartialEq, Eq, Structural)]
pub enum AppEnvironment {
    Dev,
    Test,
    Stage,
    Prod,
}

/// An add-on resource that can be selected on the form.
#[derive(Clone, Copy, Debug, PartialEq, Eq, Structural)]
pub enum ResourceType {
    Database,
    Cache,
    ServiceBus,
    Storage,
    Keyvault,
    ContainerRegistry,
}

/// The row a variant occupies on the form.
pub trait EnumIndex {
    spec fn spec_value(&self) -> usize;

    fn value(&self) -> (row: usize)
        ensures
            row == self.spec_value(),
    ;
}

impl AppEnvironment {
    /// The text under which the environment is stored in a record.
    pub open spec fn spec_key(self) -> Seq<char> {
        match self {
            AppEnvironment::Dev => "dev"@,
            AppEnvironment::Test => "test"@,
            AppEnvironment::Stage => "stage"@,
            AppEnvironment::Prod => "prod"@,
        }
    }

    pub fn key(&self) -> (text: &'static str)
        ensures
            text@ == self.spec_key(),
    {
        match self {
            AppEnvironment::Dev => "dev",
            AppEnvironment::Test => "test",
            AppEnvironment::Stage => "stage",
            AppEnvironment::Prod => "prod",
        }
    }

    /// The name the environment is shown under.
    pub open spec fn spec_label(self) -> Seq<char> {
        match self {
            AppEnvironment::Dev => "Dev"@,
            AppEnvironment::Test => "Test"@,
            AppEnvironment::Stage => "Stage"@,
            AppEnvironment::Prod => "Prod"@,
        }
    }

    pub fn label(&self) -> (text: &'static str)
        ensures
            text@ == self.spec_label(),
    {
        match self {
            AppEnvironment::Dev => "Dev",
            AppEnvironment::Test => "Test",
            AppEnvironment::Stage => "Stage",
            AppEnvironment::Prod => "Prod",
        }
    }

    /// Two environments with the same key are the same environment.
    pub proof fn lemma_key_injective(a: AppEnvironment, b: AppEnvironment)
        requires
            a.spec_key() == b.spec_key(),
        ensures
            a == b,
    {
        reveal_strlit("dev");
        reveal_strlit("test");
        reveal_strlit("stage");
        reveal_strlit("prod");
        assert("dev"@.len() == 3);
        assert("test"@.len() == 4);
        assert("stage"@.len() == 5);
        assert("prod"@.len() == 4);
        assert("test"@[0] == 't');
        assert("prod"@[0] == 'p');
    }
}

impl EnumIndex for AppEnvironment {
    open spec fn spec_value(&self) -> usize {
        match self {
            AppEnvironment::Dev => 3,
            AppEnvironment::Test => 4,
            AppEnvironment::Stage => 5,
            AppEnvironment::Prod => 6,
        }
    }

    fn value(&self) -> (row: usize) {
        match self {
            AppEnvironment::Dev => 3,
            AppEnvironment::Test => 4,
            AppEnvironment::Stage => 5,
            AppEnvironment::Prod => 6,
        }
    }
}

impl ResourceType {
    /// The text under which the resource is stored in a record.
    pub open spec fn spec_key(self) -> Seq<char> {
        match self {
            ResourceType::Database => "database"@,
            ResourceType::Cache => "cache"@,
            ResourceType::ServiceBus => "servicebus"@,
            ResourceType::Storage => "storage"@,
            ResourceType::Keyvault => "keyvault"@,
            ResourceType::ContainerRegistry => "containerregistry"@,
        }
    }

    pub fn key(&self) -> (text: &'static str)
        ensures
            text@ == self.spec_key(),
    {
        match self {
            ResourceType::Database => "database",
            ResourceType::Cache => "cache",
            ResourceType::ServiceBus => "servicebus",
            ResourceType::Storage => "storage",
            ResourceType::Keyvault => "keyvault",
            ResourceType::ContainerRegistry => "containerregistry",
        }
    }

    /// The name the resource is shown under.
    pub open spec fn spec_label(self) -> Seq<char> {
        match self {
            ResourceType::Database => "Azure SQL"@,
            ResourceType::Cache => "Azure Cache for Redis"@,
            ResourceType::ServiceBus => "Azure Service Bus"@,
            ResourceType::Storage => "Azure Storage"@,
            ResourceType::Keyvault => "Azure Key Vault"@,
            ResourceType::ContainerRegistry => "Azure Container Registry"@,
        }
    }

    pub fn label(&self) -> (text: &'static str)
        ensures
            text@ == self.spec_label(),
    {
        match self {
            ResourceType::Database => "Azure SQL",
            ResourceType::Cache => "Azure Cache for Redis",
            ResourceType::ServiceBus => "Azure Service Bus",
            ResourceType::Storage => "Azure Storage",
            ResourceType::Keyvault => "Azure Key Vault",
            ResourceType::ContainerRegistry => "Azure Container Registry",
        }
    }

    /// Two resources with the same key are the same resource.
    pub proof fn lemma_key_injective(a: ResourceType, b: ResourceType)
        requires
            a.spec_key() == b.spec_key(),
        ensures
            a == b,
    {
        reveal_strlit("database");
        reveal_strlit("cache");
        reveal_strlit("servicebus");
        reveal_strlit("storage");
        reveal_strlit("keyvault");
        reveal_strlit("containerregistry");
        assert("database"@.len() == 8);
        assert("cache"@.len() == 5);
        assert("servicebus"@.len() == 10);
        assert("storage"@.len() == 7);
        assert("keyvault"@.len() == 8);
        assert("containerregistry"@.len() == 17);
        assert("database"@[0] == 'd');
        assert("keyvault"@[0] == 'k');
    }
}

impl EnumIndex for ResourceType {
    open spec fn spec_value(&self) -> usize {
        match self {
            ResourceType::Database => 8,
            ResourceType::Cache => 9,
            ResourceType::ServiceBus => 10,
            ResourceType::Storage => 11,
            ResourceType::Keyvault => 12,
            ResourceType::ContainerRegistry => 13,
        }
    }

    fn value(&self) -> (row: usize) {
        match self {
            ResourceType::Database => 8,
            ResourceType::Cache => 9,
            ResourceType::ServiceBus => 10,
            ResourceType::Storage => 11,
            ResourceType::Keyvault => 12,
            ResourceType::ContainerRegistry => 13,
        }
    }
}

/// The keys of the environment group, in the order of its rows.
pub open spec fn environment_keys() -> Seq<Seq<char>> {
    seq![
        AppEnvironment::Dev.spec_key(),
        AppEnvironment::Test.spec_key(),
        AppEnvironment::Stage.spec_key(),
        AppEnvironment::Prod.spec_key(),
    ]
}

/// The keys of the resource group, in the order of its rows.
pub open spec fn resource_keys() -> Seq<Seq<char>> {
    seq![
        ResourceType::Database.spec_key(),
        ResourceType::Cache.spec_key(),
        ResourceType::ServiceBus.spec_key(),
        ResourceType::Storage.spec_key(),
        ResourceType::Keyvault.spec_key(),
        ResourceType::ContainerRegistry.spec_key(),
    ]
}

/// The environment group holds each environment's key once, at the place
/// of the environment's row.
pub proof fn lemma_environment_keys()
    ensures
        environment_keys().no_duplicates(),
        environment_keys().len() == 4,
        forall|e: AppEnvironment| #[trigger]
            environment_keys()[e.spec_value() - 3] == e.spec_key(),
        forall|e: AppEnvironment| #[trigger] environment_keys().contains(e.spec_key()),
{
    let keys = environment_keys();
    assert forall|i: int, j: int| 0 <= i < keys.len() && 0 <= j < keys.len() && i != j implies
        keys[i] != keys[j] by {
        let a = environment_at(i);
        let b = environment_at(j);
        if keys[i] == keys[j] {
            AppEnvironment::lemma_key_injective(a, b);
        }
    }
    assert forall|e: AppEnvironment| #[trigger] environment_keys().contains(e.spec_key()) by {
        assert(keys[e.spec_value() - 3] == e.spec_key());
    }
}

/// The resource group holds each resource's key once, at the place of the
/// resource's row.
pub proof fn lemma_resource_keys()
    ensures
        resource_keys().no_duplicates(),
        resource_keys().len() == 6,
        forall|r: ResourceType| #[trigger] resource_keys()[r.spec_value() - 8] == r.spec_key(),
        forall|r: ResourceType| #[trigger] resource_keys().contains(r.spec_key()),
{
    let keys = resource_keys();
    assert forall|i: int, j: int| 0 <= i < keys.len() && 0 <= j < keys.len() && i != j implies
        keys[i] != keys[j] by {
        let a = resource_at(i);
        let b = resource_at(j);
        if keys[i] == keys[j] {
            ResourceType::lemma_key_injective(a, b);
        }
    }
    assert forall|r: ResourceType| #[trigger] resource_keys().contains(r.spec_key()) by {
        assert(keys[r.spec_value() - 8] == r.spec_key());
    }
}

/// The environment whose toggle is the `i`-th of its group.
pub open spec fn environment_at(i: int) -> AppEnvironment {
    if i == 0 {
        AppEnvironment::Dev
    } else if i == 1 {
        AppEnvironment::Test
    } else if i == 2 {
        AppEnvironment::Stage
    } else {
        AppEnvironment::Prod
    }
}

/// The resource whose toggle is the `i`-th of its group.
pub open spec fn resource_at(i: int) -> ResourceType {
    if i == 0 {
        ResourceType::Database
    } else if i == 1 {
        ResourceType::Cache
    } else if i == 2 {
        ResourceType::ServiceBus
    } else if i == 3 {
        ResourceType::Storage
    } else if i == 4 {
        ResourceType::Keyvault
    } else {
        ResourceType::ContainerRegistry
    }
}

/// The keys of the four environments, in the order of their rows.
pub fn environment_options() -> (keys: [&'static str; 4])
    ensures
        slices(keys@) == environment_keys(),
{
    let keys = ["dev", "test", "stage", "prod"];
    assert(slices(keys@) == environment_keys());
    keys
}

/// The keys of the six resources, in the order of their rows.
pub fn resource_options() -> (keys: [&'static str; 6])
    ensures
        slices(keys@) == resource_keys(),
{
    let keys = ["database", "cache", "servicebus", "storage", "keyvault", "containerregistry"];
    assert(slices(keys@) == resource_keys());
    keys
}

/// One of the two free-text fields.
#[derive(Clone, Copy, Debug, PartialEq, Eq, Structural)]
pub enum TextField {
    ResourceName,
    OwnerEmail,
}

/// What a focusable row edits.
#[derive(Clone, Copy, Debug, PartialEq, Eq, Structural)]
pub enum FieldKind {
    Text(TextField),
    Environment(AppEnvironment),
    Resource(ResourceType),
}

/// Whether a row can take the focus: it lies on the form and is not a
/// section header.
pub open spec fn is_navigable(row: usize) -> bool {
    row < TOTAL_ROWS && row != ENVIRONMENTS_HEADER && row != RESOURCES_HEADER
}

/// The field on a row; `None` for a header and for a row off the form.
pub open spec fn spec_field_at(row: usize) -> Option<FieldKind> {
    if row == 0 {
        Some(FieldKind::Text(TextField::ResourceName))
    } else if row == 1 {
        Some(FieldKind::Text(TextField::OwnerEmail))
    } else if ENVIRONMENTS_HEADER < row < RESOURCES_HEADER {
        Some(FieldKind::Environment(environment_at(row - 3)))
    } else if RESOURCES_HEADER < row < TOTAL_ROWS {
        Some(FieldKind::Resource(resource_at(row - 8)))
    } else {
        None
    }
}

/// Looks a row up in the catalogue.
pub fn field_at(row: usize) -> (kind: Option<FieldKind>)
    ensures
        kind == spec_field_at(row),
        kind.is_some() <==> is_navigable(row),
        forall|e: AppEnvironment|
            kind == Some(FieldKind::Environment(e)) <==> row == #[trigger] e.spec_value(),
        forall|r: ResourceType|
            kind == Some(FieldKind::Resource(r)) <==> row == #[trigger] r.spec_value(),
{
    match row {
        0 => Some(FieldKind::Text(TextField::ResourceName)),
        1 => Some(FieldKind::Text(TextField::OwnerEmail)),
        3 => Some(FieldKind::Environment(AppEnvironment::Dev)),
        4 => Some(FieldKind::Environment(AppEnvironment::Test)),
        5 => Some(FieldKind::Environment(AppEnvironment::Stage)),
        6 => Some(FieldKind::Environment(AppEnvironment::Prod)),
        8 => Some(FieldKind::Resource(ResourceType::Database)),
        9 => Some(FieldKind::Resource(ResourceType::Cache)),
        10 => Some(FieldKind::Resource(ResourceType::ServiceBus)),
        11 => Some(FieldKind::Resource(ResourceType::Storage)),
        12 => Some(FieldKind::Resource(ResourceType::Keyvault)),
        13 => Some(FieldKind::Resource(ResourceType::ContainerRegistry)),
        _ => None,
    }
}

impl TextField {
    /// The name the field is shown under, in front of its value.
    pub open spec fn spec_label(self) -> Seq<char> {
        match self {
            TextField::ResourceName => "Application Name: "@,
            TextField::OwnerEmail => "Owner's Email: "@,
        }
    }

    pub fn label(&self) -> (text: &'static str)
        ensures
            text@ == self.spec_label(),
    {
        match self {
            TextField::ResourceName => "Application Name: ",
            TextField::OwnerEmail => "Owner's Email: ",
        }
    }
}

impl FieldKind {
    /// The name a field is shown under.
    pub open spec fn spec_label(self) -> Seq<char> {
        match self {
            FieldKind::Text(field) => field.spec_label(),
            FieldKind::Environment(environment) => environment.spec_label(),
            FieldKind::Resource(resource) => resource.spec_label(),
        }
    }

    pub fn label(&self) -> (text: &'static str)
        ensures
            text@ == self.spec_label(),
    {
        match self {
            FieldKind::Text(field) => field.label(),
            FieldKind::Environment(environment) => environment.label(),
            FieldKind::Resource(resource) => resource.label(),
        }
    }
}

/// An entry of the catalogue: a row, the field on it and the field's name.
#[derive(Clone, Copy, Debug)]
pub struct FieldDescriptor {
    pub index: usize,
    pub kind: FieldKind,
    pub label: &'static str,
}

/// The entry of a row; `None` for a header and for a row off the form.
pub fn field_descriptor(row: usize) -> (entry: Option<FieldDescriptor>)
    ensures
        entry.is_some() <==> is_navigable(row),
        entry matches Some(found) ==> found.index == row && Some(found.kind) == spec_field_at(row)
            && found.label@ == found.kind.spec_label(),
{
    match field_at(row) {
        Some(kind) => Some(FieldDescriptor { index: row, kind, label: kind.label() }),
        None => None,
    }
}

/// The row of a field.
pub open spec fn spec_row_of(kind: FieldKind) -> usize {
    match kind {
        FieldKind::Text(TextField::ResourceName) => 0,
        FieldKind::Text(TextField::OwnerEmail) => 1,
        FieldKind::Environment(e) => e.spec_value(),
        FieldKind::Resource(r) => r.spec_value(),
    }
}

/// Every field has a navigable row of its own, and the catalogue gives the
/// field back for it.
pub proof fn lemma_catalogue_is_a_bijection()
    ensures
        forall|kind: FieldKind|
            is_navigable(#[trigger] spec_row_of(kind)) && spec_field_at(spec_row_of(kind)) == Some(
                kind,
            ),
        forall|row: usize|
            is_navigable(row) ==> spec_row_of(#[trigger] spec_field_at(row).unwrap()) == row,
{
}

} // verus!
