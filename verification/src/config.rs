//! Entry descriptors: the declarative records that pair a store location
//! (root scope, sub-path, value name) with the typed value expected there,
//! and the configuration that lists them.
use vstd::prelude::*;
use vstd::string::StringExecFns;

use crate::registry_value::spec_render;
use crate::registry_value::spec_type_name;
use crate::registry_value::RegistryValue;
use crate::registry_value::ValueModel;

verus! {

/// The root scopes of the store: its top-level namespace partitions.
#[derive(Clone, Copy, Debug, PartialEq, Eq, Structural)]
pub enum RegistryKeyType {
    HkeyClassesRoot,
    HkeyCurrentUser,
    HkeyLocalMachine,
    HkeyUsers,
    HkeyCurrentConfig,
}

/// The operator-facing name of a root scope.
pub open spec fn spec_key_type_name(k: RegistryKeyType) -> Seq<char> {
    match k {
        RegistryKeyType::HkeyClassesRoot => "HkeyClassesRoot"@,
        RegistryKeyType::HkeyCurrentUser => "HkeyCurrentUser"@,
        RegistryKeyType::HkeyLocalMachine => "HkeyLocalMachine"@,
        RegistryKeyType::HkeyUsers => "HkeyUsers"@,
        RegistryKeyType::HkeyCurrentConfig => "HkeyCurrentConfig"@,
    }
}

impl RegistryKeyType {
    /// The operator-facing name of this root scope.
    pub fn name(&self) -> (r: &'static str)
        ensures
            r@ == spec_key_type_name(*self),
    {
        match self {
            RegistryKeyType::HkeyClassesRoot => "HkeyClassesRoot",
            RegistryKeyType::HkeyCurrentUser => "HkeyCurrentUser",
            RegistryKeyType::HkeyLocalMachine => "HkeyLocalMachine",
            RegistryKeyType::HkeyUsers => "HkeyUsers",
            RegistryKeyType::HkeyCurrentConfig => "HkeyCurrentConfig",
        }
    }
}

/// A descriptor: a store location and the typed value expected there.  Built
/// once from configuration, read many times, never mutated.  The expected
/// value serves both as the template fixing the tag to write and as the
/// sample used when the location holds no value yet.
#[derive(Debug)]
pub struct RegistryEntry {
    pub registry_key_type: RegistryKeyType,
    pub registry_key_name: String,
    pub registry_value_name: String,
    pub registry_value: RegistryValue,
}

/// The operator-facing details block for an entry holding the given current
/// value: one labelled line each for the root scope, the key name, the value
/// name, the current value's kind and the current value itself.
pub open spec fn spec_details(
    key_type: RegistryKeyType,
    key_name: Seq<char>,
    value_name: Seq<char>,
    current: ValueModel,
) -> Seq<char> {
    "Registry Key Type: "@ + spec_key_type_name(key_type) + "\n"@ + "Registry Key Name: "@
        + key_name + "\n"@ + "Registry Value Name: "@ + value_name + "\n"@
        + "Registry Value Type: "@ + spec_type_name(current) + "\n"@ + "Registry Value: "@
        + spec_render(current) + "\n"@
}

impl RegistryEntry {
    /// The root scope of the entry's location.
    pub fn registry_key_type(&self) -> (r: &RegistryKeyType)
        ensures
            *r == self.registry_key_type,
    {
        &self.registry_key_type
    }

    /// The sub-path of the entry's location beneath its root scope.
    pub fn registry_key_name(&self) -> (r: &str)
        ensures
            r@ == self.registry_key_name@,
    {
        self.registry_key_name.as_str()
    }

    /// The name of the value at the entry's location.
    pub fn registry_value_name(&self) -> (r: &str)
        ensures
            r@ == self.registry_value_name@,
    {
        self.registry_value_name.as_str()
    }

    /// The typed value the entry expects at its location.
    pub fn registry_value(&self) -> (r: &RegistryValue)
        ensures
            *r == self.registry_value,
    {
        &self.registry_value
    }

    /// Renders the details block for this entry, given the value currently
    /// stored at its location.
    pub fn current_registry_value_details(&self, current: &RegistryValue) -> (r: String)
        ensures
            r@ == spec_details(
                self.registry_key_type,
                self.registry_key_name@,
                self.registry_value_name@,
                current@,
            ),
    {
        let mut details = String::new();
        details.append("Registry Key Type: ");
        details.append(self.registry_key_type.name());
        details.append("\n");
        details.append("Registry Key Name: ");
        details.append(self.registry_key_name.as_str());
        details.append("\n");
        details.append("Registry Value Name: ");
        details.append(self.registry_value_name.as_str());
        details.append("\n");
        details.append("Registry Value Type: ");
        let kind_text = current.type_as_string();
        details.append(kind_text.as_str());
        details.append("\n");
        details.append("Registry Value: ");
        let rendered = current.val_as_string();
        details.append(rendered.as_str());
        details.append("\n");
        proof {
            assert(details@ =~= spec_details(
                self.registry_key_type,
                self.registry_key_name@,
                self.registry_value_name@,
                current@,
            ));
        }
        details
    }
}

/// The configuration: the list of entries one run processes, and whether the
/// configuration was freshly generated (a first run) rather than loaded.
#[derive(Debug)]
pub struct Config {
    pub is_generated: bool,
    pub registry: Vec<RegistryEntry>,
}

impl Config {
    /// True when this configuration is the freshly generated sample: a first
    /// run saves it and performs no store operation.
    pub fn is_generated(&self) -> (r: bool)
        ensures
            r == self.is_generated,
    {
        self.is_generated
    }

    /// The entries this configuration lists.
    pub fn registry(&self) -> (r: &Vec<RegistryEntry>)
        ensures
            *r == self.registry,
    {
        &self.registry
    }

    /// The sample configuration a first run generates: marked as generated
    /// and holding exactly two entries under the per-user root scope, one
    /// 32-bit integer value of 1 and one plain text value.
    pub fn generate() -> (r: Self)
        ensures
            r.is_generated,
            r.registry@.len() == 2,
            r.registry@[0].registry_key_type == RegistryKeyType::HkeyCurrentUser,
            r.registry@[0].registry_key_name@ == "Sample Key Name"@,
            r.registry@[0].registry_value_name@ == "Sample Key Value"@,
            r.registry@[0].registry_value@ == ValueModel::Dword(1),
            r.registry@[1].registry_key_type == RegistryKeyType::HkeyCurrentUser,
            r.registry@[1].registry_key_name@ == "Other Sample Key Name"@,
            r.registry@[1].registry_value_name@ == "Other Sample Key Value"@,
            r.registry@[1].registry_value@ == ValueModel::Sz("Example string"@),
    {
        let sample_val_1 = RegistryEntry {
            registry_key_type: RegistryKeyType::HkeyCurrentUser,
            registry_key_name: "Sample Key Name".to_owned(),
            registry_value_name: "Sample Key Value".to_owned(),
            registry_value: RegistryValue::Dword(1),
        };
        let sample_val_2 = RegistryEntry {
            registry_key_type: RegistryKeyType::HkeyCurrentUser,
            registry_key_name: "Other Sample Key Name".to_owned(),
            registry_value_name: "Other Sample Key Value".to_owned(),
            registry_value: RegistryValue::Sz("Example string".to_owned()),
        };
        let mut registry: Vec<RegistryEntry> = Vec::new();
        registry.push(sample_val_1);
        registry.push(sample_val_2);
        Config { is_generated: true, registry }
    }
}

} // verus!
