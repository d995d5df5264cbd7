//! Presets and the catalog that holds them by name.

use vstd::prelude::*;
use vstd::string::StringExecFns;
use crate::presets::definition::{definition_of, profile_of, Definition, Members, PresetError};
use crate::presets::json::{object_content, parse_object, parsed_object};
use crate::profile::Profile;
use crate::structures::entries::{distinct_keys, lookup, mapping};
use crate::structures::store::Store;

verus! {

/// A profile under the name of its category and description.
#[derive(Debug)]
pub struct Preset {
    pub name: String,
    pub profile: Profile,
}

/// The name of the preset of a category with a description: the two,
/// with space, hyphen, space between them.
pub open spec fn preset_name(category: Seq<char>, description: Seq<char>) -> Seq<char> {
    category + " - "@ + description
}

/// The name and the profile of the preset that a document of a category
/// defines, where the text was a JSON object with these members; or why it
/// defines none.
pub open spec fn compiled(category: Seq<char>, document: Option<Members>) -> Result<
    (Seq<char>, Profile),
    PresetError,
> {
    match document {
        None => Err(PresetError::Malformed),
        Some(members) => match definition_of(members) {
            Err(error) => Err(error),
            Ok(definition) => Ok((preset_name(category, definition.description), profile_of(definition))),
        },
    }
}

/// Whether a result of compiling is the result that was to be had.
pub open spec fn is_compiled(
    result: Result<Preset, PresetError>,
    expected: Result<(Seq<char>, Profile), PresetError>,
) -> bool {
    match result {
        Ok(preset) => expected == Ok::<(Seq<char>, Profile), PresetError>((preset.name@, preset.profile)),
        Err(error) => expected == Err::<(Seq<char>, Profile), PresetError>(error),
    }
}

impl Preset {
    /// The preset that a definition found under a category describes.
    pub fn of_definition(category: &str, definition: &Definition) -> (preset: Preset)
        ensures
            preset.name@ == preset_name(category@, definition@.description),
            preset.profile == profile_of(definition@),
    {
        let mut name = category.to_owned();
        name.append(" - ");
        name.append(definition.description.as_str());
        Preset { name, profile: definition.profile() }
    }

    /// Compiles the members of a JSON object found under a category.
    pub fn compile_document(category: &str, document: &serde_json::Map<String, serde_json::Value>) -> (result:
        Result<Preset, PresetError>)
        ensures
            is_compiled(result, compiled(category@, Some(object_content(*document)))),
    {
        match Definition::read(document) {
            Ok(definition) => Ok(Preset::of_definition(category, &definition)),
            Err(error) => Err(error),
        }
    }

    /// Compiles the text of a document found under a category.
    pub fn compile(category: &str, text: &str) -> (result: Result<Preset, PresetError>)
        ensures
            is_compiled(result, compiled(category@, parsed_object(text@))),
    {
        match parse_object(text) {
            Ok(document) => Preset::compile_document(category, &document),
            Err(_) => Err(PresetError::Malformed),
        }
    }
}

/// Profiles by preset name. A name has one profile: the last one inserted
/// under it.
pub struct PresetCatalog {
    presets: Store<Profile>,
}

impl View for PresetCatalog {
    type V = Map<Seq<char>, Profile>;

    /// The profile of every name that has one.
    open spec fn view(&self) -> Map<Seq<char>, Profile> {
        mapping(self.entries())
    }
}

impl PresetCatalog {
    /// Names and profiles in the order in which the catalog lists them.
    pub closed spec fn entries(&self) -> Seq<(Seq<char>, Profile)> {
        self.presets.entries()
    }

    /// The empty catalog.
    pub fn new() -> (catalog: Self)
        ensures
            catalog@ == Map::<Seq<char>, Profile>::empty(),
            catalog.entries().len() == 0,
    {
        PresetCatalog { presets: Store::default() }
    }

    /// Puts a preset into the catalog, in place of the one that had its
    /// name, if one had.
    pub fn insert(&mut self, preset: Preset)
        ensures
            final(self)@ == old(self)@.insert(preset.name@, preset.profile),
    {
        self.presets.set(preset.name.as_str(), preset.profile);
    }

    /// The profile under a name, if the name has one.
    pub fn get(&self, name: &str) -> (found: Option<&Profile>)
        ensures
            match found {
                Some(profile) => lookup(self@, name@) == Some(*profile),
                None => lookup(self@, name@) is None,
            },
    {
        self.presets.get(name)
    }

    /// The number of presets.
    pub fn len(&self) -> (count: usize)
        ensures
            count == self.entries().len(),
    {
        self.presets.len()
    }

    /// The names, each once, in the order in which the catalog lists them.
    pub fn names(&self) -> (names: Vec<&String>)
        ensures
            names@.len() == self.entries().len(),
            forall|at: int| 0 <= at < names@.len() ==> names@[at]@ == self.entries()[at].0,
            distinct_keys(self.entries()),
    {
        self.presets.keys()
    }
}

} // verus!
