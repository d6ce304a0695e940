//! The settings container: a wrapper that binds a value to its own storage
//! location, so later saves and loads need not repeat the application and
//! file name. A container is *populated* when it holds a value and *empty*
//! when it does not; construction, `set_settings` and a successful load
//! populate it, while the fallback of `try_load_or_default` leaves it empty.

use crate::paths::located_for;
use crate::paths::SettingsLocation;
use crate::store::load_settings_with_filename;
use crate::store::save_settings_with_filename;
use crate::LoadSettingsError;
use crate::SaveSettingsError;
use vstd::prelude::*;

verus! {

/// A value paired with the application name and file name it is stored
/// under. The two names are fixed at construction and used, unchanged, by
/// every save and load that goes through the container.
#[derive(Debug, PartialEq)]
pub struct SettingsContainer<T> {
    settings: Option<T>,
    crate_name: String,
    file_name: String,
}

impl<T> SettingsContainer<T> {
    /// The held value, or nothing when the container is empty.
    pub closed spec fn settings_spec(&self) -> Option<T> {
        self.settings
    }

    /// The application name the container stores under.
    pub closed spec fn crate_name_spec(&self) -> Seq<char> {
        self.crate_name@
    }

    /// The file name the container stores under.
    pub closed spec fn file_name_spec(&self) -> Seq<char> {
        self.file_name@
    }

    /// Holds when the container is the empty one bound to `crate_name` and
    /// `file_name`: no value, and exactly those names.
    pub open spec fn is_default_for(&self, crate_name: Seq<char>, file_name: Seq<char>) -> bool {
        &&& self.settings_spec() is None
        &&& self.crate_name_spec() == crate_name
        &&& self.file_name_spec() == file_name
    }

    /// Creates a populated container holding `content`, bound to the given
    /// application and file name.
    pub fn new(content: T, crate_name: &str, file_name: &str) -> (c: Self)
        ensures
            c.settings_spec() == Some(content),
            c.crate_name_spec() == crate_name@,
            c.file_name_spec() == file_name@,
    {
        SettingsContainer {
            settings: Some(content),
            crate_name: crate_name.to_owned(),
            file_name: file_name.to_owned(),
        }
    }

    /// Creates the empty container bound to the given application and file
    /// name; `try_load_or_default` falls back to it when a load fails.
    pub fn default(crate_name: &str, file_name: &str) -> (c: Self)
        ensures
            c.is_default_for(crate_name@, file_name@),
    {
        SettingsContainer {
            settings: None,
            crate_name: crate_name.to_owned(),
            file_name: file_name.to_owned(),
        }
    }

    /// The held value, by reference.
    pub fn get_settings(&self) -> (r: &Option<T>)
        ensures
            *r == self.settings_spec(),
    {
        &self.settings
    }

    /// The held value, by mutable reference, or nothing when the container
    /// is empty.
    pub fn get_mut_settings(&mut self) -> (r: Option<&mut T>)
        ensures
            (match old(self).settings_spec() {
                None => r is None && *final(self) == *old(self),
                Some(v) => {
                    &&& r is Some
                    &&& *r.unwrap() == v
                    &&& final(self).settings_spec() == Some(*final(r.unwrap()))
                    &&& final(self).crate_name_spec() == old(self).crate_name_spec()
                    &&& final(self).file_name_spec() == old(self).file_name_spec()
                },
            }),
    {
        self.settings.as_mut()
    }

    /// Replaces the held value: the container is populated afterwards, and
    /// its names stay as they were.
    pub fn set_settings(&mut self, settings: T)
        ensures
            final(self).settings_spec() == Some(settings),
            final(self).crate_name_spec() == old(self).crate_name_spec(),
            final(self).file_name_spec() == old(self).file_name_spec(),
    {
        self.settings = Some(settings);
    }

    /// The application name the container stores under.
    pub fn crate_name(&self) -> (r: &String)
        ensures
            r@ == self.crate_name_spec(),
    {
        &self.crate_name
    }

    /// The file name the container stores under.
    pub fn file_name(&self) -> (r: &String)
        ensures
            r@ == self.file_name_spec(),
    {
        &self.file_name
    }

    /// Takes the container apart into its value, application name and file
    /// name; the host serializes the three together so a saved container
    /// carries its own storage location.
    pub fn into_parts(self) -> (parts: (Option<T>, String, String))
        ensures
            parts.0 == self.settings_spec(),
            parts.1@ == self.crate_name_spec(),
            parts.2@ == self.file_name_spec(),
    {
        let SettingsContainer { settings, crate_name, file_name } = self;
        (settings, crate_name, file_name)
    }

    /// Keeps a loaded container, or falls back to the empty container bound
    /// to the given names when the load failed — whatever the failure was.
    pub fn try_load_or_default(
        crate_name: &str,
        file_name: &str,
        loaded: Result<Self, LoadSettingsError>,
    ) -> (c: Self)
        ensures
            loaded matches Ok(l) ==> c == l,
            loaded matches Err(_) ==> c.is_default_for(crate_name@, file_name@),
    {
        match loaded {
            Ok(settings_container) => settings_container,
            Err(_) => SettingsContainer::default(crate_name, file_name),
        }
    }

    /// Begins a load of a container stored under the given names; the host
    /// reads and parses the file at the returned location.
    pub fn load(crate_name: &str, file_name: &str) -> (r: Result<
        SettingsLocation,
        LoadSettingsError,
    >)
        ensures
            r matches Err(e) ==> e == LoadSettingsError::FailedToGetUserHome,
            r matches Ok(loc) ==> located_for(crate_name@, file_name@, loc),
    {
        load_settings_with_filename(crate_name, file_name)
    }

    /// Begins a save of this container under its own names; the host
    /// serializes the whole container — names included — and writes it at
    /// the returned location.
    pub fn save(&self) -> (r: Result<SettingsLocation, SaveSettingsError>)
        ensures
            r matches Err(e) ==> e == SaveSettingsError::FailedToGetUserHome,
            r matches Ok(loc) ==> located_for(
                self.crate_name_spec(),
                self.file_name_spec(),
                loc,
            ),
    {
        save_settings_with_filename(self.crate_name.as_str(), self.file_name.as_str())
    }
}

/// Law: the fallback is *the* default container — two containers that are
/// both default-bound to the same names agree in everything observable, so
/// a failed `try_load_or_default` returns a container equal to what
/// `default` builds for those names.
pub proof fn lemma_default_containers_agree<T>(
    c1: SettingsContainer<T>,
    c2: SettingsContainer<T>,
    crate_name: Seq<char>,
    file_name: Seq<char>,
)
    requires
        c1.is_default_for(crate_name, file_name),
        c2.is_default_for(crate_name, file_name),
    ensures
        c1.settings_spec() == c2.settings_spec(),
        c1.crate_name_spec() == c2.crate_name_spec(),
        c1.file_name_spec() == c2.file_name_spec(),
{
}

} // verus!
