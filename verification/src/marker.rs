//! The files whose presence marks a directory: the settings file of a Gradle
//! project, in either dialect, and the project's wrapper script.

use vstd::prelude::*;
use vstd::string::StringExecFns;
use crate::path::{AbsPath, PathView};
use crate::platform::Platform;

verus! {

/// The name of a settings file written in Groovy.
pub const SETTINGS_FILE: &'static str = "settings.gradle";

/// The name of a settings file written as a Kotlin script.
pub const SETTINGS_FILE_KT: &'static str = "settings.gradle.kts";

/// Whether `path` names a settings file: its last name is one of the two
/// settings file names, letter for letter.
pub open spec fn names_settings_file(path: PathView) -> bool {
    path.file_name() == Some(SETTINGS_FILE@) || path.file_name() == Some(SETTINGS_FILE_KT@)
}

/// Whether `path` names the wrapper script of `platform`: its last name is
/// the platform's wrapper name, letter for letter.
pub open spec fn names_wrapper(platform: Platform, path: PathView) -> bool {
    path.file_name() == Some(platform.spec_wrapper_name())
}

/// Whether `path` names a settings file, in either dialect.
pub fn is_settings_file(path: &AbsPath) -> (found: bool)
    ensures
        found == names_settings_file(path@),
{
    match path.file_name() {
        None => false,
        Some(name) => {
            *name == String::from_str(SETTINGS_FILE) || *name == String::from_str(
                SETTINGS_FILE_KT,
            )
        },
    }
}

/// Whether `path` names the wrapper script of `platform`.
pub fn is_gradlew(platform: Platform, path: &AbsPath) -> (found: bool)
    ensures
        found == names_wrapper(platform, path@),
{
    match path.file_name() {
        None => false,
        Some(name) => *name == String::from_str(platform.wrapper_name()),
    }
}

/// A test on the path of a directory entry, by which a search recognises the
/// directory it looks for.
pub trait Marker {
    /// The paths that the marker accepts.
    spec fn accepts(&self, path: PathView) -> bool;

    /// Whether the marker accepts `path`.
    fn matches(&self, path: &AbsPath) -> (found: bool)
        ensures
            found == self.accepts(path@),
    ;
}

/// Marks the root of a project: accepts a settings file.
#[derive(Clone, Copy, Debug)]
pub struct SettingsFile;

/// Marks the directory of the wrapper script: accepts the wrapper of its
/// platform.
#[derive(Clone, Copy, Debug)]
pub struct Wrapper {
    pub platform: Platform,
}

impl Marker for SettingsFile {
    open spec fn accepts(&self, path: PathView) -> bool {
        names_settings_file(path)
    }

    fn matches(&self, path: &AbsPath) -> (found: bool) {
        is_settings_file(path)
    }
}

impl Marker for Wrapper {
    open spec fn accepts(&self, path: PathView) -> bool {
        names_wrapper(self.platform, path)
    }

    fn matches(&self, path: &AbsPath) -> (found: bool) {
        is_gradlew(self.platform, path)
    }
}

} // verus!
