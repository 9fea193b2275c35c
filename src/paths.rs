//! Where a named configuration file lives.
//!
//! The platform's configuration directory for an application is looked up
//! through the `directories` crate; the file inside it is named after the
//! configuration and the extension of the document format.
use vstd::prelude::*;

use crate::error::ConfyError;
use directories::ProjectDirs;
use std::path::PathBuf;

verus! {

/// The extension of every configuration file: documents are TOML.
pub const EXTENSION: &'static str = "toml";

/// The configuration name used when the caller gives none.
pub const DEFAULT_CONFIG_NAME: &'static str = "default-config";

/// The configuration name that a call with `config_name` stands for.
pub open spec fn name_or_default(config_name: Option<&str>) -> Seq<char> {
    match config_name {
        Some(name) => name@,
        None => DEFAULT_CONFIG_NAME@,
    }
}

/// `{name}.{extension}`.
pub open spec fn file_name(name: Seq<char>) -> Seq<char> {
    name + "."@ + EXTENSION@
}

/// The path of `file` inside the directory `dir`, by the Unix rule of
/// joining paths, where `/` separates components (on Windows, where the
/// platform separator is `\`, the result mixes the two). A `file` that is
/// itself absolute stands alone; otherwise a separator is put between the
/// two unless `dir` is empty or already ends in one.
pub open spec fn joined(dir: Seq<char>, file: Seq<char>) -> Seq<char> {
    if file.len() > 0 && file[0] == '/' {
        file
    } else if dir.len() == 0 || dir.last() == '/' {
        dir + file
    } else {
        dir + seq!['/'] + file
    }
}

/// The reason given when no base directory can be found for the
/// environment (typically: no home directory).
pub open spec fn no_home_reason() -> Seq<char> {
    "could not determine home directory path"@
}

/// The reason given when the configuration directory, shown as `shown`, is
/// not valid Unicode.
pub open spec fn not_unicode_reason(shown: Seq<char>) -> Seq<char> {
    shown + " is not valid Unicode"@
}

/// `{config_name}.toml`, or `default-config.toml` when no name is given.
pub fn config_file_name(config_name: Option<&str>) -> (r: String)
    ensures
        r@ == file_name(name_or_default(config_name)),
{
    let name = match config_name {
        Some(name) => name,
        None => DEFAULT_CONFIG_NAME,
    };
    String::from_str(name).concat(".").concat(EXTENSION)
}

/// Joins `file` onto the directory `dir`, as [`joined`] describes.
pub fn join_path(dir: &str, file: &str) -> (r: String)
    ensures
        r@ == joined(dir@, file@),
{
    let file_len = file.unicode_len();
    let dir_len = dir.unicode_len();
    if file_len > 0 && file.get_char(0) == '/' {
        String::from_str(file)
    } else if dir_len == 0 || dir.get_char(dir_len - 1) == '/' {
        String::from_str(dir).concat(file)
    } else {
        proof {
            reveal_strlit("/");
        }
        String::from_str(dir).concat("/").concat(file)
    }
}

/// The path of the configuration file `config_name` (or the default name)
/// inside the configuration directory `dir`.
pub fn file_path_in(dir: &str, config_name: Option<&str>) -> (r: String)
    ensures
        r@ == joined(dir@, file_name(name_or_default(config_name))),
{
    let file = config_file_name(config_name);
    join_path(dir, file.as_str())
}

/// `directories::ProjectDirs`: the platform directories of one application.
#[verifier::external_type_specification]
#[verifier::external_body]
pub struct ExProjectDirs(ProjectDirs);

/// Relies on `directories::ProjectDirs::from` to find an application's
/// platform directories. The answer depends on the environment (the home
/// directory, `XDG_CONFIG_HOME`), so nothing is promised of it.
pub assume_specification[ ProjectDirs::from ](
    qualifier: &str,
    organization: &str,
    application: &str,
) -> Option<ProjectDirs>;

/// `std::path::PathBuf`, an owned filesystem path, carried from the
/// directory lookup to its conversion into text.
#[verifier::external_type_specification]
#[verifier::external_body]
pub struct ExPathBuf(PathBuf);

/// Relies on `directories::ProjectDirs::config_dir` for the application's
/// configuration directory.
#[verifier::external_body]
fn config_dir(project: &ProjectDirs) -> PathBuf {
    project.config_dir().to_path_buf()
}

/// Relies on `Path::to_str`: the path's text if it is valid Unicode, else
/// `None`.
#[verifier::external_body]
fn path_text(path: &PathBuf) -> Option<String> {
    path.to_str().map(|text| text.to_string())
}

/// Relies on the `Debug` rendering of `Path`: the path as messages show it.
#[verifier::external_body]
fn path_shown(path: &PathBuf) -> String {
    format!("{path:?}")
}

/// Turns the outcome of the configuration-directory lookup into the
/// directory's text, or the error that reports it as unusable.
pub fn directory_text(found: Result<String, String>) -> (r: Result<String, ConfyError>)
    ensures
        match found {
            Ok(dir) => r == Ok::<String, ConfyError>(dir),
            Err(shown) => r matches Err(ConfyError::BadConfigDirectory(reason))
                && reason@ == not_unicode_reason(shown@),
        },
{
    match found {
        Ok(dir) => Ok(dir),
        Err(shown) => Err(ConfyError::BadConfigDirectory(shown.concat(" is not valid Unicode"))),
    }
}

/// The configuration directory of `project` as text.
fn get_configuration_directory_str(project: &ProjectDirs) -> (r: Result<String, ConfyError>)
    ensures
        r is Err ==> (r matches Err(ConfyError::BadConfigDirectory(reason)) && exists|shown: Seq<
            char,
        >| reason@ == not_unicode_reason(shown)),
{
    let dir = config_dir(project);
    let found = match path_text(&dir) {
        Some(text) => Ok(text),
        None => Err(path_shown(&dir)),
    };
    directory_text(found)
}

/// The path of the configuration file `config_name` (by default
/// `default-config`) of the application `app_name`: the file
/// `{config_name}.toml` in the platform's configuration directory for it.
/// The path is computed, not touched.
pub fn get_configuration_file_path(app_name: &str, config_name: Option<&str>) -> (r: Result<
    String,
    ConfyError,
>)
    ensures
        match r {
            Ok(path) => exists|dir: Seq<char>|
                path@ == joined(dir, file_name(name_or_default(config_name))),
            Err(e) => e matches ConfyError::BadConfigDirectory(reason) && (reason@
                == no_home_reason() || exists|shown: Seq<char>|
                reason@ == not_unicode_reason(shown)),
        },
{
    match ProjectDirs::from("rs", "", app_name) {
        None => Err(
            ConfyError::BadConfigDirectory(
                String::from_str("could not determine home directory path"),
            ),
        ),
        Some(project) => {
            let dir = get_configuration_directory_str(&project)?;
            Ok(file_path_in(dir.as_str(), config_name))
        },
    }
}

} // verus!
