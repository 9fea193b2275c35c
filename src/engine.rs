//! The load and store protocols, as a state machine.
//!
//! An [`Engine`] is made for one call (a load, a load with a fallback, or a
//! store). It hands out one [`Action`] at a time; the caller performs it on
//! the file system or with the codec and reports what happened as an
//! [`Event`], from which the engine decides the next action. The last
//! action is always [`Action::Done`], with the call's result.
//!
//! The target file is only ever opened for writing once its new content has
//! been encoded, and only the encoded text is written to it.
use vstd::prelude::*;

use crate::error::ConfyError;

verus! {

/// Which public operation an engine carries out.
#[derive(PartialEq, Eq, Structural)]
pub enum Task {
    /// Load the value; a missing file is provisioned with the default value.
    Load,
    /// Load the value; a missing or undecodable file is replaced by a value
    /// computed on demand. I/O faults are reported, never repaired.
    LoadOrElse,
    /// Store a value.
    Store,
}

/// Where an engine stands: which report it is waiting for.
pub enum Phase {
    /// Waiting for the file to be opened for reading.
    Opening,
    /// Waiting for the opened file's contents.
    Reading,
    /// Waiting for the contents to be decoded.
    Decoding,
    /// Waiting for the parent directories to be created, before the
    /// fallback value is stored.
    Preparing,
    /// Waiting for the fallback value (the default, or the caller's).
    MakingFallback,
    /// Store: waiting for the parent directories to be created.
    CreatingDirs,
    /// Store: waiting for the value to be encoded.
    Encoding,
    /// Store: waiting for the target to be opened for writing; holds the
    /// encoded text.
    OpeningForWrite(String),
    /// Store: waiting for the permissions to be applied; holds the encoded
    /// text.
    SettingPermissions(String),
    /// Store: waiting for the text to be written.
    Writing,
    /// The result has been handed out; nothing more is expected.
    Finished,
}

/// What the caller is to do next.
pub enum Action {
    /// Open the file for reading.
    OpenForRead,
    /// Read the opened file in full, as UTF-8 text.
    ReadText,
    /// Decode this text into the value.
    DecodeText(String),
    /// Create the parent directory of the path, and all its missing
    /// ancestors.
    CreateParentDirs,
    /// Produce the fallback value: the type's default for a load, the
    /// caller's recovery function for a load with a fallback.
    MakeFallback,
    /// Encode the value to be stored: the caller's value for a store, the
    /// fallback value for a load.
    EncodeValue,
    /// Open the file for writing, creating it if absent and truncating it.
    OpenForWrite,
    /// Apply the caller's permissions to the file opened for writing.
    SetPermissions,
    /// Write this text, in full, to the file opened for writing.
    WriteText(String),
    /// The call is over, with this result.
    Done(Result<Outcome, ConfyError>),
}

/// How a successful call ended.
#[derive(PartialEq, Eq, Structural)]
pub enum Outcome {
    /// The file's contents decoded: return the decoded value.
    Decoded,
    /// The fallback value was stored: return it.
    Provided,
    /// The value was stored.
    Stored,
}

/// What happened when the caller performed the last action.
pub enum Event {
    /// The file was opened for reading.
    Opened,
    /// The file does not exist.
    Missing,
    /// The file could not be opened, for another reason than its absence.
    OpenFailed(std::io::Error),
    /// The file was read, or not.
    Read(Result<String, std::io::Error>),
    /// The text was decoded, or not.
    Decoded(Result<(), toml::de::Error>),
    /// The parent directories were created, or not.
    DirsCreated(Result<(), std::io::Error>),
    /// The fallback value was produced.
    FallbackMade,
    /// The value was encoded into this text, or not.
    Encoded(Result<String, toml::ser::Error>),
    /// The file was opened for writing, or not.
    OpenedForWrite(Result<(), std::io::Error>),
    /// The permissions were applied, or not.
    PermissionsSet(Result<(), std::io::Error>),
    /// The text was written, or not.
    Written(Result<(), std::io::Error>),
}

/// What an engine knows of its call; fixed for the engine's life.
pub struct Job {
    pub task: Task,
    /// Whether the path has a parent directory (a filesystem root, a bare
    /// prefix or the empty path has none).
    pub has_parent: bool,
    /// The path as it is shown in messages.
    pub shown_path: String,
    /// Whether permissions are to be applied to the stored file.
    pub with_permissions: bool,
}

/// A load or store call in progress.
pub struct Engine {
    pub job: Job,
    pub phase: Phase,
}

/// The reason given for a store target that has no parent directory.
pub open spec fn root_reason(shown_path: Seq<char>) -> Seq<char> {
    shown_path + " is a root or prefix"@
}

/// Whether `phase` takes `ev` as the report it waits for.
pub open spec fn expects(phase: Phase, ev: Event) -> bool {
    match phase {
        Phase::Opening => ev is Opened || ev is Missing || ev is OpenFailed,
        Phase::Reading => ev is Read,
        Phase::Decoding => ev is Decoded,
        Phase::Preparing => ev is DirsCreated,
        Phase::MakingFallback => ev is FallbackMade,
        Phase::CreatingDirs => ev is DirsCreated,
        Phase::Encoding => ev is Encoded,
        Phase::OpeningForWrite(_) => ev is OpenedForWrite,
        Phase::SettingPermissions(_) => ev is PermissionsSet,
        Phase::Writing => ev is Written,
        Phase::Finished => false,
    }
}

/// The call ends with `result`.
pub open spec fn finishes(phase: Phase, act: Action, result: Result<Outcome, ConfyError>) -> bool {
    phase is Finished && act == Action::Done(result)
}

/// The store protocol begins: the parent directories are created, unless
/// the path has no parent, in which case the call fails before touching the
/// file system.
pub open spec fn enters_store(job: Job, phase: Phase, act: Action) -> bool {
    if job.has_parent {
        phase is CreatingDirs && act is CreateParentDirs
    } else {
        &&& phase is Finished
        &&& act matches Action::Done(Err(ConfyError::BadConfigDirectory(reason)))
        &&& reason@ == root_reason(job.shown_path@)
    }
}

/// The fallback value is asked for.
pub open spec fn enters_fallback(phase: Phase, act: Action) -> bool {
    phase is MakingFallback && act is MakeFallback
}

/// The step of the protocol: in `phase`, the report `ev` leads to
/// `post` and the action `act`.
pub open spec fn transition(job: Job, phase: Phase, ev: Event, post: Phase, act: Action) -> bool {
    match phase {
        Phase::Opening => match ev {
            Event::Opened => post is Reading && act is ReadText,
            Event::Missing => if job.task is Load && job.has_parent {
                post is Preparing && act is CreateParentDirs
            } else {
                enters_fallback(post, act)
            },
            Event::OpenFailed(e) => finishes(post, act, Err(ConfyError::GeneralLoadError(e))),
            _ => false,
        },
        Phase::Reading => match ev {
            Event::Read(Ok(text)) => post is Decoding && act == Action::DecodeText(text),
            Event::Read(Err(e)) => finishes(
                post,
                act,
                Err(ConfyError::ReadConfigurationFileError(e)),
            ),
            _ => false,
        },
        Phase::Decoding => match ev {
            Event::Decoded(Ok(())) => finishes(post, act, Ok(Outcome::Decoded)),
            Event::Decoded(Err(e)) => if job.task is LoadOrElse {
                enters_fallback(post, act)
            } else {
                finishes(post, act, Err(ConfyError::BadTomlData(e)))
            },
            _ => false,
        },
        Phase::Preparing => match ev {
            Event::DirsCreated(Ok(())) => if job.task is Load {
                enters_fallback(post, act)
            } else {
                enters_store(job, post, act)
            },
            Event::DirsCreated(Err(e)) => finishes(
                post,
                act,
                Err(ConfyError::DirectoryCreationFailed(e)),
            ),
            _ => false,
        },
        Phase::MakingFallback => match ev {
            Event::FallbackMade => if job.task is LoadOrElse && job.has_parent {
                post is Preparing && act is CreateParentDirs
            } else {
                enters_store(job, post, act)
            },
            _ => false,
        },
        Phase::CreatingDirs => match ev {
            Event::DirsCreated(Ok(())) => post is Encoding && act is EncodeValue,
            Event::DirsCreated(Err(e)) => finishes(
                post,
                act,
                Err(ConfyError::DirectoryCreationFailed(e)),
            ),
            _ => false,
        },
        Phase::Encoding => match ev {
            Event::Encoded(Ok(text)) => post == Phase::OpeningForWrite(text) && act is OpenForWrite,
            Event::Encoded(Err(e)) => finishes(post, act, Err(ConfyError::SerializeTomlError(e))),
            _ => false,
        },
        Phase::OpeningForWrite(text) => match ev {
            Event::OpenedForWrite(Ok(())) => if job.with_permissions {
                post == Phase::SettingPermissions(text) && act is SetPermissions
            } else {
                post is Writing && act == Action::WriteText(text)
            },
            Event::OpenedForWrite(Err(e)) => finishes(
                post,
                act,
                Err(ConfyError::OpenConfigurationFileError(e)),
            ),
            _ => false,
        },
        Phase::SettingPermissions(text) => match ev {
            Event::PermissionsSet(Ok(())) => post is Writing && act == Action::WriteText(text),
            Event::PermissionsSet(Err(e)) => finishes(
                post,
                act,
                Err(ConfyError::SetPermissionsFileError(e)),
            ),
            _ => false,
        },
        Phase::Writing => match ev {
            Event::Written(Ok(())) => finishes(
                post,
                act,
                Ok(if job.task is Store { Outcome::Stored } else { Outcome::Provided }),
            ),
            Event::Written(Err(e)) => finishes(
                post,
                act,
                Err(ConfyError::WriteConfigurationFileError(e)),
            ),
            _ => false,
        },
        Phase::Finished => false,
    }
}

impl Engine {
    /// The engine takes `ev` as the report it waits for.
    pub open spec fn accepts(self, ev: Event) -> bool {
        expects(self.phase, ev)
    }

    /// One step: `self`, told `ev`, becomes `post` and asks for `act`.
    pub open spec fn steps_to(self, ev: Event, post: Engine, act: Action) -> bool {
        post.job == self.job && transition(self.job, self.phase, ev, post.phase, act)
    }

    /// `e` with its first action `act` is how one of the three calls begins.
    pub open spec fn starts(e: Engine, act: Action) -> bool {
        match e.job.task {
            Task::Store => enters_store(e.job, e.phase, act),
            _ => e.phase is Opening && act is OpenForRead && !e.job.with_permissions,
        }
    }

    /// The engine of a load from the path shown as `shown_path`, with its
    /// first action. A missing file is provisioned with the default value.
    pub fn load(has_parent: bool, shown_path: String) -> (r: (Engine, Action))
        ensures
            r.0.job == (Job { task: Task::Load, has_parent, shown_path, with_permissions: false }),
            r.0.phase is Opening,
            r.1 is OpenForRead,
    {
        let job = Job { task: Task::Load, has_parent, shown_path, with_permissions: false };
        (Engine { job, phase: Phase::Opening }, Action::OpenForRead)
    }

    /// The engine of a load with a fallback from the path shown as
    /// `shown_path`, with its first action. A missing or undecodable file is
    /// replaced by the fallback value.
    pub fn load_or_else(has_parent: bool, shown_path: String) -> (r: (Engine, Action))
        ensures
            r.0.job == (Job {
                task: Task::LoadOrElse,
                has_parent,
                shown_path,
                with_permissions: false,
            }),
            r.0.phase is Opening,
            r.1 is OpenForRead,
    {
        let job = Job { task: Task::LoadOrElse, has_parent, shown_path, with_permissions: false };
        (Engine { job, phase: Phase::Opening }, Action::OpenForRead)
    }

    /// The engine of a store to the path shown as `shown_path`, with its
    /// first action. A path without a parent directory is refused at once.
    pub fn store(has_parent: bool, shown_path: String, with_permissions: bool) -> (r: (
        Engine,
        Action,
    ))
        ensures
            r.0.job == (Job { task: Task::Store, has_parent, shown_path, with_permissions }),
            enters_store(r.0.job, r.0.phase, r.1),
    {
        let job = Job { task: Task::Store, has_parent, shown_path, with_permissions };
        let mut e = Engine { job, phase: Phase::Finished };
        let act = e.enter_store();
        (e, act)
    }

    /// Whether the engine takes `ev` as the report it waits for; a caller
    /// that has performed the engine's last action always has one.
    pub fn expects(&self, ev: &Event) -> (r: bool)
        ensures
            r == self.accepts(*ev),
    {
        match self.phase {
            Phase::Opening => match ev {
                Event::Opened | Event::Missing | Event::OpenFailed(_) => true,
                _ => false,
            },
            Phase::Reading => matches!(ev, Event::Read(_)),
            Phase::Decoding => matches!(ev, Event::Decoded(_)),
            Phase::Preparing => matches!(ev, Event::DirsCreated(_)),
            Phase::MakingFallback => matches!(ev, Event::FallbackMade),
            Phase::CreatingDirs => matches!(ev, Event::DirsCreated(_)),
            Phase::Encoding => matches!(ev, Event::Encoded(_)),
            Phase::OpeningForWrite(_) => matches!(ev, Event::OpenedForWrite(_)),
            Phase::SettingPermissions(_) => matches!(ev, Event::PermissionsSet(_)),
            Phase::Writing => matches!(ev, Event::Written(_)),
            Phase::Finished => false,
        }
    }

    fn enter_store(&mut self) -> (act: Action)
        ensures
            final(self).job == old(self).job,
            enters_store(final(self).job, final(self).phase, act),
    {
        if self.job.has_parent {
            self.phase = Phase::CreatingDirs;
            Action::CreateParentDirs
        } else {
            self.phase = Phase::Finished;
            let reason = self.job.shown_path.clone().concat(" is a root or prefix");
            Action::Done(Err(ConfyError::BadConfigDirectory(reason)))
        }
    }

    fn finish(&mut self, result: Result<Outcome, ConfyError>) -> (act: Action)
        ensures
            final(self).job == old(self).job,
            finishes(final(self).phase, act, result),
    {
        self.phase = Phase::Finished;
        Action::Done(result)
    }

    fn enter_fallback(&mut self) -> (act: Action)
        ensures
            final(self).job == old(self).job,
            enters_fallback(final(self).phase, act),
    {
        self.phase = Phase::MakingFallback;
        Action::MakeFallback
    }

    /// Takes the report `ev` of the last action and returns the next one.
    pub fn step(&mut self, ev: Event) -> (act: Action)
        requires
            old(self).accepts(ev),
        ensures
            old(self).steps_to(ev, *final(self), act),
    {
        let mut phase = Phase::Finished;
        std::mem::swap(&mut phase, &mut self.phase);
        match phase {
            Phase::Opening => match ev {
                Event::Opened => {
                    self.phase = Phase::Reading;
                    Action::ReadText
                },
                Event::Missing => {
                    if self.job.task == Task::Load && self.job.has_parent {
                        self.phase = Phase::Preparing;
                        Action::CreateParentDirs
                    } else {
                        self.enter_fallback()
                    }
                },
                Event::OpenFailed(e) => self.finish(Err(ConfyError::GeneralLoadError(e))),
                _ => unreached(),
            },
            Phase::Reading => match ev {
                Event::Read(Ok(text)) => {
                    self.phase = Phase::Decoding;
                    Action::DecodeText(text)
                },
                Event::Read(Err(e)) => self.finish(
                    Err(ConfyError::ReadConfigurationFileError(e)),
                ),
                _ => unreached(),
            },
            Phase::Decoding => match ev {
                Event::Decoded(Ok(())) => self.finish(Ok(Outcome::Decoded)),
                Event::Decoded(Err(e)) => {
                    if self.job.task == Task::LoadOrElse {
                        self.enter_fallback()
                    } else {
                        self.finish(Err(ConfyError::BadTomlData(e)))
                    }
                },
                _ => unreached(),
            },
            Phase::Preparing => match ev {
                Event::DirsCreated(Ok(())) => {
                    if self.job.task == Task::Load {
                        self.enter_fallback()
                    } else {
                        self.enter_store()
                    }
                },
                Event::DirsCreated(Err(e)) => self.finish(
                    Err(ConfyError::DirectoryCreationFailed(e)),
                ),
                _ => unreached(),
            },
            Phase::MakingFallback => {
                if self.job.task == Task::LoadOrElse && self.job.has_parent {
                    self.phase = Phase::Preparing;
                    Action::CreateParentDirs
                } else {
                    self.enter_store()
                }
            },
            Phase::CreatingDirs => match ev {
                Event::DirsCreated(Ok(())) => {
                    self.phase = Phase::Encoding;
                    Action::EncodeValue
                },
                Event::DirsCreated(Err(e)) => self.finish(
                    Err(ConfyError::DirectoryCreationFailed(e)),
                ),
                _ => unreached(),
            },
            Phase::Encoding => match ev {
                Event::Encoded(Ok(text)) => {
                    self.phase = Phase::OpeningForWrite(text);
                    Action::OpenForWrite
                },
                Event::Encoded(Err(e)) => self.finish(Err(ConfyError::SerializeTomlError(e))),
                _ => unreached(),
            },
            Phase::OpeningForWrite(text) => match ev {
                Event::OpenedForWrite(Ok(())) => {
                    if self.job.with_permissions {
                        self.phase = Phase::SettingPermissions(text);
                        Action::SetPermissions
                    } else {
                        self.phase = Phase::Writing;
                        Action::WriteText(text)
                    }
                },
                Event::OpenedForWrite(Err(e)) => self.finish(
                    Err(ConfyError::OpenConfigurationFileError(e)),
                ),
                _ => unreached(),
            },
            Phase::SettingPermissions(text) => match ev {
                Event::PermissionsSet(Ok(())) => {
                    self.phase = Phase::Writing;
                    Action::WriteText(text)
                },
                Event::PermissionsSet(Err(e)) => self.finish(
                    Err(ConfyError::SetPermissionsFileError(e)),
                ),
                _ => unreached(),
            },
            Phase::Writing => match ev {
                Event::Written(Ok(())) => {
                    let outcome = if self.job.task == Task::Store {
                        Outcome::Stored
                    } else {
                        Outcome::Provided
                    };
                    self.finish(Ok(outcome))
                },
                Event::Written(Err(e)) => self.finish(
                    Err(ConfyError::WriteConfigurationFileError(e)),
                ),
                _ => unreached(),
            },
            Phase::Finished => unreached(),
        }
    }
}

} // verus!
