//! What holds of every run of the load and store protocols.
//!
//! A run records an engine's life: the engine after each report, the
//! reports the caller gave, and the actions the engine asked for, the first
//! of them before any report.
use vstd::prelude::*;

use crate::engine::{root_reason, Action, Engine, Event, Outcome, Phase};
use crate::error::ConfyError;

verus! {

/// `engines`, `events` and `actions` record a run: it begins as one of the
/// three calls begins, and each report takes the engine one step.
pub open spec fn is_run(engines: Seq<Engine>, events: Seq<Event>, actions: Seq<Action>) -> bool {
    &&& engines.len() == events.len() + 1
    &&& actions.len() == engines.len()
    &&& Engine::starts(engines[0], actions[0])
    &&& forall|i: int|
        0 <= i < events.len() ==> #[trigger] engines[i].steps_to(
            events[i],
            engines[i + 1],
            actions[i + 1],
        )
}

/// The action opens the document for writing, changes its permissions or
/// writes to it.
pub open spec fn writes_document(act: Action) -> bool {
    act is OpenForWrite || act is SetPermissions || act is WriteText
}

/// The action changes anything on disk.
pub open spec fn touches_disk(act: Action) -> bool {
    act is CreateParentDirs || writes_document(act)
}

/// From here on, the document may have been opened for writing.
pub open spec fn past_encoding(phase: Phase) -> bool {
    phase is OpeningForWrite || phase is SettingPermissions || phase is Writing || phase is Finished
}

proof fn lemma_step_facts(engines: Seq<Engine>, events: Seq<Event>, actions: Seq<Action>, i: int)
    requires
        is_run(engines, events, actions),
        0 <= i < events.len(),
    ensures
        engines[i].steps_to(events[i], engines[i + 1], actions[i + 1]),
        engines[i + 1].job == engines[0].job,
        past_encoding(engines[i].phase) ==> past_encoding(engines[i + 1].phase),
        writes_document(actions[i + 1]) ==> past_encoding(engines[i + 1].phase),
        actions[i + 1] is Done ==> engines[i + 1].phase is Finished,
        !(engines[i].phase is Finished),
    decreases i,
{
    assert(engines[i].steps_to(events[i], engines[i + 1], actions[i + 1]));
    if i > 0 {
        lemma_step_facts(engines, events, actions, i - 1);
    }
}

proof fn lemma_finished_is_last(
    engines: Seq<Engine>,
    events: Seq<Event>,
    actions: Seq<Action>,
    i: int,
)
    requires
        is_run(engines, events, actions),
        0 <= i < engines.len(),
        engines[i].phase is Finished,
    ensures
        i == events.len(),
{
    if i < events.len() {
        lemma_step_facts(engines, events, actions, i);
    }
}

proof fn lemma_past_encoding_stays(
    engines: Seq<Engine>,
    events: Seq<Event>,
    actions: Seq<Action>,
    i: int,
    j: int,
)
    requires
        is_run(engines, events, actions),
        0 <= i <= j < engines.len(),
        past_encoding(engines[i].phase),
    ensures
        past_encoding(engines[j].phase),
    decreases j - i,
{
    if i < j {
        lemma_step_facts(engines, events, actions, i);
        lemma_past_encoding_stays(engines, events, actions, i + 1, j);
    }
}

/// A value that fails to encode leaves the document on disk untouched: in
/// every run in which encoding fails, no action opens the document for
/// writing, changes its permissions or writes to it, and the call fails
/// with the encoder's error.
pub proof fn lemma_encode_failure_leaves_document(
    engines: Seq<Engine>,
    events: Seq<Event>,
    actions: Seq<Action>,
    k: int,
)
    requires
        is_run(engines, events, actions),
        0 <= k < events.len(),
        events[k] is Encoded,
        events[k]->Encoded_0 is Err,
    ensures
        forall|i: int| 0 <= i < actions.len() ==> !writes_document(#[trigger] actions[i]),
        k == events.len() - 1,
        actions.last() == Action::Done(
            Err::<Outcome, ConfyError>(
                ConfyError::SerializeTomlError(events[k]->Encoded_0->Err_0),
            ),
        ),
{
    lemma_step_facts(engines, events, actions, k);
    assert(engines[k].phase is Encoding);
    lemma_finished_is_last(engines, events, actions, k + 1);
    assert forall|i: int| 0 <= i < actions.len() implies !writes_document(#[trigger] actions[i]) by {
        if i == 0 {
            assert(Engine::starts(engines[0], actions[0]));
        } else if i <= k {
            lemma_step_facts(engines, events, actions, i - 1);
            if writes_document(actions[i]) {
                lemma_past_encoding_stays(engines, events, actions, i, k);
            }
        }
    }
}

/// A store to a path without a parent directory (a filesystem root) fails
/// with `BadConfigDirectory` and changes nothing on disk: its run is that
/// refusal alone.
pub proof fn lemma_root_path_rejected(
    engines: Seq<Engine>,
    events: Seq<Event>,
    actions: Seq<Action>,
)
    requires
        is_run(engines, events, actions),
        engines[0].job.task is Store,
        !engines[0].job.has_parent,
    ensures
        events.len() == 0,
        actions.len() == 1,
        !touches_disk(actions[0]),
        actions[0] matches Action::Done(Err(ConfyError::BadConfigDirectory(reason)))
            && reason@ == root_reason(engines[0].job.shown_path@),
{
    lemma_finished_is_last(engines, events, actions, 0);
}

/// In a run that ends in `Done`, an action that is not `Done` is followed
/// by a report, and the step it leads to.
proof fn lemma_goes_on(engines: Seq<Engine>, events: Seq<Event>, actions: Seq<Action>, i: int)
    requires
        is_run(engines, events, actions),
        actions.last() is Done,
        0 <= i < actions.len(),
        !(actions[i] is Done),
    ensures
        i < events.len(),
        engines[i].steps_to(events[i], engines[i + 1], actions[i + 1]),
        engines[i + 1].job == engines[0].job,
{
    lemma_step_facts(engines, events, actions, i);
}

/// In a run that ends in success, no action fails the call.
proof fn lemma_not_failed(engines: Seq<Engine>, events: Seq<Event>, actions: Seq<Action>, i: int)
    requires
        is_run(engines, events, actions),
        actions.last() matches Action::Done(Ok(_)),
        0 <= i < actions.len(),
    ensures
        !(actions[i] matches Action::Done(Err(_))),
{
    if actions[i] matches Action::Done(Err(_)) {
        if i > 0 {
            lemma_step_facts(engines, events, actions, i - 1);
        }
        lemma_finished_is_last(engines, events, actions, i);
    }
}

/// A load of a missing file that succeeds has provisioned the file with
/// the default value: it created the parent directories, produced the
/// default value, created the directories again as every store does,
/// encoded the value, opened the document and wrote exactly that encoding
/// to it, and returns the default value.
pub proof fn lemma_missing_file_is_provisioned(
    engines: Seq<Engine>,
    events: Seq<Event>,
    actions: Seq<Action>,
)
    requires
        is_run(engines, events, actions),
        engines[0].job.task is Load,
        events.len() > 0,
        events[0] is Missing,
        actions.last() matches Action::Done(Ok(_)),
    ensures
        engines[0].job.has_parent,
        events.len() == 7,
        events[4] matches Event::Encoded(Ok(text)) && actions == seq![
            Action::OpenForRead,
            Action::CreateParentDirs,
            Action::MakeFallback,
            Action::CreateParentDirs,
            Action::EncodeValue,
            Action::OpenForWrite,
            Action::WriteText(text),
            Action::Done(Ok(Outcome::Provided)),
        ],
{
    lemma_step_facts(engines, events, actions, 0);
    lemma_goes_on(engines, events, actions, 1);
    lemma_not_failed(engines, events, actions, 2);
    if engines[0].job.has_parent {
        lemma_goes_on(engines, events, actions, 2);
        lemma_not_failed(engines, events, actions, 3);
        lemma_goes_on(engines, events, actions, 3);
        lemma_not_failed(engines, events, actions, 4);
        lemma_goes_on(engines, events, actions, 4);
        lemma_not_failed(engines, events, actions, 5);
        lemma_goes_on(engines, events, actions, 5);
        lemma_not_failed(engines, events, actions, 6);
        lemma_goes_on(engines, events, actions, 6);
        lemma_not_failed(engines, events, actions, 7);
        lemma_finished_is_last(engines, events, actions, 7);
        assert(actions =~= seq![
            Action::OpenForRead,
            Action::CreateParentDirs,
            Action::MakeFallback,
            Action::CreateParentDirs,
            Action::EncodeValue,
            Action::OpenForWrite,
            Action::WriteText(events[4]->Encoded_0->Ok_0),
            Action::Done(Ok(Outcome::Provided)),
        ]);
    }
}

/// A load with a fallback over a document that does not decode repairs it:
/// if the call succeeds, it produced the fallback value, created the parent
/// directories, encoded the value, wrote exactly that encoding over the
/// document, and returns the fallback value. The undecodable text is
/// never reported as an error.
pub proof fn lemma_corrupt_document_is_replaced(
    engines: Seq<Engine>,
    events: Seq<Event>,
    actions: Seq<Action>,
)
    requires
        is_run(engines, events, actions),
        engines[0].job.task is LoadOrElse,
        events.len() > 2,
        events[2] matches Event::Decoded(Err(_)),
        actions.last() matches Action::Done(Ok(_)),
    ensures
        engines[0].job.has_parent,
        events.len() == 9,
        events[1] matches Event::Read(Ok(read)) && events[6] matches Event::Encoded(Ok(text))
            && actions == seq![
            Action::OpenForRead,
            Action::ReadText,
            Action::DecodeText(read),
            Action::MakeFallback,
            Action::CreateParentDirs,
            Action::CreateParentDirs,
            Action::EncodeValue,
            Action::OpenForWrite,
            Action::WriteText(text),
            Action::Done(Ok(Outcome::Provided)),
        ],
{
    lemma_step_facts(engines, events, actions, 0);
    lemma_step_facts(engines, events, actions, 1);
    lemma_step_facts(engines, events, actions, 2);
    lemma_goes_on(engines, events, actions, 3);
    lemma_not_failed(engines, events, actions, 4);
    if engines[0].job.has_parent {
        lemma_goes_on(engines, events, actions, 4);
        lemma_not_failed(engines, events, actions, 5);
        lemma_goes_on(engines, events, actions, 5);
        lemma_not_failed(engines, events, actions, 6);
        lemma_goes_on(engines, events, actions, 6);
        lemma_not_failed(engines, events, actions, 7);
        lemma_goes_on(engines, events, actions, 7);
        lemma_not_failed(engines, events, actions, 8);
        lemma_goes_on(engines, events, actions, 8);
        lemma_not_failed(engines, events, actions, 9);
        lemma_finished_is_last(engines, events, actions, 9);
        assert(actions =~= seq![
            Action::OpenForRead,
            Action::ReadText,
            Action::DecodeText(events[1]->Read_0->Ok_0),
            Action::MakeFallback,
            Action::CreateParentDirs,
            Action::CreateParentDirs,
            Action::EncodeValue,
            Action::OpenForWrite,
            Action::WriteText(events[6]->Encoded_0->Ok_0),
            Action::Done(Ok(Outcome::Provided)),
        ]);
    }
}

/// A load, with or without a fallback, of a document that opens, reads and
/// decodes returns the decoded value: it decodes exactly the text read,
/// and changes nothing on disk.
pub proof fn lemma_present_document_is_decoded(
    engines: Seq<Engine>,
    events: Seq<Event>,
    actions: Seq<Action>,
)
    requires
        is_run(engines, events, actions),
        !(engines[0].job.task is Store),
        events.len() > 2,
        events[2] matches Event::Decoded(Ok(())),
    ensures
        events.len() == 3,
        events[1] matches Event::Read(Ok(read)) && actions == seq![
            Action::OpenForRead,
            Action::ReadText,
            Action::DecodeText(read),
            Action::Done(Ok(Outcome::Decoded)),
        ],
        forall|i: int| 0 <= i < actions.len() ==> !touches_disk(#[trigger] actions[i]),
{
    lemma_step_facts(engines, events, actions, 0);
    lemma_step_facts(engines, events, actions, 1);
    lemma_step_facts(engines, events, actions, 2);
    lemma_finished_is_last(engines, events, actions, 3);
    assert(actions =~= seq![
        Action::OpenForRead,
        Action::ReadText,
        Action::DecodeText(events[1]->Read_0->Ok_0),
        Action::Done(Ok(Outcome::Decoded)),
    ]);
}

/// A store with permissions that succeeds applied them to the opened
/// document before it wrote the encoded value into it.
pub proof fn lemma_permissions_precede_content(
    engines: Seq<Engine>,
    events: Seq<Event>,
    actions: Seq<Action>,
)
    requires
        is_run(engines, events, actions),
        engines[0].job.task is Store,
        engines[0].job.with_permissions,
        actions.last() matches Action::Done(Ok(_)),
    ensures
        events.len() == 5,
        events[1] matches Event::Encoded(Ok(text)) && actions == seq![
            Action::CreateParentDirs,
            Action::EncodeValue,
            Action::OpenForWrite,
            Action::SetPermissions,
            Action::WriteText(text),
            Action::Done(Ok(Outcome::Stored)),
        ],
{
    lemma_not_failed(engines, events, actions, 0);
    lemma_goes_on(engines, events, actions, 0);
    lemma_not_failed(engines, events, actions, 1);
    lemma_goes_on(engines, events, actions, 1);
    lemma_not_failed(engines, events, actions, 2);
    lemma_goes_on(engines, events, actions, 2);
    lemma_not_failed(engines, events, actions, 3);
    lemma_goes_on(engines, events, actions, 3);
    lemma_not_failed(engines, events, actions, 4);
    lemma_goes_on(engines, events, actions, 4);
    lemma_not_failed(engines, events, actions, 5);
    lemma_finished_is_last(engines, events, actions, 5);
    assert(actions =~= seq![
        Action::CreateParentDirs,
        Action::EncodeValue,
        Action::OpenForWrite,
        Action::SetPermissions,
        Action::WriteText(events[1]->Encoded_0->Ok_0),
        Action::Done(Ok(Outcome::Stored)),
    ]);
}

/// The text an engine holds for writing came from a successful encoding
/// earlier in the run.
pub open spec fn held_text_was_encoded(engines: Seq<Engine>, events: Seq<Event>, i: int) -> bool {
    match engines[i].phase {
        Phase::OpeningForWrite(text) | Phase::SettingPermissions(text) => exists|j: int|
            0 <= j < i && #[trigger] events[j] == Event::Encoded(Ok(text)),
        _ => true,
    }
}

proof fn lemma_held_text_was_encoded(
    engines: Seq<Engine>,
    events: Seq<Event>,
    actions: Seq<Action>,
    i: int,
)
    requires
        is_run(engines, events, actions),
        0 <= i < engines.len(),
    ensures
        held_text_was_encoded(engines, events, i),
    decreases i,
{
    if i > 0 {
        lemma_held_text_was_encoded(engines, events, actions, i - 1);
        lemma_step_facts(engines, events, actions, i - 1);
    } else {
        assert(Engine::starts(engines[0], actions[0]));
    }
}

/// Only what encoding produced is ever written: every text written to the
/// document is the text of an earlier successful encoding in the same run,
/// whole and unchanged.
pub proof fn lemma_only_encoded_text_is_written(
    engines: Seq<Engine>,
    events: Seq<Event>,
    actions: Seq<Action>,
    i: int,
)
    requires
        is_run(engines, events, actions),
        0 <= i < actions.len(),
        actions[i] is WriteText,
    ensures
        exists|j: int|
            0 <= j < i && #[trigger] events[j] == Event::Encoded(Ok(actions[i]->WriteText_0)),
{
    if i == 0 {
        assert(Engine::starts(engines[0], actions[0]));
    } else {
        lemma_step_facts(engines, events, actions, i - 1);
        lemma_held_text_was_encoded(engines, events, actions, i - 1);
    }
}

/// A load, with or without a fallback, of a document that opens but cannot
/// be read reports the read fault: the fallback value is never asked for,
/// nothing on disk changes, and the call fails with the I/O error.
pub proof fn lemma_read_fault_is_reported(
    engines: Seq<Engine>,
    events: Seq<Event>,
    actions: Seq<Action>,
)
    requires
        is_run(engines, events, actions),
        events.len() > 1,
        events[1] matches Event::Read(Err(_)),
    ensures
        events.len() == 2,
        actions == seq![
            Action::OpenForRead,
            Action::ReadText,
            Action::Done(
                Err::<Outcome, ConfyError>(
                    ConfyError::ReadConfigurationFileError(events[1]->Read_0->Err_0),
                ),
            ),
        ],
        forall|i: int|
            0 <= i < actions.len() ==> !touches_disk(#[trigger] actions[i])
                && !(actions[i] is MakeFallback),
{
    lemma_step_facts(engines, events, actions, 0);
    lemma_step_facts(engines, events, actions, 1);
    lemma_finished_is_last(engines, events, actions, 2);
    assert(actions =~= seq![
        Action::OpenForRead,
        Action::ReadText,
        Action::Done(
            Err::<Outcome, ConfyError>(
                ConfyError::ReadConfigurationFileError(events[1]->Read_0->Err_0),
            ),
        ),
    ]);
}

} // verus!
