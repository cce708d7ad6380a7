//! The mutation guard: every operation on the identifier and its backup
//! history, as a machine that asks for one piece of outside work at a time.
//!
//! The guard never touches a registry, a file or a clock. An operation
//! starts with a [`Step`]. A step either names the work that the host has
//! to do next and holds the state that waits for its answer, or it is
//! `Done` and carries the operation's result. The host does the work and
//! hands the answer to `resume`, which yields the next step. The order of
//! the steps is the protocol: the identifier is written only after its
//! current value is known to be in the history.

use crate::machine_id::{
    contains_guid, contains_id, find_by_id, generate_random_guid, is_canonical_guid,
    position_by_id, records_of, validate_guid_format, view_of_done, view_of_load, view_of_read,
    BackupError, BackupErrorView, BackupRecord, BackupStore, MachineId, MachineIdBackup,
    MachineIdView,
};
use crate::text::{clone_opt, decimal, join, push_decimal};
use vstd::prelude::*;

verus! {

/// A reading of the clock: the time since the epoch as whole seconds and
/// the milliseconds within the running second.
#[derive(Clone, Copy, Debug)]
pub struct Moment {
    pub secs: u64,
    pub subsec_millis: u32,
}

/// The milliseconds since the epoch at `now`.
pub open spec fn millis_of(now: Moment) -> nat {
    (now.secs * 1000 + now.subsec_millis) as nat
}

/// The id of a record made at `now`: a constant tag and the creation time
/// in milliseconds.
pub open spec fn backup_id(now: Moment) -> Seq<char> {
    "backup_"@ + decimal(millis_of(now))
}

/// The id for a record made at `now`.
pub fn generate_backup_id(now: Moment) -> (id: String)
    ensures
        id@ == backup_id(now),
{
    let millis: u128 = (now.secs as u128) * 1000 + (now.subsec_millis as u128);
    let mut id = "backup_".to_owned();
    push_decimal(&mut id, millis);
    id
}

/// What a guarded write reports.
#[derive(Debug)]
pub struct WriteResult {
    /// The identifier that was live before the write.
    pub previous_guid: String,
    /// The identifier that was written.
    pub new_guid: String,
    /// The record of the previous identifier; `None` where it already had
    /// a backup.
    pub pre_backup: Option<MachineIdBackup>,
    /// The record of the new identifier; `None` where it already had a
    /// backup.
    pub post_backup: Option<MachineIdBackup>,
}

/// A `WriteResult` with its texts as sequences of characters.
pub struct WriteResultView {
    pub previous_guid: Seq<char>,
    pub new_guid: Seq<char>,
    pub pre_backup: Option<BackupRecord>,
    pub post_backup: Option<BackupRecord>,
}

impl View for WriteResult {
    type V = WriteResultView;

    open spec fn view(&self) -> WriteResultView {
        WriteResultView {
            previous_guid: self.previous_guid@,
            new_guid: self.new_guid@,
            pre_backup: self.pre_backup.deep_view(),
            post_backup: self.post_backup.deep_view(),
        }
    }
}

/// What a restore reports.
#[derive(Debug)]
pub struct RestoreInfo {
    /// The identifier that was live before the restore.
    pub previous_guid: String,
    /// The identifier that was read back after the restore.
    pub restored_guid: String,
    /// The record of the previous identifier; `None` where it already had
    /// a backup.
    pub pre_backup: Option<MachineIdBackup>,
    /// The record whose value was restored.
    pub restored_from: MachineIdBackup,
}

/// A `RestoreInfo` with its texts as sequences of characters.
pub struct RestoreInfoView {
    pub previous_guid: Seq<char>,
    pub restored_guid: Seq<char>,
    pub pre_backup: Option<BackupRecord>,
    pub restored_from: BackupRecord,
}

impl View for RestoreInfo {
    type V = RestoreInfoView;

    open spec fn view(&self) -> RestoreInfoView {
        RestoreInfoView {
            previous_guid: self.previous_guid@,
            restored_guid: self.restored_guid@,
            pre_backup: self.pre_backup.deep_view(),
            restored_from: self.restored_from@,
        }
    }
}

/// The result of an operation that went through.
#[derive(Debug)]
pub enum Outcome {
    /// A backup of the live identifier: the new record, or `None` where
    /// the identifier already had a backup and none was made.
    Backup(Option<MachineIdBackup>),
    /// A guarded write.
    Write(WriteResult),
    /// A restore from the history.
    Restore(RestoreInfo),
    /// The whole history, newest first.
    Backups(Vec<MachineIdBackup>),
    /// The number of records in the history.
    Count(usize),
    /// The record that was asked for by id.
    Found(MachineIdBackup),
    /// A record was put in front of the history.
    Added,
    /// This record was taken out of the history.
    Deleted(MachineIdBackup),
    /// The history was emptied.
    Cleared,
}

/// An `Outcome` with its texts as sequences of characters.
pub enum OutcomeView {
    Backup(Option<BackupRecord>),
    Write(WriteResultView),
    Restore(RestoreInfoView),
    Backups(Seq<BackupRecord>),
    Count(usize),
    Found(BackupRecord),
    Added,
    Deleted(BackupRecord),
    Cleared,
}

impl View for Outcome {
    type V = OutcomeView;

    open spec fn view(&self) -> OutcomeView {
        match self {
            Outcome::Backup(made) => OutcomeView::Backup(made.deep_view()),
            Outcome::Write(w) => OutcomeView::Write(w@),
            Outcome::Restore(r) => OutcomeView::Restore(r@),
            Outcome::Backups(all) => OutcomeView::Backups(records_of(all@)),
            Outcome::Count(n) => OutcomeView::Count(*n),
            Outcome::Found(b) => OutcomeView::Found(b@),
            Outcome::Added => OutcomeView::Added,
            Outcome::Deleted(b) => OutcomeView::Deleted(b@),
            Outcome::Cleared => OutcomeView::Cleared,
        }
    }
}

/// What a backup in progress is part of, and so what follows it.
#[derive(Debug)]
pub enum Purpose {
    /// The backup is the whole operation.
    Standalone,
    /// The backup secures the live identifier before `new_guid` is written.
    BeforeWrite { new_guid: String, description: Option<String> },
    /// The backup records the identifier that a write has just put in place.
    AfterWrite { previous_guid: String, new_guid: String, pre_backup: Option<MachineIdBackup> },
    /// The backup secures the live identifier before `target` is restored.
    BeforeRestore { previous_guid: String, target: MachineIdBackup },
}

/// A `Purpose` with its texts as sequences of characters.
pub enum PurposeView {
    Standalone,
    BeforeWrite { new_guid: Seq<char>, description: Option<Seq<char>> },
    AfterWrite { previous_guid: Seq<char>, new_guid: Seq<char>, pre_backup: Option<BackupRecord> },
    BeforeRestore { previous_guid: Seq<char>, target: BackupRecord },
}

impl View for Purpose {
    type V = PurposeView;

    open spec fn view(&self) -> PurposeView {
        match self {
            Purpose::Standalone => PurposeView::Standalone,
            Purpose::BeforeWrite { new_guid, description } => PurposeView::BeforeWrite {
                new_guid: new_guid@,
                description: description.deep_view(),
            },
            Purpose::AfterWrite { previous_guid, new_guid, pre_backup } => PurposeView::AfterWrite {
                previous_guid: previous_guid@,
                new_guid: new_guid@,
                pre_backup: pre_backup.deep_view(),
            },
            Purpose::BeforeRestore { previous_guid, target } => PurposeView::BeforeRestore {
                previous_guid: previous_guid@,
                target: target@,
            },
        }
    }
}

/// A state that waits for the identifier to be read.
#[derive(Debug)]
pub enum AwaitIdentifier {
    /// First step of a backup: which identifier is live?
    Backup { purpose: Purpose, description: Option<String> },
    /// A restore has found its target and asks what is live now.
    RestorePrevious { target: MachineIdBackup },
    /// A restore has written its target and reads the identifier back.
    RestoreReadBack {
        previous_guid: String,
        pre_backup: Option<MachineIdBackup>,
        target: MachineIdBackup,
    },
}

/// An `AwaitIdentifier` with its texts as sequences of characters.
pub enum AwaitIdentifierView {
    Backup { purpose: PurposeView, description: Option<Seq<char>> },
    RestorePrevious { target: BackupRecord },
    RestoreReadBack {
        previous_guid: Seq<char>,
        pre_backup: Option<BackupRecord>,
        target: BackupRecord,
    },
}

impl View for AwaitIdentifier {
    type V = AwaitIdentifierView;

    open spec fn view(&self) -> AwaitIdentifierView {
        match self {
            AwaitIdentifier::Backup { purpose, description } => AwaitIdentifierView::Backup {
                purpose: purpose@,
                description: description.deep_view(),
            },
            AwaitIdentifier::RestorePrevious { target } => AwaitIdentifierView::RestorePrevious {
                target: target@,
            },
            AwaitIdentifier::RestoreReadBack {
                previous_guid,
                pre_backup,
                target,
            } => AwaitIdentifierView::RestoreReadBack {
                previous_guid: previous_guid@,
                pre_backup: pre_backup.deep_view(),
                target: target@,
            },
        }
    }
}

/// A state that waits for the history to be loaded.
#[derive(Debug)]
pub enum AwaitStore {
    /// A backup knows the live identifier and asks whether the history
    /// already holds it.
    Backup { purpose: Purpose, description: Option<String>, current: MachineId },
    /// A restore looks for its target.
    RestoreLookup { id: String },
    /// The whole history is wanted.
    List,
    /// The number of records is wanted.
    Count,
    /// One record is wanted.
    Find { id: String },
    /// One record is to be put in front.
    Add { record: MachineIdBackup },
    /// One record is to be taken out.
    Delete { id: String },
}

/// An `AwaitStore` with its texts as sequences of characters.
pub enum AwaitStoreView {
    Backup { purpose: PurposeView, description: Option<Seq<char>>, current: MachineIdView },
    RestoreLookup { id: Seq<char> },
    List,
    Count,
    Find { id: Seq<char> },
    Add { record: BackupRecord },
    Delete { id: Seq<char> },
}

impl View for AwaitStore {
    type V = AwaitStoreView;

    open spec fn view(&self) -> AwaitStoreView {
        match self {
            AwaitStore::Backup { purpose, description, current } => AwaitStoreView::Backup {
                purpose: purpose@,
                description: description.deep_view(),
                current: current@,
            },
            AwaitStore::RestoreLookup { id } => AwaitStoreView::RestoreLookup { id: id@ },
            AwaitStore::List => AwaitStoreView::List,
            AwaitStore::Count => AwaitStoreView::Count,
            AwaitStore::Find { id } => AwaitStoreView::Find { id: id@ },
            AwaitStore::Add { record } => AwaitStoreView::Add { record: record@ },
            AwaitStore::Delete { id } => AwaitStoreView::Delete { id: id@ },
        }
    }
}

/// The state of a backup that has found the live identifier missing from
/// the history and waits for the time at which to date the new record.
#[derive(Debug)]
pub struct AwaitClock {
    pub purpose: Purpose,
    pub description: Option<String>,
    pub current: MachineId,
    pub store: BackupStore,
}

/// An `AwaitClock` with its texts as sequences of characters.
pub struct AwaitClockView {
    pub purpose: PurposeView,
    pub description: Option<Seq<char>>,
    pub current: MachineIdView,
    pub store: Seq<BackupRecord>,
}

impl View for AwaitClock {
    type V = AwaitClockView;

    open spec fn view(&self) -> AwaitClockView {
        AwaitClockView {
            purpose: self.purpose@,
            description: self.description.deep_view(),
            current: self.current@,
            store: self.store@,
        }
    }
}

/// A state that waits for the history to be saved.
#[derive(Debug)]
pub enum AwaitSaved {
    /// A backup has put `record` in front of the history.
    Backup { purpose: Purpose, current: MachineId, record: MachineIdBackup },
    /// A record was put in front of the history.
    Added,
    /// The record `removed` was taken out.
    Deleted { removed: MachineIdBackup },
    /// The history was emptied.
    Cleared,
}

/// An `AwaitSaved` with its texts as sequences of characters.
pub enum AwaitSavedView {
    Backup { purpose: PurposeView, current: MachineIdView, record: BackupRecord },
    Added,
    Deleted { removed: BackupRecord },
    Cleared,
}

impl View for AwaitSaved {
    type V = AwaitSavedView;

    open spec fn view(&self) -> AwaitSavedView {
        match self {
            AwaitSaved::Backup { purpose, current, record } => AwaitSavedView::Backup {
                purpose: purpose@,
                current: current@,
                record: record@,
            },
            AwaitSaved::Added => AwaitSavedView::Added,
            AwaitSaved::Deleted { removed } => AwaitSavedView::Deleted { removed: removed@ },
            AwaitSaved::Cleared => AwaitSavedView::Cleared,
        }
    }
}

/// A state that waits for the identifier to be written.
#[derive(Debug)]
pub enum AwaitWritten {
    /// A guarded write has secured the previous identifier.
    Write {
        previous_guid: String,
        new_guid: String,
        description: Option<String>,
        pre_backup: Option<MachineIdBackup>,
    },
    /// A restore has secured the previous identifier.
    Restore { previous_guid: String, pre_backup: Option<MachineIdBackup>, target: MachineIdBackup },
}

/// An `AwaitWritten` with its texts as sequences of characters.
pub enum AwaitWrittenView {
    Write {
        previous_guid: Seq<char>,
        new_guid: Seq<char>,
        description: Option<Seq<char>>,
        pre_backup: Option<BackupRecord>,
    },
    Restore { previous_guid: Seq<char>, pre_backup: Option<BackupRecord>, target: BackupRecord },
}

impl View for AwaitWritten {
    type V = AwaitWrittenView;

    open spec fn view(&self) -> AwaitWrittenView {
        match self {
            AwaitWritten::Write {
                previous_guid,
                new_guid,
                description,
                pre_backup,
            } => AwaitWrittenView::Write {
                previous_guid: previous_guid@,
                new_guid: new_guid@,
                description: description.deep_view(),
                pre_backup: pre_backup.deep_view(),
            },
            AwaitWritten::Restore {
                previous_guid,
                pre_backup,
                target,
            } => AwaitWrittenView::Restore {
                previous_guid: previous_guid@,
                pre_backup: pre_backup.deep_view(),
                target: target@,
            },
        }
    }
}

/// One step of an operation: the work that the host does next, with the
/// state that takes the answer, or the operation's result.
#[derive(Debug)]
pub enum Step {
    /// Read the live identifier.
    ReadIdentifier(AwaitIdentifier),
    /// Load the backup history.
    LoadStore(AwaitStore),
    /// Read the clock.
    ReadClock(AwaitClock),
    /// Save this history in place of the one that is kept.
    SaveStore(BackupStore, AwaitSaved),
    /// Put this identifier in place of the live one.
    WriteIdentifier(String, AwaitWritten),
    /// Nothing is left to do.
    Done(Result<Outcome, BackupError>),
}

/// A `Step` with its texts as sequences of characters.
pub enum StepView {
    ReadIdentifier(AwaitIdentifierView),
    LoadStore(AwaitStoreView),
    ReadClock(AwaitClockView),
    SaveStore(Seq<BackupRecord>, AwaitSavedView),
    WriteIdentifier(Seq<char>, AwaitWrittenView),
    Done(Result<OutcomeView, BackupErrorView>),
}

impl View for Step {
    type V = StepView;

    open spec fn view(&self) -> StepView {
        match self {
            Step::ReadIdentifier(k) => StepView::ReadIdentifier(k@),
            Step::LoadStore(k) => StepView::LoadStore(k@),
            Step::ReadClock(k) => StepView::ReadClock(k@),
            Step::SaveStore(store, k) => StepView::SaveStore(store@, k@),
            Step::WriteIdentifier(guid, k) => StepView::WriteIdentifier(guid@, k@),
            Step::Done(Ok(outcome)) => StepView::Done(Ok(outcome@)),
            Step::Done(Err(e)) => StepView::Done(Err(e@)),
        }
    }
}

/// The description of the record that a restore makes of the identifier
/// it is about to replace.
pub open spec fn restore_description(target: BackupRecord) -> Seq<char> {
    "恢复前自动备份: 从备份 "@ + target.id + " 恢复到 "@ + target.guid
}

/// The description of the record that a write makes of the identifier it
/// has put in place: the mark of such records, followed by the reason that
/// the caller gave, or by the new identifier where the caller gave none.
pub open spec fn post_write_description(new_guid: Seq<char>, description: Option<Seq<char>>) -> Seq<
    char,
> {
    match description {
        Some(reason) => "替换后自动备份: "@ + reason,
        None => "替换后自动备份: "@ + new_guid,
    }
}

/// The record that a backup makes at `now` of the identifier `current`.
pub open spec fn record_at(
    now: Moment,
    current: MachineIdView,
    description: Option<Seq<char>>,
) -> BackupRecord {
    BackupRecord {
        id: backup_id(now),
        guid: current.guid,
        source: current.source,
        timestamp: now.secs,
        description,
    }
}

/// What follows a backup that is complete: `made` is the new record, or
/// `None` where the identifier `current` already had one.
pub open spec fn after_backup(
    purpose: PurposeView,
    current: MachineIdView,
    made: Option<BackupRecord>,
) -> StepView {
    match purpose {
        PurposeView::Standalone => StepView::Done(Ok(OutcomeView::Backup(made))),
        PurposeView::BeforeWrite { new_guid, description } => StepView::WriteIdentifier(
            new_guid,
            AwaitWrittenView::Write {
                previous_guid: current.guid,
                new_guid,
                description,
                pre_backup: made,
            },
        ),
        PurposeView::AfterWrite { previous_guid, new_guid, pre_backup } => StepView::Done(
            Ok(
                OutcomeView::Write(
                    WriteResultView { previous_guid, new_guid, pre_backup, post_backup: made },
                ),
            ),
        ),
        PurposeView::BeforeRestore { previous_guid, target } => StepView::WriteIdentifier(
            target.guid,
            AwaitWrittenView::Restore { previous_guid, pre_backup: made, target },
        ),
    }
}

/// The step that follows when the identifier was read, or could not be.
/// An identifier that is not canonical counts as a failed read, whoever
/// read it: the guard records and reports canonical identifiers only.
pub open spec fn on_identifier(
    state: AwaitIdentifierView,
    read: Result<MachineIdView, BackupErrorView>,
) -> StepView {
    match read {
        Err(e) => StepView::Done(Err(e)),
        Ok(current) if !is_canonical_guid(current.guid) => StepView::Done(
            Err(BackupErrorView::InvalidGuidFormat(current.guid)),
        ),
        Ok(current) => match state {
            AwaitIdentifierView::Backup { purpose, description } => StepView::LoadStore(
                AwaitStoreView::Backup { purpose, description, current },
            ),
            AwaitIdentifierView::RestorePrevious { target } => StepView::ReadIdentifier(
                AwaitIdentifierView::Backup {
                    purpose: PurposeView::BeforeRestore { previous_guid: current.guid, target },
                    description: Some(restore_description(target)),
                },
            ),
            AwaitIdentifierView::RestoreReadBack {
                previous_guid,
                pre_backup,
                target,
            } => StepView::Done(
                Ok(
                    OutcomeView::Restore(
                        RestoreInfoView {
                            previous_guid,
                            restored_guid: current.guid,
                            pre_backup,
                            restored_from: target,
                        },
                    ),
                ),
            ),
        },
    }
}

/// The step that follows when the history was loaded, or could not be.
pub open spec fn on_store(
    state: AwaitStoreView,
    loaded: Result<Seq<BackupRecord>, BackupErrorView>,
) -> StepView {
    match loaded {
        Err(e) => StepView::Done(Err(e)),
        Ok(store) => match state {
            AwaitStoreView::Backup { purpose, description, current } => {
                if contains_guid(store, current.guid) {
                    after_backup(purpose, current, None)
                } else {
                    StepView::ReadClock(AwaitClockView { purpose, description, current, store })
                }
            },
            AwaitStoreView::RestoreLookup { id } => match find_by_id(store, id) {
                None => StepView::Done(Err(BackupErrorView::BackupNotFound(id))),
                Some(target) => {
                    if is_canonical_guid(target.guid) {
                        StepView::ReadIdentifier(AwaitIdentifierView::RestorePrevious { target })
                    } else {
                        StepView::Done(Err(BackupErrorView::InvalidGuidFormat(target.guid)))
                    }
                },
            },
            AwaitStoreView::List => StepView::Done(Ok(OutcomeView::Backups(store))),
            AwaitStoreView::Count => StepView::Done(Ok(OutcomeView::Count(store.len() as usize))),
            AwaitStoreView::Find { id } => match find_by_id(store, id) {
                None => StepView::Done(Err(BackupErrorView::BackupNotFound(id))),
                Some(found) => StepView::Done(Ok(OutcomeView::Found(found))),
            },
            AwaitStoreView::Add { record } => StepView::SaveStore(
                seq![record] + store,
                AwaitSavedView::Added,
            ),
            AwaitStoreView::Delete { id } => {
                if contains_id(store, id) {
                    StepView::SaveStore(
                        store.remove(position_by_id(store, id)),
                        AwaitSavedView::Deleted { removed: store[position_by_id(store, id)] },
                    )
                } else {
                    StepView::Done(Err(BackupErrorView::BackupNotFound(id)))
                }
            },
        },
    }
}

/// The step that follows when the clock was read: the new record goes in
/// front of the history, and the history is to be saved.
pub open spec fn on_clock(state: AwaitClockView, now: Moment) -> StepView {
    let record = record_at(now, state.current, state.description);
    StepView::SaveStore(
        seq![record] + state.store,
        AwaitSavedView::Backup { purpose: state.purpose, current: state.current, record },
    )
}

/// The step that follows when the history was saved, or could not be.
pub open spec fn on_saved(state: AwaitSavedView, saved: Result<(), BackupErrorView>) -> StepView {
    match saved {
        Err(e) => StepView::Done(Err(e)),
        Ok(_) => match state {
            AwaitSavedView::Backup { purpose, current, record } => after_backup(
                purpose,
                current,
                Some(record),
            ),
            AwaitSavedView::Added => StepView::Done(Ok(OutcomeView::Added)),
            AwaitSavedView::Deleted { removed } => StepView::Done(
                Ok(OutcomeView::Deleted(removed)),
            ),
            AwaitSavedView::Cleared => StepView::Done(Ok(OutcomeView::Cleared)),
        },
    }
}

/// The step that follows when the identifier was written, or could not be.
pub open spec fn on_written(
    state: AwaitWrittenView,
    written: Result<(), BackupErrorView>,
) -> StepView {
    match written {
        Err(e) => StepView::Done(Err(e)),
        Ok(_) => match state {
            AwaitWrittenView::Write {
                previous_guid,
                new_guid,
                description,
                pre_backup,
            } => StepView::ReadIdentifier(
                AwaitIdentifierView::Backup {
                    purpose: PurposeView::AfterWrite { previous_guid, new_guid, pre_backup },
                    description: Some(post_write_description(new_guid, description)),
                },
            ),
            AwaitWrittenView::Restore {
                previous_guid,
                pre_backup,
                target,
            } => StepView::ReadIdentifier(
                AwaitIdentifierView::RestoreReadBack { previous_guid, pre_backup, target },
            ),
        },
    }
}

/// How many pieces of outside work may still follow a backup with the
/// given purpose.
pub open spec fn work_after(purpose: PurposeView) -> nat {
    match purpose {
        PurposeView::Standalone => 0,
        PurposeView::BeforeWrite { .. } => 5,
        PurposeView::AfterWrite { .. } => 0,
        PurposeView::BeforeRestore { .. } => 2,
    }
}

/// An upper bound on the pieces of outside work that an operation still
/// asks for, the one of `step` included. It falls with every answer.
pub open spec fn work_left(step: StepView) -> nat {
    match step {
        StepView::Done(_) => 0,
        StepView::ReadIdentifier(AwaitIdentifierView::Backup { purpose, .. }) => 4 + work_after(
            purpose,
        ),
        StepView::ReadIdentifier(AwaitIdentifierView::RestorePrevious { .. }) => 7,
        StepView::ReadIdentifier(AwaitIdentifierView::RestoreReadBack { .. }) => 1,
        StepView::LoadStore(AwaitStoreView::Backup { purpose, .. }) => 3 + work_after(purpose),
        StepView::LoadStore(AwaitStoreView::RestoreLookup { .. }) => 8,
        StepView::LoadStore(AwaitStoreView::Add { .. }) => 2,
        StepView::LoadStore(AwaitStoreView::Delete { .. }) => 2,
        StepView::LoadStore(_) => 1,
        StepView::ReadClock(state) => 2 + work_after(state.purpose),
        StepView::SaveStore(_, AwaitSavedView::Backup { purpose, .. }) => 1 + work_after(purpose),
        StepView::SaveStore(_, _) => 1,
        StepView::WriteIdentifier(_, AwaitWrittenView::Write { .. }) => 5,
        StepView::WriteIdentifier(_, AwaitWrittenView::Restore { .. }) => 2,
    }
}

/// The first step of a backup of the live identifier.
pub open spec fn backup_start(description: Option<Seq<char>>) -> StepView {
    StepView::ReadIdentifier(
        AwaitIdentifierView::Backup { purpose: PurposeView::Standalone, description },
    )
}

/// The first step of a guarded write of `new_guid`: a text that is no
/// canonical identifier is refused at once, before any outside work.
pub open spec fn write_start(new_guid: Seq<char>, description: Option<Seq<char>>) -> StepView {
    if is_canonical_guid(new_guid) {
        StepView::ReadIdentifier(
            AwaitIdentifierView::Backup {
                purpose: PurposeView::BeforeWrite { new_guid, description },
                description,
            },
        )
    } else {
        StepView::Done(Err(BackupErrorView::InvalidGuidFormat(new_guid)))
    }
}

/// The first step of a restore of the record with the id `id`.
pub open spec fn restore_start(id: Seq<char>) -> StepView {
    StepView::LoadStore(AwaitStoreView::RestoreLookup { id })
}

/// The first and only step of emptying the history.
pub open spec fn clear_start() -> StepView {
    StepView::SaveStore(Seq::<BackupRecord>::empty(), AwaitSavedView::Cleared)
}

fn finish_backup(purpose: Purpose, current: MachineId, made: Option<MachineIdBackup>) -> (next:
    Step)
    ensures
        next@ == after_backup(purpose@, current@, made.deep_view()),
{
    match purpose {
        Purpose::Standalone => Step::Done(Ok(Outcome::Backup(made))),
        Purpose::BeforeWrite { new_guid, description } => {
            let value = new_guid.clone();
            Step::WriteIdentifier(
                value,
                AwaitWritten::Write {
                    previous_guid: current.guid,
                    new_guid,
                    description,
                    pre_backup: made,
                },
            )
        },
        Purpose::AfterWrite { previous_guid, new_guid, pre_backup } => Step::Done(
            Ok(
                Outcome::Write(
                    WriteResult { previous_guid, new_guid, pre_backup, post_backup: made },
                ),
            ),
        ),
        Purpose::BeforeRestore { previous_guid, target } => {
            let value = target.guid.clone();
            Step::WriteIdentifier(
                value,
                AwaitWritten::Restore { previous_guid, pre_backup: made, target },
            )
        },
    }
}

impl AwaitIdentifier {
    /// Takes the answer to `ReadIdentifier`. A failed read ends the
    /// operation with the error as it came; an identifier that is not
    /// canonical ends it too, and comes back in the error.
    pub fn resume(self, read: Result<MachineId, BackupError>) -> (next: Step)
        ensures
            next@ == on_identifier(self@, view_of_read(read)),
            work_left(next@) < work_left(StepView::ReadIdentifier(self@)),
    {
        let current = match read {
            Ok(current) => current,
            Err(e) => {
                return Step::Done(Err(e));
            },
        };
        match validate_guid_format(current.guid.as_str()) {
            Ok(_) => {},
            Err(e) => {
                return Step::Done(Err(e));
            },
        }
        match self {
            AwaitIdentifier::Backup { purpose, description } => Step::LoadStore(
                AwaitStore::Backup { purpose, description, current },
            ),
            AwaitIdentifier::RestorePrevious { target } => {
                let mut note = join("恢复前自动备份: 从备份 ", target.id.as_str());
                note.append(" 恢复到 ");
                note.append(target.guid.as_str());
                Step::ReadIdentifier(
                    AwaitIdentifier::Backup {
                        purpose: Purpose::BeforeRestore { previous_guid: current.guid, target },
                        description: Some(note),
                    },
                )
            },
            AwaitIdentifier::RestoreReadBack { previous_guid, pre_backup, target } => Step::Done(
                Ok(
                    Outcome::Restore(
                        RestoreInfo {
                            previous_guid,
                            restored_guid: current.guid,
                            pre_backup,
                            restored_from: target,
                        },
                    ),
                ),
            ),
        }
    }
}

impl AwaitStore {
    /// Takes the answer to `LoadStore`. A failed load ends the operation
    /// with the error as it came.
    pub fn resume(self, loaded: Result<BackupStore, BackupError>) -> (next: Step)
        ensures
            next@ == on_store(self@, view_of_load(loaded)),
            work_left(next@) < work_left(StepView::LoadStore(self@)),
    {
        let mut store = match loaded {
            Ok(store) => store,
            Err(e) => {
                return Step::Done(Err(e));
            },
        };
        match self {
            AwaitStore::Backup { purpose, description, current } => {
                if store.has_guid(current.guid.as_str()) {
                    finish_backup(purpose, current, None)
                } else {
                    Step::ReadClock(AwaitClock { purpose, description, current, store })
                }
            },
            AwaitStore::RestoreLookup { id } => {
                let target = match store.get_backup(id.as_str()) {
                    Some(found) => found.clone(),
                    None => {
                        return Step::Done(Err(BackupError::BackupNotFound(id)));
                    },
                };
                match validate_guid_format(target.guid.as_str()) {
                    Ok(_) => Step::ReadIdentifier(AwaitIdentifier::RestorePrevious { target }),
                    Err(e) => Step::Done(Err(e)),
                }
            },
            AwaitStore::List => Step::Done(Ok(Outcome::Backups(store.backups))),
            AwaitStore::Count => Step::Done(Ok(Outcome::Count(store.len()))),
            AwaitStore::Find { id } => match store.get_backup(id.as_str()) {
                Some(found) => Step::Done(Ok(Outcome::Found(found.clone()))),
                None => Step::Done(Err(BackupError::BackupNotFound(id))),
            },
            AwaitStore::Add { record } => {
                store.add_backup(record);
                Step::SaveStore(store, AwaitSaved::Added)
            },
            AwaitStore::Delete { id } => match store.remove_backup(id.as_str()) {
                Ok(removed) => Step::SaveStore(store, AwaitSaved::Deleted { removed }),
                Err(e) => Step::Done(Err(e)),
            },
        }
    }
}

impl AwaitClock {
    /// Takes the answer to `ReadClock`: makes the record, dated `now`, and
    /// asks for the history to be saved with the record in front.
    pub fn resume(self, now: Moment) -> (next: Step)
        ensures
            next@ == on_clock(self@, now),
            work_left(next@) < work_left(StepView::ReadClock(self@)),
    {
        let AwaitClock { purpose, description, current, store } = self;
        let record = MachineIdBackup {
            id: generate_backup_id(now),
            guid: current.guid.clone(),
            source: current.source.clone(),
            timestamp: now.secs,
            description,
        };
        let mut store = store;
        store.add_backup(record.clone());
        Step::SaveStore(store, AwaitSaved::Backup { purpose, current, record })
    }
}

impl AwaitSaved {
    /// Takes the answer to `SaveStore`. A failed save ends the operation
    /// with the error as it came.
    pub fn resume(self, saved: Result<(), BackupError>) -> (next: Step)
        ensures
            next@ == on_saved(self@, view_of_done(saved)),
            work_left(next@) < work_left(StepView::SaveStore(Seq::empty(), self@)),
    {
        match saved {
            Err(e) => Step::Done(Err(e)),
            Ok(_) => match self {
                AwaitSaved::Backup { purpose, current, record } => finish_backup(
                    purpose,
                    current,
                    Some(record),
                ),
                AwaitSaved::Added => Step::Done(Ok(Outcome::Added)),
                AwaitSaved::Deleted { removed } => Step::Done(Ok(Outcome::Deleted(removed))),
                AwaitSaved::Cleared => Step::Done(Ok(Outcome::Cleared)),
            },
        }
    }
}

impl AwaitWritten {
    /// Takes the answer to `WriteIdentifier`. A failed write ends the
    /// operation with the error as it came.
    pub fn resume(self, written: Result<(), BackupError>) -> (next: Step)
        ensures
            next@ == on_written(self@, view_of_done(written)),
            work_left(next@) < work_left(StepView::WriteIdentifier(Seq::empty(), self@)),
    {
        match written {
            Err(e) => Step::Done(Err(e)),
            Ok(_) => match self {
                AwaitWritten::Write { previous_guid, new_guid, description, pre_backup } => {
                    let note = match description {
                        Some(reason) => join("替换后自动备份: ", reason.as_str()),
                        None => join("替换后自动备份: ", new_guid.as_str()),
                    };
                    Step::ReadIdentifier(
                        AwaitIdentifier::Backup {
                            purpose: Purpose::AfterWrite { previous_guid, new_guid, pre_backup },
                            description: Some(note),
                        },
                    )
                },
                AwaitWritten::Restore { previous_guid, pre_backup, target } => Step::ReadIdentifier(
                    AwaitIdentifier::RestoreReadBack { previous_guid, pre_backup, target },
                ),
            },
        }
    }
}

/// Starts a backup of the live identifier. The record is made only where
/// the history does not hold the identifier yet.
pub fn backup_current_machine_guid(description: Option<String>) -> (first: Step)
    ensures
        first@ == backup_start(description.deep_view()),
{
    Step::ReadIdentifier(AwaitIdentifier::Backup { purpose: Purpose::Standalone, description })
}

/// Starts a guarded write of `new_guid`.
pub fn write_machine_guid(new_guid: &str, description: Option<String>) -> (first: Step)
    ensures
        first@ == write_start(new_guid@, description.deep_view()),
{
    match validate_guid_format(new_guid) {
        Err(e) => Step::Done(Err(e)),
        Ok(_) => {
            let purpose = Purpose::BeforeWrite {
                new_guid: new_guid.to_owned(),
                description: clone_opt(&description),
            };
            Step::ReadIdentifier(AwaitIdentifier::Backup { purpose, description })
        },
    }
}

/// Starts a guarded write of a fresh random identifier.
pub fn generate_random_machine_guid(description: Option<String>) -> (first: Step)
    ensures
        exists|new_guid: Seq<char>|
            is_canonical_guid(new_guid) && first@ == write_start(
                new_guid,
                description.deep_view(),
            ),
{
    let new_guid = generate_random_guid();
    write_machine_guid(new_guid.as_str(), description)
}

/// Starts a restore of the value held by the record with the id `id`.
pub fn restore_backup_by_id(id: &str) -> (first: Step)
    ensures
        first@ == restore_start(id@),
{
    Step::LoadStore(AwaitStore::RestoreLookup { id: id.to_owned() })
}

/// Starts the listing of the whole history.
pub fn list_backups() -> (first: Step)
    ensures
        first@ == StepView::LoadStore(AwaitStoreView::List),
{
    Step::LoadStore(AwaitStore::List)
}

/// Starts the adding of `backup` in front of the history.
pub fn add_backup(backup: MachineIdBackup) -> (first: Step)
    ensures
        first@ == StepView::LoadStore(AwaitStoreView::Add { record: backup@ }),
{
    Step::LoadStore(AwaitStore::Add { record: backup })
}

/// Starts the removal of the first record with the id `id`.
pub fn delete_backup(id: &str) -> (first: Step)
    ensures
        first@ == StepView::LoadStore(AwaitStoreView::Delete { id: id@ }),
{
    Step::LoadStore(AwaitStore::Delete { id: id.to_owned() })
}

/// Starts the emptying of the history.
pub fn clear_all_backups() -> (first: Step)
    ensures
        first@ == clear_start(),
{
    Step::SaveStore(BackupStore::new(), AwaitSaved::Cleared)
}

/// Starts the counting of the records in the history.
pub fn get_backup_count() -> (first: Step)
    ensures
        first@ == StepView::LoadStore(AwaitStoreView::Count),
{
    Step::LoadStore(AwaitStore::Count)
}

/// Starts the search for the record with the id `id`.
pub fn get_backup_by_id(id: &str) -> (first: Step)
    ensures
        first@ == StepView::LoadStore(AwaitStoreView::Find { id: id@ }),
{
    Step::LoadStore(AwaitStore::Find { id: id.to_owned() })
}

} // verus!
