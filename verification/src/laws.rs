//! What the guard guarantees, proved against a model of the host.
//!
//! The model is a host that does each piece of work faithfully or not at
//! all: a read yields what is stored, a save or a write replaces what is
//! stored, and a piece of work that fails changes nothing. When it fails,
//! and with which error, is left open, as is what the clock shows.

use crate::guard::{
    after_backup, backup_id, backup_start, clear_start, millis_of, on_clock, on_identifier,
    on_saved, on_store, on_written, post_write_description, record_at, restore_description,
    restore_start, work_left, write_start, AwaitIdentifierView, AwaitSavedView, AwaitStoreView,
    AwaitWrittenView, Moment, OutcomeView, PurposeView, RestoreInfoView, StepView,
    WriteResultView,
};
use crate::machine_id::{
    contains_guid, contains_id, find_by_id, is_canonical_guid, is_first_with_id,
    lemma_first_with_id_unique, lemma_position_by_id, position_by_id, BackupErrorView,
    BackupRecord, MachineIdView,
};
use crate::text::{decimal, lemma_decimal_injective};
use vstd::prelude::*;

verus! {

/// A host, as far as the guard can tell.
pub struct Host {
    /// The live identifier.
    pub guid: Seq<char>,
    /// Where the live identifier is kept.
    pub source: Seq<char>,
    /// The backup history as it is kept.
    pub store: Seq<BackupRecord>,
    /// How many pieces of work the host has been asked for.
    pub time: nat,
    /// What the clock shows when it is read as the piece of work of a
    /// given number.
    pub clock: spec_fn(nat) -> Moment,
    /// The error with which the piece of work of a given number fails, if
    /// it fails.
    pub fault: spec_fn(nat) -> Option<BackupErrorView>,
}

impl Host {
    /// The host after one more piece of work that changed nothing.
    pub open spec fn later(self) -> Host {
        Host { time: self.time + 1, ..self }
    }

    /// What a read of the identifier yields where it does not fail: the
    /// live identifier, unless it is not canonical.
    pub open spec fn identifier(self) -> Result<MachineIdView, BackupErrorView> {
        if is_canonical_guid(self.guid) {
            Ok(MachineIdView { guid: self.guid, source: self.source })
        } else {
            Err(BackupErrorView::InvalidGuidFormat(self.guid))
        }
    }

    /// No piece of work fails from now on.
    pub open spec fn sound(self) -> bool {
        forall|t: nat| t >= self.time ==> (#[trigger] (self.fault)(t)) is None
    }
}

/// The host does the work that `step` asks for and answers. What comes
/// back is the host after the work and the guard's next step.
pub open spec fn perform(host: Host, step: StepView) -> (Host, StepView) {
    let fault = (host.fault)(host.time);
    match step {
        StepView::Done(_) => (host, step),
        StepView::ReadIdentifier(state) => match fault {
            Some(e) => (host.later(), on_identifier(state, Err(e))),
            None => (host.later(), on_identifier(state, host.identifier())),
        },
        StepView::LoadStore(state) => match fault {
            Some(e) => (host.later(), on_store(state, Err(e))),
            None => (host.later(), on_store(state, Ok(host.store))),
        },
        StepView::ReadClock(state) => (host.later(), on_clock(state, (host.clock)(host.time))),
        StepView::SaveStore(store, state) => match fault {
            Some(e) => (host.later(), on_saved(state, Err(e))),
            None => (Host { store, ..host.later() }, on_saved(state, Ok(()))),
        },
        StepView::WriteIdentifier(guid, state) => match fault {
            Some(e) => (host.later(), on_written(state, Err(e))),
            None => (Host { guid, ..host.later() }, on_written(state, Ok(()))),
        },
    }
}

/// The operation that begins with `step`, run to its end on `host`: the
/// host as the operation leaves it, and the operation's result.
pub open spec fn run(host: Host, step: StepView) -> (Host, Result<OutcomeView, BackupErrorView>)
    decreases work_left(step),
{
    match step {
        StepView::Done(result) => (host, result),
        _ => run(perform(host, step).0, perform(host, step).1),
    }
}

/// `store` with `record` in front, where there is one.
pub open spec fn prepend(record: Option<BackupRecord>, store: Seq<BackupRecord>) -> Seq<
    BackupRecord,
> {
    match record {
        Some(r) => seq![r] + store,
        None => store,
    }
}

/// `after` is `before` with records put in front, or `before` itself.
pub open spec fn extends(after: Seq<BackupRecord>, before: Seq<BackupRecord>) -> bool {
    &&& after.len() >= before.len()
    &&& after.subrange(after.len() - before.len(), after.len() as int) == before
}

/// A history that extends another holds every value that the other holds.
proof fn lemma_extends_keeps(after: Seq<BackupRecord>, before: Seq<BackupRecord>, guid: Seq<char>)
    requires
        extends(after, before),
        contains_guid(before, guid),
    ensures
        contains_guid(after, guid),
{
    let i = choose|i: int| 0 <= i < before.len() && (#[trigger] before[i]).guid == guid;
    let shift = after.len() - before.len();
    assert(after.subrange(shift, after.len() as int)[i] == after[i + shift]);
    assert(after[i + shift].guid == guid);
}

/// To extend is transitive.
proof fn lemma_extends_trans(a: Seq<BackupRecord>, b: Seq<BackupRecord>, c: Seq<BackupRecord>)
    requires
        extends(a, b),
        extends(b, c),
    ensures
        extends(a, c),
{
    let ab = a.len() - b.len();
    let bc = b.len() - c.len();
    assert(a.subrange(a.len() - c.len(), a.len() as int) =~= b.subrange(bc, b.len() as int)) by {
        assert forall|i: int| 0 <= i < c.len() implies a.subrange(
            a.len() - c.len(),
            a.len() as int,
        )[i] == b.subrange(bc, b.len() as int)[i] by {
            assert(a.subrange(ab, a.len() as int)[i + bc] == a[i + bc + ab]);
        }
    }
}

/// The four pieces of work of a backup, done one after another on `host`:
/// the host as they leave it, and the record that was made, `None` where
/// the live identifier already had one, or the error that stopped them.
pub open spec fn backup_on(host: Host, description: Option<Seq<char>>) -> (
    Host,
    Result<Option<BackupRecord>, BackupErrorView>,
) {
    let t = host.time;
    let at = |n: nat| Host { time: t + n, ..host };
    if let Some(e) = (host.fault)(t) {
        (at(1), Err(e))
    } else if let Err(e) = host.identifier() {
        (at(1), Err(e))
    } else if let Some(e) = (host.fault)(t + 1) {
        (at(2), Err(e))
    } else if contains_guid(host.store, host.guid) {
        (at(2), Ok(None))
    } else {
        let record = record_at((host.clock)(t + 2), host.identifier()->Ok_0, description);
        if let Some(e) = (host.fault)(t + 3) {
            (at(4), Err(e))
        } else {
            (Host { store: seq![record] + host.store, ..at(4) }, Ok(Some(record)))
        }
    }
}

/// A backup that is part of a larger operation goes as `backup_on` says,
/// and the operation goes on from there.
pub proof fn lemma_backup_phase(host: Host, purpose: PurposeView, description: Option<Seq<char>>)
    ensures
        run(
            host,
            StepView::ReadIdentifier(AwaitIdentifierView::Backup { purpose, description }),
        ) == (match backup_on(host, description) {
            (after, Err(e)) => (after, Err(e)),
            (after, Ok(made)) => run(after, after_backup(purpose, host.identifier()->Ok_0, made)),
        }),
{
    reveal_with_fuel(run, 5);
    let t = host.time;
    if (host.fault)(t) is None && host.identifier() is Ok && (host.fault)(t + 1) is None {
        if contains_guid(host.store, host.guid) {
            assert(Host { time: t + 1 + 1, ..host } == Host { time: t + 2, ..host });
        } else {
            let record = record_at((host.clock)(t + 2), host.identifier()->Ok_0, description);
            if (host.fault)(t + 3) is None {
                assert(Host { time: t + 1 + 1 + 1 + 1, store: seq![record] + host.store, ..host }
                    == Host { store: seq![record] + host.store, time: t + 4, ..host });
            }
        }
    }
}

/// A backup never touches the live identifier and never loses a record.
/// Where it succeeds, the history holds the live identifier afterwards;
/// where it fails, the history is as it was.
pub proof fn lemma_backup_on(host: Host, description: Option<Seq<char>>)
    ensures
        backup_on(host, description).0.guid == host.guid,
        backup_on(host, description).0.source == host.source,
        backup_on(host, description).0.clock == host.clock,
        backup_on(host, description).0.fault == host.fault,
        backup_on(host, description).0.time >= host.time,
        extends(backup_on(host, description).0.store, host.store),
        match backup_on(host, description).1 {
            Ok(made) => {
                &&& is_canonical_guid(host.guid)
                &&& backup_on(host, description).0.store == prepend(made, host.store)
                &&& contains_guid(backup_on(host, description).0.store, host.guid)
            },
            Err(_) => backup_on(host, description).0.store == host.store,
        },
{
    let after = backup_on(host, description).0.store;
    if let Ok(Some(record)) = backup_on(host, description).1 {
        assert((seq![record] + host.store)[0].guid == host.guid);
    }
    assert(after.subrange(after.len() - host.store.len(), after.len() as int) =~= host.store);
}

/// The record that a backup makes on `host` where nothing fails: one of
/// the live identifier, unless the history holds that identifier already.
pub open spec fn record_made(host: Host, description: Option<Seq<char>>) -> Option<BackupRecord> {
    if contains_guid(host.store, host.guid) {
        None
    } else {
        Some(
            record_at(
                (host.clock)(host.time + 2),
                MachineIdView { guid: host.guid, source: host.source },
                description,
            ),
        )
    }
}

/// The host after a backup that met no failure: two pieces of work later
/// where the live identifier had its record, four pieces later and with
/// the new record in front of the history where it had none.
pub open spec fn backed_up(host: Host, description: Option<Seq<char>>) -> Host {
    match record_made(host, description) {
        None => Host { time: host.time + 2, ..host },
        Some(record) => Host { time: host.time + 4, store: seq![record] + host.store, ..host },
    }
}

/// On a host where nothing fails and the live identifier is canonical, a
/// backup goes through.
proof fn lemma_backup_on_sound(host: Host, description: Option<Seq<char>>)
    requires
        host.sound(),
        is_canonical_guid(host.guid),
    ensures
        backup_on(host, description) == (
            backed_up(host, description),
            Ok::<Option<BackupRecord>, BackupErrorView>(record_made(host, description)),
        ),
        backed_up(host, description).sound(),
        backed_up(host, description).guid == host.guid,
{
    let t = host.time;
    assert((host.fault)(t) is None);
    assert((host.fault)(t + 1) is None);
    assert((host.fault)(t + 3) is None);
}

/// A backup that meets no failure. Where the live identifier is canonical
/// and no piece of work fails, a backup succeeds. Where the history does
/// not hold the live identifier, it puts one record in front of the
/// history: one that holds the live identifier, its source, the caller's
/// description, and the time of its making as id and timestamp.
pub proof fn law_backup_succeeds(host: Host, description: Option<Seq<char>>)
    requires
        host.sound(),
        is_canonical_guid(host.guid),
    ensures
        run(host, backup_start(description)) == (
            backed_up(host, description),
            Ok::<OutcomeView, BackupErrorView>(
                OutcomeView::Backup(record_made(host, description)),
            ),
        ),
        !contains_guid(host.store, host.guid) ==> {
            let now = (host.clock)(host.time + 2);
            let record = BackupRecord {
                id: backup_id(now),
                guid: host.guid,
                source: host.source,
                timestamp: now.secs,
                description,
            };
            &&& record_made(host, description) == Some(record)
            &&& backed_up(host, description).store == seq![record] + host.store
        },
{
    lemma_backup_phase(host, PurposeView::Standalone, description);
    lemma_backup_on_sound(host, description);
    reveal_with_fuel(run, 2);
}

/// Duplicate suppression. Where the history already holds the live
/// identifier and neither the read nor the load fails, a backup reports
/// that it made no record, and leaves the history, and so the number of
/// its records, as it was.
pub proof fn law_duplicate_backup_skipped(host: Host, description: Option<Seq<char>>)
    requires
        is_canonical_guid(host.guid),
        contains_guid(host.store, host.guid),
        (host.fault)(host.time) is None,
        (host.fault)(host.time + 1) is None,
    ensures
        run(host, backup_start(description)).1 == Ok::<OutcomeView, BackupErrorView>(
            OutcomeView::Backup(None),
        ),
        run(host, backup_start(description)).0.store == host.store,
        run(host, backup_start(description)).0.guid == host.guid,
{
    lemma_backup_phase(host, PurposeView::Standalone, description);
    reveal_with_fuel(run, 2);
}

/// Guarded write. On every host, whatever fails and whenever: when a write
/// has run to its end, the live identifier is either the one that it was,
/// or it is the new one and the history holds the one that it was. No
/// record is lost on the way.
pub proof fn law_write_guarded(host: Host, new_guid: Seq<char>, description: Option<Seq<char>>)
    ensures
        ({
            let after = run(host, write_start(new_guid, description)).0;
            &&& after.guid == host.guid || (after.guid == new_guid && contains_guid(
                after.store,
                host.guid,
            ))
            &&& extends(after.store, host.store)
        }),
{
    assert(host.store.subrange(0, host.store.len() as int) =~= host.store);
    if is_canonical_guid(new_guid) {
        let purpose = PurposeView::BeforeWrite { new_guid, description };
        lemma_backup_phase(host, purpose, description);
        lemma_backup_on(host, description);
        let (secured, pre) = backup_on(host, description);
        if let Ok(made) = pre {
            reveal_with_fuel(run, 2);
            if (secured.fault)(secured.time) is None {
                let written = Host { guid: new_guid, ..secured.later() };
                let after_purpose = PurposeView::AfterWrite {
                    previous_guid: host.guid,
                    new_guid,
                    pre_backup: made,
                };
                let note = Some(post_write_description(new_guid, description));
                lemma_backup_phase(written, after_purpose, note);
                lemma_backup_on(written, note);
                let last = backup_on(written, note).0;
                lemma_extends_trans(last.store, secured.store, host.store);
                lemma_extends_keeps(last.store, secured.store, host.guid);
            }
        }
    }
}

/// A failed backup stops the write. Where a backup started on `host`
/// would fail, a write started on `host` fails with the same error and
/// leaves the live identifier and the history untouched.
pub proof fn law_failed_backup_stops_write(
    host: Host,
    new_guid: Seq<char>,
    description: Option<Seq<char>>,
)
    requires
        is_canonical_guid(new_guid),
        run(host, backup_start(description)).1 is Err,
    ensures
        run(host, write_start(new_guid, description)).1 == run(host, backup_start(description)).1,
        run(host, write_start(new_guid, description)).0.guid == host.guid,
        run(host, write_start(new_guid, description)).0.store == host.store,
{
    let purpose = PurposeView::BeforeWrite { new_guid, description };
    lemma_backup_phase(host, purpose, description);
    lemma_backup_phase(host, PurposeView::Standalone, description);
    lemma_backup_on(host, description);
    reveal_with_fuel(run, 2);
}

/// The host after a write of `new_guid` that met no failure: the backup
/// of the previous identifier, the write, and the backup of the new one.
pub open spec fn written(host: Host, new_guid: Seq<char>, description: Option<Seq<char>>) -> Host {
    let secured = backed_up(host, description);
    let replaced = Host { guid: new_guid, time: secured.time + 1, ..secured };
    backed_up(replaced, Some(post_write_description(new_guid, description)))
}

/// A write that meets no failure. Where the live identifier and the new
/// one are canonical and no piece of work fails, the write succeeds: the
/// new identifier is live, and the result names the previous identifier,
/// the new one, and the record that each of the two backups made, if it
/// made one. The history is the old one with those records in front, the
/// later one first.
pub proof fn law_write_succeeds(host: Host, new_guid: Seq<char>, description: Option<Seq<char>>)
    requires
        host.sound(),
        is_canonical_guid(host.guid),
        is_canonical_guid(new_guid),
    ensures
        ({
            let secured = backed_up(host, description);
            let replaced = Host { guid: new_guid, time: secured.time + 1, ..secured };
            let pre = record_made(host, description);
            let post = record_made(replaced, Some(post_write_description(new_guid, description)));
            &&& run(host, write_start(new_guid, description)) == (
                written(host, new_guid, description),
                Ok::<OutcomeView, BackupErrorView>(
                    OutcomeView::Write(
                        WriteResultView {
                            previous_guid: host.guid,
                            new_guid,
                            pre_backup: pre,
                            post_backup: post,
                        },
                    ),
                ),
            )
            &&& written(host, new_guid, description).guid == new_guid
            &&& written(host, new_guid, description).store == prepend(
                post,
                prepend(pre, host.store),
            )
            &&& written(host, new_guid, description).sound()
        }),
{
    let purpose = PurposeView::BeforeWrite { new_guid, description };
    lemma_backup_phase(host, purpose, description);
    lemma_backup_on_sound(host, description);
    let secured = backed_up(host, description);
    reveal_with_fuel(run, 2);
    assert((secured.fault)(secured.time) is None);
    let replaced = Host { guid: new_guid, time: secured.time + 1, ..secured };
    assert(replaced == Host { guid: new_guid, ..secured.later() });
    let after_purpose = PurposeView::AfterWrite {
        previous_guid: host.guid,
        new_guid,
        pre_backup: record_made(host, description),
    };
    let note = Some(post_write_description(new_guid, description));
    lemma_backup_phase(replaced, after_purpose, note);
    lemma_backup_on_sound(replaced, note);
}

/// Guarded restore. On every host, whatever fails and whenever: when a
/// restore has run to its end, the live identifier is either the one that
/// it was, or the history holds the one that it was. No record is lost on
/// the way.
pub proof fn law_restore_guarded(host: Host, id: Seq<char>)
    ensures
        ({
            let after = run(host, restore_start(id)).0;
            &&& after.guid == host.guid || contains_guid(after.store, host.guid)
            &&& extends(after.store, host.store)
        }),
{
    assert(host.store.subrange(0, host.store.len() as int) =~= host.store);
    reveal_with_fuel(run, 3);
    let t = host.time;
    if (host.fault)(t) is None {
        if let Some(target) = find_by_id(host.store, id) {
            if is_canonical_guid(target.guid) && (host.fault)(t + 1) is None
                && host.identifier() is Ok {
                let asked = Host { time: t + 1 + 1, ..host };
                let purpose = PurposeView::BeforeRestore { previous_guid: host.guid, target };
                let note = Some(restore_description(target));
                lemma_backup_phase(asked, purpose, note);
                lemma_backup_on(asked, note);
            }
        }
    }
}

/// The host after a restore of `target` that met no failure: the load,
/// the read, the backup of the previous identifier, the write and the
/// read back.
pub open spec fn restored(host: Host, target: BackupRecord) -> Host {
    let asked = Host { time: host.time + 2, ..host };
    let secured = backed_up(asked, Some(restore_description(target)));
    Host { guid: target.guid, time: secured.time + 2, ..secured }
}

/// A restore that meets no failure. Where the history holds a record with
/// the id that was asked for, the value of the first such record and the
/// live identifier are canonical, and no piece of work fails, the restore
/// succeeds: the record's value is live, and the result names the previous
/// identifier, the value read back, the record that the backup made, if it
/// made one, and the record that was restored.
pub proof fn law_restore_succeeds(host: Host, id: Seq<char>)
    requires
        host.sound(),
        is_canonical_guid(host.guid),
        find_by_id(host.store, id) is Some,
        is_canonical_guid(find_by_id(host.store, id)->Some_0.guid),
    ensures
        ({
            let target = find_by_id(host.store, id)->Some_0;
            let asked = Host { time: host.time + 2, ..host };
            let made = record_made(asked, Some(restore_description(target)));
            &&& run(host, restore_start(id)) == (
                restored(host, target),
                Ok::<OutcomeView, BackupErrorView>(
                    OutcomeView::Restore(
                        RestoreInfoView {
                            previous_guid: host.guid,
                            restored_guid: target.guid,
                            pre_backup: made,
                            restored_from: target,
                        },
                    ),
                ),
            )
            &&& restored(host, target).guid == target.guid
            &&& restored(host, target).store == prepend(made, host.store)
        }),
{
    reveal_with_fuel(run, 3);
    let t = host.time;
    let target = find_by_id(host.store, id)->Some_0;
    assert((host.fault)(t) is None);
    assert((host.fault)(t + 1) is None);
    let asked = Host { time: t + 2, ..host };
    assert(asked == Host { time: t + 1 + 1, ..host });
    let purpose = PurposeView::BeforeRestore { previous_guid: host.guid, target };
    let note = Some(restore_description(target));
    lemma_backup_phase(asked, purpose, note);
    lemma_backup_on_sound(asked, note);
    let secured = backed_up(asked, note);
    assert((secured.fault)(secured.time) is None);
    assert((secured.fault)(secured.time + 1) is None);
    assert(Host { guid: target.guid, time: secured.time + 2, ..secured } == Host {
        guid: target.guid,
        ..secured.later()
    }.later());
}

/// Records made at different milliseconds have different ids.
pub proof fn lemma_backup_id_injective(a: Moment, b: Moment)
    requires
        backup_id(a) == backup_id(b),
    ensures
        millis_of(a) == millis_of(b),
{
    let tag = "backup_"@;
    let da = decimal(millis_of(a));
    let db = decimal(millis_of(b));
    assert((tag + da).subrange(tag.len() as int, (tag + da).len() as int) =~= da);
    assert((tag + db).subrange(tag.len() as int, (tag + db).len() as int) =~= db);
    lemma_decimal_injective(millis_of(a), millis_of(b));
}

/// Restore round trip. Start where the identifier `A` is live and has no
/// backup, and nothing fails. Write `B`, then restore the record that the
/// write made of `A`. Then `A` is live again. The write has put the
/// record of `A` in front of the history, and in front of that a record
/// of `B`, unless `B` had a record already: two records where `B` is
/// new, one where it is not. The restore adds none: `B`, live when it
/// starts, has its record. Where the write makes two records, they must
/// be made in different milliseconds: a record is found by its id, and
/// the id is the time of its making.
pub proof fn law_write_then_restore(host: Host, new_guid: Seq<char>, description: Option<Seq<char>>)
    requires
        host.sound(),
        is_canonical_guid(host.guid),
        is_canonical_guid(new_guid),
        !contains_guid(host.store, host.guid),
        new_guid != host.guid && !contains_guid(host.store, new_guid) ==> millis_of(
            (host.clock)(host.time + 2),
        ) != millis_of((host.clock)(host.time + 7)),
    ensures
        ({
            let pre = record_at(
                (host.clock)(host.time + 2),
                MachineIdView { guid: host.guid, source: host.source },
                description,
            );
            let post = if new_guid == host.guid || contains_guid(host.store, new_guid) {
                None
            } else {
                Some(
                    record_at(
                        (host.clock)(host.time + 7),
                        MachineIdView { guid: new_guid, source: host.source },
                        Some(post_write_description(new_guid, description)),
                    ),
                )
            };
            let (changed, first) = run(host, write_start(new_guid, description));
            let (back, second) = run(changed, restore_start(pre.id));
            &&& first == Ok::<OutcomeView, BackupErrorView>(
                OutcomeView::Write(
                    WriteResultView {
                        previous_guid: host.guid,
                        new_guid,
                        pre_backup: Some(pre),
                        post_backup: post,
                    },
                ),
            )
            &&& changed.guid == new_guid
            &&& changed.store == prepend(post, seq![pre] + host.store)
            &&& second == Ok::<OutcomeView, BackupErrorView>(
                OutcomeView::Restore(
                    RestoreInfoView {
                        previous_guid: new_guid,
                        restored_guid: host.guid,
                        pre_backup: None,
                        restored_from: pre,
                    },
                ),
            )
            &&& back.guid == host.guid
            &&& back.store == changed.store
            &&& back.store.len() == host.store.len() + (if post is Some {
                2int
            } else {
                1int
            })
        }),
{
    let t = host.time;
    let pre = record_at(
        (host.clock)(t + 2),
        MachineIdView { guid: host.guid, source: host.source },
        description,
    );
    let note = Some(post_write_description(new_guid, description));
    law_write_succeeds(host, new_guid, description);
    let secured = backed_up(host, description);
    let replaced = Host { guid: new_guid, time: secured.time + 1, ..secured };
    assert(secured.store == seq![pre] + host.store);
    assert(secured.store[0] == pre);
    // After the first backup the history holds the new identifier where
    // it is the old one, or was held before, and nowhere else.
    assert(contains_guid(replaced.store, new_guid) <==> (new_guid == host.guid || contains_guid(
        host.store,
        new_guid,
    ))) by {
        if contains_guid(host.store, new_guid) {
            let i = choose|i: int|
                0 <= i < host.store.len() && (#[trigger] host.store[i]).guid == new_guid;
            assert(replaced.store[i + 1].guid == new_guid);
        }
        if contains_guid(replaced.store, new_guid) {
            let i = choose|i: int|
                0 <= i < replaced.store.len() && (#[trigger] replaced.store[i]).guid == new_guid;
            if i > 0 {
                assert(host.store[i - 1].guid == new_guid);
            }
        }
    }
    let post = record_made(replaced, note);
    let changed = written(host, new_guid, description);
    assert(changed.store == prepend(post, seq![pre] + host.store));
    // The restore finds the record of `A`, behind the record of `B` where
    // the write made one.
    if let Some(later) = post {
        assert(later.id != pre.id) by {
            if later.id == pre.id {
                lemma_backup_id_injective((host.clock)(t + 7), (host.clock)(t + 2));
            }
        }
        assert(changed.store[0] == later);
        assert(changed.store[1] == pre);
        assert(is_first_with_id(changed.store, pre.id, 1));
        lemma_first_with_id_unique(changed.store, pre.id, 1);
        assert(changed.store[0].guid == new_guid);
    } else {
        assert(is_first_with_id(changed.store, pre.id, 0));
        lemma_first_with_id_unique(changed.store, pre.id, 0);
    }
    assert(contains_guid(changed.store, new_guid));
    law_restore_succeeds(changed, pre.id);
}

/// Idempotent clear. Where the save does not fail, clearing succeeds and
/// leaves the history empty, whatever it held; on an empty history that
/// changes nothing. A count that follows finds no record.
pub proof fn law_clear_idempotent(host: Host)
    requires
        (host.fault)(host.time) is None,
    ensures
        ({
            let (cleared, result) = run(host, clear_start());
            &&& result == Ok::<OutcomeView, BackupErrorView>(OutcomeView::Cleared)
            &&& cleared.store == Seq::<BackupRecord>::empty()
            &&& cleared.guid == host.guid
            &&& host.store == Seq::<BackupRecord>::empty() ==> cleared.store == host.store
            &&& run(cleared, clear_start()).0.store == cleared.store
            &&& (cleared.fault)(cleared.time) is None ==> run(
                cleared,
                StepView::LoadStore(AwaitStoreView::Count),
            ).1 == Ok::<OutcomeView, BackupErrorView>(OutcomeView::Count(0))
        }),
{
    reveal_with_fuel(run, 3);
}

/// Reading the history. Where the load does not fail, a count yields the
/// number of records, a listing yields all records in their order, and a
/// search by id yields the first record with that id, or says that there
/// is none. None of them changes the host.
pub proof fn law_queries(host: Host, id: Seq<char>)
    requires
        (host.fault)(host.time) is None,
        host.store.len() <= usize::MAX,
    ensures
        run(host, StepView::LoadStore(AwaitStoreView::Count)) == (
            host.later(),
            Ok::<OutcomeView, BackupErrorView>(OutcomeView::Count(host.store.len() as usize)),
        ),
        run(host, StepView::LoadStore(AwaitStoreView::List)) == (
            host.later(),
            Ok::<OutcomeView, BackupErrorView>(OutcomeView::Backups(host.store)),
        ),
        run(host, StepView::LoadStore(AwaitStoreView::Find { id })) == (
            host.later(),
            match find_by_id(host.store, id) {
                Some(found) => Ok::<OutcomeView, BackupErrorView>(OutcomeView::Found(found)),
                None => Err(BackupErrorView::BackupNotFound(id)),
            },
        ),
{
    reveal_with_fuel(run, 3);
}

/// Newest first. Where nothing fails, adding one record and then
/// another leaves a history in which the one added last stands first,
/// the one added before it stands second, and behind them the history is
/// as it was; a listing that follows shows it so.
pub proof fn law_added_newest_first(host: Host, earlier: BackupRecord, later: BackupRecord)
    requires
        host.sound(),
    ensures
        ({
            let once = run(host, StepView::LoadStore(AwaitStoreView::Add { record: earlier })).0;
            let twice = run(once, StepView::LoadStore(AwaitStoreView::Add { record: later })).0;
            let listed = run(twice, StepView::LoadStore(AwaitStoreView::List)).1;
            &&& twice.store == seq![later, earlier] + host.store
            &&& twice.store[0] == later
            &&& twice.store[1] == earlier
            &&& listed == Ok::<OutcomeView, BackupErrorView>(OutcomeView::Backups(twice.store))
        }),
{
    reveal_with_fuel(run, 3);
    let t = host.time;
    assert((host.fault)(t) is None);
    assert((host.fault)(t + 1) is None);
    assert((host.fault)(t + 2) is None);
    assert((host.fault)(t + 3) is None);
    assert((host.fault)(t + 4) is None);
    let once = run(host, StepView::LoadStore(AwaitStoreView::Add { record: earlier })).0;
    assert(once.store == seq![earlier] + host.store);
    let twice = run(once, StepView::LoadStore(AwaitStoreView::Add { record: later })).0;
    assert(twice.store =~= seq![later, earlier] + host.store);
}

/// Deleting a record. Where nothing fails, a delete takes the first
/// record with the given id out of the history, hands it back, and
/// leaves the others in their order; where no record has that id it
/// fails, says so, and leaves the history as it was.
pub proof fn law_delete(host: Host, id: Seq<char>)
    requires
        host.sound(),
    ensures
        ({
            let (after, result) = run(host, StepView::LoadStore(AwaitStoreView::Delete { id }));
            if contains_id(host.store, id) {
                &&& result == Ok::<OutcomeView, BackupErrorView>(
                    OutcomeView::Deleted(host.store[position_by_id(host.store, id)]),
                )
                &&& is_first_with_id(host.store, id, position_by_id(host.store, id))
                &&& after.store == host.store.remove(position_by_id(host.store, id))
            } else {
                &&& result == Err::<OutcomeView, BackupErrorView>(
                    BackupErrorView::BackupNotFound(id),
                )
                &&& after.store == host.store
            }
        }),
{
    reveal_with_fuel(run, 3);
    assert((host.fault)(host.time) is None);
    assert((host.fault)(host.time + 1) is None);
    if contains_id(host.store, id) {
        lemma_position_by_id(host.store, id);
    }
}

/// An answer of the host to a piece of work.
pub enum Answer {
    /// To `ReadIdentifier`.
    Identifier(Result<MachineIdView, BackupErrorView>),
    /// To `LoadStore`.
    Store(Result<Seq<BackupRecord>, BackupErrorView>),
    /// To `ReadClock`.
    Clock(Moment),
    /// To `SaveStore`.
    Saved(Result<(), BackupErrorView>),
    /// To `WriteIdentifier`.
    Written(Result<(), BackupErrorView>),
}

/// The step that follows `step` when the host gives `answer`; `None`
/// where `step` asks for no work, or for other work than `answer` answers.
pub open spec fn next(step: StepView, answer: Answer) -> Option<StepView> {
    match (step, answer) {
        (StepView::ReadIdentifier(state), Answer::Identifier(read)) => Some(
            on_identifier(state, read),
        ),
        (StepView::LoadStore(state), Answer::Store(loaded)) => Some(on_store(state, loaded)),
        (StepView::ReadClock(state), Answer::Clock(now)) => Some(on_clock(state, now)),
        (StepView::SaveStore(_, state), Answer::Saved(saved)) => Some(on_saved(state, saved)),
        (StepView::WriteIdentifier(_, state), Answer::Written(written)) => Some(
            on_written(state, written),
        ),
        _ => None,
    }
}

/// The steps that an operation takes when it begins with `first` and the
/// host gives `answers` in turn, up to the first answer that does not fit.
pub open spec fn steps_taken(first: StepView, answers: Seq<Answer>) -> Seq<StepView>
    decreases answers.len(),
{
    if answers.len() == 0 {
        seq![first]
    } else {
        match next(first, answers[0]) {
            Some(second) => seq![first] + steps_taken(second, answers.drop_first()),
            None => seq![first],
        }
    }
}

/// With `answer` to `step`, a backup of the live identifier is complete:
/// either the history was saved with the identifier's new record in
/// front, or the history was loaded and holds the identifier already.
pub open spec fn completes_backup(step: StepView, answer: Answer) -> bool {
    match (step, answer) {
        (
            StepView::SaveStore(store, AwaitSavedView::Backup { current, record, .. }),
            Answer::Saved(Ok(_)),
        ) => store.len() > 0 && store[0] == record && record.guid == current.guid,
        (
            StepView::LoadStore(AwaitStoreView::Backup { current, .. }),
            Answer::Store(Ok(store)),
        ) => contains_guid(store, current.guid),
        _ => false,
    }
}

/// The identifiers that `purpose` keeps for a write to come are
/// canonical.
pub open spec fn purpose_is_sound(purpose: PurposeView) -> bool {
    match purpose {
        PurposeView::BeforeWrite { new_guid, .. } => is_canonical_guid(new_guid),
        PurposeView::BeforeRestore { target, .. } => is_canonical_guid(target.guid),
        _ => true,
    }
}

/// What holds of every step that an operation takes: the live identifier
/// that a backup has read, and every identifier that is to be written, is
/// canonical; a save that ends a backup holds the new record in front,
/// and the record holds the live identifier.
pub open spec fn step_is_sound(step: StepView) -> bool {
    match step {
        StepView::ReadIdentifier(
            AwaitIdentifierView::Backup { purpose, .. },
        ) => purpose_is_sound(purpose),
        StepView::ReadIdentifier(
            AwaitIdentifierView::RestorePrevious { target },
        ) => is_canonical_guid(target.guid),
        StepView::LoadStore(AwaitStoreView::Backup { purpose, current, .. }) => {
            purpose_is_sound(purpose) && is_canonical_guid(current.guid)
        },
        StepView::ReadClock(state) => {
            purpose_is_sound(state.purpose) && is_canonical_guid(state.current.guid)
        },
        StepView::SaveStore(
            store,
            AwaitSavedView::Backup { purpose, current, record },
        ) => {
            &&& purpose_is_sound(purpose)
            &&& is_canonical_guid(current.guid)
            &&& store.len() > 0
            &&& store[0] == record
            &&& record.guid == current.guid
        },
        StepView::WriteIdentifier(
            guid,
            AwaitWrittenView::Write { new_guid, .. },
        ) => guid == new_guid && is_canonical_guid(guid),
        StepView::WriteIdentifier(
            guid,
            AwaitWrittenView::Restore { target, .. },
        ) => guid == target.guid && is_canonical_guid(guid),
        _ => true,
    }
}

/// `step` can begin an operation: it is sound, and it asks neither for a
/// write of the identifier nor for the save that ends a backup.
pub open spec fn can_begin(step: StepView) -> bool {
    &&& step_is_sound(step)
    &&& !(step is WriteIdentifier)
    &&& !(step matches StepView::SaveStore(_, AwaitSavedView::Backup { .. }))
}

/// The operations can begin. The first step of every operation that the
/// guard offers can begin an operation.
pub proof fn law_starts_can_begin(text: Seq<char>, description: Option<Seq<char>>)
    ensures
        can_begin(backup_start(description)),
        can_begin(write_start(text, description)),
        can_begin(restore_start(text)),
        can_begin(clear_start()),
        can_begin(StepView::LoadStore(AwaitStoreView::List)),
        can_begin(StepView::LoadStore(AwaitStoreView::Count)),
        can_begin(StepView::LoadStore(AwaitStoreView::Find { id: text })),
        can_begin(StepView::LoadStore(AwaitStoreView::Delete { id: text })),
        forall|record: BackupRecord| can_begin(StepView::LoadStore(AwaitStoreView::Add { record })),
{
}

/// The step that follows a sound step is sound, whatever the answer.
pub proof fn lemma_next_is_sound(step: StepView, answer: Answer)
    requires
        step_is_sound(step),
        next(step, answer) is Some,
    ensures
        step_is_sound(next(step, answer)->Some_0),
{
    if let (StepView::ReadClock(state), Answer::Clock(now)) = (step, answer) {
        let record = record_at(now, state.current, state.description);
        assert((seq![record] + state.store)[0] == record);
    }
    if let (StepView::LoadStore(AwaitStoreView::RestoreLookup { id }), Answer::Store(Ok(store))) = (
        step,
        answer,
    ) {
        if contains_id(store, id) {
            lemma_position_by_id(store, id);
        }
    }
}

/// The steps of an operation are as many as the answers that fit, and
/// one more; each follows the one before it.
pub proof fn lemma_steps_taken(first: StepView, answers: Seq<Answer>, k: int)
    requires
        0 <= k < steps_taken(first, answers).len(),
    ensures
        steps_taken(first, answers).len() <= answers.len() + 1,
        steps_taken(first, answers)[0] == first,
        k >= 1 ==> next(steps_taken(first, answers)[k - 1], answers[k - 1]) == Some(
            steps_taken(first, answers)[k],
        ),
    decreases answers.len(),
{
    if answers.len() > 0 {
        if let Some(second) = next(first, answers[0]) {
            let rest = answers.drop_first();
            let later = steps_taken(second, rest);
            assert(steps_taken(first, answers) == seq![first] + later);
            lemma_steps_taken(second, rest, 0);
            if k >= 1 {
                lemma_steps_taken(second, rest, k - 1);
                assert(steps_taken(first, answers)[k] == later[k - 1]);
                if k >= 2 {
                    assert(steps_taken(first, answers)[k - 1] == later[k - 2]);
                    assert(rest[k - 2] == answers[k - 1]);
                }
            }
        }
    }
}

/// Every step of an operation is sound, whatever the host answers.
pub proof fn law_steps_are_sound(first: StepView, answers: Seq<Answer>, k: int)
    requires
        step_is_sound(first),
        0 <= k < steps_taken(first, answers).len(),
    ensures
        step_is_sound(steps_taken(first, answers)[k]),
    decreases k,
{
    lemma_steps_taken(first, answers, k);
    if k >= 1 {
        law_steps_are_sound(first, answers, k - 1);
        lemma_next_is_sound(steps_taken(first, answers)[k - 1], answers[k - 1]);
    }
}

/// Backup before write. Whatever the host answers, and in whatever
/// operation: where the guard asks for the identifier to be written, the
/// answer just before has completed a backup of the live identifier. So
/// no write is asked for before a backup was made or found, and none
/// after a backup that failed.
pub proof fn law_backup_before_write(first: StepView, answers: Seq<Answer>, k: int)
    requires
        can_begin(first),
        0 <= k < steps_taken(first, answers).len(),
        steps_taken(first, answers)[k] is WriteIdentifier,
    ensures
        1 <= k <= answers.len(),
        completes_backup(steps_taken(first, answers)[k - 1], answers[k - 1]),
{
    lemma_steps_taken(first, answers, k);
    law_steps_are_sound(first, answers, k - 1);
}

/// Canonical identifiers only. Whatever the host answers, and in whatever
/// operation: an identifier that the guard asks to be written is
/// canonical, and so is the identifier in a record that the guard makes.
pub proof fn law_canonical_only(first: StepView, answers: Seq<Answer>, k: int)
    requires
        can_begin(first),
        0 <= k < steps_taken(first, answers).len(),
    ensures
        match steps_taken(first, answers)[k] {
            StepView::WriteIdentifier(guid, _) => is_canonical_guid(guid),
            StepView::SaveStore(
                store,
                AwaitSavedView::Backup { record, .. },
            ) => store.len() > 0 && store[0] == record && is_canonical_guid(record.guid),
            _ => true,
        },
{
    law_steps_are_sound(first, answers, k);
}

/// The error that `answer` reports, if it reports one.
pub open spec fn failure_in(answer: Answer) -> Option<BackupErrorView> {
    match answer {
        Answer::Identifier(Err(e)) => Some(e),
        Answer::Store(Err(e)) => Some(e),
        Answer::Saved(Err(e)) => Some(e),
        Answer::Written(Err(e)) => Some(e),
        _ => None,
    }
}

/// No retry. A piece of work that fails ends the operation at once, with
/// the error as the host reported it: a denied write stays a denied
/// write, and nothing is asked for a second time.
pub proof fn law_failure_ends_operation(step: StepView, answer: Answer)
    requires
        next(step, answer) is Some,
        failure_in(answer) is Some,
    ensures
        next(step, answer) == Some(
            StepView::Done(Err::<OutcomeView, BackupErrorView>(failure_in(answer)->Some_0)),
        ),
{
}

/// Each operation ends in a result of its own kind, or in an error.
pub proof fn law_result_kinds(host: Host, text: Seq<char>, description: Option<Seq<char>>)
    ensures
        match run(host, backup_start(description)).1 {
            Ok(outcome) => outcome is Backup,
            Err(_) => true,
        },
        match run(host, write_start(text, description)).1 {
            Ok(outcome) => outcome is Write,
            Err(_) => true,
        },
        match run(host, restore_start(text)).1 {
            Ok(outcome) => outcome is Restore,
            Err(_) => true,
        },
        match run(host, clear_start()).1 {
            Ok(outcome) => outcome is Cleared,
            Err(_) => true,
        },
        match run(host, StepView::LoadStore(AwaitStoreView::List)).1 {
            Ok(outcome) => outcome is Backups,
            Err(_) => true,
        },
        match run(host, StepView::LoadStore(AwaitStoreView::Count)).1 {
            Ok(outcome) => outcome is Count,
            Err(_) => true,
        },
        match run(host, StepView::LoadStore(AwaitStoreView::Find { id: text })).1 {
            Ok(outcome) => outcome is Found,
            Err(_) => true,
        },
        match run(host, StepView::LoadStore(AwaitStoreView::Delete { id: text })).1 {
            Ok(outcome) => outcome is Deleted,
            Err(_) => true,
        },
        forall|record: BackupRecord|
            match (#[trigger] run(host, StepView::LoadStore(AwaitStoreView::Add { record }))).1 {
                Ok(outcome) => outcome is Added,
                Err(_) => true,
            },
{
    reveal_with_fuel(run, 3);
    lemma_backup_phase(host, PurposeView::Standalone, description);
    assert(run(host, write_start(text, description)).1 is Ok ==> run(
        host,
        write_start(text, description),
    ).1->Ok_0 is Write) by {
        if is_canonical_guid(text) {
            let purpose = PurposeView::BeforeWrite { new_guid: text, description };
            lemma_backup_phase(host, purpose, description);
            let (secured, pre) = backup_on(host, description);
            if let Ok(made) = pre {
                if (secured.fault)(secured.time) is None {
                    let written = Host { guid: text, ..secured.later() };
                    lemma_backup_phase(
                        written,
                        PurposeView::AfterWrite {
                            previous_guid: host.guid,
                            new_guid: text,
                            pre_backup: made,
                        },
                        Some(post_write_description(text, description)),
                    );
                }
            }
        }
    }
    assert(run(host, restore_start(text)).1 is Ok ==> run(host, restore_start(text)).1->Ok_0
        is Restore) by {
        let t = host.time;
        if (host.fault)(t) is None {
            if let Some(target) = find_by_id(host.store, text) {
                if is_canonical_guid(target.guid) && (host.fault)(t + 1) is None
                    && host.identifier() is Ok {
                    let asked = Host { time: t + 1 + 1, ..host };
                    lemma_backup_phase(
                        asked,
                        PurposeView::BeforeRestore {
                            previous_guid: host.guid,
                            target,
                        },
                        Some(restore_description(target)),
                    );
                }
            }
        }
    }
}

} // verus!
