//! The pipeline: each scanned file is decided against the store, the outcomes
//! are sorted by kind, and what they ask for is written in one transaction.

use crate::checksum::Checksum;
use crate::db::{
    begin, commit_transaction, exists_by_len_and_checksum, exists_by_metadata, update_metadata,
    upsert_entry, DbError, MetadataValues,
};
use crate::model::{invalidated, skips_of, stores_of, updates_of, wants_checksum, Metadata, Outcome};
use crate::rel_path::RelPath;
use rusqlite::Connection;
use vstd::prelude::*;

verus! {

/// Exit status of a run in which every file was decided.
pub const EXIT_SUCCESS: u8 = 0;

/// Exit status of a run in which some file could not be read or looked up. The
/// files that could be decided were still recorded.
pub const EXIT_FILE_ERRORS: u8 = 2;

/// Control what do with the paths
#[derive(Debug, PartialEq, Eq)]
pub enum PathOutcome {
    /// Path is unchanged, nothing to do (no CDN or DB update)
    Skip,
    /// Path metadata have changed, but the checksum is the same, only update the DB
    UpdateMetadata(RelPath, MetadataValues),
    /// Path checksum and metadata have changed, update both the DB and the CDN
    StoreAndInvalidate(RelPath, MetadataValues, Checksum),
}

impl View for PathOutcome {
    type V = Outcome;

    open spec fn view(&self) -> Outcome {
        match self {
            PathOutcome::Skip => Outcome::Skip,
            PathOutcome::UpdateMetadata(path, metadata) => Outcome::UpdateMetadata(
                path@,
                metadata@,
            ),
            PathOutcome::StoreAndInvalidate(path, metadata, checksum) => Outcome::StoreAndInvalidate(
                path@,
                metadata@,
                checksum@,
            ),
        }
    }
}

/// How far a file has come on its way to an outcome.
#[derive(Debug, PartialEq, Eq)]
pub enum Progress {
    /// The file is decided.
    Decided(PathOutcome),
    /// The content of the file has to be read and its checksum computed.
    NeedsChecksum(RelPath, MetadataValues),
}

/// The outcomes among the results of a scan, in their order: the files that
/// could be decided.
pub open spec fn decided<E>(results: Seq<Result<PathOutcome, E>>) -> Seq<Outcome>
    decreases results.len(),
{
    if results.len() == 0 {
        Seq::empty()
    } else {
        let before = decided(results.drop_last());
        match results.last() {
            Ok(outcome) => before.push(outcome@),
            Err(_) => before,
        }
    }
}

/// The errors among the results of a scan, in their order.
pub open spec fn failed<E>(results: Seq<Result<PathOutcome, E>>) -> Seq<E>
    decreases results.len(),
{
    if results.len() == 0 {
        Seq::empty()
    } else {
        let before = failed(results.drop_last());
        match results.last() {
            Ok(_) => before,
            Err(e) => before.push(e),
        }
    }
}

/// Metadata updates as the store model has them.
pub open spec fn updates_view(updates: Seq<(RelPath, MetadataValues)>) -> Seq<
    (Seq<char>, Metadata),
> {
    updates.map_values(|u: (RelPath, MetadataValues)| (u.0@, u.1@))
}

/// Records to write as the store model has them.
pub open spec fn stores_view(stores: Seq<(RelPath, MetadataValues, Checksum)>) -> Seq<
    (Seq<char>, Metadata, u64),
> {
    stores.map_values(|s: (RelPath, MetadataValues, Checksum)| (s.0@, s.1@, s.2@))
}

/// The results of a scan, sorted by kind.
pub struct Partitioned<E> {
    /// How many files are as they were recorded.
    pub unchanged: usize,
    /// The files whose record needs new metadata only.
    pub updates: Vec<(RelPath, MetadataValues)>,
    /// The files whose record is to be written and whose path is to be
    /// invalidated.
    pub store: Vec<(RelPath, MetadataValues, Checksum)>,
    /// What went wrong with the files that could not be decided.
    pub errors: Vec<E>,
}

/// First step for a file, given whether the store knows it by its metadata:
/// either the file is decided, as one to skip, or its content has to be read.
/// Under `force_deep_check` the content always has to be read.
pub fn after_metadata_lookup(
    force_deep_check: bool,
    metadata_found: bool,
    path: RelPath,
    metadata: MetadataValues,
) -> (progress: Progress)
    ensures
        progress == if wants_checksum(force_deep_check, metadata_found) {
            Progress::NeedsChecksum(path, metadata)
        } else {
            Progress::Decided(PathOutcome::Skip)
        },
{
    if force_deep_check || !metadata_found {
        Progress::NeedsChecksum(path, metadata)
    } else {
        Progress::Decided(PathOutcome::Skip)
    }
}

/// Second step for a file whose content was read, given whether the store knows
/// the file by its size and checksum: its outcome.
pub fn after_content_lookup(
    content_found: bool,
    path: RelPath,
    metadata: MetadataValues,
    checksum: Checksum,
) -> (outcome: PathOutcome)
    ensures
        outcome == if content_found {
            PathOutcome::UpdateMetadata(path, metadata)
        } else {
            PathOutcome::StoreAndInvalidate(path, metadata, checksum)
        },
{
    if content_found {
        PathOutcome::UpdateMetadata(path, metadata)
    } else {
        PathOutcome::StoreAndInvalidate(path, metadata, checksum)
    }
}

/// First step for a file, against the store. Under `force_deep_check` the store
/// is not asked, and the content has to be read.
pub fn start(
    conn: &mut Connection,
    force_deep_check: bool,
    path: RelPath,
    metadata: MetadataValues,
) -> (r: Result<Progress, DbError>)
    ensures
        force_deep_check ==> r == Ok::<Progress, DbError>(Progress::NeedsChecksum(path, metadata)),
        r matches Ok(progress) ==> progress == Progress::NeedsChecksum(path, metadata)
            || progress == Progress::Decided(PathOutcome::Skip),
        r matches Err(e) ==> e is Sqlite,
{
    if force_deep_check {
        Ok(after_metadata_lookup(true, false, path, metadata))
    } else {
        match exists_by_metadata(conn, &path, &metadata) {
            Ok(found) => Ok(after_metadata_lookup(false, found, path, metadata)),
            Err(e) => Err(e),
        }
    }
}

/// Second step for a file whose content was read, against the store: its
/// outcome.
pub fn finish(
    conn: &mut Connection,
    path: RelPath,
    metadata: MetadataValues,
    checksum: Checksum,
) -> (r: Result<PathOutcome, DbError>)
    ensures
        r matches Ok(outcome) ==> outcome == PathOutcome::UpdateMetadata(path, metadata)
            || outcome == PathOutcome::StoreAndInvalidate(path, metadata, checksum),
        r matches Err(e) ==> e is Sqlite,
{
    match exists_by_len_and_checksum(conn, &path, &metadata, checksum) {
        Ok(found) => Ok(after_content_lookup(found, path, metadata, checksum)),
        Err(e) => Err(e),
    }
}

/// Sorts the results of a scan by kind. Each kind keeps the order of the
/// results, and every result is of exactly one kind.
pub fn partition<E>(results: Vec<Result<PathOutcome, E>>) -> (sorted: Partitioned<E>)
    ensures
        sorted.unchanged == skips_of(decided(results@)),
        updates_view(sorted.updates@) == updates_of(decided(results@)),
        stores_view(sorted.store@) == stores_of(decided(results@)),
        sorted.errors@ == failed(results@),
        sorted.unchanged + sorted.updates@.len() + sorted.store@.len() + sorted.errors@.len()
            == results@.len(),
{
    let ghost all = results@;
    let total: usize = results.len();
    let mut unchanged: usize = 0;
    let mut updates: Vec<(RelPath, MetadataValues)> = Vec::new();
    let mut store: Vec<(RelPath, MetadataValues, Checksum)> = Vec::new();
    let mut errors: Vec<E> = Vec::new();
    for result in it: results
        invariant
            it.seq() == all,
            all.len() == total,
            unchanged == skips_of(decided(all.take(it.index() as int))),
            unchanged + updates@.len() + store@.len() + errors@.len() == it.index(),
            updates_view(updates@) == updates_of(decided(all.take(it.index() as int))),
            stores_view(store@) == stores_of(decided(all.take(it.index() as int))),
            errors@ == failed(all.take(it.index() as int)),
    {
        let ghost this = result;
        proof {
            let i = it.index() as int;
            assert(all.take(i + 1).drop_last() =~= all.take(i));
            assert(all.take(i + 1).last() == this);
            let before = decided(all.take(i));
            match this {
                Ok(outcome) => {
                    assert(decided(all.take(i + 1)) == before.push(outcome@));
                    assert(before.push(outcome@).drop_last() =~= before);
                },
                Err(_) => {},
            }
        }
        match result {
            Ok(PathOutcome::Skip) => {
                unchanged = unchanged + 1;
            },
            Ok(PathOutcome::UpdateMetadata(path, metadata)) => {
                let ghost old_updates = updates@;
                updates.push((path, metadata));
                assert(updates_view(updates@) =~= updates_view(old_updates).push(
                    (path@, metadata@),
                ));
            },
            Ok(PathOutcome::StoreAndInvalidate(path, metadata, checksum)) => {
                let ghost old_store = store@;
                store.push((path, metadata, checksum));
                assert(stores_view(store@) =~= stores_view(old_store).push(
                    (path@, metadata@, checksum@),
                ));
            },
            Err(e) => {
                errors.push(e);
            },
        }
    }
    assert(all.take(all.len() as int) =~= all);
    Partitioned { unchanged, updates, store, errors }
}

/// The paths that are to be invalidated: those of the records to write, in
/// their order.
pub fn invalidation_paths(store: &Vec<(RelPath, MetadataValues, Checksum)>) -> (paths: Vec<String>)
    ensures
        paths@.map_values(|p: String| p@) == invalidated(stores_view(store@)),
{
    let mut paths: Vec<String> = Vec::new();
    let mut i: usize = 0;
    while i < store.len()
        invariant
            i <= store@.len(),
            paths@.map_values(|p: String| p@) == invalidated(stores_view(store@.take(i as int))),
        decreases store@.len() - i,
    {
        let ghost old_paths = paths@;
        let path = store[i].0.get_relative_path().to_owned();
        paths.push(path);
        i += 1;
        assert(paths@.map_values(|p: String| p@) =~= old_paths.map_values(|p: String| p@).push(
            path@,
        ));
        assert(store@.take(i as int) =~= store@.take(i - 1).push(store@[i - 1]));
        assert(invalidated(stores_view(store@.take(i as int))) =~= invalidated(
            stores_view(store@.take(i - 1)),
        ).push(store@[i - 1].0@));
    }
    assert(store@.take(store@.len() as int) =~= store@);
    paths
}

/// Writes what a scan asks for in one transaction: every metadata update, then
/// every record. Returns the paths to invalidate, which are those of the records,
/// once the transaction is committed. On an error nothing is committed: the
/// transaction is dropped, and with it what was written in it.
pub fn commit(
    conn: &mut Connection,
    updates: &Vec<(RelPath, MetadataValues)>,
    store: &Vec<(RelPath, MetadataValues, Checksum)>,
) -> (r: Result<Vec<String>, DbError>)
    ensures
        r matches Ok(paths) ==> paths@.map_values(|p: String| p@) == invalidated(
            stores_view(store@),
        ),
        r matches Err(e) ==> e is Sqlite || (e matches DbError::RowCount(n) && n != 1),
{
    let tx = match begin(conn) {
        Ok(tx) => tx,
        Err(e) => {
            return Err(e);
        },
    };
    let mut i: usize = 0;
    while i < updates.len()
        invariant
            i <= updates@.len(),
        decreases updates@.len() - i,
    {
        match update_metadata(&tx, &updates[i].0, &updates[i].1) {
            Ok(()) => {},
            Err(e) => {
                return Err(e);
            },
        }
        i += 1;
    }
    let mut j: usize = 0;
    while j < store.len()
        invariant
            j <= store@.len(),
        decreases store@.len() - j,
    {
        match upsert_entry(&tx, &store[j].0, &store[j].1, store[j].2) {
            Ok(()) => {},
            Err(e) => {
                return Err(e);
            },
        }
        j += 1;
    }
    match commit_transaction(tx) {
        Ok(()) => Ok(invalidation_paths(store)),
        Err(e) => Err(e),
    }
}

/// What a run did, for the summary, the invalidation and the exit status.
pub struct RunReport<E> {
    /// How many files are as they were recorded.
    pub unchanged: usize,
    /// How many files got new metadata in their record and nothing else.
    pub metadata_changed: usize,
    /// The paths whose content changed or is new: they are recorded, and they
    /// are to be invalidated.
    pub invalidate: Vec<String>,
    /// What went wrong with the files that could not be decided.
    pub errors: Vec<E>,
    /// The exit status that the run ends with.
    pub exit_status: u8,
}

/// Ends a run: sorts the results of the scan, commits what they ask for and
/// reports. The files that failed do not keep the others from being recorded;
/// they show in the report and in its exit status. Where the commit fails there
/// is no report, and so nothing to invalidate.
pub fn conclude<E>(conn: &mut Connection, results: Vec<Result<PathOutcome, E>>) -> (r: Result<
    RunReport<E>,
    DbError,
>)
    ensures
        r matches Ok(report) ==> {
            &&& report.unchanged == skips_of(decided(results@))
            &&& report.metadata_changed == updates_of(decided(results@)).len()
            &&& report.invalidate@.map_values(|p: String| p@) == invalidated(
                stores_of(decided(results@)),
            )
            &&& report.errors@ == failed(results@)
            &&& report.exit_status == if failed(results@).len() == 0 {
                EXIT_SUCCESS
            } else {
                EXIT_FILE_ERRORS
            }
        },
        r matches Err(e) ==> e is Sqlite || (e matches DbError::RowCount(n) && n != 1),
{
    let sorted = partition(results);
    assert(updates_view(sorted.updates@).len() == sorted.updates@.len());
    match commit(conn, &sorted.updates, &sorted.store) {
        Ok(invalidate) => Ok(
            RunReport {
                unchanged: sorted.unchanged,
                metadata_changed: sorted.updates.len(),
                invalidate,
                exit_status: exit_status(sorted.errors.len()),
                errors: sorted.errors,
            },
        ),
        Err(e) => Err(e),
    }
}

/// The exit status of a run: success where no file failed, and a status of its
/// own where some did.
pub fn exit_status(file_errors: usize) -> (status: u8)
    ensures
        status == if file_errors == 0 {
            EXIT_SUCCESS
        } else {
            EXIT_FILE_ERRORS
        },
{
    if file_errors > 0 {
        EXIT_FILE_ERRORS
    } else {
        EXIT_SUCCESS
    }
}

} // verus!
