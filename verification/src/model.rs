//! The store and a scan in mathematical terms: a map from relative paths to
//! records, and what one run of the pipeline decides and writes on it.

use vstd::prelude::*;

verus! {

/// A file's metadata: when it was last modified and how long it is.
pub struct Metadata {
    /// Time of the last modification, in nanoseconds since the Unix epoch.
    pub modified_ns: nat,
    /// Length of the file in bytes.
    pub size: nat,
}

/// What the store keeps of one file, under the file's relative path.
pub struct CacheRecord {
    /// The metadata that the file had when it was last recorded.
    pub metadata: Metadata,
    /// The checksum of the content that it had then.
    pub checksum: u64,
}

/// A file as a scan finds it. Its checksum is the one that its content gives,
/// whether or not the scan comes to compute it.
pub struct ScannedFile {
    pub path: Seq<char>,
    pub metadata: Metadata,
    pub checksum: u64,
}

/// What is to be done about a scanned file.
pub enum Outcome {
    /// Nothing: the file is as it was recorded.
    Skip,
    /// The record gets the file's new metadata and keeps its checksum.
    UpdateMetadata(Seq<char>, Metadata),
    /// The record is written anew, and the path is to be invalidated.
    StoreAndInvalidate(Seq<char>, Metadata, u64),
}

/// Whether the store has a record for `path` with exactly this metadata.
pub open spec fn has_metadata(
    cache: Map<Seq<char>, CacheRecord>,
    path: Seq<char>,
    metadata: Metadata,
) -> bool {
    cache.contains_key(path) && cache[path].metadata == metadata
}

/// Whether the store has a record for `path` with exactly this size and
/// checksum, whatever its modification time.
pub open spec fn has_content(
    cache: Map<Seq<char>, CacheRecord>,
    path: Seq<char>,
    size: nat,
    checksum: u64,
) -> bool {
    cache.contains_key(path) && cache[path].metadata.size == size && cache[path].checksum
        == checksum
}

/// The store after the whole record for `path` has been written.
pub open spec fn upserted(
    cache: Map<Seq<char>, CacheRecord>,
    path: Seq<char>,
    metadata: Metadata,
    checksum: u64,
) -> Map<Seq<char>, CacheRecord> {
    cache.insert(path, CacheRecord { metadata, checksum })
}

/// The store after the metadata of the record for `path` has been written. A
/// store without such a record stays as it is.
pub open spec fn refreshed(
    cache: Map<Seq<char>, CacheRecord>,
    path: Seq<char>,
    metadata: Metadata,
) -> Map<Seq<char>, CacheRecord> {
    if cache.contains_key(path) {
        cache.insert(path, CacheRecord { metadata, checksum: cache[path].checksum })
    } else {
        cache
    }
}

/// Whether the content of a file has to be read: always under `force`, and else
/// where the store does not know the file by its metadata.
pub open spec fn wants_checksum(force: bool, metadata_found: bool) -> bool {
    force || !metadata_found
}

/// The outcome for a file, given what the two lookups answer. The second answer
/// counts only where the checksum is wanted.
pub open spec fn outcome_of(
    force: bool,
    metadata_found: bool,
    content_found: bool,
    file: ScannedFile,
) -> Outcome {
    if !wants_checksum(force, metadata_found) {
        Outcome::Skip
    } else if content_found {
        Outcome::UpdateMetadata(file.path, file.metadata)
    } else {
        Outcome::StoreAndInvalidate(file.path, file.metadata, file.checksum)
    }
}

/// The outcome for a file against a store.
pub open spec fn decide(cache: Map<Seq<char>, CacheRecord>, force: bool, file: ScannedFile)
    -> Outcome {
    outcome_of(
        force,
        has_metadata(cache, file.path, file.metadata),
        has_content(cache, file.path, file.metadata.size, file.checksum),
        file,
    )
}

/// The store after one outcome has been written to it.
pub open spec fn applied(cache: Map<Seq<char>, CacheRecord>, outcome: Outcome) -> Map<
    Seq<char>,
    CacheRecord,
> {
    match outcome {
        Outcome::Skip => cache,
        Outcome::UpdateMetadata(path, metadata) => refreshed(cache, path, metadata),
        Outcome::StoreAndInvalidate(path, metadata, checksum) => upserted(
            cache,
            path,
            metadata,
            checksum,
        ),
    }
}

/// The metadata updates among `outcomes`, in their order.
pub open spec fn updates_of(outcomes: Seq<Outcome>) -> Seq<(Seq<char>, Metadata)>
    decreases outcomes.len(),
{
    if outcomes.len() == 0 {
        Seq::empty()
    } else {
        let before = updates_of(outcomes.drop_last());
        match outcomes.last() {
            Outcome::UpdateMetadata(path, metadata) => before.push((path, metadata)),
            _ => before,
        }
    }
}

/// The records to write among `outcomes`, in their order.
pub open spec fn stores_of(outcomes: Seq<Outcome>) -> Seq<(Seq<char>, Metadata, u64)>
    decreases outcomes.len(),
{
    if outcomes.len() == 0 {
        Seq::empty()
    } else {
        let before = stores_of(outcomes.drop_last());
        match outcomes.last() {
            Outcome::StoreAndInvalidate(path, metadata, checksum) => before.push(
                (path, metadata, checksum),
            ),
            _ => before,
        }
    }
}

/// How many of `outcomes` are skips.
pub open spec fn skips_of(outcomes: Seq<Outcome>) -> nat
    decreases outcomes.len(),
{
    if outcomes.len() == 0 {
        0
    } else {
        let before = skips_of(outcomes.drop_last());
        match outcomes.last() {
            Outcome::Skip => before + 1,
            _ => before,
        }
    }
}

/// The store after the metadata updates have been written, first one first.
pub open spec fn after_updates(
    cache: Map<Seq<char>, CacheRecord>,
    updates: Seq<(Seq<char>, Metadata)>,
) -> Map<Seq<char>, CacheRecord>
    decreases updates.len(),
{
    if updates.len() == 0 {
        cache
    } else {
        refreshed(after_updates(cache, updates.drop_last()), updates.last().0, updates.last().1)
    }
}

/// The store after the records have been written, first one first.
pub open spec fn after_stores(
    cache: Map<Seq<char>, CacheRecord>,
    stores: Seq<(Seq<char>, Metadata, u64)>,
) -> Map<Seq<char>, CacheRecord>
    decreases stores.len(),
{
    if stores.len() == 0 {
        cache
    } else {
        upserted(
            after_stores(cache, stores.drop_last()),
            stores.last().0,
            stores.last().1,
            stores.last().2,
        )
    }
}

/// The store after a commit: every metadata update, then every record.
pub open spec fn committed(
    cache: Map<Seq<char>, CacheRecord>,
    updates: Seq<(Seq<char>, Metadata)>,
    stores: Seq<(Seq<char>, Metadata, u64)>,
) -> Map<Seq<char>, CacheRecord> {
    after_stores(after_updates(cache, updates), stores)
}

/// The paths to invalidate: those of the records written, in their order.
pub open spec fn invalidated(stores: Seq<(Seq<char>, Metadata, u64)>) -> Seq<Seq<char>> {
    stores.map_values(|s: (Seq<char>, Metadata, u64)| s.0)
}

/// The outcomes of a scan: each file is decided against the store as it was
/// before the scan.
pub open spec fn scan(cache: Map<Seq<char>, CacheRecord>, force: bool, files: Seq<ScannedFile>)
    -> Seq<Outcome> {
    files.map_values(|file: ScannedFile| decide(cache, force, file))
}

/// The store after one run of the pipeline over `files`.
pub open spec fn run(cache: Map<Seq<char>, CacheRecord>, force: bool, files: Seq<ScannedFile>)
    -> Map<Seq<char>, CacheRecord> {
    let outcomes = scan(cache, force, files);
    committed(cache, updates_of(outcomes), stores_of(outcomes))
}

/// No two of `files` have the same path.
pub open spec fn distinct_paths(files: Seq<ScannedFile>) -> bool {
    forall|i: int, j: int|
        0 <= i < j < files.len() ==> (#[trigger] files[i]).path != (#[trigger] files[j]).path
}

} // verus!
