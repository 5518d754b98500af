//! What holds of every scan: which files are skipped, which get new metadata and
//! which are stored, that no record is ever dropped, and that a scan repeated
//! over unchanged files finds nothing to do. And what holds of every checksum:
//! that it depends on the content alone, and which contents it cannot tell
//! apart.

use crate::checksum::{blank_chunk, content_checksum, digested, digested_from, refill, CHUNK_SIZE};
use crate::model::{
    after_stores, after_updates, applied, decide, distinct_paths, has_metadata, invalidated, run,
    scan, stores_of, updates_of, wants_checksum, CacheRecord, Metadata, Outcome, ScannedFile,
};
use vstd::prelude::*;

verus! {

/// Whether an outcome is a metadata update for `path`.
spec fn updates_path(outcome: Outcome, path: Seq<char>) -> bool {
    outcome matches Outcome::UpdateMetadata(p, _) && p == path
}

/// Whether an outcome is a record to write for `path`.
spec fn stores_path(outcome: Outcome, path: Seq<char>) -> bool {
    outcome matches Outcome::StoreAndInvalidate(p, _, _) && p == path
}

/// Among `outcomes`, none but the one at `i` is a metadata update for `path`.
/// With `i` outside the sequence, none at all is.
spec fn no_update_but(outcomes: Seq<Outcome>, i: int, path: Seq<char>) -> bool {
    forall|k: int| 0 <= k < outcomes.len() && k != i ==> !updates_path(#[trigger] outcomes[k], path)
}

/// Among `outcomes`, none but the one at `i` is a record to write for `path`.
/// With `i` outside the sequence, none at all is.
spec fn no_store_but(outcomes: Seq<Outcome>, i: int, path: Seq<char>) -> bool {
    forall|k: int| 0 <= k < outcomes.len() && k != i ==> !stores_path(#[trigger] outcomes[k], path)
}

/// What the last outcome adds to the metadata updates.
proof fn lemma_updates_of_last(outcomes: Seq<Outcome>)
    requires
        outcomes.len() > 0,
    ensures
        outcomes.last() matches Outcome::UpdateMetadata(p, m) ==> {
            &&& updates_of(outcomes).len() > 0
            &&& updates_of(outcomes).drop_last() == updates_of(outcomes.drop_last())
            &&& updates_of(outcomes).last() == (p, m)
        },
        !(outcomes.last() is UpdateMetadata) ==> updates_of(outcomes) == updates_of(
            outcomes.drop_last(),
        ),
{
    if let Outcome::UpdateMetadata(p, m) = outcomes.last() {
        let before = updates_of(outcomes.drop_last());
        assert(before.push((p, m)).drop_last() =~= before);
    }
}

/// What the last outcome adds to the records to write.
proof fn lemma_stores_of_last(outcomes: Seq<Outcome>)
    requires
        outcomes.len() > 0,
    ensures
        outcomes.last() matches Outcome::StoreAndInvalidate(p, m, c) ==> {
            &&& stores_of(outcomes).len() > 0
            &&& stores_of(outcomes).drop_last() == stores_of(outcomes.drop_last())
            &&& stores_of(outcomes).last() == (p, m, c)
        },
        !(outcomes.last() is StoreAndInvalidate) ==> stores_of(outcomes) == stores_of(
            outcomes.drop_last(),
        ),
{
    if let Outcome::StoreAndInvalidate(p, m, c) = outcomes.last() {
        let before = stores_of(outcomes.drop_last());
        assert(before.push((p, m, c)).drop_last() =~= before);
    }
}

/// What holds of all outcomes but one holds of all but the last of them, too.
proof fn lemma_all_but_last(outcomes: Seq<Outcome>, i: int, path: Seq<char>)
    requires
        outcomes.len() > 0,
    ensures
        no_update_but(outcomes, i, path) ==> no_update_but(outcomes.drop_last(), i, path),
        no_store_but(outcomes, i, path) ==> no_store_but(outcomes.drop_last(), i, path),
{
    let rest = outcomes.drop_last();
    assert forall|k: int| 0 <= k < rest.len() implies #[trigger] rest[k] == outcomes[k] by {}
}

/// Metadata updates for other paths leave the record of `path` as it is.
proof fn lemma_updates_elsewhere(
    cache: Map<Seq<char>, CacheRecord>,
    outcomes: Seq<Outcome>,
    path: Seq<char>,
)
    requires
        no_update_but(outcomes, -1, path),
    ensures
        after_updates(cache, updates_of(outcomes)).contains_key(path) == cache.contains_key(path),
        cache.contains_key(path) ==> after_updates(cache, updates_of(outcomes))[path]
            == cache[path],
    decreases outcomes.len(),
{
    if outcomes.len() > 0 {
        lemma_all_but_last(outcomes, -1, path);
        lemma_updates_elsewhere(cache, outcomes.drop_last(), path);
        lemma_updates_of_last(outcomes);
        assert(!updates_path(outcomes[outcomes.len() - 1], path));
    }
}

/// The one metadata update for `path` gives its record the new metadata and
/// leaves it the checksum.
proof fn lemma_update_lands(
    cache: Map<Seq<char>, CacheRecord>,
    outcomes: Seq<Outcome>,
    i: int,
    path: Seq<char>,
    metadata: Metadata,
)
    requires
        0 <= i < outcomes.len(),
        outcomes[i] == Outcome::UpdateMetadata(path, metadata),
        no_update_but(outcomes, i, path),
        cache.contains_key(path),
    ensures
        after_updates(cache, updates_of(outcomes)).contains_key(path),
        after_updates(cache, updates_of(outcomes))[path] == (CacheRecord {
            metadata,
            checksum: cache[path].checksum,
        }),
    decreases outcomes.len(),
{
    let rest = outcomes.drop_last();
    lemma_updates_of_last(outcomes);
    lemma_all_but_last(outcomes, i, path);
    if i == outcomes.len() - 1 {
        lemma_updates_elsewhere(cache, rest, path);
    } else {
        assert(rest[i] == outcomes[i]);
        lemma_update_lands(cache, rest, i, path, metadata);
        assert(!updates_path(outcomes[outcomes.len() - 1], path));
    }
}

/// Records written for other paths leave the record of `path` as it is.
proof fn lemma_stores_elsewhere(
    cache: Map<Seq<char>, CacheRecord>,
    outcomes: Seq<Outcome>,
    path: Seq<char>,
)
    requires
        no_store_but(outcomes, -1, path),
    ensures
        after_stores(cache, stores_of(outcomes)).contains_key(path) == cache.contains_key(path),
        cache.contains_key(path) ==> after_stores(cache, stores_of(outcomes))[path] == cache[path],
    decreases outcomes.len(),
{
    if outcomes.len() > 0 {
        lemma_all_but_last(outcomes, -1, path);
        lemma_stores_elsewhere(cache, outcomes.drop_last(), path);
        lemma_stores_of_last(outcomes);
        assert(!stores_path(outcomes[outcomes.len() - 1], path));
    }
}

/// The one record written for `path` is the record of `path` afterwards.
proof fn lemma_store_lands(
    cache: Map<Seq<char>, CacheRecord>,
    outcomes: Seq<Outcome>,
    i: int,
    path: Seq<char>,
    metadata: Metadata,
    checksum: u64,
)
    requires
        0 <= i < outcomes.len(),
        outcomes[i] == Outcome::StoreAndInvalidate(path, metadata, checksum),
        no_store_but(outcomes, i, path),
    ensures
        after_stores(cache, stores_of(outcomes)).contains_key(path),
        after_stores(cache, stores_of(outcomes))[path] == (CacheRecord { metadata, checksum }),
    decreases outcomes.len(),
{
    let rest = outcomes.drop_last();
    lemma_stores_of_last(outcomes);
    lemma_all_but_last(outcomes, i, path);
    if i < outcomes.len() - 1 {
        assert(rest[i] == outcomes[i]);
        lemma_store_lands(cache, rest, i, path, metadata, checksum);
        assert(!stores_path(outcomes[outcomes.len() - 1], path));
    }
}

/// Outcomes that are all skips ask for no write.
proof fn lemma_all_skips(outcomes: Seq<Outcome>)
    requires
        forall|k: int| 0 <= k < outcomes.len() ==> outcomes[k] == Outcome::Skip,
    ensures
        updates_of(outcomes) == Seq::<(Seq<char>, Metadata)>::empty(),
        stores_of(outcomes) == Seq::<(Seq<char>, Metadata, u64)>::empty(),
    decreases outcomes.len(),
{
    if outcomes.len() > 0 {
        let rest = outcomes.drop_last();
        assert forall|k: int| 0 <= k < rest.len() implies rest[k] == Outcome::Skip by {
            assert(rest[k] == outcomes[k]);
        }
        lemma_all_skips(rest);
        assert(outcomes.last() == outcomes[outcomes.len() - 1]);
    }
}

/// Metadata updates drop no record.
proof fn lemma_updates_keep_records(
    cache: Map<Seq<char>, CacheRecord>,
    updates: Seq<(Seq<char>, Metadata)>,
    path: Seq<char>,
)
    requires
        cache.contains_key(path),
    ensures
        after_updates(cache, updates).contains_key(path),
    decreases updates.len(),
{
    if updates.len() > 0 {
        lemma_updates_keep_records(cache, updates.drop_last(), path);
    }
}

/// Written records drop no record.
proof fn lemma_stores_keep_records(
    cache: Map<Seq<char>, CacheRecord>,
    stores: Seq<(Seq<char>, Metadata, u64)>,
    path: Seq<char>,
)
    requires
        cache.contains_key(path),
    ensures
        after_stores(cache, stores).contains_key(path),
    decreases stores.len(),
{
    if stores.len() > 0 {
        lemma_stores_keep_records(cache, stores.drop_last(), path);
    }
}

/// After a run over files that each have a path of their own, the store has
/// each of them under its path, with the metadata that the scan found.
proof fn lemma_run_records_metadata(
    cache: Map<Seq<char>, CacheRecord>,
    force: bool,
    files: Seq<ScannedFile>,
    i: int,
)
    requires
        distinct_paths(files),
        0 <= i < files.len(),
    ensures
        has_metadata(run(cache, force, files), files[i].path, files[i].metadata),
{
    let outcomes = scan(cache, force, files);
    let file = files[i];
    let updated = after_updates(cache, updates_of(outcomes));
    assert forall|k: int| 0 <= k < outcomes.len() && k != i implies !updates_path(
        #[trigger] outcomes[k],
        file.path,
    ) && !stores_path(outcomes[k], file.path) by {
        assert(outcomes[k] == decide(cache, force, files[k]));
        if k < i {
            assert(files[k].path != files[i].path);
        } else {
            assert(files[i].path != files[k].path);
        }
    }
    assert(outcomes[i] == decide(cache, force, file));
    match outcomes[i] {
        Outcome::Skip => {
            lemma_updates_elsewhere(cache, outcomes, file.path);
            lemma_stores_elsewhere(updated, outcomes, file.path);
        },
        Outcome::UpdateMetadata(_, _) => {
            lemma_update_lands(cache, outcomes, i, file.path, file.metadata);
            lemma_stores_elsewhere(updated, outcomes, file.path);
        },
        Outcome::StoreAndInvalidate(_, _, _) => {
            lemma_store_lands(updated, outcomes, i, file.path, file.metadata, file.checksum);
        },
    }
}

/// A file that the store has no record of is stored and invalidated, whether the
/// scan is forced or not.
pub proof fn law_unrecorded_is_stored(
    cache: Map<Seq<char>, CacheRecord>,
    force: bool,
    file: ScannedFile,
)
    requires
        !cache.contains_key(file.path),
    ensures
        decide(cache, force, file) == Outcome::StoreAndInvalidate(
            file.path,
            file.metadata,
            file.checksum,
        ),
{
}

/// A file whose modification time and size are exactly the recorded ones is
/// skipped: its content is not read and the store is not written. This holds of
/// a scan that is not forced.
pub proof fn law_recorded_metadata_skips(
    cache: Map<Seq<char>, CacheRecord>,
    force: bool,
    file: ScannedFile,
)
    requires
        !force,
        cache.contains_key(file.path),
        cache[file.path].metadata == file.metadata,
    ensures
        !wants_checksum(force, has_metadata(cache, file.path, file.metadata)),
        decide(cache, force, file) == Outcome::Skip,
        applied(cache, decide(cache, force, file)) == cache,
{
}

/// A file is skipped only where its modification time and size are exactly the
/// recorded ones and the scan is not forced: no file is taken for unchanged on
/// less.
pub proof fn law_skip_only_on_recorded_metadata(
    cache: Map<Seq<char>, CacheRecord>,
    force: bool,
    file: ScannedFile,
)
    requires
        decide(cache, force, file) == Outcome::Skip,
    ensures
        !force,
        cache.contains_key(file.path),
        cache[file.path].metadata == file.metadata,
{
}

/// A file whose metadata differ from the recorded ones while its content, and so
/// its size and checksum, is the recorded one, gets a metadata update: the
/// record then has the new metadata and the checksum that it had.
pub proof fn law_touched_file_is_updated(
    cache: Map<Seq<char>, CacheRecord>,
    force: bool,
    file: ScannedFile,
)
    requires
        cache.contains_key(file.path),
        cache[file.path].metadata != file.metadata,
        cache[file.path].metadata.size == file.metadata.size,
        cache[file.path].checksum == file.checksum,
    ensures
        decide(cache, force, file) == Outcome::UpdateMetadata(file.path, file.metadata),
        applied(cache, decide(cache, force, file))[file.path] == (CacheRecord {
            metadata: file.metadata,
            checksum: cache[file.path].checksum,
        }),
{
}

/// A metadata update is decided only for a file that the store has a record of,
/// with the file's size and checksum: the row that the update is for is there.
pub proof fn law_update_only_for_recorded_content(
    cache: Map<Seq<char>, CacheRecord>,
    force: bool,
    file: ScannedFile,
)
    requires
        decide(cache, force, file) is UpdateMetadata,
    ensures
        decide(cache, force, file) == Outcome::UpdateMetadata(file.path, file.metadata),
        cache.contains_key(file.path),
        cache[file.path].metadata.size == file.metadata.size,
        cache[file.path].checksum == file.checksum,
{
}

/// A file whose content gives another checksum than the recorded one is stored
/// and invalidated, and the record then has the new checksum. This holds where
/// the content is read at all: in a forced scan, or where the metadata differ
/// from the recorded ones.
pub proof fn law_changed_content_is_stored(
    cache: Map<Seq<char>, CacheRecord>,
    force: bool,
    file: ScannedFile,
)
    requires
        cache.contains_key(file.path),
        cache[file.path].checksum != file.checksum,
        force || cache[file.path].metadata != file.metadata,
    ensures
        decide(cache, force, file) == Outcome::StoreAndInvalidate(
            file.path,
            file.metadata,
            file.checksum,
        ),
        applied(cache, decide(cache, force, file))[file.path] == (CacheRecord {
            metadata: file.metadata,
            checksum: file.checksum,
        }),
{
}

/// A run drops no record: a path that the store knows stays known, whatever the
/// scan finds.
pub proof fn law_records_are_never_dropped(
    cache: Map<Seq<char>, CacheRecord>,
    force: bool,
    files: Seq<ScannedFile>,
    path: Seq<char>,
)
    requires
        cache.contains_key(path),
    ensures
        run(cache, force, files).contains_key(path),
{
    let outcomes = scan(cache, force, files);
    lemma_updates_keep_records(cache, updates_of(outcomes), path);
    lemma_stores_keep_records(after_updates(cache, updates_of(outcomes)), stores_of(outcomes), path);
}

/// A second run over the same files, which have not changed and each of which
/// has a path of its own, skips every file, invalidates nothing and leaves the
/// store as the first run left it. The first run may be forced, the second is
/// not.
pub proof fn law_second_run_skips(
    cache: Map<Seq<char>, CacheRecord>,
    force: bool,
    files: Seq<ScannedFile>,
)
    requires
        distinct_paths(files),
    ensures
        forall|i: int|
            0 <= i < files.len() ==> #[trigger] scan(run(cache, force, files), false, files)[i]
                == Outcome::Skip,
        invalidated(stores_of(scan(run(cache, force, files), false, files))) == Seq::<
            Seq<char>,
        >::empty(),
        run(run(cache, force, files), false, files) == run(cache, force, files),
{
    let second = scan(run(cache, force, files), false, files);
    assert forall|i: int| 0 <= i < files.len() implies #[trigger] second[i] == Outcome::Skip by {
        lemma_run_records_metadata(cache, force, files, i);
    }
    lemma_all_skips(second);
    assert(invalidated(stores_of(second)) =~= Seq::<Seq<char>>::empty());
}

/// What is digested of a content that is not empty and shorter than the buffer:
/// the content with the zeros that fill the buffer behind it, twice.
proof fn lemma_digested_short(content: Seq<u8>)
    requires
        0 < content.len() < CHUNK_SIZE,
    ensures
        digested(content) == refill(blank_chunk(), content) + refill(blank_chunk(), content),
{
    let filled = refill(blank_chunk(), content);
    assert(content.subrange(0, content.len() as int) =~= content);
    assert(digested_from(content, filled, content.len() as int) == filled);
    assert(digested_from(content, blank_chunk(), 0) == filled + digested_from(
        content,
        filled,
        content.len() as int,
    ));
}

/// Zero bytes at the end of a content that fits the buffer do not show in the
/// checksum: such contents are told apart by their size alone.
pub proof fn law_trailing_zeros_keep_the_checksum(content: Seq<u8>, zeros: nat)
    requires
        0 < content.len(),
        content.len() + zeros < CHUNK_SIZE,
    ensures
        content_checksum(content + Seq::new(zeros, |i: int| 0u8)) == content_checksum(content),
{
    let padded = content + Seq::new(zeros, |i: int| 0u8);
    lemma_digested_short(content);
    lemma_digested_short(padded);
    assert(refill(blank_chunk(), padded) =~= refill(blank_chunk(), content));
}

/// Equal contents have equal checksums: the checksum depends on nothing but the
/// content.
pub proof fn law_checksum_is_deterministic(first: Seq<u8>, second: Seq<u8>)
    requires
        first == second,
    ensures
        content_checksum(first) == content_checksum(second),
{
}

} // verus!
