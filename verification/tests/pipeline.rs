use rusqlite::Connection;
use static_cdn::checksum::Checksum;
use static_cdn::db::{
    exists_by_len_and_checksum, exists_by_metadata, open_transient, DbError, MetadataValues,
};
use static_cdn::pipeline::{
    after_content_lookup, after_metadata_lookup, commit, conclude, exit_status, finish,
    invalidation_paths, partition, start, PathOutcome, Progress, EXIT_FILE_ERRORS, EXIT_SUCCESS,
};
use static_cdn::rel_path::{RelPath, RelPathBuilder};

const ROOT: &str = "/site";

fn site_path(file: &str) -> RelPath {
    RelPathBuilder::new(ROOT).db_path(&format!("{ROOT}/{file}"))
}

/// A file of the site as a scan finds it.
struct SiteFile {
    name: &'static str,
    metadata: MetadataValues,
    content: Vec<u8>,
}

fn site_file(name: &'static str, secs: u64, content: &[u8]) -> SiteFile {
    SiteFile {
        name,
        metadata: MetadataValues::new(secs, 0, content.len() as u64),
        content: content.to_vec(),
    }
}

/// Decides one file as a scan does, and counts in `reads` how often a content was read.
fn decide_file(conn: &mut Connection, force: bool, file: &SiteFile, reads: &mut usize) -> PathOutcome {
    match start(conn, force, site_path(file.name), file.metadata).unwrap() {
        Progress::Decided(outcome) => outcome,
        Progress::NeedsChecksum(path, metadata) => {
            *reads += 1;
            finish(conn, path, metadata, Checksum::compute(&file.content)).unwrap()
        }
    }
}

/// One run over `files`: the outcomes are decided first, then committed. Returns the number
/// of skipped files, of metadata updates, the paths to invalidate and the number of contents read.
fn run_over(conn: &mut Connection, force: bool, files: &[SiteFile]) -> (usize, usize, Vec<String>, usize) {
    let mut reads = 0;
    let mut results: Vec<Result<PathOutcome, String>> = Vec::new();
    for file in files {
        results.push(Ok(decide_file(conn, force, file, &mut reads)));
    }
    let report = conclude(conn, results).unwrap();
    assert_eq!(report.exit_status, EXIT_SUCCESS);
    assert!(report.errors.is_empty());
    (report.unchanged, report.metadata_changed, report.invalidate, reads)
}

fn stored_rows(conn: &Connection) -> Vec<(String, f64, i64, Vec<u8>)> {
    let mut stmt = conn
        .prepare("SELECT path, modified_since_epoch_sec, size, checksum FROM files ORDER BY path")
        .unwrap();
    let rows = stmt
        .query_map([], |row| Ok((row.get(0)?, row.get(1)?, row.get(2)?, row.get(3)?)))
        .unwrap();
    rows.map(|row| row.unwrap()).collect()
}

#[test]
fn one_file_through_four_scans() {
    const C1: u64 = 0xF9E7_3B31_ED0B_B7D6;
    const C2: u64 = 0x1992_8E82_D0A6_62E1;
    let mut conn = open_transient().unwrap();
    let mut reads = 0;

    // The store is empty: the file is new
    let first = site_file("a.txt", 1_000, b"0123456789");
    let outcome = decide_file(&mut conn, false, &first, &mut reads);
    assert_eq!(
        outcome,
        PathOutcome::StoreAndInvalidate(site_path("a.txt"), first.metadata, Checksum::from(C1))
    );
    let report = conclude::<String>(&mut conn, vec![Ok(outcome)]).unwrap();
    assert_eq!(report.invalidate, vec!["a.txt".to_owned()]);
    assert_eq!(
        stored_rows(&conn),
        vec![("a.txt".to_owned(), 1_000., 10, C1.to_le_bytes().to_vec())]
    );
    assert_eq!(reads, 1);

    // Nothing has changed
    let outcome = decide_file(&mut conn, false, &first, &mut reads);
    assert_eq!(outcome, PathOutcome::Skip);
    let report = conclude::<String>(&mut conn, vec![Ok(outcome)]).unwrap();
    assert_eq!(report.invalidate, Vec::<String>::new());
    assert_eq!(report.unchanged, 1);
    assert_eq!(reads, 1);

    // The file was touched: same ten bytes, another time
    let touched = site_file("a.txt", 2_000, b"0123456789");
    let outcome = decide_file(&mut conn, false, &touched, &mut reads);
    assert_eq!(outcome, PathOutcome::UpdateMetadata(site_path("a.txt"), touched.metadata));
    let report = conclude::<String>(&mut conn, vec![Ok(outcome)]).unwrap();
    assert_eq!(report.invalidate, Vec::<String>::new());
    assert_eq!(report.metadata_changed, 1);
    assert_eq!(
        stored_rows(&conn),
        vec![("a.txt".to_owned(), 2_000., 10, C1.to_le_bytes().to_vec())]
    );

    // The content changed, to twelve bytes
    let edited = site_file("a.txt", 3_000, b"012345678901");
    let outcome = decide_file(&mut conn, false, &edited, &mut reads);
    assert_eq!(
        outcome,
        PathOutcome::StoreAndInvalidate(site_path("a.txt"), edited.metadata, Checksum::from(C2))
    );
    let report = conclude::<String>(&mut conn, vec![Ok(outcome)]).unwrap();
    assert_eq!(report.invalidate, vec!["a.txt".to_owned()]);
    assert_eq!(
        stored_rows(&conn),
        vec![("a.txt".to_owned(), 3_000., 12, C2.to_le_bytes().to_vec())]
    );
}

#[test]
fn a_file_never_recorded_is_stored_and_invalidated() {
    for force in [false, true] {
        let mut conn = open_transient().unwrap();
        let mut reads = 0;
        let known = site_file("known.html", 5, b"known");
        run_over(&mut conn, false, &[known]);
        let new = site_file("new.html", 5, b"known");
        let outcome = decide_file(&mut conn, force, &new, &mut reads);
        assert_eq!(
            outcome,
            PathOutcome::StoreAndInvalidate(
                site_path("new.html"),
                new.metadata,
                Checksum::compute(b"known")
            )
        );
    }
}

#[test]
fn matching_metadata_skips_without_reading() {
    let mut conn = open_transient().unwrap();
    let file = site_file("index.html", 77, b"<html></html>");
    run_over(&mut conn, false, &[site_file("index.html", 77, b"<html></html>")]);
    let mut reads = 0;
    assert_eq!(decide_file(&mut conn, false, &file, &mut reads), PathOutcome::Skip);
    assert_eq!(reads, 0);
    // Even a changed content goes unseen while time and size are the recorded ones
    let same_size = site_file("index.html", 77, b"<HTML></HTML>");
    assert_eq!(decide_file(&mut conn, false, &same_size, &mut reads), PathOutcome::Skip);
    assert_eq!(reads, 0);
}

#[test]
fn forced_scan_reads_every_file() {
    let mut conn = open_transient().unwrap();
    let files = [site_file("a", 1, b"aaa"), site_file("b", 2, b"bbb")];
    assert_eq!(run_over(&mut conn, true, &files), (0, 0, vec!["a".to_owned(), "b".to_owned()], 2));
    // Nothing changed, but the contents are read again and found as recorded
    assert_eq!(run_over(&mut conn, true, &files), (0, 2, vec![], 2));
    // With the content of one changed under the recorded time and size
    let files = [site_file("a", 1, b"aaa"), site_file("b", 2, b"bbc")];
    assert_eq!(run_over(&mut conn, true, &files), (0, 1, vec!["b".to_owned()], 2));
}

#[test]
fn touched_file_keeps_its_checksum() {
    let mut conn = open_transient().unwrap();
    run_over(&mut conn, false, &[site_file("style.css", 10, b"body {}")]);
    let touched = site_file("style.css", 20, b"body {}");
    let mut reads = 0;
    assert_eq!(
        decide_file(&mut conn, false, &touched, &mut reads),
        PathOutcome::UpdateMetadata(site_path("style.css"), touched.metadata)
    );
    assert_eq!(reads, 1);
    assert_eq!(run_over(&mut conn, false, &[touched]), (0, 1, vec![], 1));
    assert_eq!(
        stored_rows(&conn),
        vec![(
            "style.css".to_owned(),
            20.,
            7,
            Checksum::compute(b"body {}").bytes().to_vec()
        )]
    );
}

#[test]
fn changed_content_gets_the_new_checksum() {
    let mut conn = open_transient().unwrap();
    run_over(&mut conn, false, &[site_file("style.css", 10, b"body {}")]);
    // Same size, another time and content
    let edited = site_file("style.css", 20, b"html {}");
    assert_eq!(run_over(&mut conn, false, &[edited]), (0, 0, vec!["style.css".to_owned()], 1));
    assert_eq!(
        stored_rows(&conn),
        vec![(
            "style.css".to_owned(),
            20.,
            7,
            Checksum::compute(b"html {}").bytes().to_vec()
        )]
    );
}

#[test]
fn second_run_skips_everything() {
    for force in [false, true] {
        let mut conn = open_transient().unwrap();
        run_over(&mut conn, false, &[site_file("old.html", 1, b"old"), site_file("b.html", 1, b"b")]);
        let files = [
            site_file("old.html", 1, b"old"),
            site_file("b.html", 2, b"b"),
            site_file("c.html", 3, b"ccc"),
            site_file("d/e.html", 4, b""),
        ];
        let first = run_over(&mut conn, force, &files);
        assert_eq!(first.2, vec!["c.html".to_owned(), "d/e.html".to_owned()]);
        let rows = stored_rows(&conn);
        assert_eq!(rows.len(), 4);
        assert_eq!(run_over(&mut conn, false, &files), (4, 0, vec![], 0));
        assert_eq!(stored_rows(&conn), rows);
    }
}

#[test]
fn steps_without_a_store() {
    let metadata = MetadataValues::new(1, 2, 3);
    let checksum = Checksum::from(4);
    assert_eq!(
        after_metadata_lookup(false, true, site_path("a"), metadata),
        Progress::Decided(PathOutcome::Skip)
    );
    assert_eq!(
        after_metadata_lookup(false, false, site_path("a"), metadata),
        Progress::NeedsChecksum(site_path("a"), metadata)
    );
    assert_eq!(
        after_metadata_lookup(true, true, site_path("a"), metadata),
        Progress::NeedsChecksum(site_path("a"), metadata)
    );
    assert_eq!(
        after_metadata_lookup(true, false, site_path("a"), metadata),
        Progress::NeedsChecksum(site_path("a"), metadata)
    );
    assert_eq!(
        after_content_lookup(true, site_path("a"), metadata, checksum),
        PathOutcome::UpdateMetadata(site_path("a"), metadata)
    );
    assert_eq!(
        after_content_lookup(false, site_path("a"), metadata, checksum),
        PathOutcome::StoreAndInvalidate(site_path("a"), metadata, checksum)
    );
}

#[test]
fn forced_start_does_not_ask_the_store() {
    // A connection without the table would fail any lookup
    let mut conn = Connection::open_in_memory().unwrap();
    let metadata = MetadataValues::new(1, 2, 3);
    assert_eq!(
        start(&mut conn, true, site_path("a"), metadata).unwrap(),
        Progress::NeedsChecksum(site_path("a"), metadata)
    );
    assert!(matches!(start(&mut conn, false, site_path("a"), metadata), Err(DbError::Sqlite(_))));
    assert!(matches!(
        finish(&mut conn, site_path("a"), metadata, Checksum::from(1)),
        Err(DbError::Sqlite(_))
    ));
}

#[test]
fn partition_sorts_by_kind_and_keeps_the_order() {
    let m = |n: u64| MetadataValues::new(n, 0, n);
    let results: Vec<Result<PathOutcome, &str>> = vec![
        Ok(PathOutcome::Skip),
        Ok(PathOutcome::StoreAndInvalidate(site_path("s1"), m(1), Checksum::from(1))),
        Err("unreadable"),
        Ok(PathOutcome::UpdateMetadata(site_path("u1"), m(2))),
        Ok(PathOutcome::Skip),
        Ok(PathOutcome::UpdateMetadata(site_path("u2"), m(3))),
        Err("vanished"),
        Ok(PathOutcome::StoreAndInvalidate(site_path("s2"), m(4), Checksum::from(4))),
        Ok(PathOutcome::Skip),
    ];
    let sorted = partition(results);
    assert_eq!(sorted.unchanged, 3);
    assert_eq!(sorted.updates, vec![(site_path("u1"), m(2)), (site_path("u2"), m(3))]);
    assert_eq!(
        sorted.store,
        vec![
            (site_path("s1"), m(1), Checksum::from(1)),
            (site_path("s2"), m(4), Checksum::from(4))
        ]
    );
    assert_eq!(sorted.errors, vec!["unreadable", "vanished"]);
    assert_eq!(invalidation_paths(&sorted.store), vec!["s1".to_owned(), "s2".to_owned()]);
}

#[test]
fn partition_of_nothing() {
    let sorted = partition(Vec::<Result<PathOutcome, String>>::new());
    assert_eq!(sorted.unchanged, 0);
    assert!(sorted.updates.is_empty());
    assert!(sorted.store.is_empty());
    assert!(sorted.errors.is_empty());
    assert_eq!(invalidation_paths(&sorted.store), Vec::<String>::new());
}

#[test]
fn exit_status_tells_file_errors_apart() {
    assert_eq!(exit_status(0), 0);
    assert_eq!(exit_status(1), 2);
    assert_eq!(exit_status(usize::MAX), 2);
    assert_eq!(EXIT_SUCCESS, 0);
    assert_eq!(EXIT_FILE_ERRORS, 2);
}

#[test]
fn files_that_failed_do_not_keep_the_others_from_being_recorded() {
    let mut conn = open_transient().unwrap();
    let mut reads = 0;
    let good = site_file("good.html", 9, b"good");
    let results: Vec<Result<PathOutcome, String>> = vec![
        Err("bad.html: permission denied".to_owned()),
        Ok(decide_file(&mut conn, false, &good, &mut reads)),
    ];
    let report = conclude(&mut conn, results).unwrap();
    assert_eq!(report.exit_status, EXIT_FILE_ERRORS);
    assert_eq!(report.errors, vec!["bad.html: permission denied".to_owned()]);
    assert_eq!(report.invalidate, vec!["good.html".to_owned()]);
    assert_eq!(report.unchanged, 0);
    assert_eq!(report.metadata_changed, 0);
    assert!(exists_by_metadata(&mut conn, &site_path("good.html"), &good.metadata).unwrap());
    assert!(!exists_by_metadata(&mut conn, &site_path("bad.html"), &good.metadata).unwrap());
}

#[test]
fn commit_writes_updates_before_records() {
    let mut conn = open_transient().unwrap();
    let path = site_path("a");
    commit(&mut conn, &vec![], &vec![(site_path("a"), MetadataValues::new(1, 0, 1), Checksum::from(1))])
        .unwrap();
    // The update and the record are for one path: the record is written last and stays
    let invalidate = commit(
        &mut conn,
        &vec![(site_path("a"), MetadataValues::new(2, 0, 2))],
        &vec![(site_path("a"), MetadataValues::new(3, 0, 3), Checksum::from(3))],
    )
    .unwrap();
    assert_eq!(invalidate, vec!["a".to_owned()]);
    assert!(exists_by_metadata(&mut conn, &path, &MetadataValues::new(3, 0, 3)).unwrap());
    assert!(exists_by_len_and_checksum(&mut conn, &path, &MetadataValues::new(3, 0, 3), Checksum::from(3)).unwrap());
}

#[test]
fn failed_commit_leaves_the_store_as_it_was() {
    let mut conn = open_transient().unwrap();
    commit(&mut conn, &vec![], &vec![(site_path("a"), MetadataValues::new(1, 0, 1), Checksum::from(1))])
        .unwrap();
    let before = stored_rows(&conn);
    // The second update is for a path without a record: an update that changes no row
    let r = commit(
        &mut conn,
        &vec![
            (site_path("a"), MetadataValues::new(2, 0, 1)),
            (site_path("missing"), MetadataValues::new(2, 0, 1)),
        ],
        &vec![(site_path("b"), MetadataValues::new(3, 0, 3), Checksum::from(3))],
    );
    assert!(matches!(r, Err(DbError::RowCount(0))));
    assert_eq!(stored_rows(&conn), before);
    // The same holds of a run that ends there: nothing to invalidate comes out of it
    let results: Vec<Result<PathOutcome, String>> = vec![
        Ok(PathOutcome::StoreAndInvalidate(site_path("b"), MetadataValues::new(3, 0, 3), Checksum::from(3))),
        Ok(PathOutcome::UpdateMetadata(site_path("missing"), MetadataValues::new(2, 0, 1))),
    ];
    assert!(matches!(conclude(&mut conn, results), Err(DbError::RowCount(0))));
    assert_eq!(stored_rows(&conn), before);
}

#[test]
fn commit_of_nothing() {
    let mut conn = open_transient().unwrap();
    assert_eq!(commit(&mut conn, &vec![], &vec![]).unwrap(), Vec::<String>::new());
    let report = conclude::<String>(&mut conn, vec![]).unwrap();
    assert_eq!(report.unchanged, 0);
    assert_eq!(report.metadata_changed, 0);
    assert_eq!(report.invalidate, Vec::<String>::new());
    assert_eq!(report.exit_status, EXIT_SUCCESS);
    assert_eq!(stored_rows(&conn), vec![]);
}
