use static_cdn::rel_path::RelPathBuilder;

#[test]
#[should_panic]
fn db_path_not_relative_to_root() {
    // This should not happen because we walk from the root dir, but still, test that this
    // panics
    let _ = RelPathBuilder::new("/made_up/for_testing")
        .db_path("./some_other_folder/some_other_file");
}

#[test]
fn db_path_strips_the_root() {
    let builder = RelPathBuilder::new("/made_up/for_testing");
    let path = builder.db_path("/made_up/for_testing/some_other_folder/some_other_file");
    assert_eq!(path.get_relative_path(), "some_other_folder/some_other_file");
}

#[test]
fn db_path_of_a_file_right_under_the_root() {
    let builder = RelPathBuilder::new("/site");
    assert_eq!(builder.db_path("/site/a.txt").get_relative_path(), "a.txt");
}

#[test]
fn root_with_a_trailing_separator() {
    let builder = RelPathBuilder::new("/site/");
    assert_eq!(builder.db_path("/site/css/main.css").get_relative_path(), "css/main.css");
}

#[test]
fn relative_root() {
    let builder = RelPathBuilder::new("public");
    assert_eq!(builder.db_path("public/index.html").get_relative_path(), "index.html");
    let here = RelPathBuilder::new(".");
    assert_eq!(here.db_path("./posts/first.html").get_relative_path(), "posts/first.html");
}

#[test]
fn the_root_itself_has_the_empty_path() {
    let builder = RelPathBuilder::new("/site");
    assert_eq!(builder.db_path("/site").get_relative_path(), "");
}

#[test]
fn try_db_path_under_the_root() {
    let builder = RelPathBuilder::new("/made_up/for_testing");
    let path = builder.try_db_path("/made_up/for_testing/a/b.html");
    assert_eq!(path.map(|p| p.get_relative_path().to_owned()), Some("a/b.html".to_owned()));
}

#[test]
fn try_db_path_outside_the_root() {
    let builder = RelPathBuilder::new("/made_up/for_testing");
    assert!(builder.try_db_path("./some_other_folder/some_other_file").is_none());
    assert!(builder.try_db_path("/made_up/elsewhere/file").is_none());
    assert!(builder.try_db_path("/made_up").is_none());
}

#[test]
fn a_name_that_only_starts_like_the_root_is_outside() {
    // Paths are compared folder by folder, not letter by letter
    let builder = RelPathBuilder::new("/site");
    assert!(builder.try_db_path("/site_backup/a.txt").is_none());
}

#[test]
fn what_is_left_has_to_be_relative() {
    // Every path starts with the empty root, and an absolute one stays absolute
    let builder = RelPathBuilder::new("");
    assert!(builder.try_db_path("/etc/passwd").is_none());
    assert_eq!(
        builder.try_db_path("etc/passwd").map(|p| p.get_relative_path().to_owned()),
        Some("etc/passwd".to_owned())
    );
}

#[test]
fn same_file_same_path() {
    let builder = RelPathBuilder::new("/site");
    assert_eq!(builder.db_path("/site/a/b"), builder.db_path("/site/a/b"));
    assert_ne!(builder.db_path("/site/a/b"), builder.db_path("/site/a/c"));
}
