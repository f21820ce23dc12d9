use opendal::error::ErrorKind;
use opendal::object::ObjectMetadata;
use opendal::object::ObjectMode;
use opendal::ops::OpCreate;
use opendal::ops::OpDelete;
use opendal::ops::OpList;
use opendal::ops::OpRead;
use opendal::ops::OpStat;
use opendal::ops::OpWrite;
use opendal::path::drop_parents;
use opendal::path::is_dir;
use opendal::services::ipfs::backend::to_node_bound;
use opendal::services::ipfs::transport::normalize;
use opendal::services::ipfs::transport::Failure;
use opendal::services::ipfs::transport::FilesStatResponse;
use opendal::services::ipfs::Backend;

fn missing() -> Failure {
    Failure::Api { code: 0, message: "file does not exist".to_string() }
}

#[test]
fn abs_path_of_the_root_is_the_root() {
    for root in ["/", "/foo/", "/foo/bar/", "//"] {
        let backend = Backend::new(root.to_string());
        assert_eq!(backend.get_abs_path(root), root);
    }
}

#[test]
fn abs_path_is_root_then_path() {
    let backend = Backend::new("/foo/".to_string());
    assert_eq!(backend.get_abs_path("bar"), "/foo/bar");
    assert_eq!(backend.get_abs_path("bar/baz/"), "/foo/bar/baz/");
    assert_eq!(backend.get_abs_path(""), "/foo/");
    assert_eq!(backend.get_abs_path("/bar"), "/foo//bar");
}

#[test]
fn abs_path_takes_parent_segments_out() {
    let backend = Backend::new("/foo/".to_string());
    assert_eq!(backend.get_abs_path("../x"), "/foo/x");
    assert_eq!(backend.get_abs_path(".."), "/foo/");
    assert_eq!(backend.get_abs_path("../.."), "/foo/");
    assert_eq!(backend.get_abs_path("../../etc/passwd"), "/foo/etc/passwd");
    assert_eq!(backend.get_abs_path("a/../b"), "/foo/a/b");
    assert_eq!(backend.get_abs_path("a/.."), "/foo/a/");
    assert_eq!(backend.get_abs_path("a/../"), "/foo/a/");
    assert_eq!(backend.get_abs_path("/../x"), "/foo//x");
    assert_eq!(backend.get_abs_path("/foo/../x"), "/foo/x");
}

#[test]
fn abs_path_keeps_what_only_looks_like_a_parent() {
    let backend = Backend::new("/foo/".to_string());
    assert_eq!(backend.get_abs_path("..."), "/foo/...");
    assert_eq!(backend.get_abs_path("..a/b.."), "/foo/..a/b..");
    assert_eq!(backend.get_abs_path("./x"), "/foo/./x");
    assert_eq!(backend.get_abs_path("a/.b/..c/d"), "/foo/a/.b/..c/d");
    assert_eq!(backend.get_abs_path("é/../ü.."), "/foo/é/ü..");
}

#[test]
fn drop_parents_takes_each_segment_with_its_slash() {
    assert_eq!(drop_parents(""), "");
    assert_eq!(drop_parents(".."), "");
    assert_eq!(drop_parents("../"), "");
    assert_eq!(drop_parents("/.."), "/");
    assert_eq!(drop_parents("a"), "a");
    assert_eq!(drop_parents("a//b/"), "a//b/");
    assert_eq!(drop_parents("../../a/../../b/.."), "a/b/");
    assert_eq!(drop_parents("..//.."), "/");
}

#[test]
fn no_resolved_path_holds_a_parent_segment() {
    let backend = Backend::new("/r/".to_string());
    for path in ["..", "../", "/..", "a/../..", "../r/../x", "x/..", "/r/..", "/r/../..//.."] {
        let abs = backend.get_abs_path(path);
        assert!(abs.starts_with("/r/"));
        assert!(abs["/r/".len()..].split('/').all(|segment| segment != ".."), "{}", abs);
    }
}

#[test]
fn read_failure_is_normalized() {
    let backend = Backend::new("/r/".to_string());
    let err = backend.files_read_failed("/r/f", missing());
    assert_eq!(err.kind(), ErrorKind::NotFound);
    assert_eq!(err.context("op"), Some("read"));
    assert_eq!(err.context("path"), Some("/r/f"));
    let err = backend.files_read_failed("/r/f", Failure::Client { message: "reset".to_string() });
    assert_eq!(err.kind(), ErrorKind::Other);
    assert_eq!(err.cause(), "reset");
}

#[test]
fn abs_path_strips_a_leading_root() {
    let backend = Backend::new("/foo/".to_string());
    assert_eq!(backend.get_abs_path("/foo/bar"), "/foo/bar");
    assert_eq!(backend.get_abs_path("/foo//foo/bar"), "/foo/bar");
    assert_eq!(backend.get_abs_path("/foo/x/foo/"), "/foo/x/foo/");
    assert_eq!(backend.get_abs_path("/foo"), "/foo//foo");
}

#[test]
fn abs_path_under_slash() {
    let backend = Backend::new("/".to_string());
    assert_eq!(backend.get_abs_path("/file.txt"), "/file.txt");
    assert_eq!(backend.get_abs_path("file.txt"), "/file.txt");
    assert_eq!(backend.get_abs_path("///a/b"), "/a/b");
}

#[test]
fn abs_path_resolves_to_itself() {
    let backend = Backend::new("/r/".to_string());
    for path in ["a", "/r/a", "", "/r/", "x/r/", "/r//r/"] {
        let once = backend.get_abs_path(path);
        assert!(once.starts_with("/r/"));
        assert_eq!(backend.get_abs_path(&once), once);
    }
}

#[test]
fn dir_paths_end_with_slash() {
    assert!(is_dir(""));
    assert!(is_dir("/"));
    assert!(is_dir("a/b/"));
    assert!(!is_dir("a"));
    assert!(!is_dir("a/b"));
    assert!(!is_dir("été"));
}

#[test]
fn node_bounds_stop_at_the_largest_signed_number() {
    assert_eq!(to_node_bound(None), None);
    assert_eq!(to_node_bound(Some(0)), Some(0));
    assert_eq!(to_node_bound(Some(13)), Some(13));
    assert_eq!(to_node_bound(Some(i64::MAX as u64)), Some(i64::MAX));
    assert_eq!(to_node_bound(Some(i64::MAX as u64 + 1)), None);
    assert_eq!(to_node_bound(Some(u64::MAX)), None);
}

#[test]
fn create_asks_for_a_write_that_keeps_what_is_there() {
    let backend = Backend::new("/r/".to_string());
    let call = backend.create(&OpCreate::new("a"));
    assert_eq!(call.path, "/r/a");
    assert!(call.create);
    assert!(!call.truncate);
    assert!(backend.files_create("/r/a", Ok(())).is_ok());
    assert!(backend.files_create("/r/a", Ok(())).is_ok());
    let err = backend
        .files_create("/r/a", Err(Failure::Client { message: "refused".to_string() }))
        .unwrap_err();
    assert_eq!(err.kind(), ErrorKind::Other);
    assert_eq!(err.context("op"), Some("create"));
}

#[test]
fn create_of_what_is_there_succeeds() {
    let backend = Backend::new("/r/".to_string());
    let exists = Failure::Api { code: 0, message: "file already exists".to_string() };
    assert!(backend.files_create("/r/a", Err(exists)).is_ok());
    let err = backend.files_create("/r/a", Err(missing())).unwrap_err();
    assert_eq!(err.kind(), ErrorKind::NotFound);
    let exists = Failure::Api { code: 0, message: "file already exists".to_string() };
    assert_eq!(normalize(exists, "stat", "/r/a").kind(), ErrorKind::AlreadyExists);
    let exists = Failure::Api { code: 0, message: "file already exists".to_string() };
    assert_eq!(backend.files_delete("/r/a", Err(exists)).unwrap_err().kind(), ErrorKind::AlreadyExists);
}

#[test]
fn stat_asks_for_the_resolved_path() {
    let backend = Backend::new("/r/".to_string());
    assert_eq!(backend.stat(&OpStat::new("/r/a")).path, "/r/a");
    assert_eq!(backend.stat(&OpStat::new("a")).path, "/r/a");
}

#[test]
fn stat_maps_the_words_of_the_node() {
    let backend = Backend::new("/".to_string());
    let file = FilesStatResponse { typ: "file".to_string(), size: 13 };
    assert_eq!(backend.files_stat("/f", Ok(file)).unwrap(), ObjectMetadata::new(ObjectMode::FILE, 13));
    let dir = FilesStatResponse { typ: "directory".to_string(), size: 0 };
    assert_eq!(backend.files_stat("/d/", Ok(dir)).unwrap().mode(), ObjectMode::DIR);
    let odd = FilesStatResponse { typ: "File".to_string(), size: 7 };
    let meta = backend.files_stat("/o", Ok(odd)).unwrap();
    assert_eq!(meta.mode(), ObjectMode::Unknown);
    assert_eq!(meta.content_length(), 7);
}

#[test]
fn stat_of_nothing_is_not_found() {
    let backend = Backend::new("/".to_string());
    let err = backend.files_stat("/f", Err(missing())).unwrap_err();
    assert_eq!(err.kind(), ErrorKind::NotFound);
    assert_eq!(err.cause(), "file does not exist");
    assert_eq!(err.context("op"), Some("stat"));
    assert_eq!(err.context("path"), Some("/f"));
}

#[test]
fn delete_is_not_recursive() {
    let backend = Backend::new("/r/".to_string());
    let call = backend.delete(&OpDelete::new("a"));
    assert_eq!(call.path, "/r/a");
    assert!(!call.recursive);
}

#[test]
fn delete_of_nothing_succeeds() {
    let backend = Backend::new("/".to_string());
    assert!(backend.files_delete("/f", Ok(())).is_ok());
    assert!(backend.files_delete("/f", Err(missing())).is_ok());
    let err = backend
        .files_delete("/f", Err(Failure::Api { code: 0, message: "directory not empty".to_string() }))
        .unwrap_err();
    assert_eq!(err.kind(), ErrorKind::Other);
    assert_eq!(err.context("op"), Some("delete"));
    let err = backend
        .files_delete("/f", Err(Failure::Client { message: "file does not exist".to_string() }))
        .unwrap_err();
    assert_eq!(err.kind(), ErrorKind::Other);
}

#[test]
fn read_asks_for_the_range() {
    let backend = Backend::new("/r/".to_string());
    let call = backend.read(&OpRead::new("a", Some(3), Some(u64::MAX))).unwrap();
    assert_eq!(call.path, "/r/a");
    assert_eq!(call.offset, Some(3));
    assert_eq!(call.count, None);
    let call = backend.read(&OpRead::new("a", None, Some(5))).unwrap();
    assert_eq!(call.offset, None);
    assert_eq!(call.count, Some(5));
}

#[test]
fn read_of_a_dir_path_is_a_directory() {
    let backend = Backend::new("/r/".to_string());
    let err = backend.read(&OpRead::new("d/", None, None)).unwrap_err();
    assert_eq!(err.kind(), ErrorKind::IsADirectory);
    assert!(err.to_string().contains("Is a directory"));
    assert_eq!(err.context("op"), Some("read"));
    assert_eq!(err.context("path"), Some("d/"));
}

#[test]
fn write_of_a_dir_path_is_a_directory() {
    let backend = Backend::new("/r/".to_string());
    let err = backend.write(&OpWrite::new("d/")).err().unwrap();
    assert_eq!(err.kind(), ErrorKind::IsADirectory);
    assert!(err.to_string().contains("Is a directory"));
    assert!(backend.write(&OpWrite::new("")).is_err());
    assert!(backend.write(&OpWrite::new("f")).is_ok());
}

#[test]
fn list_of_a_file_path_is_not_a_directory() {
    let backend = Backend::new("/r/".to_string());
    let err = backend.list(&OpList::new("f")).err().unwrap();
    assert_eq!(err.kind(), ErrorKind::NotADirectory);
    assert!(err.to_string().contains("Not a directory"));
    assert_eq!(err.context("op"), Some("list"));
    assert!(backend.list(&OpList::new("d/")).is_ok());
    assert!(backend.list(&OpList::new("")).is_ok());
}

#[test]
fn metadata_describes_the_backend() {
    let backend = Backend::new("/r/".to_string());
    let meta = backend.metadata();
    assert_eq!(meta.root(), "/r/");
    assert!(meta.can_list());
}

#[test]
fn normalize_tells_missing_from_other() {
    let err = normalize(missing(), "read", "/f");
    assert_eq!(err.kind(), ErrorKind::NotFound);
    let err = normalize(Failure::Api { code: 0, message: "File does not exist".to_string() }, "read", "/f");
    assert_eq!(err.kind(), ErrorKind::Other);
    assert_eq!(err.cause(), "File does not exist");
    let err = normalize(Failure::Client { message: "timeout".to_string() }, "read", "/f");
    assert_eq!(err.kind(), ErrorKind::Other);
    assert_eq!(err.to_string(), "other: timeout, op: read, path: /f");
}

#[test]
fn clone_keeps_the_root() {
    let backend = Backend::new("/r/".to_string());
    assert_eq!(backend.clone().root(), "/r/");
}
