use graph_store::default_document;
use graph_store::error::StoreError;
use graph_store::location::{join_path, StorageLocation};
use graph_store::platform::Platform;
use graph_store::session::{
    load_begin, load_exists_done, load_read_done, save_begin, save_dir_done, save_write_done,
    Step,
};
use std::collections::{HashMap, HashSet};

#[derive(Default)]
struct MemDisk {
    dirs: HashSet<String>,
    files: HashMap<String, String>,
}

impl MemDisk {
    fn create_dir_all(&mut self, path: &str) -> Result<(), String> {
        if self.files.contains_key(path) {
            return Err("a file is in the way".to_string());
        }
        let mut cur = String::new();
        for part in path.split('/').filter(|s| !s.is_empty()) {
            cur.push('/');
            cur.push_str(part);
            self.dirs.insert(cur.clone());
        }
        self.dirs.insert(path.to_string());
        Ok(())
    }

    fn write(&mut self, path: &str, contents: &str) -> Result<(), String> {
        if self.dirs.contains(path) {
            return Err("is a directory".to_string());
        }
        self.files.insert(path.to_string(), contents.to_string());
        Ok(())
    }
}

fn unix(root: &str) -> Platform {
    Platform { data_root: Some(root.to_string()), separator: '/' }
}

fn save(disk: &mut MemDisk, p: &Platform, data: &str) -> Result<String, StoreError> {
    let mut step = save_begin(p);
    loop {
        step = match step {
            Step::CreateDir(dir) => save_dir_done(p, data.to_string(), disk.create_dir_all(&dir)),
            Step::Write { path, contents } => save_write_done(p, disk.write(&path, &contents)),
            Step::Finished(r) => return r,
            _ => panic!("a save asked for a load's request"),
        }
    }
}

fn load(disk: &MemDisk, p: &Platform) -> Result<String, StoreError> {
    let mut step = load_begin(p);
    loop {
        step = match step {
            Step::CheckExists(path) => {
                let exists = disk.files.contains_key(&path) || disk.dirs.contains(&path);
                load_exists_done(p, exists)
            }
            Step::Read(path) => load_read_done(
                disk.files.get(&path).cloned().ok_or_else(|| "is a directory".to_string()),
            ),
            Step::Finished(r) => return r,
            _ => panic!("a load asked for a save's request"),
        }
    }
}

#[test]
fn save_then_load_gives_same_text() {
    let mut disk = MemDisk::default();
    let p = unix("/home/alice/.local/share");
    let text = "{\"nodes\":[{\"id\":1}],\"edges\":[]}";
    assert!(save(&mut disk, &p, text).is_ok());
    assert_eq!(load(&disk, &p).ok(), Some(text.to_string()));
}

#[test]
fn load_without_save_gives_empty_object() {
    let disk = MemDisk::default();
    let p = unix("/home/alice/.local/share");
    assert_eq!(load(&disk, &p).ok(), Some("{}".to_string()));
}

#[test]
fn second_save_replaces_first() {
    let mut disk = MemDisk::default();
    let p = unix("/data");
    assert!(save(&mut disk, &p, "{\"a\":1,\"long\":\"xxxxxxxx\"}").is_ok());
    assert!(save(&mut disk, &p, "{\"b\":2}").is_ok());
    assert_eq!(load(&disk, &p).ok(), Some("{\"b\":2}".to_string()));
}

#[test]
fn saving_twice_does_not_fail_on_existing_directory() {
    let mut disk = MemDisk::default();
    let p = unix("/data");
    let first = save(&mut disk, &p, "1").ok();
    let second = save(&mut disk, &p, "2").ok();
    assert!(first.is_some());
    assert_eq!(first, second);
}

#[test]
fn save_reports_fixed_path() {
    let mut disk = MemDisk::default();
    let p = unix("/home/alice/.local/share");
    let path = save(&mut disk, &p, "{}").ok().unwrap();
    assert_eq!(path, "/home/alice/.local/share/GraphAndTable/graph_data.json");
}

#[test]
fn nodes_document_round_trip() {
    let mut disk = MemDisk::default();
    let p = unix("/home/bob/.local/share");
    let path = save(&mut disk, &p, "{\"nodes\":[]}").ok().unwrap();
    assert!(path.ends_with("graph_data.json"));
    assert_eq!(load(&disk, &p).ok(), Some("{\"nodes\":[]}".to_string()));
}

#[test]
fn save_creates_missing_ancestors() {
    let mut disk = MemDisk::default();
    let p = unix("/fresh/deep/root");
    assert!(save(&mut disk, &p, "x").is_ok());
    assert!(disk.dirs.contains("/fresh"));
    assert!(disk.dirs.contains("/fresh/deep/root/GraphAndTable"));
}

#[test]
fn no_data_root_fails_both_operations() {
    let mut disk = MemDisk::default();
    let p = Platform { data_root: None, separator: '/' };
    assert!(matches!(save(&mut disk, &p, "x"), Err(StoreError::LocationUnavailable)));
    assert!(matches!(load(&disk, &p), Err(StoreError::LocationUnavailable)));
    assert!(disk.dirs.is_empty());
}

#[test]
fn directory_blocked_by_file_is_create_failure() {
    let mut disk = MemDisk::default();
    disk.files.insert("/data/GraphAndTable".to_string(), "".to_string());
    let p = unix("/data");
    match save(&mut disk, &p, "x") {
        Err(StoreError::DirectoryCreateFailed(cause)) => assert_eq!(cause, "a file is in the way"),
        _ => panic!("expected a directory failure"),
    }
}

#[test]
fn file_blocked_by_directory_is_write_failure_and_read_failure() {
    let mut disk = MemDisk::default();
    disk.dirs.insert("/data/GraphAndTable/graph_data.json".to_string());
    let p = unix("/data");
    assert!(matches!(save(&mut disk, &p, "x"), Err(StoreError::WriteFailed(_))));
    assert!(matches!(load(&disk, &p), Err(StoreError::ReadFailed(_))));
}

#[test]
fn root_with_trailing_separator_gets_no_second_one() {
    let loc = StorageLocation::new("/data/", '/');
    assert_eq!(loc.dir, "/data/GraphAndTable");
    assert_eq!(loc.file, "/data/GraphAndTable/graph_data.json");
}

#[test]
fn windows_style_separator() {
    let loc = StorageLocation::new("C:\\Users\\Alice\\AppData\\Roaming", '\\');
    assert_eq!(loc.file, "C:\\Users\\Alice\\AppData\\Roaming\\GraphAndTable\\graph_data.json");
}

#[test]
fn join_onto_empty_base_is_the_name() {
    assert_eq!(join_path("", '/', "a"), "a");
    assert_eq!(join_path("b", '/', "a"), "b/a");
}

#[test]
fn default_document_is_empty_object() {
    assert_eq!(default_document(), "{}");
}

#[test]
fn error_messages() {
    assert_eq!(StoreError::LocationUnavailable.message(), "无法获取应用数据目录");
    assert_eq!(
        StoreError::DirectoryCreateFailed("denied".to_string()).message(),
        "创建目录失败: denied"
    );
    assert_eq!(StoreError::WriteFailed("full".to_string()).message(), "写入文件失败: full");
    assert_eq!(StoreError::ReadFailed("bad".to_string()).message(), "读取文件失败: bad");
}

#[test]
fn each_step_on_its_own() {
    let p = unix("/r");
    assert!(matches!(save_begin(&p), Step::CreateDir(d) if d == "/r/GraphAndTable"));
    assert!(matches!(load_begin(&p), Step::CheckExists(f) if f == "/r/GraphAndTable/graph_data.json"));
    assert!(matches!(load_exists_done(&p, false), Step::Finished(Ok(s)) if s == "{}"));
    assert!(matches!(load_read_done(Ok("abc".to_string())), Step::Finished(Ok(s)) if s == "abc"));
    assert!(matches!(
        save_dir_done(&p, "d".to_string(), Ok(())),
        Step::Write { path, contents } if path == "/r/GraphAndTable/graph_data.json" && contents == "d"
    ));
}
