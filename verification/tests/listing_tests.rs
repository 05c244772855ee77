use apt_desktop::errors::ErrorKind;
use apt_desktop::listing::{list_dir_result, name_is_yaml, select_yaml_paths, FileEntry};

fn entry(name: &str, path: &str) -> FileEntry {
    FileEntry { name: name.to_string(), path: path.to_string() }
}

#[test]
fn yaml_names_selected() {
    assert!(name_is_yaml("suite.yml"));
    assert!(name_is_yaml("suite.yaml"));
    assert!(name_is_yaml(".yml"));
    assert!(name_is_yaml(".yaml"));
    assert!(name_is_yaml("archive.tar.yml"));
}

#[test]
fn other_names_rejected() {
    assert!(!name_is_yaml("suite.txt"));
    assert!(!name_is_yaml("suite"));
    assert!(!name_is_yaml("yml"));
    assert!(!name_is_yaml("suite.yml.bak"));
    assert!(!name_is_yaml(""));
}

#[test]
fn yaml_name_case_sensitive() {
    assert!(!name_is_yaml("SUITE.YML"));
    assert!(!name_is_yaml("suite.Yaml"));
    assert!(!name_is_yaml("suite.YAML"));
}

#[test]
fn select_mixed_extensions() {
    let entries = vec![
        entry("a.yml", "/d/a.yml"),
        entry("b.txt", "/d/b.txt"),
        entry("c.yaml", "/d/c.yaml"),
        entry("d.YAML", "/d/d.YAML"),
        entry("e", "/d/e"),
        entry("f.yml.bak", "/d/f.yml.bak"),
    ];
    let paths = select_yaml_paths(&entries);
    assert_eq!(paths, vec!["/d/a.yml".to_string(), "/d/c.yaml".to_string()]);
}

#[test]
fn select_keeps_order_and_multiplicity() {
    let entries = vec![
        entry("z.yaml", "/d/z.yaml"),
        entry("a.yml", "/d/a.yml"),
        entry("z.yaml", "/d/z.yaml"),
    ];
    let paths = select_yaml_paths(&entries);
    assert_eq!(
        paths,
        vec!["/d/z.yaml".to_string(), "/d/a.yml".to_string(), "/d/z.yaml".to_string()]
    );
}

#[test]
fn select_empty_directory() {
    let entries: Vec<FileEntry> = Vec::new();
    let paths = select_yaml_paths(&entries);
    assert!(paths.is_empty());
}

#[test]
fn list_result_passes_selection_through() {
    let entries = vec![entry("a.yml", "/d/a.yml"), entry("b.rs", "/d/b.rs")];
    let r = list_dir_result(Ok(entries));
    assert_eq!(r.unwrap(), vec!["/d/a.yml".to_string()]);
}

#[test]
fn list_result_maps_failure_to_io_error() {
    let r = list_dir_result(Err("No such directory".to_string()));
    let e = r.unwrap_err();
    assert_eq!(e.kind, ErrorKind::IoError);
    assert!(e.is_io_error());
    assert!(!e.is_process_error());
    assert_eq!(e.message, "No such directory");
}
