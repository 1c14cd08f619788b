use cargo_cpp_shared::materialize::{Decision, GeneratedPath, MemoryDisk};

fn plan() -> Vec<GeneratedPath> {
    vec![
        GeneratedPath::Folder {
            path: "root".to_string(),
        },
        GeneratedPath::Folder {
            path: "root/include".to_string(),
        },
        GeneratedPath::File {
            path: "root/CMakeLists.txt".to_string(),
            content: Some("project(x)\n".to_string()),
        },
        GeneratedPath::File {
            path: "root/LICENSE".to_string(),
            content: None,
        },
    ]
}

#[test]
fn a_plan_on_an_empty_disk_creates_what_it_names_and_no_more() {
    let mut disk = MemoryDisk::new();
    assert_eq!(disk.len(), 0);
    let made = disk.apply_all(&plan());
    assert_eq!(
        made,
        vec![
            Decision::Create,
            Decision::Create,
            Decision::Create,
            Decision::Declared
        ]
    );
    assert_eq!(disk.len(), 3);
    assert!(disk.contains(&"root".to_string()));
    assert!(disk.contains(&"root/include".to_string()));
    assert!(disk.contains(&"root/CMakeLists.txt".to_string()));
    assert!(!disk.contains(&"root/LICENSE".to_string()));
    assert_eq!(disk.content(&"root".to_string()), None);
    assert_eq!(
        disk.content(&"root/CMakeLists.txt".to_string()).map(String::as_str),
        Some("project(x)\n")
    );
    assert_eq!(disk.content(&"elsewhere".to_string()), None);
}

#[test]
fn a_second_run_changes_nothing_and_creates_nothing() {
    let mut disk = MemoryDisk::new();
    disk.apply_all(&plan());
    let before = format!("{disk:?}");
    let made = disk.apply_all(&plan());
    assert_eq!(
        made,
        vec![
            Decision::Exists,
            Decision::Exists,
            Decision::Exists,
            Decision::Declared
        ]
    );
    assert_eq!(format!("{disk:?}"), before);
}

#[test]
fn what_exists_is_not_written_again() {
    let mut disk = MemoryDisk::new();
    let decision = disk.apply(&GeneratedPath::File {
        path: "root/CMakeLists.txt".to_string(),
        content: Some("custom".to_string()),
    });
    assert_eq!(decision, Decision::Create);
    let made = disk.apply_all(&plan());
    assert_eq!(made[2], Decision::Exists);
    assert_eq!(
        disk.content(&"root/CMakeLists.txt".to_string()).map(String::as_str),
        Some("custom")
    );
    assert_eq!(disk.len(), 3);
}

#[test]
fn a_path_that_occurs_twice_is_created_once() {
    let mut disk = MemoryDisk::new();
    let twice = vec![
        GeneratedPath::File {
            path: "f".to_string(),
            content: Some("first".to_string()),
        },
        GeneratedPath::File {
            path: "f".to_string(),
            content: Some("second".to_string()),
        },
    ];
    assert_eq!(
        disk.apply_all(&twice),
        vec![Decision::Create, Decision::Exists]
    );
    assert_eq!(disk.content(&"f".to_string()).map(String::as_str), Some("first"));
}
