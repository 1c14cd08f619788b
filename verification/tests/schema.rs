use cargo_cpp_shared::cpp_new::file::File;
use cargo_cpp_shared::cpp_new::folder::Folder;
use cargo_cpp_shared::cpp_new::{report_all, PathKind, SchemaParseError};
use cargo_cpp_shared::json::{Json, Member};
use std::cell::RefCell;
use std::path::PathBuf;

fn event(kind: &PathKind) -> (String, PathBuf, Option<String>) {
    match kind {
        PathKind::Folder { path } => ("folder".to_string(), PathBuf::from(path), None),
        PathKind::File {
            path,
            template_file,
        } => ("file".to_string(), PathBuf::from(path), template_file.clone()),
    }
}

fn sample() -> Folder {
    Folder::parse(
        r#"{
            "name": "root",
            "folders": [
                {"name": "include", "folders": [{"name": "deep", "files": [{"name": "d.h"}]}]},
                {"name": "source", "files": [{"name": "main.cpp", "template": "main"}]}
            ],
            "files": [
                {"name": "CMakeLists.txt", "template": "cmake"},
                {"name": "README.md", "template": null}
            ],
            "comment": "fields that are not known are passed over"
        }"#,
    )
    .unwrap()
}

#[test]
fn parse_reads_the_whole_tree() {
    let root = sample();
    assert_eq!(root.name, "root");
    assert_eq!(root.folders.len(), 2);
    assert_eq!(root.folders[0].name, "include");
    assert_eq!(root.folders[0].folders[0].name, "deep");
    assert_eq!(root.folders[0].folders[0].files[0].name, "d.h");
    assert_eq!(root.folders[0].folders[0].files[0].template, None);
    assert!(root.folders[0].files.is_empty());
    assert_eq!(root.folders[1].files[0].template.as_deref(), Some("main"));
    assert_eq!(root.files.len(), 2);
    assert_eq!(root.files[0].name, "CMakeLists.txt");
    assert_eq!(root.files[0].template.as_deref(), Some("cmake"));
    assert_eq!(root.files[1].template, None);
}

#[test]
fn absent_and_null_lists_are_empty() {
    let folder = Folder::parse(r#"{"name": "a"}"#).unwrap();
    assert!(folder.folders.is_empty() && folder.files.is_empty());
    let folder = Folder::parse(r#"{"name": "a", "folders": null, "files": null}"#).unwrap();
    assert!(folder.folders.is_empty() && folder.files.is_empty());
}

#[test]
fn of_two_fields_with_one_name_the_last_counts() {
    let folder = Folder::parse(r#"{"name": "a", "name": "b"}"#).unwrap();
    assert_eq!(folder.name, "b");
    let json = Json::Object(vec![
        Member {
            name: "name".to_string(),
            value: Json::Text("a".to_string()),
        },
        Member {
            name: "name".to_string(),
            value: Json::Text("b".to_string()),
        },
    ]);
    assert_eq!(json.field_index("name"), Some(1));
    assert_eq!(Folder::from_json(&json).unwrap().name, "b");
}

#[test]
fn text_that_is_not_json_is_a_syntax_error() {
    assert_eq!(Folder::parse("{").unwrap_err(), SchemaParseError::Syntax);
    assert_eq!(Folder::parse("").unwrap_err(), SchemaParseError::Syntax);
    assert_eq!(
        Folder::parse(r#"{"name": "a"} trailing"#).unwrap_err(),
        SchemaParseError::Syntax
    );
}

#[test]
fn a_folder_must_be_an_object() {
    assert_eq!(Folder::parse("[]").unwrap_err(), SchemaParseError::NotAnObject);
    assert_eq!(Folder::parse("\"a\"").unwrap_err(), SchemaParseError::NotAnObject);
    assert_eq!(
        Folder::parse(r#"{"name": "a", "folders": [1]}"#).unwrap_err(),
        SchemaParseError::NotAnObject
    );
    assert_eq!(
        Folder::parse(r#"{"name": "a", "files": ["f"]}"#).unwrap_err(),
        SchemaParseError::NotAnObject
    );
}

#[test]
fn a_name_is_required() {
    assert_eq!(Folder::parse("{}").unwrap_err(), SchemaParseError::MissingName);
    assert_eq!(
        Folder::parse(r#"{"name": "a", "folders": [{"folders": []}]}"#).unwrap_err(),
        SchemaParseError::MissingName
    );
    assert_eq!(
        Folder::parse(r#"{"name": "a", "files": [{"template": "t"}]}"#).unwrap_err(),
        SchemaParseError::MissingName
    );
}

#[test]
fn a_name_must_be_text() {
    assert_eq!(
        Folder::parse(r#"{"name": 1}"#).unwrap_err(),
        SchemaParseError::NameNotText
    );
    assert_eq!(
        Folder::parse(r#"{"name": null}"#).unwrap_err(),
        SchemaParseError::NameNotText
    );
    assert_eq!(
        Folder::parse(r#"{"name": "a", "files": [{"name": ["f"]}]}"#).unwrap_err(),
        SchemaParseError::NameNotText
    );
}

#[test]
fn a_name_must_be_a_single_segment() {
    for name in ["", "a/b", "/", "a\\\\b", "../x/"] {
        let text = format!("{{\"name\": \"{name}\"}}");
        assert_eq!(
            Folder::parse(&text).unwrap_err(),
            SchemaParseError::NameNotSegment,
            "{text}"
        );
        let text = format!("{{\"name\": \"a\", \"files\": [{{\"name\": \"{name}\"}}]}}");
        assert_eq!(
            Folder::parse(&text).unwrap_err(),
            SchemaParseError::NameNotSegment,
            "{text}"
        );
        let text = format!("{{\"name\": \"a\", \"folders\": [{{\"name\": \"{name}\"}}]}}");
        assert_eq!(
            Folder::parse(&text).unwrap_err(),
            SchemaParseError::NameNotSegment,
            "{text}"
        );
    }
    for name in ["a", "a.b", "..", "a b", "CMakeLists.txt", "ä"] {
        let text = format!("{{\"name\": \"{name}\"}}");
        assert_eq!(Folder::parse(&text).unwrap().name, name);
    }
}

#[test]
fn a_template_must_be_text_or_null() {
    assert_eq!(
        Folder::parse(r#"{"name": "a", "files": [{"name": "f", "template": 1}]}"#).unwrap_err(),
        SchemaParseError::TemplateNotText
    );
}

#[test]
fn folders_and_files_must_be_arrays_or_null() {
    assert_eq!(
        Folder::parse(r#"{"name": "a", "folders": {}}"#).unwrap_err(),
        SchemaParseError::FoldersNotArray
    );
    assert_eq!(
        Folder::parse(r#"{"name": "a", "files": "f"}"#).unwrap_err(),
        SchemaParseError::FilesNotArray
    );
}

#[test]
fn the_first_fault_in_order_is_reported() {
    assert_eq!(
        Folder::parse(r#"{"name": "a", "folders": [{"name": "b"}, {}, 3]}"#).unwrap_err(),
        SchemaParseError::MissingName
    );
    assert_eq!(
        Folder::parse(r#"{"name": "a", "folders": [3], "files": 4}"#).unwrap_err(),
        SchemaParseError::NotAnObject
    );
}

#[test]
fn json_values_are_read_with_their_kind() {
    let json = Json::from_text(r#"{"a": [null, true, 1.5, "t", {}], "b": -3}"#).unwrap();
    match &json {
        Json::Object(fields) => {
            assert_eq!(fields.len(), 2);
            let at = json.field_index("a").unwrap();
            match &fields[at].value {
                Json::Array(items) => {
                    assert!(matches!(items[0], Json::Null));
                    assert!(matches!(items[1], Json::Bool(true)));
                    assert!(matches!(&items[2], Json::Number(n) if n == "1.5"));
                    assert!(matches!(&items[3], Json::Text(t) if t == "t"));
                    assert!(matches!(&items[4], Json::Object(f) if f.is_empty()));
                }
                other => panic!("an array was expected, not {:?}", other),
            }
            let at = json.field_index("b").unwrap();
            assert!(matches!(&fields[at].value, Json::Number(n) if n == "-3"));
            assert_eq!(json.field_index("c"), None);
        }
        other => panic!("an object was expected, not {:?}", other),
    }
    assert!(Json::from_text("nul").is_none());
    assert_eq!(Json::Null.field_index("a"), None);
}

#[test]
fn walk_is_in_pre_order_with_folders_before_files() {
    let events: Vec<_> = sample().walk("out").iter().map(event).collect();
    let expected = vec![
        ("folder", "out/root", None),
        ("folder", "out/root/include", None),
        ("folder", "out/root/include/deep", None),
        ("file", "out/root/include/deep/d.h", None),
        ("folder", "out/root/source", None),
        ("file", "out/root/source/main.cpp", Some("main")),
        ("file", "out/root/CMakeLists.txt", Some("cmake")),
        ("file", "out/root/README.md", None),
    ];
    let expected: Vec<_> = expected
        .into_iter()
        .map(|(kind, path, template)| {
            (
                kind.to_string(),
                PathBuf::from(path),
                template.map(str::to_string),
            )
        })
        .collect();
    assert_eq!(events, expected);
}

#[test]
fn create_recursively_at_reports_every_node_once_and_returns_the_root() {
    let seen = RefCell::new(Vec::new());
    let root = sample();
    let path = root
        .create_recursively_at("out", &|kind: &PathKind| -> Result<(), String> {
            seen.borrow_mut().push(event(kind));
            Ok(())
        })
        .unwrap();
    assert_eq!(PathBuf::from(path), PathBuf::from("out/root"));
    let walked: Vec<_> = root.walk("out").iter().map(event).collect();
    assert_eq!(seen.into_inner(), walked);
}

#[test]
fn create_recursively_at_stops_at_the_first_refusal() {
    let seen = RefCell::new(Vec::new());
    let result = sample().create_recursively_at("out", &|kind: &PathKind| {
        seen.borrow_mut().push(event(kind));
        if seen.borrow().len() == 3 {
            Err("disk full")
        } else {
            Ok(())
        }
    });
    assert_eq!(result, Err("disk full"));
    assert_eq!(seen.borrow().len(), 3);
    assert_eq!(seen.borrow()[2].1, PathBuf::from("out/root/include/deep"));
}

#[test]
fn create_at_reports_one_node() {
    let seen = RefCell::new(Vec::new());
    let record = |kind: &PathKind| -> Result<(), String> {
        seen.borrow_mut().push(event(kind));
        Ok(())
    };
    let root = sample();
    let folder_path = root.create_at("out", &record).unwrap();
    let file_path = root.files[0].create_at(&folder_path, &record).unwrap();
    assert_eq!(PathBuf::from(&file_path), PathBuf::from("out/root/CMakeLists.txt"));
    assert_eq!(
        seen.into_inner(),
        vec![
            ("folder".to_string(), PathBuf::from("out/root"), None),
            (
                "file".to_string(),
                PathBuf::from("out/root/CMakeLists.txt"),
                Some("cmake".to_string())
            ),
        ]
    );
    let refused: Result<String, u8> = root.create_at("out", &|_: &PathKind| Err(7));
    assert_eq!(refused, Err(7));
    let file = File {
        name: "f".to_string(),
        template: None,
    };
    let refused: Result<String, u8> = file.create_at("out", &|_: &PathKind| Err(9));
    assert_eq!(refused, Err(9));
}

#[test]
fn report_all_on_no_events_succeeds() {
    let result: Result<(), ()> = report_all(&Vec::new(), &|_: &PathKind| Err(()));
    assert_eq!(result, Ok(()));
}
