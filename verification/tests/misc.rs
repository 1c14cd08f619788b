use cargo_cpp_shared::decimal::{int_text, nat_text};
use cargo_cpp_shared::error::{GenError, PlanError};
use cargo_cpp_shared::materialize::{materialize, DeclaredFiles, Decision, GeneratedPath, Step};
use cargo_cpp_shared::templates::Templates;
use cargo_cpp_shared::text::clone_option_text;
use cargo_cpp_shared::RootDir;
use std::cell::RefCell;

#[test]
fn root_dir_names() {
    assert_eq!(RootDir::External.to_string(), "external");
    assert_eq!(RootDir::Include.to_string(), "include");
    assert_eq!(RootDir::Source.to_string(), "source");
    assert_eq!(RootDir::Test.to_string(), "test");
}

#[test]
fn decimal_text() {
    assert_eq!(nat_text(0), "0");
    assert_eq!(nat_text(7), "7");
    assert_eq!(nat_text(10), "10");
    assert_eq!(nat_text(1234567890), "1234567890");
    assert_eq!(nat_text(u64::MAX), u64::MAX.to_string());
    assert_eq!(int_text(2023), "2023");
    assert_eq!(int_text(0), "0");
    assert_eq!(int_text(-1), "-1");
    assert_eq!(int_text(-900), "-900");
    assert_eq!(int_text(i32::MAX), "2147483647");
    assert_eq!(int_text(i32::MIN), "-2147483648");
}

#[test]
fn templates_resolve_what_was_inserted_last() {
    let mut templates = Templates::new();
    templates.insert("a", "one".to_string());
    templates.insert("b", "two".to_string());
    templates.insert("a", "three".to_string());
    assert_eq!(templates.resolve("a").unwrap(), "three");
    assert_eq!(templates.resolve("b").unwrap(), "two");
    match templates.resolve("c") {
        Err(PlanError::TemplateNotFound { key }) => assert_eq!(key, "c"),
        other => panic!("a missing template was expected, not {:?}", other),
    }
}

#[test]
fn a_decision_follows_from_existence_and_content() {
    let folder = GeneratedPath::Folder {
        path: "d".to_string(),
    };
    let file = GeneratedPath::File {
        path: "f".to_string(),
        content: Some("text".to_string()),
    };
    let declared = GeneratedPath::File {
        path: "g".to_string(),
        content: None,
    };
    assert_eq!(folder.decide(false), Decision::Create);
    assert_eq!(folder.decide(true), Decision::Exists);
    assert_eq!(file.decide(false), Decision::Create);
    assert_eq!(file.decide(true), Decision::Exists);
    assert_eq!(declared.decide(false), Decision::Declared);
    assert_eq!(declared.decide(true), Decision::Exists);
    assert_eq!(folder.path(), "d");
    assert_eq!(file.path(), "f");
}

#[test]
fn declared_files_have_no_or_empty_content() {
    assert_eq!(DeclaredFiles::Skip.declared_content(), None);
    assert_eq!(DeclaredFiles::CreateEmpty.declared_content(), Some(String::new()));
    assert_eq!(clone_option_text(&Some("a".to_string())), Some("a".to_string()));
    assert_eq!(clone_option_text(&None), None);
}

#[test]
fn materialize_asks_decides_and_reports_in_order() {
    let plan = vec![
        GeneratedPath::Folder {
            path: "a".to_string(),
        },
        GeneratedPath::File {
            path: "a/b".to_string(),
            content: Some("x".to_string()),
        },
        GeneratedPath::File {
            path: "a/c".to_string(),
            content: None,
        },
    ];
    let log = RefCell::new(Vec::new());
    let result: Result<(), ()> = materialize(
        &plan,
        &|path: &String| {
            log.borrow_mut().push(format!("probe {path}"));
            path == "a"
        },
        &|step: &Step| {
            log.borrow_mut()
                .push(format!("{:?} {}", step.decision, step.generated.path()));
            Ok(())
        },
    );
    assert_eq!(result, Ok(()));
    assert_eq!(
        log.into_inner(),
        vec![
            "probe a",
            "Exists a",
            "probe a/b",
            "Create a/b",
            "probe a/c",
            "Declared a/c"
        ]
    );
}

#[test]
fn materialize_stops_at_the_first_refusal() {
    let plan = vec![
        GeneratedPath::Folder {
            path: "a".to_string(),
        },
        GeneratedPath::Folder {
            path: "b".to_string(),
        },
        GeneratedPath::Folder {
            path: "c".to_string(),
        },
    ];
    let seen = RefCell::new(Vec::new());
    let result = materialize(
        &plan,
        &|_: &String| false,
        &|step: &Step| {
            seen.borrow_mut().push(step.generated.path().clone());
            if step.generated.path() == "b" {
                Err(13)
            } else {
                Ok(())
            }
        },
    );
    assert_eq!(result, Err(13));
    assert_eq!(seen.into_inner(), vec!["a", "b"]);
}

#[test]
fn errors_of_planning_become_errors_of_generating() {
    let error: GenError<()> = GenError::from_plan(PlanError::TemplateNotFound {
        key: "k".to_string(),
    });
    assert!(matches!(error, GenError::TemplateNotFound { key } if key == "k"));
    let error: GenError<()> = GenError::from_plan(PlanError::TemplateRender {
        key: "k".to_string(),
    });
    assert!(matches!(error, GenError::TemplateRender { key } if key == "k"));
    assert!(matches!(GenError::after_plan(Err(5)), Err(GenError::IoError { source: 5 })));
    assert!(matches!(GenError::<u8>::after_plan(Ok(())), Ok(())));
}
