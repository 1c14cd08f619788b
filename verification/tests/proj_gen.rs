use cargo_cpp_shared::cpp_new::folder::Folder;
use cargo_cpp_shared::cpp_new::{PathKind, SchemaParseError};
use cargo_cpp_shared::error::{GenError, PlanError};
use cargo_cpp_shared::materialize::{DeclaredFiles, Decision, GeneratedPath, Step};
use cargo_cpp_shared::project_gen::proj_gen::ProjGen;
use cargo_cpp_shared::templates::Templates;
use std::cell::RefCell;
use std::path::PathBuf;

fn templates() -> Templates {
    let mut templates = Templates::new();
    templates.insert(
        "folder_struct.json",
        r#"{
            "name": "@PROJECT_NAME@",
            "folders": [
                {"name": "include", "folders": [{"name": "@DOMAIN_NAME@",
                    "files": [{"name": "print.h", "template": "include/print.h"}]}]},
                {"name": "source", "files": [{"name": "main.cpp", "template": "source/main.cpp"}]}
            ],
            "files": [
                {"name": "CMakeLists.txt", "template": "CMakeLists.txt"},
                {"name": "README.md"}
            ]
        }"#
        .to_string(),
    );
    templates.insert("include/print.h", "#pragma once // @TARGET_NAME@\n".to_string());
    templates.insert(
        "source/main.cpp",
        "#include \"@DOMAIN_NAME@/print.h\"\n".to_string(),
    );
    templates.insert(
        "CMakeLists.txt",
        "cmake_minimum_required(VERSION @CMAKE_MINIMUM_VERSION@)\n\
         project(@PROJECT_NAME@)\n\
         add_executable(@TARGET_NAME@ ${SOURCES} @SOMETHING_ELSE@)\n"
            .to_string(),
    );
    templates
}

fn generated(path: &GeneratedPath) -> (PathBuf, Option<String>) {
    match path {
        GeneratedPath::Folder { path } => (PathBuf::from(path), None),
        GeneratedPath::File { path, content } => (
            PathBuf::from(path),
            Some(content.clone().unwrap_or("(declared)".to_string())),
        ),
    }
}

#[test]
fn proj_gen_test() {
    let out_dir = Some("work".to_string());
    let proj_gen = ProjGen::new("hao".to_string(), "mylib".to_string(), out_dir, templates());
    let proj_struct = proj_gen.gen_folder_struct().unwrap();
    println!("{proj_struct:#?}");
    assert_eq!(proj_struct.name, "hao-mylib");
    assert_eq!(proj_struct.folders[0].folders[0].name, "hao");

    let created = RefCell::new(Vec::new());
    proj_gen
        .gen(
            "cwd",
            &|_: &String| false,
            &|step: &Step| -> Result<(), String> {
                created
                    .borrow_mut()
                    .push((generated(step.generated), step.decision));
                Ok(())
            },
        )
        .unwrap();
    let expected = vec![
        ("work/hao-mylib", None, Decision::Create),
        ("work/hao-mylib/include", None, Decision::Create),
        ("work/hao-mylib/include/hao", None, Decision::Create),
        (
            "work/hao-mylib/include/hao/print.h",
            Some("#pragma once // mylib\n"),
            Decision::Create,
        ),
        ("work/hao-mylib/source", None, Decision::Create),
        (
            "work/hao-mylib/source/main.cpp",
            Some("#include \"hao/print.h\"\n"),
            Decision::Create,
        ),
        (
            "work/hao-mylib/CMakeLists.txt",
            Some(
                "cmake_minimum_required(VERSION 3.19.0)\n\
                 project(hao-mylib)\n\
                 add_executable(mylib ${SOURCES} @SOMETHING_ELSE@)\n",
            ),
            Decision::Create,
        ),
        ("work/hao-mylib/README.md", Some("(declared)"), Decision::Declared),
    ];
    let expected: Vec<_> = expected
        .into_iter()
        .map(|(path, content, decision)| {
            ((PathBuf::from(path), content.map(str::to_string)), decision)
        })
        .collect();
    assert_eq!(created.into_inner(), expected);
}

#[test]
fn project_name_composition() {
    let vars = ProjGen::create_vars(&"acme_corp".to_string(), &"widget".to_string());
    assert_eq!(
        vars.get("@PROJECT_NAME@").map(String::as_str),
        Some("acme_corp-widget")
    );
    let gen = ProjGen::new(
        "Acme Corp".to_string(),
        "Widget".to_string(),
        None,
        Templates::new(),
    );
    assert_eq!(
        gen.replace_vars("@PROJECT_NAME@ = @DOMAIN_NAME@ + @TARGET_NAME@".to_string()),
        "acme_corp-widget = acme_corp + widget"
    );
}

#[test]
fn a_placeholder_without_a_variable_is_left_as_it_is() {
    let gen = ProjGen::new("d".to_string(), "My Target".to_string(), None, Templates::new());
    assert_eq!(
        gen.replace_vars("@TARGET_NAME@ @TARGET@ @NOTHING@ ${TARGET_NAME}".to_string()),
        "my_target @TARGET@ @NOTHING@ ${TARGET_NAME}"
    );
}

#[test]
fn generate_resolves_and_substitutes() {
    let gen = ProjGen::new("d".to_string(), "t".to_string(), None, templates());
    let event = PathKind::File {
        path: "p/print.h".to_string(),
        template_file: Some("include/print.h".to_string()),
    };
    assert_eq!(
        generated(&gen.generate(&event).unwrap()),
        (
            PathBuf::from("p/print.h"),
            Some("#pragma once // t\n".to_string())
        )
    );
    let event = PathKind::Folder {
        path: "p".to_string(),
    };
    assert_eq!(generated(&gen.generate(&event).unwrap()), (PathBuf::from("p"), None));
    let event = PathKind::File {
        path: "p/x".to_string(),
        template_file: Some("absent".to_string()),
    };
    match gen.generate(&event) {
        Err(PlanError::TemplateNotFound { key }) => assert_eq!(key, "absent"),
        other => panic!("a missing template was expected, not {:?}", other),
    }
}

#[test]
fn a_missing_template_fails_the_plan_before_anything_is_carried_out() {
    let mut templates = templates();
    templates.insert(
        "folder_struct.json",
        r#"{"name": "root", "files": [
            {"name": "a", "template": "CMakeLists.txt"},
            {"name": "b", "template": "absent"},
            {"name": "c", "template": "also absent"}]}"#
            .to_string(),
    );
    let gen = ProjGen::new("d".to_string(), "t".to_string(), None, templates);
    let steps = RefCell::new(0);
    let result = gen.gen(
        "cwd",
        &|_: &String| false,
        &|_: &Step| -> Result<(), String> {
            *steps.borrow_mut() += 1;
            Ok(())
        },
    );
    match result {
        Err(GenError::TemplateNotFound { key }) => assert_eq!(key, "absent"),
        other => panic!("a missing template was expected, not {:?}", other),
    }
    assert_eq!(*steps.borrow(), 0);
}

#[test]
fn a_missing_or_broken_folder_struct_fails() {
    let gen = ProjGen::new("d".to_string(), "t".to_string(), None, Templates::new());
    match gen.gen_folder_struct() {
        Err(PlanError::TemplateNotFound { key }) => assert_eq!(key, "folder_struct.json"),
        other => panic!("a missing template was expected, not {:?}", other),
    }
    let mut templates = Templates::new();
    templates.insert("folder_struct.json", r#"{"name": "@TARGET_NAME@", "files": 1}"#.to_string());
    let gen = ProjGen::new("d".to_string(), "t".to_string(), None, templates);
    match gen.gen_folder_struct() {
        Err(PlanError::SchemaParseError { fault }) => {
            assert_eq!(fault, SchemaParseError::FilesNotArray)
        }
        other => panic!("a schema error was expected, not {:?}", other),
    }
    let result = gen.gen("cwd", &|_: &String| false, &|_: &Step| -> Result<(), ()> { Ok(()) });
    assert!(matches!(
        result,
        Err(GenError::SchemaParseError {
            fault: SchemaParseError::FilesNotArray
        })
    ));
}

#[test]
fn create_folder_struct_plans_below_the_given_directory() {
    let gen = ProjGen::new("d".to_string(), "t".to_string(), None, templates())
        .set_declared_files(DeclaredFiles::CreateEmpty);
    let folder = Folder::parse(r#"{"name": "r", "files": [{"name": "f"}]}"#).unwrap();
    let plan = gen.create_folder_struct("below", &folder).unwrap();
    let plan: Vec<_> = plan.iter().map(generated).collect();
    assert_eq!(
        plan,
        vec![
            (PathBuf::from("below/r"), None),
            (PathBuf::from("below/r/f"), Some(String::new())),
        ]
    );
}

#[test]
fn what_exists_is_reported_as_existing() {
    let gen = ProjGen::new("hao".to_string(), "mylib".to_string(), None, templates());
    let reports = RefCell::new(Vec::new());
    gen.gen(
        "cwd",
        &|path: &String| path.ends_with("CMakeLists.txt") || path.ends_with("README.md"),
        &|step: &Step| -> Result<(), String> {
            reports
                .borrow_mut()
                .push((PathBuf::from(step.generated.path()), step.decision));
            Ok(())
        },
    )
    .unwrap();
    let reports = reports.into_inner();
    assert_eq!(reports.len(), 8);
    assert_eq!(
        reports[6],
        (PathBuf::from("cwd/hao-mylib/CMakeLists.txt"), Decision::Exists)
    );
    assert_eq!(
        reports[7],
        (PathBuf::from("cwd/hao-mylib/README.md"), Decision::Exists)
    );
    assert_eq!(reports[0].1, Decision::Create);
}
