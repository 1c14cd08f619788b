use cargo_cpp_shared::project_gen::directory_gen::{DirName, DirectoryGen};
use cargo_cpp_shared::project_gen::generate::{gen_project_dry, DirPath, ProjectTemplates};
use cargo_cpp_shared::project_gen::{cmake_file_gen, cpp_file_gen};
use std::path::PathBuf;

fn role_and_path(dir: &DirPath) -> (&'static str, PathBuf) {
    match dir {
        DirPath::Root { path } => ("root", PathBuf::from(path)),
        DirPath::HeaderInclude { path } => ("header", PathBuf::from(path)),
        DirPath::Source { path } => ("source", PathBuf::from(path)),
        DirPath::Test { path } => ("test", PathBuf::from(path)),
        DirPath::External { path } => ("external", PathBuf::from(path)),
    }
}

#[test]
pub fn test2() {
    let out_dir = String::from("/work");

    let out_paths = DirectoryGen::new()
        .set_out_dir(&out_dir)
        .add_toplevel_dir(&DirName::Include {
            name: "include".to_string(),
        })
        .add_toplevel_dir(&DirName::Source {
            name: "source".to_string(),
        })
        .add_toplevel_dir(&DirName::Test {
            name: "test".to_string(),
        })
        .add_toplevel_dir(&DirName::External {
            name: "external".to_string(),
        })
        .set_domain_name(&"domain_name".to_string())
        .set_target_name(&"target_name".to_string())
        .create_dirs_dry();

    println!("{out_paths:#?}");

    let found: Vec<(&str, PathBuf)> = out_paths.iter().map(role_and_path).collect();
    assert_eq!(
        found,
        vec![
            ("root", PathBuf::from("/work/target_name")),
            (
                "header",
                PathBuf::from("/work/target_name/include/domain_name/target_name")
            ),
            ("source", PathBuf::from("/work/target_name/source")),
            ("test", PathBuf::from("/work/target_name/test")),
            ("external", PathBuf::from("/work/target_name/external")),
        ]
    );
}

#[test]
fn without_directories_only_the_root_is_planned() {
    let dirs = DirectoryGen::new()
        .set_out_dir("out")
        .set_target_name(&"t".to_string())
        .create_dirs_dry();
    assert_eq!(dirs.len(), 1);
    assert_eq!(role_and_path(&dirs[0]), ("root", PathBuf::from("out/t")));
    assert_eq!(PathBuf::from(dirs[0].path()), PathBuf::from("out/t"));
}

#[test]
fn toplevel_dir_names_come_back_in_order() {
    let gen = DirectoryGen::new()
        .add_toplevel_dir(&DirName::Test {
            name: "t".to_string(),
        })
        .add_toplevel_dir(&DirName::Source {
            name: "s".to_string(),
        });
    let names = gen.toplevel_dir_names();
    assert_eq!(names.len(), 2);
    assert!(matches!(&names[0], DirName::Test { name } if name == "t"));
    assert!(matches!(&names[1], DirName::Source { name } if name == "s"));
}

#[test]
fn gen_project_dry_plans_directories_files_and_build_file() {
    let plan = gen_project_dry(
        "hao".to_string(),
        "mylib".to_string(),
        "/out".to_string(),
        ProjectTemplates {
            header: "// header\n",
            source: "#include <@HEADER_INCLUDE@>\n",
            cmake_lists: "project(@PROJECT_NAME@) in @INCLUDE_DIR@ and @EXTERNAL_DIR@\n",
        },
    );
    let dirs: Vec<(&str, PathBuf)> = plan.dirs.iter().map(role_and_path).collect();
    assert_eq!(
        dirs,
        vec![
            ("root", PathBuf::from("/out/mylib")),
            ("header", PathBuf::from("/out/mylib/include/hao/mylib")),
            ("source", PathBuf::from("/out/mylib/source")),
            ("test", PathBuf::from("/out/mylib/test")),
            ("external", PathBuf::from("/out/mylib/external")),
        ]
    );
    assert_eq!(plan.files.len(), 2);
    match &plan.files[0] {
        cpp_file_gen::File::Header { path, content } => {
            assert_eq!(
                PathBuf::from(path),
                PathBuf::from("/out/mylib/include/hao/mylib/mylib.h")
            );
            assert_eq!(content, "// header\n");
        }
        other => panic!("a header was expected, not {:?}", other),
    }
    match &plan.files[1] {
        cpp_file_gen::File::Source { path, content } => {
            assert_eq!(PathBuf::from(path), PathBuf::from("/out/mylib/source/mylib.cpp"));
            assert_eq!(content, "#include <hao/mylib/mylib.h>\n");
        }
        other => panic!("a source file was expected, not {:?}", other),
    }
    let cmake_file_gen::File::Root { path, content } = &plan.cmake_file;
    assert_eq!(PathBuf::from(path), PathBuf::from("/out/mylib/CMakeLists.txt"));
    assert_eq!(content, "project(hao-mylib) in include and external\n");
}
