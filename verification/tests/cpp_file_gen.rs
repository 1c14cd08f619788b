use cargo_cpp_shared::project_gen::cpp_file_gen::{File, FileGen};
use cargo_cpp_shared::project_gen::generate::DirPath;
use std::path::PathBuf;

#[test]
fn cpp_file_gen_test() {
    let mut dirs = Vec::new();
    dirs.push(DirPath::HeaderInclude {
        path: "/c/include/domain/target".to_string(),
    });
    dirs.push(DirPath::Source {
        path: "/c/source".to_string(),
    });
    dirs.push(DirPath::Root {
        path: "/c".to_string(),
    });

    let file_gen = FileGen::new()
        .set_dirs(&dirs)
        .set_domain_name(&"hao".to_string())
        .set_target_name(&"hello_world".to_string())
        .set_templates("#pragma once\n", "#include \"@HEADER_INCLUDE@\"\n")
        .create_files_dry();
    println!("{:#?}", file_gen);

    assert_eq!(file_gen.len(), 2);
    match &file_gen[0] {
        File::Header { path, content } => {
            assert_eq!(
                PathBuf::from(path),
                PathBuf::from("/c/include/domain/target/hello_world.h")
            );
            assert_eq!(content, "#pragma once\n");
        }
        other => panic!("a header was expected, not {:?}", other),
    }
    match &file_gen[1] {
        File::Source { path, content } => {
            assert_eq!(PathBuf::from(path), PathBuf::from("/c/source/hello_world.cpp"));
            assert_eq!(content, "#include \"hao/hello_world/hello_world.h\"\n");
        }
        other => panic!("a source file was expected, not {:?}", other),
    }
}

#[test]
fn header_include_names_domain_and_target() {
    let gen = FileGen::new();
    let path = gen.build_header_include(&"hao".to_string(), &"lib".to_string());
    assert_eq!(PathBuf::from(path), PathBuf::from("hao/lib/lib.h"));
}

#[test]
fn no_file_without_header_or_source_directory() {
    let dirs = vec![
        DirPath::Root {
            path: "/c".to_string(),
        },
        DirPath::Test {
            path: "/c/test".to_string(),
        },
        DirPath::External {
            path: "/c/external".to_string(),
        },
    ];
    let files = FileGen::new()
        .set_dirs(&dirs)
        .set_target_name(&"t".to_string())
        .create_files_dry();
    assert!(files.is_empty());
}

#[test]
fn an_extension_replaces_the_one_of_the_target() {
    let dirs = vec![DirPath::Source {
        path: "src".to_string(),
    }];
    let files = FileGen::new()
        .set_dirs(&dirs)
        .set_target_name(&"my.lib".to_string())
        .create_files_dry();
    match &files[0] {
        File::Source { path, .. } => assert_eq!(PathBuf::from(path), PathBuf::from("src/my.cpp")),
        other => panic!("a source file was expected, not {:?}", other),
    }
}
