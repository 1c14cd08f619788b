use cargo_cpp_shared::cpp_proj_gen::{
    build_cmake_local_include_dir, build_cmake_project_name, build_out_dir, create_all_paths,
    make_absolute_path, replace_cmake_vars, CppProjGen, Creation, Opt, CMAKELISTS_FILE_STR,
};
use cargo_cpp_shared::vars::Variables;
use std::path::PathBuf;

fn create_test_opt() -> Opt {
    Opt {
        name_space: Some(String::from("nmspc")),
        target_name: String::from("tgtnm"),
        cmake_version: String::from("1.23.4"),
        output_dir: Some(String::from("test_out_dir")),
    }
}

fn contains(paths: &[String], path: &str) -> bool {
    paths.iter().any(|p| PathBuf::from(p) == PathBuf::from(path))
}

#[test]
fn test_path_vec_len() {
    let opt = create_test_opt();

    let cpp_proj_gen = CppProjGen::new(opt, ".")
        .add_include_dir(String::from("include"))
        .add_toplevel_dir(String::from("test"))
        .add_source_dir(String::from("source"));

    let paths = cpp_proj_gen.build_paths();
    assert_eq!(paths.len(), 4);
}

#[test]
fn test_path_vec_items() {
    let opt = create_test_opt();

    let cpp_proj_gen = CppProjGen::new(opt, ".")
        .add_include_dir(String::from("include"))
        .add_toplevel_dir(String::from("test"))
        .add_source_dir(String::from("source"));

    let paths = cpp_proj_gen.build_paths();

    assert_eq!(
        contains(&paths, "test_out_dir/tgtnm/include/nmspc/tgtnm"),
        true
    );

    assert_eq!(contains(&paths, "test_out_dir/tgtnm/test"), true);

    assert_eq!(contains(&paths, "test_out_dir/tgtnm/source"), true);

    assert_eq!(contains(&paths, "test_out_dir/tgtnm/CMakeLists.txt"), true);

    println!("{:#?}", paths);
}

#[test]
fn test_cmake_vars() {
    let opt = create_test_opt();

    let cpp_proj_gen = CppProjGen::new(opt, ".")
        .add_include_dir(String::from("include"))
        .add_toplevel_dir(String::from("test"))
        .add_source_dir(String::from("source"));

    println!("{:#?}", cpp_proj_gen.cmake_vars());

    let result = replace_cmake_vars(cpp_proj_gen.cmake_vars());
    println!("{}", result);

    let expected = "
    cmake_minimum_required(VERSION 1.23.4)

    project(nmspc-tgtnm)

    add_library(tgtnm STATIC
        # include/nmspc/tgtnm/tgtnm.h
        # source/tgtnm.cpp
    )

    target_include_directories(tgtnm
        PUBLIC
            ${CMAKE_CURRENT_LIST_DIR}/include
        PRIVATE
            ${CMAKE_CURRENT_LIST_DIR}/source
    )
";
    assert_eq!(result, expected);
    match cpp_proj_gen.create().last() {
        Some(Creation::File { contents, .. }) => assert_eq!(contents, expected),
        other => panic!("the build file comes last, not {:?}", other),
    }
}

#[test]
fn test_include_dir_without_namespace() {
    let opt = Opt {
        name_space: None,
        target_name: String::from("tgtnm"),
        cmake_version: String::from("1.23.4"),
        output_dir: Some(String::from("test_out_dir")),
    };

    let cpp_proj_gen = CppProjGen::new(opt, ".")
        .add_include_dir(String::from("include"))
        .add_toplevel_dir(String::from("test"))
        .add_source_dir(String::from("source"));

    let paths = cpp_proj_gen.build_paths();

    assert_eq!(contains(&paths, "test_out_dir/tgtnm/include/tgtnm"), true);
}

#[test]
fn paths_keep_the_order_of_the_directories() {
    let cpp_proj_gen = CppProjGen::new(create_test_opt(), ".")
        .add_include_dir(String::from("include"))
        .add_toplevel_dir(String::from("test"))
        .add_source_dir(String::from("source"));
    let paths: Vec<PathBuf> = cpp_proj_gen.build_paths().iter().map(PathBuf::from).collect();
    assert_eq!(
        paths,
        vec![
            PathBuf::from("test_out_dir/tgtnm/include/nmspc/tgtnm"),
            PathBuf::from("test_out_dir/tgtnm/test"),
            PathBuf::from("test_out_dir/tgtnm/source"),
            PathBuf::from("test_out_dir/tgtnm/CMakeLists.txt"),
        ]
    );
}

#[test]
fn create_plans_directories_and_the_build_file() {
    let cpp_proj_gen =
        CppProjGen::new(create_test_opt(), ".").add_source_dir(String::from("source"));
    let creations = cpp_proj_gen.create();
    assert_eq!(creations.len(), 2);
    match &creations[0] {
        Creation::Directory { path } => {
            assert_eq!(PathBuf::from(path), PathBuf::from("test_out_dir/tgtnm/source"))
        }
        other => panic!("a directory was expected, not {:?}", other),
    }
    match &creations[1] {
        Creation::File { path, contents } => {
            assert_eq!(
                PathBuf::from(path),
                PathBuf::from("test_out_dir/tgtnm/CMakeLists.txt")
            );
            assert!(contents.contains("project(nmspc-tgtnm)"));
            assert!(contents.contains("${CMAKE_CURRENT_LIST_DIR}/source"));
            assert!(contents.contains("@INCLUDE_DIR@"));
        }
        other => panic!("a file was expected, not {:?}", other),
    }
}

#[test]
fn a_path_that_ends_in_the_build_file_is_a_file() {
    let creations = create_all_paths(
        vec![
            String::from("a/CMakeLists.txt"),
            String::from("a/CMakeLists.txt.d"),
            String::from("a/xCMakeLists.txt"),
        ],
        String::from("text"),
    );
    assert!(matches!(&creations[0], Creation::File { contents, .. } if contents == "text"));
    assert!(matches!(&creations[1], Creation::Directory { .. }));
    assert!(matches!(&creations[2], Creation::Directory { .. }));
}

#[test]
fn out_dir_falls_back_to_the_current_directory() {
    let opt = Opt {
        name_space: None,
        target_name: String::from("tgtnm"),
        cmake_version: String::from("3.15.0"),
        output_dir: None,
    };
    assert_eq!(
        PathBuf::from(build_out_dir(&opt, "/work")),
        PathBuf::from("/work/tgtnm")
    );
    assert_eq!(
        PathBuf::from(build_out_dir(&create_test_opt(), "/work")),
        PathBuf::from("test_out_dir/tgtnm")
    );
}

#[test]
fn project_name_joins_name_space_and_target() {
    assert_eq!(build_cmake_project_name(&create_test_opt(), "-"), "nmspc-tgtnm");
    assert_eq!(build_cmake_project_name(&create_test_opt(), "/"), "nmspc/tgtnm");
    let opt = Opt {
        name_space: None,
        target_name: String::from("tgtnm"),
        cmake_version: String::from("3.15.0"),
        output_dir: None,
    };
    assert_eq!(build_cmake_project_name(&opt, "-"), "tgtnm");
}

#[test]
fn local_include_dir_and_absolute_path() {
    assert_eq!(
        PathBuf::from(build_cmake_local_include_dir(
            &create_test_opt(),
            String::from("include")
        )),
        PathBuf::from("include/nmspc/tgtnm")
    );
    assert_eq!(
        PathBuf::from(make_absolute_path(&String::from("out"), &String::from("dir"))),
        PathBuf::from("out/dir")
    );
    assert_eq!(
        PathBuf::from(make_absolute_path(&String::from("out"), &String::from("/abs"))),
        PathBuf::from("/abs")
    );
}

#[test]
fn a_value_that_holds_a_name_is_put_in_as_it_is() {
    let opt = Opt {
        name_space: None,
        target_name: String::from("@INCLUDE_DIR@"),
        cmake_version: String::from("@SOURCE_DIR@"),
        output_dir: Some(String::from("out")),
    };
    let gen = CppProjGen::new(opt, ".")
        .add_include_dir(String::from("inc"))
        .add_source_dir(String::from("src"));
    let text = replace_cmake_vars(gen.cmake_vars());
    assert!(text.contains("cmake_minimum_required(VERSION @SOURCE_DIR@)"));
    assert!(text.contains("add_library(@INCLUDE_DIR@ STATIC"));
    assert!(text.contains("${CMAKE_CURRENT_LIST_DIR}/inc\n"));
    assert!(text.contains("${CMAKE_CURRENT_LIST_DIR}/src\n"));
}

#[test]
fn replace_cmake_vars_without_variables_keeps_the_text() {
    let vars = Variables::new();
    assert_eq!(replace_cmake_vars(&vars), CMAKELISTS_FILE_STR);
}
