//! The fixed-layout generator: a project root with a header directory, a
//! source directory and further top-level directories, one header, one
//! source file and one `CMakeLists.txt`.

pub mod cmake_file_gen;
pub mod cpp_file_gen;
pub mod directory_gen;
pub mod generate;
pub mod proj_gen;
