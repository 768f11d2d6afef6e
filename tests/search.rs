use find_fast::enumerate::prepare;
use find_fast::error::SearchError;
use find_fast::search::search_lines;

const ROOT: &str = "/tmp/project";

fn lines_of(content: &str) -> Vec<String> {
    content.lines().map(|l| l.to_string()).collect()
}

fn file(rel: &str, content: &str) -> (String, Vec<String>) {
    (format!("{}/{}", ROOT, rel), lines_of(content))
}

fn main_rs() -> (String, Vec<String>) {
    file(
        "src/main.rs",
        "fn main() {\n    println!(\"Hello, world!\");\n}\n\nfn helper() {}\n",
    )
}

fn lib_rs() -> (String, Vec<String>) {
    file(
        "src/lib.rs",
        "pub fn calculate(x: i32) -> i32 {\n    x * 2\n}\n\n#[cfg(test)]\nmod tests {}\n",
    )
}

fn integration_rs() -> (String, Vec<String>) {
    file(
        "tests/integration.rs",
        "use my_crate::calculate;\n\n#[test]\nfn test_calculate() {\n    assert_eq!(calculate(2), 4);\n}\n",
    )
}

fn readme() -> (String, Vec<String>) {
    file(
        "README.md",
        "# Project\n\nTODO: Add documentation\n\nThis is a test project.\n",
    )
}

fn guide() -> (String, Vec<String>) {
    file(
        "docs/guide.txt",
        "Configuration Guide\n\nStep 1: Install\nStep 2: Configure\nTODO: Add more steps\n",
    )
}

/// The Rust files of the fixture, as a recursive `*.rs` glob yields them.
fn rust_files() -> Vec<(String, Vec<String>)> {
    vec![integration_rs(), lib_rs(), main_rs()]
}

fn all_files() -> Vec<(String, Vec<String>)> {
    vec![readme(), guide(), integration_rs(), lib_rs(), main_rs()]
}

fn run(glob: &str, regex: &str, files: &Vec<(String, Vec<String>)>) -> Result<String, SearchError> {
    let p = prepare(glob, regex)?;
    Ok(search_lines(&p, files))
}

#[test]
fn test_invalid_glob_pattern() {
    let r = prepare("[invalid", "pattern");
    assert!(matches!(r, Err(SearchError::InvalidGlob(_))));
}

#[test]
fn test_invalid_regex_pattern() {
    let glob_pattern = format!("{}/**/*.rs", ROOT);
    let r = prepare(&glob_pattern, "[invalid(regex");
    assert!(matches!(r, Err(SearchError::InvalidPattern(_))));
}

#[test]
fn test_search_rust_files_for_function() {
    let glob_pattern = format!("{}/**/*.rs", ROOT);
    let out = run(&glob_pattern, r"fn\s+\w+", &rust_files()).unwrap();
    assert!(out.contains("main.rs"));
    assert!(out.contains("fn main"));
    assert!(out.contains("fn helper"));
    assert!(out.contains("lib.rs"));
    assert!(out.contains("fn calculate"));
}

#[test]
fn test_search_for_todo_comments() {
    let glob_pattern = format!("{}/**/*", ROOT);
    let out = run(&glob_pattern, "TODO", &all_files()).unwrap();
    assert!(out.contains("README.md"));
    assert!(out.contains("TODO: Add documentation"));
    assert!(out.contains("guide.txt"));
    assert!(out.contains("TODO: Add more steps"));
}

#[test]
fn test_search_specific_directory() {
    let glob_pattern = format!("{}/src/**/*.rs", ROOT);
    let out = run(&glob_pattern, r"fn\s+\w+", &vec![lib_rs(), main_rs()]).unwrap();
    assert!(out.contains("src/main.rs"));
    assert!(out.contains("src/lib.rs"));
}

#[test]
fn test_search_with_no_matches() {
    let glob_pattern = format!("{}/**/*.rs", ROOT);
    let out = run(&glob_pattern, "THISPATTERNWILLNOTMATCH12345", &rust_files()).unwrap();
    assert!(out.is_empty());
}

#[test]
fn test_search_case_sensitive() {
    let glob_pattern = format!("{}/**/*", ROOT);
    let out = run(&glob_pattern, "^todo$", &all_files()).unwrap();
    assert!(out.is_empty());
    let out = run(&glob_pattern, "TODO", &all_files()).unwrap();
    assert!(out.contains("TODO"));
}

#[test]
fn test_line_numbers_are_correct() {
    let glob_pattern = format!("{}/src/main.rs", ROOT);
    let out = run(&glob_pattern, "fn main", &vec![main_rs()]).unwrap();
    assert!(out.contains("1:"));
    assert!(out.contains("fn main"));
}

#[test]
fn test_complex_regex_patterns() {
    let glob_pattern = format!("{}/**/*.rs", ROOT);
    let out = run(&glob_pattern, r"(fn|pub fn)\s+\w+", &rust_files()).unwrap();
    assert!(out.contains("fn main"));
    assert!(out.contains("pub fn calculate"));
}

#[test]
fn test_glob_pattern_single_file() {
    let glob_pattern = format!("{}/README.md", ROOT);
    let out = run(&glob_pattern, "Project", &vec![readme()]).unwrap();
    assert!(out.contains("README.md"));
    assert!(out.contains("# Project"));
}

#[test]
fn test_empty_directory() {
    let glob_pattern = format!("{}/**/*", ROOT);
    let out = run(&glob_pattern, "pattern", &Vec::new()).unwrap();
    assert!(out.is_empty());
}

#[test]
fn test_multiline_output_format() {
    let multi = file("multi.rs", "fn first() {}\nfn second() {}\nlet x = 1;\nfn third() {}\n");
    let glob_pattern = format!("{}/multi.rs", ROOT);
    let out = run(&glob_pattern, r"fn\s+\w+", &vec![multi]).unwrap();
    assert!(out.contains("multi.rs:"));
    assert!(out.contains("1:"));
    assert!(out.contains("fn first"));
    assert!(out.contains("2:"));
    assert!(out.contains("fn second"));
    assert!(out.contains("4:"));
    assert!(out.contains("fn third"));
}
