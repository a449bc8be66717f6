use anasaizi::shader_source::add_defines;

fn defines(names: &[&str]) -> Vec<String> {
    names.iter().map(|n| n.to_string()).collect()
}

#[test]
fn defines_follow_the_version_line() {
    let out = add_defines("#version 450\nvoid main() {}", &defines(&["HAS_NORMALS", "HAS_UV"]));
    assert_eq!(out, "#version 450\n#define HAS_NORMALS\n#define HAS_UV\nvoid main() {}");
}

#[test]
fn defines_come_first_without_a_version_line() {
    let out = add_defines("void main() {}\n", &defines(&["X"]));
    assert_eq!(out, "#define X\nvoid main() {}");
}

#[test]
fn only_the_first_version_line_counts() {
    let out = add_defines("// header\n#version 450\n#version 460\nx", &defines(&["A"]));
    assert_eq!(out, "// header\n#version 450\n#define A\n#version 460\nx");
}

#[test]
fn carriage_returns_before_newlines_are_dropped() {
    let out = add_defines("#version 450\r\nlayout\r\n", &defines(&["A"]));
    assert_eq!(out, "#version 450\n#define A\nlayout");
}

#[test]
fn empty_source_gets_only_the_defines() {
    assert_eq!(add_defines("", &defines(&["A", "B"])), "#define A\n#define B");
}

#[test]
fn version_line_last_gets_defines_at_the_end() {
    assert_eq!(add_defines("#version 450", &defines(&["A"])), "#version 450\n#define A");
}

#[test]
fn no_defines_insert_an_empty_line() {
    assert_eq!(add_defines("#version 450\nx", &defines(&[])), "#version 450\n\nx");
}

#[test]
fn indented_version_does_not_count() {
    let out = add_defines("  #version 450\nx", &defines(&["A"]));
    assert_eq!(out, "#define A\n  #version 450\nx");
}
