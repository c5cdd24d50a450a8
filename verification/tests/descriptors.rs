use lazo::cli::{project_path, PROJECT_PATH_FLAG};
use lazo::descriptor::{
    descriptor_for, find_declared_name, name_from_line, DESCRIPTOR_FILE,
    UNNAMED_PROJECT,
};
use lazo::model::LazoModel;
use lazo::node::LazoNode;
use lazo::text::{
    chars_of, decimal_chars, has_prefix_at, is_white_space, kept_range, slice_of, split_lines, trim,
    without,
};

fn chars(s: &str) -> Vec<char> {
    s.chars().collect()
}

fn text(v: &[char]) -> String {
    v.iter().collect()
}

#[test]
fn descriptor_of_demo() {
    assert_eq!(descriptor_for("Demo"), "project_name = \"Demo\"\nversion = \"0.1.0\"");
}

#[test]
fn descriptor_round_trip() {
    let written = descriptor_for("Demo");
    let first = written.lines().next().unwrap();
    assert_eq!(first.replace("project_name = ", "").replace('"', ""), "Demo");
    assert_eq!(find_declared_name(&written), Some("Demo".to_string()));
    assert_eq!(name_from_line(&chars(first)), "Demo");
}

#[test]
fn descriptor_round_trip_of_other_names() {
    for name in ["", "My Project", "naïve ü", "a = b", "two  spaces", "x\ry"] {
        let written = descriptor_for(name);
        assert_eq!(find_declared_name(&written), Some(name.to_string()));
        let first = split_lines(&chars(&written)).remove(0);
        assert_eq!(name_from_line(&first), name);
    }
}

#[test]
fn declared_name_is_found_on_a_later_line() {
    let content = "version = \"0.1.0\"\r\nproject_name = \"Late\"\r\nproject_name = \"Later\"\n";
    assert_eq!(find_declared_name(content), Some("Late".to_string()));
    assert_eq!(
        find_declared_name("version = \"0.1.0\"\nproject_name = \"Demo\""),
        Some("Demo".to_string())
    );
}

#[test]
fn declared_name_needs_a_line_that_begins_with_the_key() {
    assert_eq!(find_declared_name(""), None);
    assert_eq!(find_declared_name("version = \"1\"\n name = x"), None);
    assert_eq!(find_declared_name(" project_name = \"Indented\""), None);
    assert_eq!(find_declared_name("\n"), None);
    assert_eq!(find_declared_name("project_name"), Some("project_name".to_string()));
}

#[test]
fn name_is_read_leniently() {
    assert_eq!(find_declared_name("project_name=Bare"), Some("project_name=Bare".to_string()));
    assert_eq!(find_declared_name("project_name = \"A\"B\"\""), Some("AB".to_string()));
    assert_eq!(
        find_declared_name("project_name = project_name = \"Twice\""),
        Some("Twice".to_string())
    );
    assert_eq!(name_from_line(&chars("project_name = \"Demo\"")), "Demo");
    assert_eq!(name_from_line(&chars("\"quoted\"")), "quoted");
}

#[test]
fn names_agree_with_the_standard_library() {
    for content in [
        "project_name = \"Demo\"\nversion = \"0.1.0\"",
        "a\r\nb\n\nc\r",
        "\r\n",
        "project_nam\nproject_name\n",
        "xproject_name = project_name =  = \"\"y\"",
    ] {
        let by_lines =
            content.lines().find(|l| l.starts_with("project_name")).map(|l| {
                l.replace("project_name = ", "").replace('"', "")
            });
        assert_eq!(find_declared_name(content), by_lines);
    }
}

#[test]
fn model_reads_its_name_from_the_descriptor() {
    let m = LazoModel::new("/tmp/demo".to_string(), Some("project_name = \"Demo\"\nversion = \"0.1.0\""));
    assert_eq!(m.project_path, "/tmp/demo");
    assert_eq!(m.project_name, "Demo");
    assert_eq!(m.error_msg, None);
    assert!(m.shows_canvas());
}

#[test]
fn model_without_descriptor_records_an_error() {
    let m = LazoModel::new(".".to_string(), None);
    assert_eq!(m.project_name, UNNAMED_PROJECT);
    assert_eq!(m.project_name, "Unnamed Project");
    assert_eq!(
        m.error_msg,
        Some("CRITICAL: project.toml not found in the specified path.".to_string())
    );
    assert!(!m.shows_canvas());
}

#[test]
fn model_keeps_its_name_where_none_is_declared() {
    let mut m = LazoModel::new(".".to_string(), Some("version = \"0.1.0\""));
    assert_eq!(m.project_name, "Unnamed Project");
    assert_eq!(m.error_msg, None);
    m.sync_with_project_file(Some("project_name = \"Now\""));
    assert_eq!(m.project_name, "Now");
    m.sync_with_project_file(None);
    assert_eq!(m.project_name, "Now");
    assert!(m.error_msg.is_some());
    m.sync_with_project_file(Some("project_name = \"Again\""));
    assert_eq!(m.project_name, "Again");
    assert!(m.error_msg.is_some());
}

#[test]
fn node_reads_its_name_from_the_descriptor() {
    let n = LazoNode::new("/p".to_string(), Some("project_name = \"Demo\"\nversion = \"0.1.0\""));
    assert_eq!(n.project_path, "/p");
    assert_eq!(n.project_name, "Demo");
    assert!(!n.is_running);
}

#[test]
fn node_finds_the_name_on_a_later_line() {
    let n = LazoNode::new("/p".to_string(), Some("version = \"0.1.0\"\nproject_name = \"Demo\""));
    assert_eq!(n.project_name, "Demo");
    let other = LazoNode::new("/p".to_string(), Some("title\nproject_name = \"Demo\""));
    assert_eq!(other.project_name, "Demo");
}

#[test]
fn node_and_model_read_the_same_name() {
    for content in [
        "project_name = \"Demo\"\nversion = \"0.1.0\"",
        "version = \"0.1.0\"\r\nproject_name = \"Late\"\r\n",
        "version = \"0.1.0\"",
        "",
    ] {
        let n = LazoNode::new(".".to_string(), Some(content));
        let m = LazoModel::new(".".to_string(), Some(content));
        assert_eq!(n.project_name, m.project_name);
    }
}

#[test]
fn node_without_descriptor_goes_on_unnamed() {
    let n = LazoNode::new("/p".to_string(), None);
    assert_eq!(n.project_name, "Unnamed Project");
    let empty = LazoNode::new("/p".to_string(), Some(""));
    assert_eq!(empty.project_name, "Unnamed Project");
    let nameless = LazoNode::new("/p".to_string(), Some("version = \"0.1.0\""));
    assert_eq!(nameless.project_name, "Unnamed Project");
    let mut n = LazoNode::new("/p".to_string(), Some("project_name = \"Kept\""));
    n.sync_with_project_file(None);
    assert_eq!(n.project_name, "Kept");
}

#[test]
fn node_control_toggles_the_runtime() {
    let mut n = LazoNode::new("/p".to_string(), None);
    assert_eq!(n.status_label(), "STANDBY");
    assert_eq!(n.control_label(), "START RUNTIME");
    n.toggle_running();
    assert!(n.is_running);
    assert_eq!(n.status_label(), "LIVE");
    assert_eq!(n.control_label(), "STOP EXECUTION");
    n.toggle_running();
    assert!(!n.is_running);
}

#[test]
fn project_path_follows_the_flag() {
    let args = |v: &[&str]| v.iter().map(|s| s.to_string()).collect::<Vec<String>>();
    assert_eq!(PROJECT_PATH_FLAG, "--project-path");
    assert_eq!(DESCRIPTOR_FILE, "project.toml");
    assert_eq!(project_path(&args(&["lazo-node", "--project-path", "/work/demo"])), "/work/demo");
    assert_eq!(project_path(&args(&["lazo-node"])), ".");
    assert_eq!(project_path(&args(&[])), ".");
    assert_eq!(project_path(&args(&["lazo-node", "--project-path"])), ".");
    assert_eq!(project_path(&args(&["x", "--project-path", "a", "--project-path", "b"])), "a");
    assert_eq!(project_path(&args(&["x", "--project-path", "--project-path", "b"])), "--project-path");
    assert_eq!(project_path(&args(&["x", "--project-paths", "a"])), ".");
}

#[test]
fn without_agrees_with_replace() {
    for (s, pat) in [
        ("aaa", "aa"),
        ("abcabc", "bc"),
        ("ababa", "aba"),
        ("", "x"),
        ("xyz", ""),
        ("x", "xyz"),
        ("münchen", "ü"),
        ("\"a\"\"", "\""),
    ] {
        assert_eq!(text(&without(&chars(s), &chars(pat))), s.replace(pat, ""));
    }
    assert_eq!(text(&without(&chars("aaa"), &chars("aa"))), "a");
}

#[test]
fn split_lines_agrees_with_lines() {
    for s in ["", "\n", "a", "a\n", "a\nb", "a\r\nb\r\n", "a\rb\r", "\r\n\r\n", "\n\nx", "a\r\r\n"] {
        let got: Vec<String> = split_lines(&chars(s)).iter().map(|l| text(l)).collect();
        let expected: Vec<String> = s.lines().map(|l| l.to_string()).collect();
        assert_eq!(got, expected);
    }
    let got: Vec<String> = split_lines(&chars("a\r\nb")).iter().map(|l| text(l)).collect();
    assert_eq!(got, vec!["a", "b"]);
}

#[test]
fn trim_agrees_with_the_standard_library() {
    for s in ["", " ", "  a b  ", "\t\nx\r\n", "\u{2003}wide\u{a0}", "a", " \u{200b} ", "  \u{3000}"] {
        assert_eq!(text(&trim(&chars(s))), s.trim());
    }
    assert_eq!(text(&trim(&chars("  a b \t"))), "a b");
    assert_eq!(text(&trim(&chars("ab"))), "ab");
}

#[test]
fn kept_range_drops_flagged_ends() {
    assert_eq!(kept_range(&vec![true, false, true]), (1, 2));
    assert_eq!(kept_range(&vec![false, true, false]), (0, 3));
    assert_eq!(kept_range(&vec![true, true]), (2, 2));
    assert_eq!(kept_range(&vec![]), (0, 0));
    assert_eq!(kept_range(&vec![true, true, false, true, false, true, true]), (2, 5));
}

#[test]
fn small_text_helpers() {
    assert_eq!(chars_of("añb"), vec!['a', 'ñ', 'b']);
    assert_eq!(text(&decimal_chars(0)), "0");
    assert_eq!(text(&decimal_chars(9)), "9");
    assert_eq!(text(&decimal_chars(10)), "10");
    assert_eq!(text(&decimal_chars(4096)), "4096");
    assert_eq!(text(&decimal_chars(usize::MAX)), usize::MAX.to_string());
    assert_eq!(slice_of(&chars("hello"), 1, 3), vec!['e', 'l']);
    assert_eq!(slice_of(&chars("hello"), 2, 2), Vec::<char>::new());
    assert!(has_prefix_at(&chars("hello"), 2, &chars("llo")));
    assert!(has_prefix_at(&chars("hello"), 5, &chars("")));
    assert!(!has_prefix_at(&chars("hello"), 3, &chars("llo")));
    assert!(!has_prefix_at(&chars("hello"), 4, &chars("ox")));
}

#[test]
fn white_space_is_what_the_standard_library_takes_for_it() {
    let mut count = 0;
    for code in 0..=0x10FFFF_u32 {
        if let Some(c) = char::from_u32(code) {
            assert_eq!(is_white_space(c), c.is_whitespace());
            if is_white_space(c) {
                count += 1;
            }
        }
    }
    assert_eq!(count, 25);
    assert!(is_white_space('\u{3000}'));
    assert!(is_white_space('\u{85}'));
    assert!(!is_white_space('\u{200b}'));
    assert!(!is_white_space('\u{180e}'));
    assert!(!is_white_space('a'));
}
