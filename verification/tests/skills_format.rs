use skills_cowork::files::{extension_str, file_name_str};
use skills_cowork::skills::{
    archive_name_for, downloads_dir, is_skill_file, join_path, parse_skill_content,
    render_skill_content, skill_from_content, skill_from_pack_entry, skill_pack_fallback,
    skill_pack_path, skill_packs_dir, strip_title_marks_str, system_skills, user_skill_file_path,
    user_skill_path, user_skills_dir,
};
use skills_cowork::strutil::{split_lines, str_ends_with, u64_to_string};

#[test]
fn split_lines_matches_line_semantics() {
    assert_eq!(split_lines(""), Vec::<String>::new());
    assert_eq!(split_lines("a\nb\nc"), vec!["a", "b", "c"]);
    assert_eq!(split_lines("a\nb\n"), vec!["a", "b"]);
    assert_eq!(split_lines("one line"), vec!["one line"]);
    assert_eq!(split_lines("a\r\nb\r\n"), vec!["a", "b"]);
    assert_eq!(split_lines("a\n\nb"), vec!["a", "", "b"]);
    assert_eq!(split_lines("\n"), vec![""]);
    assert_eq!(split_lines("tail\r"), vec!["tail\r"]);
}

#[test]
fn decimal_rendering() {
    assert_eq!(u64_to_string(0), "0");
    assert_eq!(u64_to_string(7), "7");
    assert_eq!(u64_to_string(10), "10");
    assert_eq!(u64_to_string(1234567890), "1234567890");
    assert_eq!(u64_to_string(u64::MAX), "18446744073709551615");
}

#[test]
fn suffix_checks() {
    assert!(str_ends_with("pack.zip", ".zip"));
    assert!(!str_ends_with("pack.tar", ".zip"));
    assert!(!str_ends_with("ip", ".zip"));
    assert!(str_ends_with("anything", ""));
}

#[test]
fn file_name_and_extension() {
    assert_eq!(file_name_str("/a/b/c.txt"), "c.txt");
    assert_eq!(file_name_str("plain"), "plain");
    assert_eq!(file_name_str("/a/b/"), "b");
    assert_eq!(file_name_str("a//"), "a");
    assert_eq!(file_name_str("/"), "");
    assert_eq!(file_name_str("///"), "");
    assert_eq!(file_name_str(""), "");
    assert_eq!(extension_str("/a/b/c.txt").as_deref(), Some("txt"));
    assert_eq!(extension_str("archive.tar.gz").as_deref(), Some("gz"));
    assert_eq!(extension_str("/a/.hidden"), None);
    assert_eq!(extension_str("noext"), None);
    assert_eq!(extension_str("trailing.").as_deref(), Some(""));
}

#[test]
fn title_marks_are_stripped_repeatedly() {
    assert_eq!(strip_title_marks_str("# Title"), "Title");
    assert_eq!(strip_title_marks_str("# # Nested"), "Nested");
    assert_eq!(strip_title_marks_str("No marks"), "No marks");
    assert_eq!(strip_title_marks_str("#NoSpace"), "#NoSpace");
}

#[test]
fn parse_rejects_short_files() {
    assert_eq!(
        parse_skill_content("# Title\nonly one more line"),
        Err("Invalid skill file format".to_string())
    );
    assert!(parse_skill_content("").is_err());
}

#[test]
fn parse_reads_title_and_description() {
    let (name, description) = parse_skill_content("# Greet\nSays hello\nbody text").unwrap();
    assert_eq!(name, "Greet");
    assert_eq!(description, "Says hello");
}

#[test]
fn render_then_parse_restores_name_and_description() {
    let rendered = render_skill_content("Greet", "Says hello", "body text\nmore body");
    assert_eq!(rendered, "# Greet\nSays hello\nbody text\nmore body");
    let (name, description) = parse_skill_content(&rendered).unwrap();
    assert_eq!(name, "Greet");
    assert_eq!(description, "Says hello");
}

#[test]
fn skill_from_content_builds_a_user_skill() {
    let skill = skill_from_content(
        "/ws/skill-packs/user/greet.skill".to_string(),
        "# Greet\nSays hello\nbody",
    )
    .unwrap();
    assert_eq!(skill.name, "Greet");
    assert_eq!(skill.description, "Says hello");
    assert_eq!(skill.id.len(), 41);
    assert!(skill.id.starts_with("user-"));
    assert_eq!(skill.version, "1.0.0");
    assert_eq!(skill.author, "User");
    assert_eq!(skill.category, "user");
    assert!(skill.tags.is_empty());
    assert_eq!(skill.file_path.as_deref(), Some("/ws/skill-packs/user/greet.skill"));
    assert!(skill.is_user_skill);

    assert!(skill_from_content("p".to_string(), "too\nshort").is_err());
}

#[test]
fn pack_entry_skills_are_named_after_their_file() {
    let skill = skill_from_pack_entry("web-tools", "/ws/skill-packs/web-tools/skills/fetch.md".to_string());
    assert_eq!(skill.name, "fetch.md");
    assert!(skill.id.starts_with("web-tools-skill-"));
    assert_eq!(skill.id.len(), "web-tools".len() + 7 + 36);
    assert_eq!(skill.author, "web-tools");
    assert_eq!(skill.category, "pack");
    assert_eq!(skill.description, "Skill from pack");
    assert!(!skill.is_user_skill);
}

#[test]
fn fallback_pack_is_named_after_its_directory() {
    let pack = skill_pack_fallback("my-pack".to_string());
    assert_eq!(pack.id, "my-pack");
    assert_eq!(pack.name, "my-pack");
    assert_eq!(pack.description, "Loaded skill pack");
    assert_eq!(pack.version, "1.0.0");
    assert_eq!(pack.author, "Unknown");
    assert!(pack.skills.is_empty());
    assert!(pack.download_url.is_none());
    assert!(pack.is_installed);
}

#[test]
fn predefined_skills() {
    let skills = system_skills();
    assert_eq!(skills.len(), 2);
    assert_eq!(skills[0].id, "code-review");
    assert_eq!(skills[0].name, "Code Review");
    assert_eq!(skills[0].category, "development");
    assert_eq!(skills[1].id, "debug-assistant");
    assert_eq!(skills[1].name, "Debug Assistant");
    assert_eq!(skills[1].category, "debugging");
    assert!(!skills[0].is_user_skill && !skills[1].is_user_skill);
}

#[test]
fn skill_file_detection() {
    assert!(is_skill_file("greet.skill"));
    assert!(is_skill_file("a.b.skill"));
    assert!(!is_skill_file("greet.txt"));
    assert!(!is_skill_file("skill"));
    assert!(!is_skill_file(".skill"));
}

#[test]
fn workspace_skill_paths() {
    assert_eq!(skill_packs_dir("/ws"), "/ws/skill-packs");
    assert_eq!(user_skills_dir("/ws"), "/ws/skill-packs/user");
    assert_eq!(downloads_dir("/ws"), "/ws/skill-packs/downloads");
    assert_eq!(user_skill_path("/ws", "abc"), "/ws/skill-packs/user/abc");
    assert_eq!(skill_pack_path("/ws", "web-tools"), "/ws/skill-packs/web-tools");
    assert_eq!(user_skill_file_path("/ws", "greet"), "/ws/skill-packs/user/greet.skill");
    assert_eq!(join_path("/tmp", "x.zip"), "/tmp/x.zip");
}

#[test]
fn archive_names_fall_back_for_bare_urls() {
    assert_eq!(archive_name_for("https://example.net/packs/tools.zip"), "tools.zip");
    assert_eq!(archive_name_for("https://example.net/packs/"), "packs");
    assert_eq!(archive_name_for("///"), "skill-pack.zip");
    assert_eq!(archive_name_for(""), "skill-pack.zip");
}
