//! Skills and skill packs: the records the UI works with, the textual
//! `.skill` file format (a title line marked `# `, a description line, and a
//! body), the predefined skills, and the workspace paths everything is
//! stored under.

use crate::files::{extension_of, file_name_of, file_name_str};
use crate::ids::fresh_uuid_string;
use crate::strutil::{
    lemma_lines_of_break,
    lemma_lines_of_nonempty,
    lines_of,
    split_lines,
    strip_cr,
};
use vstd::prelude::*;
use vstd::string::StrSliceExecFns;
use vstd::string::StringExecFns;

verus! {

/// One skill: a predefined one, one read from a user's `.skill` file, or one
/// belonging to an installed pack.
#[derive(Debug)]
pub struct Skill {
    pub id: String,
    pub name: String,
    pub description: String,
    pub version: String,
    pub author: String,
    pub category: String,
    pub tags: Vec<String>,
    pub file_path: Option<String>,
    pub is_user_skill: bool,
}

/// An installable bundle of skills.
#[derive(Debug)]
pub struct SkillPack {
    pub id: String,
    pub name: String,
    pub description: String,
    pub version: String,
    pub author: String,
    pub skills: Vec<Skill>,
    pub download_url: Option<String>,
    pub is_installed: bool,
}

/// A title line with every leading `# ` mark removed.
pub open spec fn strip_title_marks(l: Seq<char>) -> Seq<char>
    decreases l.len(),
{
    if l.len() >= 2 && l[0] == '#' && l[1] == ' ' {
        strip_title_marks(l.skip(2))
    } else {
        l
    }
}

/// A title line with every leading `# ` mark removed.
pub fn strip_title_marks_str(line: &str) -> (r: String)
    ensures
        r@ == strip_title_marks(line@),
{
    let n = line.unicode_len();
    let mut start: usize = 0;
    proof {
        assert(line@.skip(0) =~= line@);
    }
    while n - start >= 2 && line.get_char(start) == '#' && line.get_char(start + 1) == ' '
        invariant
            n == line@.len(),
            start <= n,
            strip_title_marks(line@) == strip_title_marks(line@.skip(start as int)),
        decreases n - start,
    {
        proof {
            assert(line@.skip(start as int)[0] == '#');
            assert(line@.skip(start as int)[1] == ' ');
            assert(line@.skip(start as int).skip(2) =~= line@.skip(start + 2));
        }
        start = start + 2;
    }
    let sub = line.substring_char(start, n);
    proof {
        let tail = line@.skip(start as int);
        assert(line@.subrange(start as int, n as int) =~= tail);
        assert(!(tail.len() >= 2 && tail[0] == '#' && tail[1] == ' '));
        assert(strip_title_marks(tail) == tail);
    }
    String::from_str(sub)
}

/// What a parsed `.skill` file yields: the title with its `# ` marks
/// stripped, and the description line.
pub open spec fn parsed_skill_name(content: Seq<char>) -> Seq<char> {
    strip_title_marks(lines_of(content)[0])
}

/// The description line of a parsed `.skill` file.
pub open spec fn parsed_skill_description(content: Seq<char>) -> Seq<char> {
    lines_of(content)[1]
}

/// Parses the text of a `.skill` file: at least three lines -- title,
/// description, body -- or it is rejected. The returned name is the first
/// line stripped of its `# ` marks; the description is the second line.
pub fn parse_skill_content(content: &str) -> (r: Result<(String, String), String>)
    ensures
        r is Ok <==> lines_of(content@).len() >= 3,
        r is Ok ==> r->Ok_0.0@ == parsed_skill_name(content@) && r->Ok_0.1@
            == parsed_skill_description(content@),
        r is Err ==> r->Err_0@ == "Invalid skill file format"@,
{
    let lines = split_lines(content);
    if lines.len() < 3 {
        return Err(String::from_str("Invalid skill file format"));
    }
    let name = strip_title_marks_str(lines[0].as_str());
    let description = lines[1].clone();
    Ok((name, description))
}

/// Renders a `.skill` file: the `# `-marked title line, the description
/// line, and the body.
pub fn render_skill_content(name: &str, description: &str, body: &str) -> (r: String)
    ensures
        r@ == seq!['#', ' '] + name@ + seq!['\n'] + description@ + seq!['\n'] + body@,
{
    let mut out = String::from_str("# ");
    out.append(name);
    out.append("\n");
    out.append(description);
    out.append("\n");
    out.append(body);
    proof {
        reveal_strlit("# ");
        reveal_strlit("\n");
        assert(out@ =~= seq!['#', ' '] + name@ + seq!['\n'] + description@ + seq!['\n'] + body@);
    }
    out
}

/// Law: rendering a skill file and parsing it back restores the name and the
/// description, provided neither spans lines (no line breaks or carriage
/// returns in them), the name does not itself open with a `# ` mark, and the
/// body is nonempty.
pub proof fn lemma_skill_render_parse_round_trip(
    name: Seq<char>,
    description: Seq<char>,
    body: Seq<char>,
)
    requires
        forall|i: int| 0 <= i < name.len() ==> (#[trigger] name[i]) != '\n' && name[i] != '\r',
        forall|i: int|
            0 <= i < description.len() ==> (#[trigger] description[i]) != '\n' && description[i]
                != '\r',
        !(name.len() >= 2 && name[0] == '#' && name[1] == ' '),
        body.len() > 0,
    ensures
        ({
            let rendered = seq!['#', ' '] + name + seq!['\n'] + description + seq!['\n'] + body;
            &&& lines_of(rendered).len() >= 3
            &&& parsed_skill_name(rendered) == name
            &&& parsed_skill_description(rendered) == description
        }),
{
    let rendered = seq!['#', ' '] + name + seq!['\n'] + description + seq!['\n'] + body;
    let title = seq!['#', ' '] + name;
    let tail = description + seq!['\n'] + body;
    assert(rendered =~= title + seq!['\n'] + tail);
    assert forall|l: int| 0 <= l < title.len() implies (#[trigger] title[l]) != '\n' by {
        if l >= 2 {
            assert(title[l] == name[l - 2]);
        }
    }
    lemma_lines_of_break(title, tail);
    assert forall|l: int| 0 <= l < description.len() implies (#[trigger] description[l])
        != '\n' by {}
    lemma_lines_of_break(description, body);
    lemma_lines_of_nonempty(body);
    assert(lines_of(rendered) =~~= seq![strip_cr(title)] + (seq![strip_cr(description)] + lines_of(
        body,
    )));
    assert(strip_cr(title) == title) by {
        if name.len() > 0 {
            assert(title[title.len() - 1] == name[name.len() - 1]);
        }
    }
    assert(strip_cr(description) == description);
    assert(lines_of(rendered)[0] == title);
    assert(lines_of(rendered)[1] == description);
    assert(strip_title_marks(title) == strip_title_marks(title.skip(2)));
    assert(title.skip(2) =~= name);
    assert(strip_title_marks(name) == name);
}

/// The skill record for a user's `.skill` file at the given path: the parsed
/// name and description, a fresh `user-`-prefixed identifier, and the stock
/// user-skill fields. Rejected exactly when the file has fewer than three
/// lines.
pub fn skill_from_content(path: String, content: &str) -> (r: Result<Skill, String>)
    ensures
        r is Ok <==> lines_of(content@).len() >= 3,
        r is Err ==> r->Err_0@ == "Invalid skill file format"@,
        r is Ok ==> {
            let s = r->Ok_0;
            &&& s.id@.len() == 41
            &&& s.id@.take(5) == "user-"@
            &&& s.name@ == parsed_skill_name(content@)
            &&& s.description@ == parsed_skill_description(content@)
            &&& s.version@ == "1.0.0"@
            &&& s.author@ == "User"@
            &&& s.category@ == "user"@
            &&& s.tags@.len() == 0
            &&& s.file_path == Some(path)
            &&& s.is_user_skill
        },
{
    let (name, description) = match parse_skill_content(content) {
        Ok(pair) => pair,
        Err(e) => {
            return Err(e);
        },
    };
    let uuid = fresh_uuid_string();
    let mut id = String::from_str("user-");
    id.append(uuid.as_str());
    proof {
        reveal_strlit("user-");
        assert(id@.take(5) =~= "user-"@);
    }
    Ok(
        Skill {
            id,
            name,
            description,
            version: String::from_str("1.0.0"),
            author: String::from_str("User"),
            category: String::from_str("user"),
            tags: Vec::new(),
            file_path: Some(path),
            is_user_skill: true,
        },
    )
}

/// The skill record for one file of an installed pack: named after the
/// file's name (or `Unknown Skill` for a path without one), authored by the
/// pack, with a fresh identifier opened by the pack's own.
pub fn skill_from_pack_entry(pack_id: &str, file_path: String) -> (r: Skill)
    ensures
        r.id@.len() == pack_id@.len() + 43,
        r.id@.take(pack_id@.len() + 7 as int) == pack_id@ + "-skill-"@,
        file_name_of(file_path@).len() > 0 ==> r.name@ == file_name_of(file_path@),
        file_name_of(file_path@).len() == 0 ==> r.name@ == "Unknown Skill"@,
        r.description@ == "Skill from pack"@,
        r.version@ == "1.0.0"@,
        r.author@ == pack_id@,
        r.category@ == "pack"@,
        r.tags@.len() == 0,
        r.file_path == Some(file_path),
        !r.is_user_skill,
{
    let uuid = fresh_uuid_string();
    let mut id = String::from_str(pack_id);
    id.append("-skill-");
    id.append(uuid.as_str());
    proof {
        reveal_strlit("-skill-");
        assert(id@.take(pack_id@.len() + 7 as int) =~= pack_id@ + "-skill-"@);
    }
    let name = file_name_str(file_path.as_str());
    let name = if name.as_str().is_empty() {
        String::from_str("Unknown Skill")
    } else {
        name
    };
    Skill {
        id,
        name,
        description: String::from_str("Skill from pack"),
        version: String::from_str("1.0.0"),
        author: String::from_str(pack_id),
        category: String::from_str("pack"),
        tags: Vec::new(),
        file_path: Some(file_path),
        is_user_skill: false,
    }
}

/// The fallback record for an installed pack directory without a readable
/// manifest: named after the directory, with no skills listed yet.
pub fn skill_pack_fallback(pack_id: String) -> (r: SkillPack)
    ensures
        r.id == pack_id,
        r.name == pack_id,
        r.description@ == "Loaded skill pack"@,
        r.version@ == "1.0.0"@,
        r.author@ == "Unknown"@,
        r.skills@.len() == 0,
        r.download_url is None,
        r.is_installed,
{
    let name = pack_id.clone();
    SkillPack {
        id: pack_id,
        name,
        description: String::from_str("Loaded skill pack"),
        version: String::from_str("1.0.0"),
        author: String::from_str("Unknown"),
        skills: Vec::new(),
        download_url: None,
        is_installed: true,
    }
}

/// The two predefined skills every installation offers.
pub fn system_skills() -> (r: Vec<Skill>)
    ensures
        r@.len() == 2,
        r@[0].id@ == "code-review"@,
        r@[0].name@ == "Code Review"@,
        r@[0].category@ == "development"@,
        r@[0].file_path is None,
        !r@[0].is_user_skill,
        r@[1].id@ == "debug-assistant"@,
        r@[1].name@ == "Debug Assistant"@,
        r@[1].category@ == "debugging"@,
        r@[1].file_path is None,
        !r@[1].is_user_skill,
{
    let mut tags0: Vec<String> = Vec::new();
    tags0.push(String::from_str("code"));
    tags0.push(String::from_str("review"));
    let mut tags1: Vec<String> = Vec::new();
    tags1.push(String::from_str("debug"));
    tags1.push(String::from_str("assistance"));
    let mut skills: Vec<Skill> = Vec::new();
    skills.push(
        Skill {
            id: String::from_str("code-review"),
            name: String::from_str("Code Review"),
            description: String::from_str(
                "Review code for best practices and potential issues",
            ),
            version: String::from_str("1.0.0"),
            author: String::from_str("System"),
            category: String::from_str("development"),
            tags: tags0,
            file_path: None,
            is_user_skill: false,
        },
    );
    skills.push(
        Skill {
            id: String::from_str("debug-assistant"),
            name: String::from_str("Debug Assistant"),
            description: String::from_str("Help debug code and identify issues"),
            version: String::from_str("1.0.0"),
            author: String::from_str("System"),
            category: String::from_str("debugging"),
            tags: tags1,
            file_path: None,
            is_user_skill: false,
        },
    );
    skills
}

/// Whether a directory entry is a user skill file: its extension is `skill`.
pub fn is_skill_file(name: &str) -> (r: bool)
    ensures
        r == (extension_of(name@) is Some && extension_of(name@)->0 == "skill"@),
{
    match crate::files::extension_str(name) {
        Some(e) => e == String::from_str("skill"),
        None => false,
    }
}

/// A directory entry joined under a directory, with `/` between them.
pub fn join_path(dir: &str, name: &str) -> (r: String)
    ensures
        r@ == dir@ + seq!['/'] + name@,
{
    let mut p = String::from_str(dir);
    p.append("/");
    p.append(name);
    proof {
        reveal_strlit("/");
        assert(p@ =~= dir@ + seq!['/'] + name@);
    }
    p
}

/// The directory installed skill packs live in.
pub fn skill_packs_dir(workspace: &str) -> (r: String)
    ensures
        r@ == workspace@ + "/skill-packs"@,
{
    let mut p = String::from_str(workspace);
    p.append("/skill-packs");
    p
}

/// The directory a user's own skills live in.
pub fn user_skills_dir(workspace: &str) -> (r: String)
    ensures
        r@ == workspace@ + "/skill-packs/user"@,
{
    let mut p = String::from_str(workspace);
    p.append("/skill-packs/user");
    p
}

/// The directory downloaded archives are unpacked in.
pub fn downloads_dir(workspace: &str) -> (r: String)
    ensures
        r@ == workspace@ + "/skill-packs/downloads"@,
{
    let mut p = String::from_str(workspace);
    p.append("/skill-packs/downloads");
    p
}

/// Where a user skill with the given identifier lives.
pub fn user_skill_path(workspace: &str, skill_id: &str) -> (r: String)
    ensures
        r@ == workspace@ + "/skill-packs/user/"@ + skill_id@,
{
    let mut p = String::from_str(workspace);
    p.append("/skill-packs/user/");
    p.append(skill_id);
    p
}

/// Where an installed pack with the given identifier lives.
pub fn skill_pack_path(workspace: &str, pack_id: &str) -> (r: String)
    ensures
        r@ == workspace@ + "/skill-packs/"@ + pack_id@,
{
    let mut p = String::from_str(workspace);
    p.append("/skill-packs/");
    p.append(pack_id);
    p
}

/// Where a fresh user skill with the given name is written.
pub fn user_skill_file_path(workspace: &str, name: &str) -> (r: String)
    ensures
        r@ == workspace@ + "/skill-packs/user/"@ + name@ + ".skill"@,
{
    let mut p = String::from_str(workspace);
    p.append("/skill-packs/user/");
    p.append(name);
    p.append(".skill");
    p
}

/// The archive name a download is stored under: the file name of the URL, or
/// the stock name when the URL has no file name at all (it is empty or all
/// separators).
pub open spec fn archive_name(url: Seq<char>) -> Seq<char> {
    if file_name_of(url).len() > 0 {
        file_name_of(url)
    } else {
        "skill-pack.zip"@
    }
}

/// The archive name a download is stored under.
pub fn archive_name_for(url: &str) -> (r: String)
    ensures
        r@ == archive_name(url@),
{
    let name = file_name_str(url);
    if name.as_str().is_empty() {
        String::from_str("skill-pack.zip")
    } else {
        name
    }
}

} // verus!
