//! What the setup commands report: skill installation and status, the MCP
//! client configuration, and the MCP doctor's findings. The commands look at
//! the file system and run the server binary; these functions turn what they
//! found into the reports.

use vstd::prelude::*;

use crate::app::{object_of, opt_str_json, opt_text, ObjectBuilder};
use crate::cli::{
    codex_config_text, join_path, path_join, render_codex_project_config, render_workspace_mcp_json,
    skill_install_notes, skill_notes_spec, skill_target_word, workspace_mcp_text, SkillInstallPlan,
    SkillTargetArg, BUNDLED_SKILL_NAME,
};
use crate::error::{error_message, YnabError};
use crate::json::{items_view, json_view, lemma_items_view_push, Json, JsonV};

verus! {

// ---------------------------------------------------------------------------
// Skills
// ---------------------------------------------------------------------------

/// `SKILL.md` of a skill installed at `destination`.
pub open spec fn skill_md_path(destination: Seq<char>) -> Seq<char> {
    path_join(destination, "SKILL.md"@)
}

/// `agents/openai.yaml` of a skill installed at `destination`.
pub open spec fn openai_yaml_path(destination: Seq<char>) -> Seq<char> {
    path_join(path_join(destination, "agents"@), "openai.yaml"@)
}

/// The files of a skill installed at `destination`: `SKILL.md` and
/// `agents/openai.yaml`.
pub fn skill_files(destination: &str) -> (r: (String, String))
    ensures
        r.0@ == skill_md_path(destination@),
        r.1@ == openai_yaml_path(destination@),
{
    let agents = join_path(destination, "agents");
    (join_path(destination, "SKILL.md"), join_path(agents.as_str(), "openai.yaml"))
}

/// `{ "path": path, "exists": exists }`
pub open spec fn file_status_view(path: Seq<char>, exists: bool) -> JsonV {
    JsonV::Object(object_of(seq![("path"@, JsonV::Str(path)), ("exists"@, JsonV::Bool(exists))]))
}

fn file_status(path: String, exists: bool) -> (r: Json)
    ensures
        r@ == file_status_view(path@, exists),
{
    let ghost p = path@;
    let mut b = ObjectBuilder::new();
    b.add("path", Json::String(path));
    b.add("exists", Json::Bool(exists));
    proof {
        assert(b.members@ =~= seq![("path"@, JsonV::Str(p)), ("exists"@, JsonV::Bool(exists))]);
    }
    Json::Object(b.map)
}

/// The members of the status of a skill install location.
pub open spec fn skill_status_members(
    plan: SkillInstallPlan,
    skill_md_exists: bool,
    openai_yaml_exists: bool,
) -> Seq<(Seq<char>, JsonV)> {
    seq![
        ("supported"@, JsonV::Bool(true)),
        ("scope"@, JsonV::Str(plan.scope@)),
        ("project"@, opt_str_json(opt_text(plan.project))),
        ("destination"@, JsonV::Str(plan.destination@)),
        ("installed"@, JsonV::Bool(skill_md_exists)),
        ("files"@, JsonV::Object(
            object_of(
                seq![
                    ("skill_md"@, file_status_view(skill_md_path(plan.destination@), skill_md_exists)),
                    ("openai_yaml"@, file_status_view(
                        openai_yaml_path(plan.destination@),
                        openai_yaml_exists,
                    )),
                ],
            ),
        )),
    ]
}

fn opt_string(o: &Option<String>) -> (r: Json)
    ensures
        r@ == opt_str_json(opt_text(*o)),
{
    match o {
        Some(s) => Json::String(s.clone()),
        None => Json::Null,
    }
}

/// The status of a skill install location, given whether its two files
/// exist: the skill counts as installed when `SKILL.md` exists.
pub fn skill_status_json(plan: &SkillInstallPlan, skill_md_exists: bool, openai_yaml_exists: bool) -> (r:
    Json)
    ensures
        r@ == JsonV::Object(object_of(skill_status_members(*plan, skill_md_exists, openai_yaml_exists))),
{
    let (skill_md, openai_yaml) = skill_files(plan.destination.as_str());
    let mut files = ObjectBuilder::new();
    files.add("skill_md", file_status(skill_md, skill_md_exists));
    files.add("openai_yaml", file_status(openai_yaml, openai_yaml_exists));
    let ghost file_members = files.members@;
    let mut b = ObjectBuilder::new();
    b.add("supported", Json::Bool(true));
    b.add("scope", Json::from_str(plan.scope));
    b.add("project", opt_string(&plan.project));
    b.add("destination", Json::String(plan.destination.clone()));
    b.add("installed", Json::Bool(skill_md_exists));
    b.add("files", Json::Object(files.map));
    proof {
        assert(file_members =~= seq![
            ("skill_md"@, file_status_view(skill_md_path(plan.destination@), skill_md_exists)),
            ("openai_yaml"@, file_status_view(openai_yaml_path(plan.destination@), openai_yaml_exists)),
        ]);
        assert(b.members@ =~= skill_status_members(*plan, skill_md_exists, openai_yaml_exists));
    }
    Json::Object(b.map)
}

/// The status of a location a skill cannot be installed to:
/// `{ "supported": false, "error": message }`.
pub fn skill_unsupported_json(error: &YnabError) -> (r: Json)
    ensures
        r@ == JsonV::Object(
            object_of(
                seq![
                    ("supported"@, JsonV::Bool(false)),
                    ("error"@, JsonV::Str(error_message(*error))),
                ],
            ),
        ),
{
    let mut b = ObjectBuilder::new();
    b.add("supported", Json::Bool(false));
    b.add("error", Json::String(error.message()));
    proof {
        assert(b.members@ =~= seq![
            ("supported"@, JsonV::Bool(false)),
            ("error"@, JsonV::Str(error_message(*error))),
        ]);
    }
    Json::Object(b.map)
}

/// The status of one target: its user-level install and, when a project was
/// given, its install in the project.
pub fn skill_target_status(target: SkillTargetArg, default_install: Json, project_install: Option<Json>) -> (r:
    Json)
    ensures
        r@ == JsonV::Object(
            object_of(
                seq![
                    ("target"@, JsonV::Str(skill_target_word(target))),
                    ("default_install"@, default_install@),
                    ("project_install"@, match project_install {
                        Some(p) => p@,
                        None => JsonV::Null,
                    }),
                ],
            ),
        ),
{
    let project = match project_install {
        Some(p) => p,
        None => Json::Null,
    };
    let mut b = ObjectBuilder::new();
    b.add("target", Json::from_str(target.as_str()));
    b.add("default_install", default_install);
    b.add("project_install", project);
    proof {
        assert(b.members@ =~= seq![
            ("target"@, JsonV::Str(skill_target_word(target))),
            ("default_install"@, default_install@),
            ("project_install"@, match project_install {
                Some(q) => q@,
                None => JsonV::Null,
            }),
        ]);
    }
    Json::Object(b.map)
}

/// The skill status report: the bundled skill's name, the project asked
/// about, and the status of each target.
pub fn skill_status_report(project: Option<String>, targets: Vec<Json>) -> (r: Json)
    ensures
        r@ == JsonV::Object(
            object_of(
                seq![
                    ("skill_name"@, JsonV::Str("ynab-cli"@)),
                    ("project"@, opt_str_json(opt_text(project))),
                    ("targets"@, JsonV::Array(items_view(targets@))),
                ],
            ),
        ),
{
    let ghost t = targets@;
    let mut b = ObjectBuilder::new();
    b.add("skill_name", Json::from_str(BUNDLED_SKILL_NAME));
    b.add("project", opt_string(&project));
    b.add("targets", Json::Array(targets));
    proof {
        assert(b.members@ =~= seq![
            ("skill_name"@, JsonV::Str("ynab-cli"@)),
            ("project"@, opt_str_json(opt_text(project))),
            ("targets"@, JsonV::Array(items_view(t))),
        ]);
    }
    Json::Object(b.map)
}

/// Texts as a JSON array of strings.
pub open spec fn texts_view(s: Seq<Seq<char>>) -> JsonV {
    JsonV::Array(Seq::new(s.len(), |i: int| JsonV::Str(s[i])))
}

fn str_array(v: &Vec<&'static str>) -> (r: Json)
    ensures
        r@ == JsonV::Array(Seq::new(v@.len(), |i: int| JsonV::Str(v@[i]@))),
{
    let mut items: Vec<Json> = Vec::new();
    let mut i: usize = 0;
    while i < v.len()
        invariant
            i <= v@.len(),
            items_view(items@) =~= Seq::new(i as nat, |k: int| JsonV::Str(v@[k]@)),
        decreases v@.len() - i,
    {
        let item = Json::from_str(v[i]);
        proof {
            lemma_items_view_push(items@, item);
        }
        items.push(item);
        i = i + 1;
    }
    Json::Array(items)
}

/// The members of the report of an installed skill.
pub open spec fn skill_install_members(plan: SkillInstallPlan, force: bool) -> Seq<(Seq<char>, JsonV)> {
    seq![
        ("target"@, JsonV::Str(skill_target_word(plan.target))),
        ("scope"@, JsonV::Str(plan.scope@)),
        ("project"@, opt_str_json(opt_text(plan.project))),
        ("destination"@, JsonV::Str(plan.destination@)),
        ("files_written"@, JsonV::Array(
            seq![
                JsonV::Str(skill_md_path(plan.destination@)),
                JsonV::Str(openai_yaml_path(plan.destination@)),
            ],
        )),
        ("force"@, JsonV::Bool(force)),
        ("notes"@, texts_view(skill_notes_spec(plan.target, plan.scope@))),
    ]
}

/// The report of an installed skill: where it went, the files written, and
/// the notes for its target.
pub fn skill_install_report(plan: &SkillInstallPlan, force: bool) -> (r: Json)
    ensures
        r@ == JsonV::Object(object_of(skill_install_members(*plan, force))),
{
    let (skill_md, openai_yaml) = skill_files(plan.destination.as_str());
    let mut written: Vec<Json> = Vec::new();
    let first = Json::String(skill_md);
    let second = Json::String(openai_yaml);
    proof {
        lemma_items_view_push(written@, first);
    }
    written.push(first);
    proof {
        lemma_items_view_push(written@, second);
    }
    written.push(second);
    let notes = skill_install_notes(plan.target, plan.scope);
    let notes_json = str_array(&notes);
    proof {
        let spec = skill_notes_spec(plan.target, plan.scope@);
        assert(Seq::new(notes@.len(), |i: int| JsonV::Str(notes@[i]@)) =~= Seq::new(
            spec.len(),
            |i: int| JsonV::Str(spec[i]),
        ));
        assert(items_view(written@) =~= seq![
            JsonV::Str(skill_md_path(plan.destination@)),
            JsonV::Str(openai_yaml_path(plan.destination@)),
        ]);
    }
    let mut b = ObjectBuilder::new();
    b.add("target", Json::from_str(plan.target.as_str()));
    b.add("scope", Json::from_str(plan.scope));
    b.add("project", opt_string(&plan.project));
    b.add("destination", Json::String(plan.destination.clone()));
    b.add("files_written", Json::Array(written));
    b.add("force", Json::Bool(force));
    b.add("notes", notes_json);
    proof {
        assert(b.members@ =~= skill_install_members(*plan, force));
    }
    Json::Object(b.map)
}

// ---------------------------------------------------------------------------
// MCP setup
// ---------------------------------------------------------------------------

/// The notes of the MCP configuration report.
pub open spec fn mcp_config_notes() -> Seq<Seq<char>> {
    seq![
        "Codex typically starts and stops stdio MCP servers for you."@,
        "For Codex app workspaces, the project-scoped ~/.codex/config.toml stanza is the most reliable setup path."@,
        "The .mcp.json snippet is included as a fallback for clients that use project-local MCP config files."@,
    ]
}

/// The members of the MCP configuration report.
pub open spec fn mcp_config_members(project: Seq<char>, binary: Seq<char>, codex_config_file: Seq<char>) -> Seq<
    (Seq<char>, JsonV),
> {
    seq![
        ("server_name"@, JsonV::Str("ynab"@)),
        ("project"@, JsonV::Str(project)),
        ("binary_path"@, JsonV::Str(binary)),
        ("codex_config_file"@, JsonV::Str(codex_config_file)),
        ("codex_config_toml"@, JsonV::Str(codex_config_text(project, binary))),
        ("workspace_mcp_json"@, JsonV::Str(workspace_mcp_text(binary))),
        ("notes"@, texts_view(mcp_config_notes())),
    ]
}

/// The MCP configuration report for a project and the server binary: the
/// Codex project stanza, the workspace `.mcp.json`, and notes.
pub fn mcp_config_report(project: &str, binary: &str, codex_config_file: &str) -> (r: Json)
    ensures
        r@ == JsonV::Object(object_of(mcp_config_members(project@, binary@, codex_config_file@))),
{
    let mut notes: Vec<&'static str> = Vec::new();
    notes.push("Codex typically starts and stops stdio MCP servers for you.");
    notes.push(
        "For Codex app workspaces, the project-scoped ~/.codex/config.toml stanza is the most reliable setup path.",
    );
    notes.push(
        "The .mcp.json snippet is included as a fallback for clients that use project-local MCP config files.",
    );
    let notes_json = str_array(&notes);
    proof {
        let spec = mcp_config_notes();
        assert(Seq::new(notes@.len(), |i: int| JsonV::Str(notes@[i]@)) =~= Seq::new(
            spec.len(),
            |i: int| JsonV::Str(spec[i]),
        ));
    }
    let mut b = ObjectBuilder::new();
    b.add("server_name", Json::from_str("ynab"));
    b.add("project", Json::from_str(project));
    b.add("binary_path", Json::from_str(binary));
    b.add("codex_config_file", Json::from_str(codex_config_file));
    b.add("codex_config_toml", Json::String(render_codex_project_config(project, binary)));
    b.add("workspace_mcp_json", Json::String(render_workspace_mcp_json(binary)));
    b.add("notes", notes_json);
    proof {
        assert(b.members@ =~= mcp_config_members(project@, binary@, codex_config_file@));
    }
    Json::Object(b.map)
}

/// The `.mcp.json` file of a project.
pub fn mcp_json_file(project: &str) -> (r: String)
    ensures
        r@ == path_join(project@, ".mcp.json"@),
{
    join_path(project, ".mcp.json")
}

/// What the doctor found about a project.
#[derive(Debug)]
pub struct DoctorProject {
    pub path: String,
    pub mcp_json_exists: bool,
}

/// Whether the help check of the server binary succeeded: its `ok` member
/// is `true`.
pub open spec fn help_check_ok(help_check: Option<JsonV>) -> bool {
    match help_check {
        Some(h) => h.member("ok"@) == Some(JsonV::Bool(true)),
        None => false,
    }
}

/// Whether authentication is set up: the status names a source other than
/// `none`.
pub open spec fn auth_ready(auth: JsonV) -> bool {
    match auth.member("auth_source"@) {
        Some(JsonV::Str(s)) => s != "none"@,
        _ => false,
    }
}

/// The project part of the doctor's report.
pub open spec fn doctor_project_view(p: DoctorProject, binary: Seq<char>) -> JsonV {
    JsonV::Object(
        object_of(
            seq![
                ("path"@, JsonV::Str(p.path@)),
                ("mcp_json_file"@, JsonV::Str(path_join(p.path@, ".mcp.json"@))),
                ("mcp_json_exists"@, JsonV::Bool(p.mcp_json_exists)),
                ("recommended_codex_config"@, JsonV::Str(codex_config_text(p.path@, binary))),
                ("workspace_mcp_json"@, JsonV::Str(workspace_mcp_text(binary))),
            ],
        ),
    )
}

/// The members of the doctor's report.
pub open spec fn doctor_members(
    binary: Seq<char>,
    binary_exists: bool,
    help_check: Option<JsonV>,
    auth: JsonV,
    codex_config_file: Seq<char>,
    project: Option<DoctorProject>,
) -> Seq<(Seq<char>, JsonV)> {
    seq![
        ("binary"@, JsonV::Object(
            object_of(
                seq![
                    ("path"@, JsonV::Str(binary)),
                    ("exists"@, JsonV::Bool(binary_exists)),
                    ("help_check"@, match help_check {
                        Some(h) => h,
                        None => JsonV::Null,
                    }),
                ],
            ),
        )),
        ("auth"@, auth),
        ("codex"@, JsonV::Object(object_of(seq![("config_file"@, JsonV::Str(codex_config_file))]))),
        ("project"@, match project {
            Some(p) => doctor_project_view(p, binary),
            None => JsonV::Null,
        }),
        ("summary"@, JsonV::Object(
            object_of(
                seq![
                    ("binary_ready"@, JsonV::Bool(binary_exists && help_check_ok(help_check))),
                    ("auth_ready"@, JsonV::Bool(auth_ready(auth))),
                ],
            ),
        )),
    ]
}

fn doctor_project(p: &DoctorProject, binary: &str) -> (r: Json)
    ensures
        r@ == doctor_project_view(*p, binary@),
{
    let mut b = ObjectBuilder::new();
    b.add("path", Json::String(p.path.clone()));
    b.add("mcp_json_file", Json::String(mcp_json_file(p.path.as_str())));
    b.add("mcp_json_exists", Json::Bool(p.mcp_json_exists));
    b.add(
        "recommended_codex_config",
        Json::String(render_codex_project_config(p.path.as_str(), binary)),
    );
    b.add("workspace_mcp_json", Json::String(render_workspace_mcp_json(binary)));
    proof {
        assert(b.members@ =~= seq![
            ("path"@, JsonV::Str(p.path@)),
            ("mcp_json_file"@, JsonV::Str(path_join(p.path@, ".mcp.json"@))),
            ("mcp_json_exists"@, JsonV::Bool(p.mcp_json_exists)),
            ("recommended_codex_config"@, JsonV::Str(codex_config_text(p.path@, binary@))),
            ("workspace_mcp_json"@, JsonV::Str(workspace_mcp_text(binary@))),
        ]);
    }
    Json::Object(b.map)
}

/// The doctor's report: the server binary and its help check, the
/// authentication status, the Codex configuration file, the project, and
/// whether the binary and authentication are ready.
pub fn mcp_doctor_report(
    binary: &str,
    binary_exists: bool,
    help_check: Option<Json>,
    auth: Json,
    codex_config_file: &str,
    project: Option<DoctorProject>,
) -> (r: Json)
    ensures
        r@ == JsonV::Object(
            object_of(
                doctor_members(
                    binary@,
                    binary_exists,
                    match help_check {
                        Some(h) => Some(h@),
                        None => None,
                    },
                    auth@,
                    codex_config_file@,
                    project,
                ),
            ),
        ),
{
    let ghost help_view = match &help_check {
        Some(h) => Some(h@),
        None => None::<JsonV>,
    };
    let ghost auth_view = auth@;
    let help_ok = match &help_check {
        Some(h) => match h.get("ok") {
            Some(v) => match v.as_bool() {
                Some(b) => b,
                None => false,
            },
            None => false,
        },
        None => false,
    };
    let ready = match auth.get("auth_source") {
        Some(v) => match v.as_str() {
            Some(s) => !crate::text::str_eq(s.as_str(), "none"),
            None => false,
        },
        None => false,
    };
    proof {
        reveal_strlit("none");
    }
    let help = match help_check {
        Some(h) => h,
        None => Json::Null,
    };
    let mut binary_part = ObjectBuilder::new();
    binary_part.add("path", Json::from_str(binary));
    binary_part.add("exists", Json::Bool(binary_exists));
    binary_part.add("help_check", help);
    let ghost binary_members = binary_part.members@;
    let mut codex = ObjectBuilder::new();
    codex.add("config_file", Json::from_str(codex_config_file));
    let ghost codex_members = codex.members@;
    let project_part = match &project {
        Some(p) => doctor_project(p, binary),
        None => Json::Null,
    };
    let mut summary = ObjectBuilder::new();
    summary.add("binary_ready", Json::Bool(binary_exists && help_ok));
    summary.add("auth_ready", Json::Bool(ready));
    let ghost summary_members = summary.members@;
    let mut b = ObjectBuilder::new();
    b.add("binary", Json::Object(binary_part.map));
    b.add("auth", auth);
    b.add("codex", Json::Object(codex.map));
    b.add("project", project_part);
    b.add("summary", Json::Object(summary.map));
    proof {
        assert(help_ok == help_check_ok(help_view));
        assert(ready == auth_ready(auth_view));
        assert(binary_members =~= seq![
            ("path"@, JsonV::Str(binary@)),
            ("exists"@, JsonV::Bool(binary_exists)),
            ("help_check"@, match help_view {
                Some(h) => h,
                None => JsonV::Null,
            }),
        ]);
        assert(codex_members =~= seq![("config_file"@, JsonV::Str(codex_config_file@))]);
        assert(summary_members =~= seq![
            ("binary_ready"@, JsonV::Bool(binary_exists && help_check_ok(help_view))),
            ("auth_ready"@, JsonV::Bool(auth_ready(auth_view))),
        ]);
        assert(b.members@ =~= doctor_members(
            binary@,
            binary_exists,
            help_view,
            auth_view,
            codex_config_file@,
            project,
        ));
    }
    Json::Object(b.map)
}

} // verus!
