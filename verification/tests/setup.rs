use ynab_agent::cli::{
    render_codex_project_config, render_workspace_mcp_json, SkillInstallPlan, SkillTargetArg,
};
use ynab_agent::error::YnabError;
use ynab_agent::json::{Json, JsonMap};
use ynab_agent::setup::{
    mcp_config_report, mcp_doctor_report, mcp_json_file, skill_files, skill_install_report,
    skill_status_json, skill_status_report, skill_target_status, skill_unsupported_json,
    DoctorProject,
};

fn obj(pairs: Vec<(&str, Json)>) -> Json {
    let mut m = JsonMap::new();
    for (k, v) in pairs {
        m.insert(k.to_string(), v);
    }
    Json::Object(m)
}

fn s(v: &str) -> Json {
    Json::String(v.to_string())
}

fn plan(target: SkillTargetArg, scope: &'static str, project: Option<&str>) -> SkillInstallPlan {
    SkillInstallPlan {
        target,
        scope,
        destination: "/home/me/.codex/skills/ynab-cli".to_string(),
        project: project.map(|p| p.to_string()),
    }
}

#[test]
fn skill_files_sit_in_the_destination() {
    let (md, yaml) = skill_files("/home/me/.codex/skills/ynab-cli");
    assert_eq!(md, "/home/me/.codex/skills/ynab-cli/SKILL.md");
    assert_eq!(yaml, "/home/me/.codex/skills/ynab-cli/agents/openai.yaml");
}

#[test]
fn skill_status_reports_files_and_installed_flag() {
    let status = skill_status_json(&plan(SkillTargetArg::Codex, "user", None), true, false);
    let expected = obj(vec![
        ("supported", Json::Bool(true)),
        ("scope", s("user")),
        ("project", Json::Null),
        ("destination", s("/home/me/.codex/skills/ynab-cli")),
        ("installed", Json::Bool(true)),
        (
            "files",
            obj(vec![
                (
                    "skill_md",
                    obj(vec![
                        ("path", s("/home/me/.codex/skills/ynab-cli/SKILL.md")),
                        ("exists", Json::Bool(true)),
                    ]),
                ),
                (
                    "openai_yaml",
                    obj(vec![
                        ("path", s("/home/me/.codex/skills/ynab-cli/agents/openai.yaml")),
                        ("exists", Json::Bool(false)),
                    ]),
                ),
            ]),
        ),
    ]);
    assert_eq!(status, expected);
    let missing = skill_status_json(&plan(SkillTargetArg::Codex, "project", Some("/w")), false, true);
    match missing {
        Json::Object(m) => {
            assert_eq!(m.get("installed"), Some(&Json::Bool(false)));
            assert_eq!(m.get("project"), Some(&s("/w")));
        }
        other => panic!("unexpected status {other:?}"),
    }
}

#[test]
fn skill_status_report_gathers_targets() {
    let unsupported = skill_unsupported_json(&YnabError::Config("no project".to_string()));
    assert_eq!(
        unsupported,
        obj(vec![
            ("supported", Json::Bool(false)),
            ("error", s("configuration error: no project")),
        ])
    );
    let target = skill_target_status(SkillTargetArg::Openclaw, Json::Bool(true), None);
    assert_eq!(
        target,
        obj(vec![
            ("target", s("openclaw")),
            ("default_install", Json::Bool(true)),
            ("project_install", Json::Null),
        ])
    );
    let with_project = skill_target_status(SkillTargetArg::Codex, Json::Null, Some(s("x")));
    match &with_project {
        Json::Object(m) => assert_eq!(m.get("project_install"), Some(&s("x"))),
        other => panic!("unexpected status {other:?}"),
    }
    let report = skill_status_report(Some("/w".to_string()), vec![target]);
    match report {
        Json::Object(m) => {
            assert_eq!(m.get("skill_name"), Some(&s("ynab-cli")));
            assert_eq!(m.get("project"), Some(&s("/w")));
            match m.get("targets") {
                Some(Json::Array(items)) => assert_eq!(items.len(), 1),
                other => panic!("unexpected targets {other:?}"),
            }
        }
        other => panic!("unexpected report {other:?}"),
    }
}

#[test]
fn skill_install_report_lists_written_files_and_notes() {
    let report = skill_install_report(&plan(SkillTargetArg::Codex, "user", None), true);
    let expected = obj(vec![
        ("target", s("codex")),
        ("scope", s("user")),
        ("project", Json::Null),
        ("destination", s("/home/me/.codex/skills/ynab-cli")),
        (
            "files_written",
            Json::Array(vec![
                s("/home/me/.codex/skills/ynab-cli/SKILL.md"),
                s("/home/me/.codex/skills/ynab-cli/agents/openai.yaml"),
            ]),
        ),
        ("force", Json::Bool(true)),
        (
            "notes",
            Json::Array(vec![
                s("Restart Codex if it does not pick up the new user-level skill automatically."),
                s("The agents/openai.yaml file is optional metadata for Codex/OpenAI clients."),
            ]),
        ),
    ]);
    assert_eq!(report, expected);
    let project = skill_install_report(&plan(SkillTargetArg::Codex, "project", Some("/w")), false);
    match project {
        Json::Object(m) => assert_eq!(m.get("notes"), Some(&Json::Array(vec![]))),
        other => panic!("unexpected report {other:?}"),
    }
}

#[test]
fn mcp_config_report_carries_both_snippets() {
    let report = mcp_config_report("/w", "/bin/ynab-mcp", "/home/me/.codex/config.toml");
    let expected = obj(vec![
        ("server_name", s("ynab")),
        ("project", s("/w")),
        ("binary_path", s("/bin/ynab-mcp")),
        ("codex_config_file", s("/home/me/.codex/config.toml")),
        ("codex_config_toml", Json::String(render_codex_project_config("/w", "/bin/ynab-mcp"))),
        ("workspace_mcp_json", Json::String(render_workspace_mcp_json("/bin/ynab-mcp"))),
        (
            "notes",
            Json::Array(vec![
                s("Codex typically starts and stops stdio MCP servers for you."),
                s("For Codex app workspaces, the project-scoped ~/.codex/config.toml stanza is the most reliable setup path."),
                s("The .mcp.json snippet is included as a fallback for clients that use project-local MCP config files."),
            ]),
        ),
    ]);
    assert_eq!(report, expected);
    assert_eq!(mcp_json_file("/w"), "/w/.mcp.json");
}

#[test]
fn mcp_doctor_summarizes_readiness() {
    let auth = obj(vec![("auth_source", s("config"))]);
    let report = mcp_doctor_report(
        "/bin/ynab-mcp",
        true,
        Some(obj(vec![("ok", Json::Bool(true))])),
        auth,
        "/home/me/.codex/config.toml",
        Some(DoctorProject { path: "/w".to_string(), mcp_json_exists: false }),
    );
    let expected_summary =
        obj(vec![("binary_ready", Json::Bool(true)), ("auth_ready", Json::Bool(true))]);
    match &report {
        Json::Object(m) => {
            assert_eq!(m.get("summary"), Some(&expected_summary));
            assert_eq!(
                m.get("codex"),
                Some(&obj(vec![("config_file", s("/home/me/.codex/config.toml"))]))
            );
            match m.get("project") {
                Some(Json::Object(p)) => {
                    assert_eq!(p.get("mcp_json_file"), Some(&s("/w/.mcp.json")));
                    assert_eq!(p.get("mcp_json_exists"), Some(&Json::Bool(false)));
                }
                other => panic!("unexpected project {other:?}"),
            }
        }
        other => panic!("unexpected report {other:?}"),
    }
    let not_ready = mcp_doctor_report(
        "/bin/ynab-mcp",
        false,
        None,
        obj(vec![("auth_source", s("none"))]),
        "/c",
        None,
    );
    let expected = obj(vec![
        (
            "binary",
            obj(vec![
                ("path", s("/bin/ynab-mcp")),
                ("exists", Json::Bool(false)),
                ("help_check", Json::Null),
            ]),
        ),
        ("auth", obj(vec![("auth_source", s("none"))])),
        ("codex", obj(vec![("config_file", s("/c"))])),
        ("project", Json::Null),
        ("summary", obj(vec![("binary_ready", Json::Bool(false)), ("auth_ready", Json::Bool(false))])),
    ]);
    assert_eq!(not_ready, expected);
    let failed_help = mcp_doctor_report(
        "/b",
        true,
        Some(obj(vec![("ok", Json::Bool(false))])),
        obj(vec![]),
        "/c",
        None,
    );
    match failed_help {
        Json::Object(m) => assert_eq!(
            m.get("summary"),
            Some(&obj(vec![("binary_ready", Json::Bool(false)), ("auth_ready", Json::Bool(false))]))
        ),
        other => panic!("unexpected report {other:?}"),
    }
}
