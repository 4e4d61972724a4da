use project_ctl::cargo::{
    build_windows, cmd, report_row, ActionOutcome, BuildParams, BuildPlan, Command, Invocation,
    Report, Row, TargetBuild, Visit,
};
use project_ctl::manifest::{ManifestMetadata, OptimizationLevel, ParseError, ReleaseProfileFlags};
use project_ctl::registry::{Project, ProjectRoot};
use project_ctl::report::{ColorClass, Token};

fn token(symbol: &str, color: ColorClass) -> Token {
    Token { symbol: symbol.to_string(), color }
}

fn hygienic() -> ReleaseProfileFlags {
    ReleaseProfileFlags {
        link_time_optimization: Some(true),
        strip_symbols: Some(true),
        debug_info: Some(false),
        debug_assertions: Some(false),
        runtime_path_embedding: Some(false),
        incremental_compilation: Some(false),
        optimization_level: Some(OptimizationLevel::Level(2)),
        codegen_units: Some(1),
    }
}

fn visit(
    name: &str,
    edition: Option<&str>,
    has_binary_target: bool,
    release_profile: Option<ReleaseProfileFlags>,
    outcome: ActionOutcome,
) -> Visit {
    Visit {
        project: Project {
            root: ProjectRoot {
                absolute_path: format!("/r/{}", name),
                display_name: name.to_string(),
            },
            metadata: ManifestMetadata {
                name: name.to_string(),
                edition: edition.map(|e| e.to_string()),
                has_binary_target,
                release_profile,
            },
        },
        outcome,
    }
}

fn strings(items: &[&str]) -> Vec<String> {
    items.iter().map(|s| s.to_string()).collect()
}

#[test]
fn commands_name_their_action() {
    assert_eq!(Command::Audit.action(), Some("audit"));
    assert_eq!(Command::Clean.action(), Some("clean"));
    assert_eq!(Command::Update.action(), Some("update"));
    assert_eq!(Command::Info.action(), None);
    assert_eq!(Command::BuildWin(BuildParams { use_upx: true, release: true }).action(), None);
}

#[test]
fn row_of_a_compliant_current_binary() {
    let row = report_row(1, &visit("tool", Some("2024"), true, Some(hygienic()), ActionOutcome::Succeeded), "2024");
    assert_eq!(
        row,
        Row {
            index: token("0001 ", ColorClass::Positive),
            edition: token("2024 ", ColorClass::Positive),
            release: token("R   ", ColorClass::Positive),
            name: token("tool                    ", ColorClass::Neutral),
            path: token("tool", ColorClass::Neutral),
        }
    );
    assert_eq!(row.name.symbol.len(), 24);
}

#[test]
fn row_of_a_failed_action_on_an_old_library() {
    let row = report_row(12, &visit("lib", Some("2018"), false, None, ActionOutcome::Failed), "2024");
    assert_eq!(row.index, token("0012 ", ColorClass::Negative));
    assert_eq!(row.edition, token("2018 ", ColorClass::Negative));
    assert_eq!(row.release, token("    ", ColorClass::Neutral));
}

#[test]
fn row_of_a_binary_without_edition_or_profile() {
    let row = report_row(10000, &visit("b", None, true, None, ActionOutcome::Succeeded), "2024");
    assert_eq!(row.index, token("10000 ", ColorClass::Positive));
    assert_eq!(row.edition, token("---- ", ColorClass::Negative));
    assert_eq!(row.release, token("R!  ", ColorClass::Warning));
    let mut loose = hygienic();
    loose.codegen_units = Some(2);
    let row = report_row(2, &visit("b", None, true, Some(loose), ActionOutcome::Succeeded), "2024");
    assert_eq!(row.release, token("R-  ", ColorClass::Negative));
}

#[test]
fn long_names_are_not_cut() {
    let name = "a-name-that-is-longer-than-the-column";
    let row = report_row(1, &visit(name, None, false, None, ActionOutcome::Succeeded), "2024");
    assert_eq!(row.name.symbol, name);
}

#[test]
fn report_counts_all_and_rows_only_the_reachable() {
    let visits = vec![
        visit("a", Some("2024"), false, None, ActionOutcome::Succeeded),
        visit("b", Some("2024"), false, None, ActionOutcome::Unreachable),
        visit("c", Some("2021"), false, None, ActionOutcome::Failed),
    ];
    let report = cmd("/r", &visits, "2024");
    assert_eq!(report.path, "/r");
    assert_eq!(report.total, 3);
    assert_eq!(report.rows.len(), 2);
    assert_eq!(report.rows[0], report_row(1, &visits[0], "2024"));
    assert_eq!(report.rows[1], report_row(3, &visits[2], "2024"));
    assert_eq!(report.rows[1].index.symbol, "0003 ");
}

#[test]
fn report_on_no_projects_has_no_rows() {
    assert_eq!(cmd("/r", &vec![], "2024"), Report { path: "/r".to_string(), total: 0, rows: vec![] });
}

#[test]
fn plan_of_a_release_build_with_compression() {
    let manifest = "[package]\nname = \"tool\"\nversion = \"0.3.1\"\n";
    let plan = build_windows(manifest, &BuildParams { use_upx: true, release: true }, "/srv/share").unwrap();
    assert_eq!(
        plan,
        BuildPlan {
            name: "tool".to_string(),
            version: "0.3.1".to_string(),
            builds: vec![
                TargetBuild {
                    target: "x86_64-pc-windows-gnu".to_string(),
                    steps: vec![
                        Invocation {
                            program: "cargo".to_string(),
                            arguments: strings(&["build", "--target", "x86_64-pc-windows-gnu", "--release"]),
                        },
                        Invocation {
                            program: "cp".to_string(),
                            arguments: strings(&[
                                "./target/x86_64-pc-windows-gnu/release/tool.exe",
                                "/srv/share/tool-v0.3.1-windows-x86_64.exe",
                            ]),
                        },
                        Invocation {
                            program: "upx".to_string(),
                            arguments: strings(&["/srv/share/tool-v0.3.1-windows-x86_64.exe"]),
                        },
                    ],
                },
                TargetBuild {
                    target: "i686-pc-windows-gnu".to_string(),
                    steps: vec![
                        Invocation {
                            program: "cargo".to_string(),
                            arguments: strings(&["build", "--target", "i686-pc-windows-gnu", "--release"]),
                        },
                        Invocation {
                            program: "cp".to_string(),
                            arguments: strings(&[
                                "./target/i686-pc-windows-gnu/release/tool.exe",
                                "/srv/share/tool-v0.3.1-windows-x86_32.exe",
                            ]),
                        },
                        Invocation {
                            program: "upx".to_string(),
                            arguments: strings(&["/srv/share/tool-v0.3.1-windows-x86_32.exe"]),
                        },
                    ],
                },
            ],
        }
    );
}

#[test]
fn plan_of_a_debug_build_without_compression() {
    let manifest = "[package]\nname = \"tool\"\nversion = \"1.0.0\"\n";
    let plan = build_windows(manifest, &BuildParams { use_upx: false, release: false }, "/home/anton/share").unwrap();
    assert_eq!(plan.builds.len(), 2);
    for build in &plan.builds {
        assert_eq!(build.steps.len(), 2);
        assert_eq!(build.steps[0].arguments, strings(&["build", "--target", build.target.as_str()]));
    }
    assert_eq!(
        plan.builds[0].steps[1].arguments,
        strings(&[
            "./target/x86_64-pc-windows-gnu/debug/tool.exe",
            "/home/anton/share/tool-v1.0.0-windows-x86_64.exe"
        ])
    );
}

#[test]
fn no_plan_without_name_and_version() {
    let params = BuildParams { use_upx: false, release: true };
    assert_eq!(build_windows("[package]\nname = \"tool\"\n", &params, "/s"), Err(ParseError::MissingField));
    assert_eq!(build_windows("", &params, "/s"), Err(ParseError::MissingField));
    assert_eq!(build_windows("][", &params, "/s"), Err(ParseError::Malformed));
    assert_eq!(
        build_windows("[package]\nname = \"tool\"\nversion = 2\n", &params, "/s"),
        Err(ParseError::Malformed)
    );
}
