use freight::commands::{
    TuiArgs, login_target, LoginArgs, LoginMode, PackageInfo, Registry, RepoSearch, SearchArgs,
    SearchLine, SearchOutcome,
};

fn pkg(name: &str, latest: &str, desc: Option<&str>) -> PackageInfo {
    PackageInfo { name: name.to_string(), latest: latest.to_string(), description: desc.map(str::to_string) }
}

#[test]
fn search_report_lines() {
    let args = SearchArgs { query: "zlib".to_string(), repo: None };
    let results = vec![
        RepoSearch { key: String::new(), outcome: SearchOutcome::Found(vec![pkg("zlib", "1.3", Some("compression"))]) },
        RepoSearch { key: "corp".to_string(), outcome: SearchOutcome::Found(Vec::new()) },
        RepoSearch { key: "mirror".to_string(), outcome: SearchOutcome::Failed("timeout".to_string()) },
        RepoSearch { key: "extra".to_string(), outcome: SearchOutcome::Found(vec![pkg("zlib-ng", "2.1", None)]) },
    ];
    assert_eq!(
        args.run(&results),
        vec![
            SearchLine::Header,
            SearchLine::Rule,
            SearchLine::Package { name: "zlib".to_string(), latest: "1.3".to_string(), description: "compression".to_string() },
            SearchLine::Status { label: "corp".to_string(), message: "no results for `zlib`".to_string() },
            SearchLine::Warning("mirror: timeout".to_string()),
            SearchLine::Package { name: "zlib-ng".to_string(), latest: "2.1".to_string(), description: String::new() },
        ]
    );
}

#[test]
fn search_report_when_nothing_found() {
    let args = SearchArgs { query: "nope".to_string(), repo: None };
    let results = vec![RepoSearch { key: String::new(), outcome: SearchOutcome::Found(Vec::new()) }];
    assert_eq!(
        args.run(&results),
        vec![
            SearchLine::Status { label: "freight.dev".to_string(), message: "no results for `nope`".to_string() },
            SearchLine::NothingFound("no packages found matching `nope`".to_string()),
        ]
    );
    assert_eq!(args.run(&Vec::new()), vec![SearchLine::NothingFound("no packages found matching `nope`".to_string())]);
}

#[test]
fn login_modes() {
    let base = || LoginArgs { registry: None, token: None, username: None, password: None, notui: false };
    assert_eq!(base().mode(), LoginMode::Interactive);
    assert_eq!(LoginArgs { token: Some("t".to_string()), ..base() }.mode(), LoginMode::Token);
    assert_eq!(LoginArgs { notui: true, username: Some("u".to_string()), ..base() }.mode(), LoginMode::Token);
    assert_eq!(LoginArgs { password: Some("p".to_string()), ..base() }.mode(), LoginMode::Credentials);
}

#[test]
fn login_registry_choice() {
    let regs = vec![
        Registry { name: "corp".to_string(), url: "https://corp.example".to_string() },
        Registry { name: "pub".to_string(), url: "https://pub.example".to_string() },
    ];
    assert_eq!(
        login_target(None, &regs, "https://freight.dev"),
        ("https://corp.example".to_string(), "corp".to_string())
    );
    assert_eq!(
        login_target(Some("https://pub.example"), &regs, "https://freight.dev"),
        ("https://pub.example".to_string(), "pub".to_string())
    );
    assert_eq!(
        login_target(Some("https://other"), &regs, "https://freight.dev"),
        ("https://other".to_string(), "freight".to_string())
    );
    assert_eq!(
        login_target(None, &Vec::new(), "https://freight.dev"),
        ("https://freight.dev".to_string(), "freight".to_string())
    );
}

#[test]
fn tui_session_choice() {
    let args = |token: Option<&str>| TuiArgs { url: "http://localhost:7878".to_string(), token: token.map(str::to_string) };
    let saved = Some(("https://saved".to_string(), "tok2".to_string()));
    assert_eq!(args(Some("tok")).session(saved.clone()), ("http://localhost:7878".to_string(), Some("tok".to_string())));
    assert_eq!(args(None).session(saved), ("https://saved".to_string(), Some("tok2".to_string())));
    assert_eq!(args(None).session(None), ("http://localhost:7878".to_string(), None));
}
