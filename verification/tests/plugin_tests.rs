use dsh_desktop::hub::{
    fetch_hub_detail, get_hub, hub_registry_spec, is_hub_segment, normalize_hub_sort, query_encode,
    search_hub, search_url, show_item, show_page, submit_hub_install, HubDetail, HubListItem,
    HubListResponse, HubManifest,
};
use dsh_desktop::json::{follow, read_json, JsonNode};
use dsh_desktop::plugin_spec::{
    is_name_part, is_package_name, is_version_tag, parse_registry_spec, plugin_add_args,
    plugin_remove_args, registry_name, split_name_and_version,
};
use dsh_desktop::entries::{
    collect_entry_ids, disabled_entries, render_disable_patch, unquote_yaml, yaml_plain,
};
use dsh_desktop::plugins::{
    bundle_entry_ids, bundle_patch, clear_disabled, cli_failure, dependency_version,
    disable_plugin, is_user_plugin, read_bundles, read_user_plugins, retain_installed,
    sync_disable_patch, truncate, user_plugin, UserPlugin, UserPluginState,
};

const MANIFEST: &str = r#"{
    "dependencies": {
        "@anionex/dsh-vision-toolkit": "^0.1.9"
    },
    "dsh": {
        "profile": {
            "bundles": [
                "@deepseek-ai/dsh-base",
                "@deepseek-ai/dsh-web-app",
                "@anionex/dsh-vision-toolkit"
            ]
        }
    }
}"#;

fn list_item(owner: &str, name: &str) -> HubListItem {
    HubListItem {
        owner: owner.to_string(),
        name: name.to_string(),
        full_name: None,
        description: None,
        stars: None,
        forks: None,
        category: None,
        homepage: None,
        repository_url: None,
        topics: None,
        pushed_at: None,
    }
}

fn detail(manifest: Option<HubManifest>) -> HubDetail {
    HubDetail {
        owner: "Anionex".to_string(),
        name: "dsh-vision-toolkit".to_string(),
        full_name: Some("Anionex/dsh-vision-toolkit".to_string()),
        description: None,
        stars: Some(7),
        forks: None,
        category: None,
        license: Some("MIT".to_string()),
        homepage: None,
        repository_url: None,
        topics: Some(vec!["vision".to_string()]),
        pushed_at: None,
        manifest,
    }
}

#[test]
fn registry_specs_from_official_add_commands_are_accepted() {
    assert_eq!(
        parse_registry_spec(" @anionex/dsh-vision-toolkit ").unwrap(),
        "@anionex/dsh-vision-toolkit"
    );
    assert_eq!(parse_registry_spec("dsh-recall").unwrap(), "dsh-recall");
    assert_eq!(
        parse_registry_spec("dsh-recall@1.2.3").unwrap(),
        "dsh-recall@1.2.3"
    );
    assert_eq!(
        parse_registry_spec("@anionex/dsh-vision-toolkit@0.1.0").unwrap(),
        "@anionex/dsh-vision-toolkit@0.1.0"
    );
}

#[test]
fn non_registry_specs_are_rejected() {
    for spec in [
        "",
        ".",
        "../plugin",
        "file:./plugin",
        "git+https://github.com/a/b.git",
        "github:a/b",
        "@scope",
        "UpperCase",
        "dsh recall",
        "dsh-recall@1.0.0@beta",
    ] {
        assert!(parse_registry_spec(spec).is_err(), "{spec}");
    }
}

#[test]
fn plugin_add_args_match_official_cli() {
    let args = plugin_add_args("@anionex/dsh-vision-toolkit");
    assert_eq!(
        args,
        ["plugin", "--profile", "web", "add", "@anionex/dsh-vision-toolkit"]
    );
}

#[test]
fn plugin_remove_args_match_official_cli() {
    let args = plugin_remove_args("dsh-recall");
    assert_eq!(args, ["plugin", "--profile", "web", "remove", "dsh-recall"]);
}

#[test]
fn bundle_patch_ids_come_from_insert_rows() {
    let yaml = "- insert:\n    - id: vision-toolkit\n      name: '@anionex/dsh-vision-toolkit'\n    - id: vision-toolkit-client\n      name: '@anionex/dsh-vision-toolkit/client'\n";
    assert_eq!(
        collect_entry_ids(yaml),
        ["vision-toolkit", "vision-toolkit-client"]
    );
}

#[test]
fn disable_patch_is_id_targeted_and_empty_is_a_list() {
    assert_eq!(
        render_disable_patch(&vec![]),
        "# Generated by DeepSeek Harness Desktop.\n[]\n"
    );
    assert_eq!(
        render_disable_patch(&vec!["vision-toolkit".into()]),
        "# Generated by DeepSeek Harness Desktop.\n- id: vision-toolkit\n  disabled: true\n"
    );
}

#[test]
fn builtin_bundles_are_not_user_plugins() {
    let bundles: Vec<String> = read_user_plugins(Some(MANIFEST), &vec![])
        .into_iter()
        .map(|plugin| plugin.name)
        .collect();
    assert_eq!(bundles, ["@anionex/dsh-vision-toolkit"]);
}

#[test]
fn hub_list_item_accepts_null_optional_fields() {
    let item = list_item("Anionex", "dsh-vision-toolkit");
    assert_eq!(item.owner, "Anionex");
    assert_eq!(item.name, "dsh-vision-toolkit");
    let shown = show_item(item);
    assert!(shown.description.is_empty());
    assert_eq!(shown.stars, 0);
    assert!(shown.topics.is_empty());
}

#[test]
fn hub_segments_reject_paths() {
    assert!(is_hub_segment("Anionex"));
    assert!(is_hub_segment("dsh-vision-toolkit"));
    assert!(!is_hub_segment("a/b"));
    assert!(!is_hub_segment(".."));
    assert!(!is_hub_segment(""));
}

#[test]
fn query_encode_keeps_chinese_categories_safe() {
    assert_eq!(query_encode("记忆"), "%E8%AE%B0%E5%BF%86");
    assert_eq!(query_encode("dsh-recall"), "dsh-recall");
}

#[test]
fn hub_sort_accepts_trending_and_stars() {
    assert_eq!(normalize_hub_sort("").unwrap(), "trending");
    assert_eq!(normalize_hub_sort("trending").unwrap(), "trending");
    assert_eq!(normalize_hub_sort("stars").unwrap(), "stars");
    assert!(normalize_hub_sort("forks").is_err());
}

#[test]
fn each_refusal_of_a_spec_says_why() {
    let only = "只支持 npm 包名，例如 dsh-recall 或 @anionex/dsh-vision-toolkit。";
    assert_eq!(parse_registry_spec(" \t\n").unwrap_err(), "请输入 npm 包名。");
    assert_eq!(parse_registry_spec(&"a".repeat(215)).unwrap_err(), "包名过长。");
    assert!(parse_registry_spec(&"a".repeat(214)).is_ok());
    assert_eq!(parse_registry_spec("a\\b").unwrap_err(), only);
    assert_eq!(parse_registry_spec("a..b").unwrap_err(), only);
    assert_eq!(parse_registry_spec("a//b").unwrap_err(), only);
    assert_eq!(parse_registry_spec("a/b").unwrap_err(), only);
    assert_eq!(parse_registry_spec("-g").unwrap_err(), only);
    assert_eq!(
        parse_registry_spec("@scope").unwrap_err(),
        "scoped 包名需要 @scope/name。"
    );
    assert_eq!(
        parse_registry_spec("dsh-recall@").unwrap_err(),
        "版本号无效。"
    );
    assert_eq!(
        parse_registry_spec("dsh-recall@1.0.0@beta").unwrap_err(),
        "版本号无效。"
    );
}

#[test]
fn names_of_specs_are_specs() {
    for raw in [
        " dsh-recall@1.2.3",
        "@anionex/dsh-vision-toolkit@0.1.0",
        "dsh-recall",
    ] {
        let spec = parse_registry_spec(raw).unwrap();
        assert_eq!(parse_registry_spec(&spec).unwrap(), spec);
        let name = registry_name(raw).unwrap();
        assert_eq!(parse_registry_spec(&name).unwrap(), name);
        assert_eq!(registry_name(&name).unwrap(), name);
    }
    assert_eq!(
        registry_name("@anionex/dsh-vision-toolkit@0.1.0").unwrap(),
        "@anionex/dsh-vision-toolkit"
    );
    assert_eq!(registry_name("dsh-recall@1.2.3").unwrap(), "dsh-recall");
    assert!(registry_name("../x").is_err());
}

#[test]
fn specs_split_at_the_version() {
    assert_eq!(
        split_name_and_version("a@1").unwrap(),
        ("a".to_string(), Some("1".to_string()))
    );
    assert_eq!(split_name_and_version("a").unwrap(), ("a".to_string(), None));
    assert_eq!(
        split_name_and_version("@a/b@1@2").unwrap(),
        ("@a/b".to_string(), Some("1@2".to_string()))
    );
    assert!(split_name_and_version("@a").is_err());
}

#[test]
fn names_and_versions_are_told_apart() {
    assert!(is_name_part("a.b_c-d~1"));
    assert!(!is_name_part("1a"));
    assert!(!is_name_part(""));
    assert!(!is_name_part("aB"));
    assert!(is_package_name("@a/b"));
    assert!(!is_package_name("@a"));
    assert!(!is_package_name("@/b"));
    assert!(!is_package_name("@a/b/c"));
    assert!(is_version_tag("1.0.0-rc.1+x~y"));
    assert!(is_version_tag("Latest"));
    assert!(!is_version_tag(".1"));
    assert!(!is_version_tag(""));
    assert!(!is_version_tag("1 2"));
}

#[test]
fn json_texts_are_read_level_by_level() {
    assert_eq!(read_json("null"), JsonNode::Null);
    assert_eq!(read_json(" true "), JsonNode::Bool(true));
    assert_eq!(read_json("12"), JsonNode::Number("12".to_string()));
    assert_eq!(read_json("\"a\\nb\""), JsonNode::Text("a\nb".to_string()));
    assert_eq!(
        read_json("[1, \"x\"]"),
        JsonNode::List(vec!["1".to_string(), "\"x\"".to_string()])
    );
    assert_eq!(
        read_json("{\"b\": [1], \"a\": {}}").field("b"),
        Some("[1]".to_string())
    );
    assert_eq!(read_json("{\"b\": 1}").field("c"), None);
    assert_eq!(read_json("[1]").field("b"), None);
    assert_eq!(read_json("\"x\"").as_text(), Some("x".to_string()));
    assert_eq!(read_json("1").as_text(), None);
    assert!(matches!(read_json("{"), JsonNode::Invalid(reason) if !reason.is_empty()));
    assert_eq!(
        follow("{\"a\":{\"b\":{\"c\":\"d\"}}}", "a", "b", "c"),
        Some(JsonNode::Text("d".to_string()))
    );
    assert_eq!(follow("{\"a\":{\"b\":1}}", "a", "b", "c"), None);
}

#[test]
fn installed_plugins_show_version_and_state() {
    let disabled = vec!["@anionex/dsh-vision-toolkit".to_string()];
    assert_eq!(
        read_user_plugins(Some(MANIFEST), &disabled),
        vec![UserPlugin {
            name: "@anionex/dsh-vision-toolkit".to_string(),
            version: "0.1.9".to_string(),
            enabled: false,
        }]
    );
    assert!(read_user_plugins(Some(MANIFEST), &vec![])[0].enabled);
    assert!(read_user_plugins(None, &vec![]).is_empty());
    assert!(read_user_plugins(Some("not json"), &vec![]).is_empty());
    assert!(read_user_plugins(Some("{\"dsh\":{\"profile\":{}}}"), &vec![]).is_empty());
    let odd = "{\"dsh\":{\"profile\":{\"bundles\":[1,\"a\",null]}},\"dependencies\":{\"a\":2}}";
    assert_eq!(read_bundles(odd), ["a"]);
    assert_eq!(read_user_plugins(Some(odd), &vec![])[0].version, "");
}

#[test]
fn versions_lose_the_marks_of_a_range() {
    assert_eq!(dependency_version(Some("^~=1.0.0")), "1.0.0");
    assert_eq!(dependency_version(Some(">=1.0.0")), ">=1.0.0");
    assert_eq!(dependency_version(None), "");
    assert_eq!(
        user_plugin("@deepseek-ai/dsh-base".to_string(), Some("1"), &vec![]),
        None
    );
}

#[test]
fn toggling_a_plugin_is_remembered_once() {
    let mut state = UserPluginState { disabled: vec!["a".to_string()] };
    disable_plugin(&mut state, "b");
    disable_plugin(&mut state, "b");
    assert_eq!(state.disabled, ["a", "b"]);
    clear_disabled(&mut state, "b");
    assert_eq!(state.disabled, ["a"]);
    clear_disabled(&mut state, "b");
    assert_eq!(state.disabled, ["a"]);
}

#[test]
fn plugins_that_are_gone_are_forgotten() {
    let installed = read_user_plugins(Some(MANIFEST), &vec![]);
    assert!(is_user_plugin(&installed, "@anionex/dsh-vision-toolkit"));
    assert!(!is_user_plugin(&installed, "@deepseek-ai/dsh-base"));
    let mut state = UserPluginState {
        disabled: vec!["gone".to_string(), "@anionex/dsh-vision-toolkit".to_string()],
    };
    retain_installed(&mut state, &installed);
    assert_eq!(state.disabled, ["@anionex/dsh-vision-toolkit"]);
}

#[test]
fn the_patch_follows_the_disabled_plugins() {
    let installed = read_user_plugins(Some(MANIFEST), &vec![]);
    let mut state = UserPluginState {
        disabled: vec!["gone".to_string(), "@anionex/dsh-vision-toolkit".to_string()],
    };
    let patch = sync_disable_patch(&mut state, &installed, |name: &str| {
        assert_eq!(name, "@anionex/dsh-vision-toolkit");
        vec!["a".to_string(), "b".to_string(), "a".to_string()]
    });
    assert_eq!(state.disabled, ["@anionex/dsh-vision-toolkit"]);
    assert_eq!(
        patch,
        "# Generated by DeepSeek Harness Desktop.\n- id: a\n  disabled: true\n- id: b\n  disabled: true\n"
    );
    let again = sync_disable_patch(
        &mut state,
        &read_user_plugins(Some(MANIFEST), &vec!["@anionex/dsh-vision-toolkit".to_string()]),
        |_: &str| vec!["a".to_string(), "b".to_string(), "a".to_string()],
    );
    assert_eq!(state.disabled, ["@anionex/dsh-vision-toolkit"]);
    assert_eq!(again, patch);
    let nothing = sync_disable_patch(&mut state, &vec![], |_: &str| panic!("nothing to read"));
    assert!(state.disabled.is_empty());
    assert_eq!(nothing, "# Generated by DeepSeek Harness Desktop.\n[]\n");
}

#[test]
fn entries_are_read_through_the_manifest() {
    let manifest = "{\"dsh\":{\"bundle\":{\"patch\":\"patch.yml\"}}}";
    assert_eq!(bundle_patch(manifest), Some("patch.yml".to_string()));
    assert_eq!(bundle_patch("{}"), None);
    assert_eq!(bundle_patch("{\"dsh\":{\"bundle\":{\"patch\":1}}}"), None);
    let ids = bundle_entry_ids(Some(manifest), |path: &str| {
        assert_eq!(path, "patch.yml");
        Some("- id: one\n- id: one\n- id: two\n".to_string())
    });
    assert_eq!(ids, ["one", "two"]);
    assert!(bundle_entry_ids(Some(manifest), |_: &str| None).is_empty());
    assert!(bundle_entry_ids(None, |_: &str| panic!("nothing to read")).is_empty());
    assert!(bundle_entry_ids(Some("{}"), |_: &str| panic!("nothing to read")).is_empty());
}

#[test]
fn entry_rows_may_be_quoted_or_commented() {
    let yaml = "# - id: no\r\nid: 'a b'\r\n- id: \"c\" \n- id: d # e\nid: f,,\nid:\nidx: g\n- id: d";
    assert_eq!(collect_entry_ids(yaml), ["a b", "c", "d", "f"]);
    assert_eq!(unquote_yaml("\"\""), "");
    assert_eq!(unquote_yaml("\""), "\"");
    assert_eq!(unquote_yaml(" 'x' "), "x");
    assert_eq!(unquote_yaml("'x\""), "'x\"");
}

#[test]
fn disabled_entries_are_merged() {
    let lists = vec![
        vec!["a".to_string(), "b".to_string()],
        vec![],
        vec!["b".to_string(), "c".to_string()],
    ];
    assert_eq!(disabled_entries(&lists), ["a", "b", "c"]);
    assert!(disabled_entries(&vec![]).is_empty());
}

#[test]
fn entries_are_quoted_where_they_must_be() {
    assert_eq!(yaml_plain("a-b_c.1"), "a-b_c.1");
    assert_eq!(yaml_plain("a b"), "\"a b\"");
    assert_eq!(yaml_plain("a\"b"), "\"a\\\"b\"");
    assert_eq!(
        render_disable_patch(&vec!["a".into(), "b c".into()]),
        "# Generated by DeepSeek Harness Desktop.\n- id: a\n  disabled: true\n- id: \"b c\"\n  disabled: true\n"
    );
}

#[test]
fn a_patch_names_its_entries() {
    let ids: Vec<String> = ["a", "b c", "d # e", "f,", "'g'"]
        .iter()
        .map(|id| id.to_string())
        .collect();
    assert_eq!(collect_entry_ids(&render_disable_patch(&ids)), ids);
    assert!(collect_entry_ids(&render_disable_patch(&vec![])).is_empty());
}

#[test]
fn failures_are_told_by_their_last_row() {
    assert_eq!(cli_failure("first\nlast\n  \n", "out"), "last");
    assert_eq!(cli_failure(" \n", "out 1\r\nout 2"), "out 2");
    assert_eq!(cli_failure("", ""), "pnpm 安装失败");
    assert_eq!(truncate(" abc ", 3), "abc");
    assert_eq!(truncate("abcd", 3), "ab…");
    assert_eq!(truncate("abcd", 0), "…");
    assert_eq!(cli_failure(&"x".repeat(300), "").chars().count(), 240);
}

#[test]
fn market_pages_are_asked_for_with_care() {
    assert_eq!(
        search_url(" a b ", "记忆", "stars", 40).unwrap(),
        "https://dsh-hub.cc/api/v1/plugins?scope=verified&sort=stars&limit=20&offset=40&q=a%20b&category=%E8%AE%B0%E5%BF%86"
    );
    assert_eq!(
        search_url("", "全部", "", 0).unwrap(),
        "https://dsh-hub.cc/api/v1/plugins?scope=verified&sort=trending&limit=20&offset=0"
    );
    assert_eq!(
        search_url(&"x".repeat(81), "", "", 0).unwrap_err(),
        "搜索词过长。"
    );
    assert_eq!(
        search_url("", &"x".repeat(33), "", 0).unwrap_err(),
        "分类无效。"
    );
    assert_eq!(search_url("", "", "forks", 0).unwrap_err(), "排序无效。");
}

#[test]
fn market_pages_show_what_can_be_asked_for() {
    let page = search_hub(
        "x".to_string(),
        String::new(),
        String::new(),
        0,
        |address: &str| {
            assert!(address.ends_with("&offset=0&q=x"));
            Ok(HubListResponse {
                items: vec![list_item("a/b", "c"), list_item("a", "c"), list_item("a", "..")],
                total: 3,
            })
        },
    )
    .unwrap();
    assert_eq!(page.total, 3);
    assert_eq!(page.items.len(), 1);
    assert_eq!(page.items[0].owner, "a");
    let refused = search_hub(
        String::new(),
        String::new(),
        "forks".to_string(),
        0,
        |_: &str| panic!("nothing to ask"),
    );
    assert_eq!(refused.unwrap_err(), "排序无效。");
    let failed = search_hub(String::new(), String::new(), String::new(), 0, |_: &str| {
        Err("down".to_string())
    });
    assert_eq!(failed.unwrap_err(), "down");
    assert!(show_page(HubListResponse { items: vec![], total: 0 }).items.is_empty());
}

#[test]
fn one_market_plugin_is_shown() {
    let shown = get_hub("Anionex".to_string(), "dsh-vision-toolkit".to_string(), |address: &str| {
        assert_eq!(
            address,
            "https://dsh-hub.cc/api/v1/plugins/Anionex/dsh-vision-toolkit"
        );
        Ok(detail(Some(HubManifest {
            name: Some("@anionex/dsh-vision-toolkit".to_string()),
            version: Some("0.1.9".to_string()),
        })))
    })
    .unwrap();
    assert_eq!(shown.package_name, "@anionex/dsh-vision-toolkit");
    assert_eq!(shown.version, "0.1.9");
    assert_eq!(shown.stars, 7);
    assert_eq!(shown.forks, 0);
    assert_eq!(shown.license, "MIT");
    assert_eq!(shown.topics, ["vision"]);
    let bare = get_hub("a".to_string(), "b".to_string(), |_: &str| Ok(detail(None))).unwrap();
    assert_eq!(bare.package_name, "");
    let refused = get_hub("a/b".to_string(), "c".to_string(), |_: &str| panic!("not asked"));
    assert_eq!(refused.unwrap_err(), "插件标识无效。");
    assert!(fetch_hub_detail("a b", "c", |address: &str| {
        assert_eq!(address, "https://dsh-hub.cc/api/v1/plugins/a%20b/c");
        Err("down".to_string())
    })
    .is_err());
}

#[test]
fn market_plugins_are_installed_by_their_package() {
    let named = |name: Option<&str>| {
        let manifest = HubManifest {
            name: name.map(str::to_string),
            version: None,
        };
        Ok(detail(Some(manifest)))
    };
    assert_eq!(
        hub_registry_spec("a", "b", |_: &str| named(Some("dsh-recall"))).unwrap(),
        "dsh-recall"
    );
    assert_eq!(
        hub_registry_spec("a", "b", |_: &str| named(None)).unwrap_err(),
        "这个插件没有可安装的 npm 包名。"
    );
    assert_eq!(
        hub_registry_spec("a", "b", |_: &str| Ok(detail(None))).unwrap_err(),
        "这个插件没有可安装的 npm 包名。"
    );
    assert!(hub_registry_spec("a", "b", |_: &str| named(Some("../x"))).is_err());
    assert_eq!(
        submit_hub_install("..".to_string(), "b".to_string(), |_: &str| panic!("not asked"))
            .unwrap_err(),
        "插件标识无效。"
    );
    assert_eq!(
        submit_hub_install("a".to_string(), "b".to_string(), |_: &str| named(Some("dsh-recall")))
            .unwrap(),
        "dsh-recall"
    );
}

#[test]
fn segments_have_their_limits() {
    assert!(is_hub_segment(&"a".repeat(100)));
    assert!(!is_hub_segment(&"a".repeat(101)));
    assert!(!is_hub_segment(".a"));
    assert!(!is_hub_segment("a b"));
    assert!(is_hub_segment("9.a_b-c"));
    assert_eq!(query_encode("a/?&=%~_.-Z9"), "a%2F%3F%26%3D%25~_.-Z9");
}
