use crabtive::{
    AccountChecker, CheckStatus, Config, CrabtiveError, ProbeOutcome, WebsiteInfo,
    FIREFOX_USER_AGENT,
};

fn site(name: &str, base: &str, template: &str) -> WebsiteInfo {
    WebsiteInfo {
        name: String::from(name),
        base_url: String::from(base),
        user_url: String::from(template),
    }
}

#[test]
fn load_single_github_entry_and_build_probe_url() {
    let text = "{\"websites\":[{\"name\":\"GitHub\",\"base_url\":\"https://github.com\",\"user_url\":\"https://github.com/{}\"}]}";
    let config = Config::from_json(text).unwrap();
    assert_eq!(config.websites.len(), 1);
    assert_eq!(config.websites[0].name, String::from("GitHub"));
    assert_eq!(config.websites[0].base_url, String::from("https://github.com"));
    assert_eq!(config.websites[0].user_url, String::from("https://github.com/{}"));

    let checker = AccountChecker::from(config);
    let urls = checker.probe_urls("octocat").unwrap();
    assert_eq!(urls.len(), 1);
    assert_eq!(urls[0], String::from("https://github.com/octocat"));
}

#[test]
fn probe_requests_carry_the_fixed_browser_user_agent() {
    assert_eq!(
        FIREFOX_USER_AGENT,
        "Mozilla/5.0 (Macintosh; Intel Mac OS X 10.15; rv:101.0) Gecko/20100101 Firefox/101.0"
    );
}

#[test]
fn missing_websites_field_is_a_config_error() {
    assert!(matches!(
        Config::from_json("{\"sites\":[]}"),
        Err(CrabtiveError::ConfigError)
    ));
    assert!(matches!(
        Config::from_json("{}"),
        Err(CrabtiveError::ConfigError)
    ));
}

#[test]
fn empty_website_list_is_a_valid_registry() {
    let config = Config::from_json("{\"websites\":[]}").unwrap();
    assert_eq!(config.websites.len(), 0);

    let checker = AccountChecker::from(config);
    let urls = checker.probe_urls("anyone").unwrap();
    assert_eq!(urls.len(), 0);
    let results = checker.check_accounts(&Vec::new());
    assert_eq!(results.len(), 0);
}

#[test]
fn whitespace_and_field_order_are_tolerated() {
    let text = "  {\n\t\"websites\" : [\r\n  { \"user_url\" : \"https://a/{}\" ,\n    \"name\" : \"A\" , \"base_url\" : \"https://a\" }\n ] }\n";
    let config = Config::from_json(text).unwrap();
    assert_eq!(config.websites.len(), 1);
    assert_eq!(config.websites[0].name, String::from("A"));
    assert_eq!(config.websites[0].user_url, String::from("https://a/{}"));
}

#[test]
fn two_entries_load_in_file_order() {
    let text = "{\"websites\":[{\"name\":\"A\",\"base_url\":\"https://a\",\"user_url\":\"https://a/{}\"},{\"name\":\"B\",\"base_url\":\"https://b\",\"user_url\":\"https://b/u/{}\"}]}";
    let config = Config::from_json(text).unwrap();
    assert_eq!(config.websites.len(), 2);
    assert_eq!(config.websites[0].name, String::from("A"));
    assert_eq!(config.websites[1].name, String::from("B"));
}

#[test]
fn malformed_configurations_fail_atomically() {
    // entry missing the user_url field
    let missing = "{\"websites\":[{\"name\":\"A\",\"base_url\":\"https://a\"}]}";
    assert!(matches!(
        Config::from_json(missing),
        Err(CrabtiveError::ConfigError)
    ));
    // duplicate key
    let dup = "{\"websites\":[{\"name\":\"A\",\"name\":\"B\",\"base_url\":\"https://a\",\"user_url\":\"https://a/{}\"}]}";
    assert!(matches!(
        Config::from_json(dup),
        Err(CrabtiveError::ConfigError)
    ));
    // unknown key
    let unknown = "{\"websites\":[{\"name\":\"A\",\"base_url\":\"https://a\",\"user_url\":\"https://a/{}\",\"extra\":\"x\"}]}";
    assert!(matches!(
        Config::from_json(unknown),
        Err(CrabtiveError::ConfigError)
    ));
    // trailing comma in the array
    let trailing = "{\"websites\":[{\"name\":\"A\",\"base_url\":\"https://a\",\"user_url\":\"https://a/{}\"},]}";
    assert!(matches!(
        Config::from_json(trailing),
        Err(CrabtiveError::ConfigError)
    ));
    // unterminated string
    let unterminated = "{\"websites\":[{\"name\":\"A";
    assert!(matches!(
        Config::from_json(unterminated),
        Err(CrabtiveError::ConfigError)
    ));
    // text after the closing brace
    let garbage = "{\"websites\":[]} x";
    assert!(matches!(
        Config::from_json(garbage),
        Err(CrabtiveError::ConfigError)
    ));
    // one good entry does not save a malformed sibling
    let sibling = "{\"websites\":[{\"name\":\"A\",\"base_url\":\"https://a\",\"user_url\":\"https://a/{}\"},{\"name\":\"B\"}]}";
    assert!(matches!(
        Config::from_json(sibling),
        Err(CrabtiveError::ConfigError)
    ));
}

#[test]
fn empty_user_url_template_is_a_config_error() {
    let text = "{\"websites\":[{\"name\":\"A\",\"base_url\":\"https://a\",\"user_url\":\"\"}]}";
    assert!(matches!(
        Config::from_json(text),
        Err(CrabtiveError::ConfigError)
    ));
}

#[test]
fn non_ascii_configuration_text_loads() {
    let text = "{\"websites\":[{\"name\":\"Caf\u{e9}\",\"base_url\":\"https://caf\u{e9}.example\",\"user_url\":\"https://caf\u{e9}.example/{}\"}]}";
    let config = Config::from_json(text).unwrap();
    assert_eq!(config.websites.len(), 1);
    assert_eq!(config.websites[0].name, String::from("Caf\u{e9}"));
}

#[test]
fn escape_sequences_are_outside_the_accepted_grammar() {
    let text = "{\"websites\":[{\"name\":\"A\\\"B\",\"base_url\":\"https://a\",\"user_url\":\"https://a/{}\"}]}";
    assert!(matches!(
        Config::from_json(text),
        Err(CrabtiveError::ConfigError)
    ));
}

#[test]
fn default_registry_is_empty() {
    let config = Config::default();
    assert_eq!(config.websites.len(), 0);
}

#[test]
fn results_keep_registry_order_and_count() {
    let config = Config {
        websites: vec![
            site("A", "https://a", "https://a/{}"),
            site("B", "https://b", "https://b/{}"),
            site("C", "https://c", "https://c/{}"),
        ],
    };
    let checker = AccountChecker::from(config);
    let outcomes = vec![
        ProbeOutcome::Status(200),
        ProbeOutcome::Status(301),
        ProbeOutcome::Status(404),
    ];
    let results = checker.check_accounts(&outcomes);
    assert_eq!(results.len(), 3);
    assert_eq!(results[0].info.name, String::from("A"));
    assert_eq!(results[1].info.name, String::from("B"));
    assert_eq!(results[2].info.name, String::from("C"));
    assert_eq!(results[0].status, CheckStatus::Available);
    assert_eq!(results[1].status, CheckStatus::Other(301));
    assert_eq!(results[2].status, CheckStatus::NotFound);
}

#[test]
fn transport_failure_is_isolated_to_its_site() {
    let config = Config {
        websites: vec![
            site("A", "https://a", "https://a/{}"),
            site("B", "https://b", "https://b/{}"),
            site("C", "https://c", "https://c/{}"),
        ],
    };
    let checker = AccountChecker::from(config);
    let outcomes = vec![
        ProbeOutcome::Status(200),
        ProbeOutcome::TransportFailure,
        ProbeOutcome::Status(404),
    ];
    let results = checker.check_accounts(&outcomes);
    assert_eq!(results.len(), 3);
    assert_eq!(results[0].status, CheckStatus::Available);
    assert_eq!(results[1].status, CheckStatus::Unreachable);
    assert_eq!(results[2].status, CheckStatus::NotFound);
}

#[test]
fn full_check_flow_with_injected_outcomes() {
    let text = "{\"websites\":[{\"name\":\"GitHub\",\"base_url\":\"https://github.com\",\"user_url\":\"https://github.com/{}\"}]}";
    let config = Config::from_json(text).unwrap();
    assert_eq!(config.websites.len(), 1);

    let checker = AccountChecker::from(config);
    let urls = checker.probe_urls("nyzd").unwrap();
    assert_eq!(urls.len(), 1);
    assert_eq!(urls[0], String::from("https://github.com/nyzd"));

    // the site answered 200 for this username
    let results = checker.check_accounts(&vec![ProbeOutcome::Status(200)]);
    assert_eq!(results.len(), 1);
    assert!(matches!(results[0].status, CheckStatus::Available));
    assert_eq!(results[0].info.name, String::from("GitHub"));
}

#[test]
fn empty_template_aborts_url_building() {
    let config = Config {
        websites: vec![site("A", "https://a", "https://a/{}"), site("B", "https://b", "")],
    };
    let checker = AccountChecker::from(config);
    assert!(matches!(
        checker.probe_urls("bob"),
        Err(CrabtiveError::TemplateError)
    ));
}
