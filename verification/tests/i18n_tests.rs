use argus::i18n::{changed, empty, job_counts, Lang, LocaleEnv};

fn no_env() -> LocaleEnv {
    LocaleEnv { argus_lang: None, lc_all: None, lc_messages: None, lang: None }
}

#[test]
fn parses_lang_names() {
    assert_eq!(Lang::from_name("ko"), Some(Lang::Ko));
    assert_eq!(Lang::from_name("Korean"), Some(Lang::Ko));
    assert_eq!(Lang::from_name("ko_KR.UTF-8"), Some(Lang::Ko));
    assert_eq!(Lang::from_name("en"), Some(Lang::En));
    assert_eq!(Lang::from_name("en_US"), Some(Lang::En));
    assert_eq!(Lang::from_name("fr"), None);
    assert_eq!(Lang::from_name("C"), None);
}

#[test]
fn explicit_lang_wins() {
    let env = LocaleEnv {
        argus_lang: Some("en".to_string()),
        lc_all: Some("ko_KR.UTF-8".to_string()),
        lc_messages: None,
        lang: None,
    };
    assert_eq!(Lang::resolve(Some("ko"), None, &env), Lang::Ko);
    assert_eq!(Lang::resolve(Some("en"), None, &no_env()), Lang::En);
}

#[test]
fn lang_falls_back_through_env_config_locale() {
    let env = LocaleEnv { argus_lang: None, lc_all: None, lc_messages: None, lang: Some("ko_KR.UTF-8".to_string()) };
    assert_eq!(Lang::resolve(None, None, &env), Lang::Ko);
    assert_eq!(Lang::resolve(None, Some("en"), &env), Lang::En);
    assert_eq!(Lang::resolve(None, None, &no_env()), Lang::En);
}

#[test]
fn messages_localize_and_interpolate() {
    assert_eq!(empty(Lang::En), "no items");
    assert_eq!(empty(Lang::Ko), "항목 없음");
    assert!(changed(Lang::En, 3).contains("3 changed"));
    assert!(changed(Lang::Ko, 3).contains("3 변경"));
    assert!(job_counts(Lang::En, 1, 2, 3).contains("running"));
    assert!(job_counts(Lang::Ko, 1, 2, 3).contains("진행"));
}
