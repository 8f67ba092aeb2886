use ghostcord_lite::AppConfig;

fn blank() -> AppConfig {
    AppConfig::default()
}

#[test]
fn sanitize_blank_config_enables_default_profile() {
    let out = blank().sanitize();
    assert!(out.enable_blockers);
    assert!(out.enable_perf_css);
    assert!(!out.enable_vencord);
    assert!(!out.enable_theme);
    assert_eq!(out.theme_path, None);
    assert_eq!(out.theme_css, None);
}

#[test]
fn sanitize_keeps_config_with_theme_enabled() {
    let mut cfg = blank();
    cfg.enable_theme = true;
    let out = cfg.clone().sanitize();
    assert_eq!(out, cfg);
}

#[test]
fn sanitize_keeps_config_with_theme_path() {
    let mut cfg = blank();
    cfg.theme_path = Some("/themes/dark.css".to_string());
    let out = cfg.clone().sanitize();
    assert_eq!(out, cfg);
    assert!(!out.enable_blockers);
}

#[test]
fn sanitize_keeps_config_with_empty_inline_css() {
    let mut cfg = blank();
    cfg.theme_css = Some(String::new());
    let out = cfg.clone().sanitize();
    assert_eq!(out, cfg);
}

#[test]
fn sanitize_keeps_config_with_only_vencord() {
    let mut cfg = blank();
    cfg.enable_vencord = true;
    let out = cfg.clone().sanitize();
    assert_eq!(out, cfg);
}

#[test]
fn sanitize_is_idempotent() {
    let mut variants = vec![blank()];
    let mut themed = blank();
    themed.enable_theme = true;
    variants.push(themed);
    let mut css = blank();
    css.theme_css = Some("body{}".to_string());
    css.enable_perf_css = true;
    variants.push(css);
    for cfg in variants {
        let once = cfg.sanitize();
        let twice = once.clone().sanitize();
        assert_eq!(once, twice);
    }
}

#[test]
fn clone_keeps_every_field() {
    let cfg = AppConfig {
        theme_path: Some("a.css".to_string()),
        theme_css: Some("b".to_string()),
        enable_theme: true,
        enable_blockers: false,
        enable_perf_css: true,
        enable_vencord: true,
    };
    assert_eq!(cfg.clone(), cfg);
}

#[test]
fn theme_file_is_read_only_without_inline_css() {
    let mut cfg = blank();
    cfg.theme_path = Some("t.css".to_string());
    assert_eq!(cfg.theme_file_to_read(), Some("t.css".to_string()));
    cfg.theme_css = Some("x".to_string());
    assert_eq!(cfg.theme_file_to_read(), None);
    assert_eq!(blank().theme_file_to_read(), None);
}

#[test]
fn theme_file_contents_fill_missing_inline_css() {
    let mut cfg = blank();
    cfg.theme_path = Some("t.css".to_string());
    let filled = cfg.clone().with_theme_file(Some("body{color:red}".to_string()));
    assert_eq!(filled.theme_css, Some("body{color:red}".to_string()));
    let unread = cfg.clone().with_theme_file(None);
    assert_eq!(unread, cfg);
    let mut inline = cfg.clone();
    inline.theme_css = Some("kept".to_string());
    let kept = inline.clone().with_theme_file(Some("other".to_string()));
    assert_eq!(kept, inline);
    let no_path = blank().with_theme_file(Some("other".to_string()));
    assert_eq!(no_path, blank());
}
