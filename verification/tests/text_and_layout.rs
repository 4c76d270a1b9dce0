use create_rust_plugin::context::{keys_are_distinct, Context};
use create_rust_plugin::text::path_join;
use create_rust_plugin::text::{is_whitespace, parse_usize, trim, usize_to_decimal};
use create_rust_plugin::workspace_layout::workspace_layout;

#[test]
fn decimal_writes_numbers_as_format_does() {
    assert_eq!(usize_to_decimal(0), "0");
    assert_eq!(usize_to_decimal(7), "7");
    assert_eq!(usize_to_decimal(42), "42");
    assert_eq!(usize_to_decimal(1000), "1000");
    assert_eq!(usize_to_decimal(usize::MAX), format!("{}", usize::MAX));
}

#[test]
fn parse_accepts_what_std_accepts() {
    for s in ["0", "42", "+7", "007", "", "+", "-", "-1", "1a", " 1", "++1", "18446744073709551616", "18446744073709551615", "4294967296"] {
        assert_eq!(parse_usize(s), s.parse::<usize>().ok(), "input {:?}", s);
    }
}

#[test]
fn parse_reads_back_written_numbers() {
    for n in [0usize, 1, 9, 10, 99, 12345, usize::MAX - 1, usize::MAX] {
        let written = usize_to_decimal(n);
        assert_eq!(parse_usize(trim(&written)), Some(n));
    }
}

#[test]
fn trim_matches_str_trim() {
    for s in ["", "  ", " 12 ", "\t\n7\r\n", "\u{3000}x\u{a0}", "a b", "\u{2003}\u{85}"] {
        assert_eq!(trim(s), s.trim(), "input {:?}", s);
    }
}

#[test]
fn whitespace_matches_char_is_whitespace() {
    for code in 0u32..0x3100 {
        if let Some(c) = char::from_u32(code) {
            assert_eq!(is_whitespace(c), c.is_whitespace(), "char {:?}", c);
        }
    }
}

#[test]
fn context_lookup() {
    let ctx = Context::from_entries(vec![
        ("folder_lookup".to_string(), "my-plugin".to_string()),
        ("id".to_string(), "3".to_string()),
    ]);
    assert_eq!(ctx.get("id"), Some("3".to_string()));
    assert_eq!(ctx.get("folder_lookup"), Some("my-plugin".to_string()));
    assert_eq!(ctx.get("missing"), None);
    assert_eq!(Context::new().get("id"), None);
    let single = Context::single("request_id".to_string(), "abc".to_string());
    assert_eq!(single.get("request_id"), Some("abc".to_string()));
    assert_eq!(single.entries().len(), 1);
}

#[test]
fn path_join_matches_path_join() {
    for (base, name) in [
        ("/home/aram/code", "my-plugin"),
        ("/home/aram/code/", "my-plugin"),
        ("", "my-plugin"),
        ("/home/aram/code", "/tmp/abs"),
        ("relative", "a/b"),
        ("/", "x"),
    ] {
        let expected = std::path::PathBuf::from(base).join(name).display().to_string();
        assert_eq!(path_join(base, name), expected, "{:?} {:?}", base, name);
    }
}

fn layout_by_format(plugin_folder: &str, develop_rust_plugin_ur: &str) -> String {
    format!(
        r#"
        layout {{
            cwd "{}"
            pane size=1 borderless=true {{
                plugin location="tab-bar"
            }}
            pane edit="src/main.rs" size="70%"
            pane size="30%"
            pane size=1 borderless=true {{
                plugin location="status-bar"
            }}
            floating_panes {{
              pane {{
                  plugin location="{develop_rust_plugin_ur}"
              }}
            }}

            swap_floating_layout name="enlarged" {{
                floating_panes max_panes=10 {{
                    pane {{ x "5%"; y 1; width "90%"; height "90%"; }}
                    pane {{ x "5%"; y 2; width "90%"; height "90%"; }}
                    pane {{ x "5%"; y 3; width "90%"; height "90%"; }}
                    pane {{ x "5%"; y 4; width "90%"; height "90%"; }}
                    pane {{ x "5%"; y 5; width "90%"; height "90%"; }}
                    pane {{ x "5%"; y 6; width "90%"; height "90%"; }}
                    pane {{ x "5%"; y 7; width "90%"; height "90%"; }}
                    pane {{ x "5%"; y 8; width "90%"; height "90%"; }}
                    pane {{ x "5%"; y 9; width "90%"; height "90%"; }}
                    pane focus=true {{ x 10; y 10; width "90%"; height "90%"; }}
                }}
            }}

            swap_floating_layout name="spread" {{
                floating_panes max_panes=1 {{
                    pane {{y "50%"; x "50%"; }}
                }}
                floating_panes max_panes=2 {{
                    pane {{ x "1%"; y "25%"; width "45%"; }}
                    pane {{ x "50%"; y "25%"; width "45%"; }}
                }}
                floating_panes max_panes=3 {{
                    pane focus=true {{ y "55%"; width "45%"; height "45%"; }}
                    pane {{ x "1%"; y "1%"; width "45%"; }}
                    pane {{ x "50%"; y "1%"; width "45%"; }}
                }}
                floating_panes max_panes=4 {{
                    pane {{ x "1%"; y "55%"; width "45%"; height "45%"; }}
                    pane focus=true {{ x "50%"; y "55%"; width "45%"; height "45%"; }}
                    pane {{ x "1%"; y "1%"; width "45%"; height "45%"; }}
                    pane {{ x "50%"; y "1%"; width "45%"; height "45%"; }}
                }}
            }}



        }}
    "#,
        plugin_folder
    )
}

#[test]
fn workspace_layout_is_the_kdl_layout() {
    let url = "https://github.com/zellij-org/develop-rust-plugin/releases/download/v0.1.0/develop-rust-plugin.wasm";
    let layout = workspace_layout("/home/aram/code/my-plugin", url);
    assert_eq!(layout, layout_by_format("/home/aram/code/my-plugin", url));
    assert!(layout.contains("cwd \"/home/aram/code/my-plugin\""));
    assert!(layout.contains(&format!("plugin location=\"{}\"", url)));
}

#[test]
fn workspace_layout_puts_in_odd_names_verbatim() {
    let layout = workspace_layout("", "file:/x.wasm");
    assert_eq!(layout, layout_by_format("", "file:/x.wasm"));
}

#[test]
fn keys_are_distinct_finds_repeated_keys() {
    let distinct = vec![("a".to_string(), "1".to_string()), ("b".to_string(), "1".to_string())];
    assert!(keys_are_distinct(&distinct));
    let repeated = vec![
        ("a".to_string(), "1".to_string()),
        ("b".to_string(), "2".to_string()),
        ("a".to_string(), "3".to_string()),
    ];
    assert!(!keys_are_distinct(&repeated));
    assert!(keys_are_distinct(&Vec::new()));
    let ctx = Context::from_entries(distinct);
    assert_eq!(ctx.entries().len(), 2);
}
