use turbopack_render::diagnostic::{error_html_body, error_message, static_error, FallbackPage};
use turbopack_render::env_asset::{append_js_string, ProcessEnvAsset};
use turbopack_render::protocol::{ExitStatus, StaticResult};
use turbopack_render::text::{append_decimal, escape_html};

#[test]
fn escape_replaces_the_three_characters() {
    assert_eq!(escape_html(b"a<b>&c"), b"a&lt;b&gt;&amp;c".to_vec());
    assert_eq!(escape_html(b"><&"), b"&gt;&lt;&amp;".to_vec());
    assert_eq!(escape_html(b""), Vec::<u8>::new());
    assert_eq!(escape_html(b"plain"), b"plain".to_vec());
}

#[test]
fn escape_does_not_double_encode() {
    assert_eq!(escape_html(b"&lt;"), b"&amp;lt;".to_vec());
    let once = escape_html(b"<&>");
    assert!(!once.contains(&b'<'));
    assert!(!once.contains(&b'>'));
    assert_eq!(once, b"&lt;&amp;&gt;".to_vec());
}

#[test]
fn escape_keeps_non_ascii() {
    let text = "é<ü".as_bytes();
    assert_eq!(escape_html(text), "é&lt;ü".as_bytes().to_vec());
}

#[test]
fn decimal_text() {
    let mut out = b"x".to_vec();
    append_decimal(&mut out, 0);
    append_decimal(&mut out, 1234);
    append_decimal(&mut out, -7);
    append_decimal(&mut out, i32::MIN as i64);
    assert_eq!(out, b"x01234-7-2147483648".to_vec());
}

#[test]
fn error_body_layout() {
    let body = error_html_body(404, "Missing", b"gone");
    assert_eq!(
        body,
        b"<div id=\"__next_error__\"><h1>404</h1><h2>Missing</h2><pre>gone</pre></div>".to_vec()
    );
}

#[test]
fn error_message_with_and_without_status() {
    assert_eq!(error_message("a<b", None), b"a&lt;b".to_vec());
    assert_eq!(
        error_message("a<b", Some(ExitStatus::Exited { code: 2 })),
        b"a&lt;b\n\nStatus: exit status: 2".to_vec()
    );
    assert_eq!(error_message("x", Some(ExitStatus::Killed)), b"x\n\nStatus: killed".to_vec());
}

#[test]
fn static_error_builds_page_and_issue() {
    let shell = FallbackPage::new(b"[".to_vec(), b"]".to_vec());
    let (html, issue) = static_error("/p".to_string(), "<x>".to_string(), None, &shell);
    let expected = "[<script id=\"__NEXT_DATA__\" type=\"application/json\">{ \"props\": {} }</script>\
<div id=\"__next_error__\"><h1>500</h1><h2>Error rendering page</h2><pre>&lt;x&gt;</pre></div>]";
    assert_eq!(html, expected.as_bytes().to_vec());
    assert_eq!(issue.context, "/p");
    assert_eq!(issue.message, "<x>");
    assert_eq!(issue.exit_code, None);
}

#[test]
fn fallback_page_splices_body() {
    let shell = FallbackPage::new(b"<body>".to_vec(), b"</body>".to_vec());
    assert_eq!(shell.with_body(b"hi"), b"<body>hi</body>".to_vec());
}

#[test]
fn exit_status_code() {
    assert_eq!(ExitStatus::Exited { code: 3 }.code(), Some(3));
    assert_eq!(ExitStatus::Killed.code(), None);
}

#[test]
fn static_result_constructors() {
    let r = StaticResult::content(b"x".to_vec(), 201, vec![("a".to_string(), "b".to_string())]);
    assert!(matches!(r, StaticResult::Content { status_code: 201, .. }));
    let r = StaticResult::rewrite("/to".to_string());
    assert!(matches!(r, StaticResult::Rewrite { target_path } if target_path == "/to"));
}

#[test]
fn js_string_escapes() {
    let mut out = Vec::new();
    append_js_string(&mut out, b"a\"b\\c\nd\te\x01f\x1fg/");
    assert_eq!(out, b"\"a\\\"b\\\\c\\nd\\te\\u0001f\\u001fg/\"".to_vec());
}

#[test]
fn env_asset_path() {
    let asset = ProcessEnvAsset::new("app/root".to_string(), vec![]);
    assert_eq!(asset.ident(), "app/root/.env.js");
    let asset = ProcessEnvAsset::new(String::new(), vec![]);
    assert_eq!(asset.ident(), ".env.js");
}

#[test]
fn env_asset_code() {
    let asset = ProcessEnvAsset::new(
        "root".to_string(),
        vec![
            ("NODE_ENV".to_string(), "\"development\"".to_string()),
            ("WEIRD\"KEY".to_string(), "1 + 1".to_string()),
        ],
    );
    let code = String::from_utf8(asset.chunk_item_content()).unwrap();
    assert_eq!(
        code,
        "const env = process.env = {...process.env};\n\n\
env[\"NODE_ENV\"] = \"development\";\n\
env[\"WEIRD\\\"KEY\"] = 1 + 1;\n"
    );
    let empty = ProcessEnvAsset::new("root".to_string(), vec![]);
    assert_eq!(
        String::from_utf8(empty.chunk_item_content()).unwrap(),
        "const env = process.env = {...process.env};\n\n"
    );
}
