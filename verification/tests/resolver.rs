use skin_resolver::AssetKind;
use skin_resolver::HttpResponse;
use skin_resolver::ObtainingMethod;
use skin_resolver::ResolvedSource;
use skin_resolver::ResponseBody;
use skin_resolver::Step;
use skin_resolver::Strategy;
use skin_resolver::finish_local;
use skin_resolver::finish_remote;
use skin_resolver::greeting;
use skin_resolver::handle_request;
use skin_resolver::local_path;
use skin_resolver::remote_url;
use skin_resolver::respond;
use skin_resolver::select;
use skin_resolver::validate;

fn response_text(r: &HttpResponse) -> &str {
    match &r.body {
        ResponseBody::Text(m) => m.as_str(),
        ResponseBody::Source(_) => panic!("expected a text body"),
    }
}

#[test]
fn strategy_table_all_eight_combinations() {
    assert_eq!(select(AssetKind::Skin, ObtainingMethod::License), Strategy::Remote);
    assert_eq!(select(AssetKind::Cloak, ObtainingMethod::License), Strategy::Remote);
    assert_eq!(select(AssetKind::Skin, ObtainingMethod::Local), Strategy::LocalFile);
    assert_eq!(select(AssetKind::Cloak, ObtainingMethod::Local), Strategy::LocalFile);
    assert_eq!(select(AssetKind::Skin, ObtainingMethod::SkinsLicense), Strategy::Remote);
    assert_eq!(select(AssetKind::Cloak, ObtainingMethod::SkinsLicense), Strategy::LocalFile);
    assert_eq!(select(AssetKind::Skin, ObtainingMethod::CloaksLicense), Strategy::LocalFile);
    assert_eq!(select(AssetKind::Cloak, ObtainingMethod::CloaksLicense), Strategy::Remote);
}

#[test]
fn traversal_rejected_on_both_endpoints_without_any_fetch() {
    let methods = [
        ObtainingMethod::License,
        ObtainingMethod::Local,
        ObtainingMethod::SkinsLicense,
        ObtainingMethod::CloaksLicense,
    ];
    let bad = ["../secret", "a/../b", "steve../", "../", "..././"];
    for kind in [AssetKind::Skin, AssetKind::Cloak] {
        for method in methods {
            for name in bad {
                match handle_request(kind, method, name) {
                    Step::Fail(e) => {
                        let resp = respond(Err(e));
                        assert!(!resp.success);
                        assert_eq!(response_text(&resp), "forbidden username provided");
                    }
                    Step::FetchRemote(url) => panic!("fetched {url} for {name}"),
                    Step::OpenLocal(path) => panic!("opened {path} for {name}"),
                }
            }
        }
    }
}

#[test]
fn names_without_the_full_traversal_sequence_pass() {
    for name in ["alice", "..", "a..", "a/..", "..a/", ". ./x", ""] {
        assert_eq!(validate(name).unwrap(), name);
    }
}

#[test]
fn validate_passes_the_identifier_through_unchanged() {
    assert_eq!(validate("Notch.png").unwrap(), "Notch.png");
    assert!(validate("x/../y").is_err());
}

#[test]
fn local_skin_resolves_to_skins_directory() {
    match handle_request(AssetKind::Skin, ObtainingMethod::Local, "alice") {
        Step::OpenLocal(path) => assert_eq!(path, "assets/skins/alice.png"),
        _ => panic!("expected a local open"),
    }
}

#[test]
fn local_cloak_resolves_to_cloaks_directory() {
    match handle_request(AssetKind::Cloak, ObtainingMethod::Local, "alice") {
        Step::OpenLocal(path) => assert_eq!(path, "assets/cloaks/alice.png"),
        _ => panic!("expected a local open"),
    }
}

#[test]
fn opened_local_file_is_streamed_with_success() {
    let outcome = finish_local(String::from("assets/skins/alice.png"), None);
    let resp = respond(outcome);
    assert!(resp.success);
    match resp.body {
        ResponseBody::Source(ResolvedSource::FileStream(path)) => {
            assert_eq!(path, "assets/skins/alice.png");
        }
        _ => panic!("expected a file stream"),
    }
}

#[test]
fn missing_local_file_reports_not_found_with_the_io_error() {
    let outcome = finish_local(
        String::from("assets/skins/ghost.png"),
        Some(String::from("No such file or directory (os error 2)")),
    );
    let resp = respond(outcome);
    assert!(!resp.success);
    let text = response_text(&resp);
    assert!(text.contains("File not found"));
    assert_eq!(text, "File not found: No such file or directory (os error 2)");
}

#[test]
fn license_skin_requests_the_templated_url_once() {
    match handle_request(AssetKind::Skin, ObtainingMethod::License, "bob") {
        Step::FetchRemote(url) => {
            assert_eq!(url, "https://mc-heads.net/download/bob");
            assert!(url.contains("bob"));
        }
        _ => panic!("expected a remote fetch"),
    }
}

#[test]
fn fetched_remote_bytes_come_back_unchanged() {
    let body = vec![0x89u8, 0x50, 0x4e, 0x47, 0x00, 0x7f];
    let outcome = finish_remote(Ok(body.clone()));
    let resp = respond(outcome);
    assert!(resp.success);
    match resp.body {
        ResponseBody::Source(ResolvedSource::ImageBytes(bytes)) => assert_eq!(bytes, body),
        _ => panic!("expected image bytes"),
    }
}

#[test]
fn upstream_failure_becomes_a_per_request_error() {
    let outcome = finish_remote(Err(String::from("connection refused")));
    let resp = respond(outcome);
    assert!(!resp.success);
    assert_eq!(response_text(&resp), "upstream fetch failed: connection refused");
}

#[test]
fn skins_license_splits_skin_remote_cloak_local() {
    match handle_request(AssetKind::Skin, ObtainingMethod::SkinsLicense, "carol") {
        Step::FetchRemote(url) => assert_eq!(url, "https://mc-heads.net/download/carol"),
        _ => panic!("expected a remote fetch"),
    }
    match handle_request(AssetKind::Cloak, ObtainingMethod::SkinsLicense, "carol") {
        Step::OpenLocal(path) => assert_eq!(path, "assets/cloaks/carol.png"),
        _ => panic!("expected a local open"),
    }
}

#[test]
fn cloaks_license_splits_cloak_remote_skin_local() {
    match handle_request(AssetKind::Cloak, ObtainingMethod::CloaksLicense, "carol") {
        Step::FetchRemote(url) => assert_eq!(url, "https://mc-heads.net/download/carol"),
        _ => panic!("expected a remote fetch"),
    }
    match handle_request(AssetKind::Skin, ObtainingMethod::CloaksLicense, "carol") {
        Step::OpenLocal(path) => assert_eq!(path, "assets/skins/carol.png"),
        _ => panic!("expected a local open"),
    }
}

#[test]
fn normalization_is_idempotent_for_storage_paths() {
    assert_eq!(
        local_path(AssetKind::Skin, "alice"),
        local_path(AssetKind::Skin, "alice.png"),
    );
    assert_eq!(
        local_path(AssetKind::Cloak, "alice"),
        local_path(AssetKind::Cloak, "alice.png"),
    );
}

#[test]
fn extension_is_appended_only_at_the_end() {
    assert_eq!(local_path(AssetKind::Skin, "x.png.y"), "assets/skins/x.png.y.png");
    assert_eq!(local_path(AssetKind::Skin, "png"), "assets/skins/png.png");
    assert_eq!(local_path(AssetKind::Skin, ".png"), "assets/skins/.png");
    assert_eq!(local_path(AssetKind::Skin, ""), "assets/skins/.png");
}

#[test]
fn remote_url_uses_the_name_verbatim() {
    assert_eq!(remote_url("Dinnerbone"), "https://mc-heads.net/download/Dinnerbone");
    assert_eq!(remote_url(""), "https://mc-heads.net/download/");
}

#[test]
fn root_greeting_is_fixed() {
    assert_eq!(greeting(), "Hello, World!");
}
