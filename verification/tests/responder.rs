use base64::Engine;
use base64::engine::general_purpose::STANDARD as BASE64_STANDARD;
use treasury_factory::web4::Contract;
use treasury_factory::web4::Web4Request;
use treasury_factory::web4::Web4Response;

const PRELOAD_URL: &str = "/web4/contract/social.near/get?keys.json=%5B%22not-only-devhub.near/widget/app/metadata/**%22%5D";

fn create_preload_result(title: String, description: String) -> String {
    let body = format!(
        "{{\"not-only-devhub.near\":{{\"widget\":{{\"app\":{{\"metadata\":{{\"description\":\"{}\",\"image\":{{\"ipfs_cid\":\"bafkreido4srg4aj7l7yg2tz22nbu3ytdidjczdvottfr5ek6gqorwg6v74\"}},\"name\":\"{}\",\"tags\":{{\"app\":\"\",\"communities\":\"\",\"developer-governance\":\"\",\"devhub\":\"\"}}}}}}}}}}}}",
        description, title
    );
    BASE64_STANDARD.encode(body)
}

#[test]
fn test_web4_get_without_metadata_preload_result() {
    let contract = Contract::default();

    let response = contract.web4_get(
        "not-only-devhub.near",
        &Web4Request { path: String::from("/"), preloads: None },
    );

    match response {
        Web4Response::PreloadUrls { preload_urls } => {
            assert_eq!(preload_urls, vec![PRELOAD_URL]);
        }
        _ => {
            panic!("Should return Web4Response::PreloadUrls");
        }
    }
}

#[test]
fn test_web4_get_with_metadata_preload_result() {
    let contract = Contract::default();

    let preload_body = create_preload_result(
        String::from("NotOnlyDevHub"),
        String::from("A description of any devhub portal instance, not just devhub itself"),
    );
    let response = contract.web4_get(
        "not-only-devhub.near",
        &Web4Request {
            path: String::from("/"),
            preloads: Some(vec![(
                String::from(PRELOAD_URL),
                Web4Response::Body {
                    content_type: String::from("application/json"),
                    body: preload_body,
                },
            )]),
        },
    );
    match response {
        Web4Response::Body { content_type, body } => {
            assert_eq!("text/html; charset=UTF-8", content_type);

            let body_string = String::from_utf8(BASE64_STANDARD.decode(body).unwrap()).unwrap();

            assert!(body_string.contains(
                "<meta property=\"og:url\" content=\"https://not-only-devhub.near.page\" />"
            ));
            assert!(body_string.contains(
                "<meta property=\"og:description\" content=\"A description of any devhub portal instance, not just devhub itself\" />"
            ));
            assert!(body_string.contains(
                "<meta name=\"twitter:description\" content=\"A description of any devhub portal instance, not just devhub itself\" />"
            ));
            assert!(body_string.contains("<meta property=\"og:title\" content=\"NotOnlyDevHub\" />"));
            assert!(body_string.contains("<meta name=\"twitter:title\" content=\"NotOnlyDevHub\" />"));
            assert!(body_string.contains(
                "<meta property=\"og:image\" content=\"https://ipfs.near.social/ipfs/bafkreido4srg4aj7l7yg2tz22nbu3ytdidjczdvottfr5ek6gqorwg6v74\" />"
            ));
            assert!(body_string.contains(
                "<meta name=\"twitter:image\" content=\"https://ipfs.near.social/ipfs/bafkreido4srg4aj7l7yg2tz22nbu3ytdidjczdvottfr5ek6gqorwg6v74\" />"
            ));
        }
        _ => {
            panic!("Should return Web4Response::Body");
        }
    }
}

#[test]
fn test_basics_test_web4() {
    let contract = Contract::default();
    let title = "test title";
    let description =
        "test & description. \\\"Cool stuff\\\" <script>should not work</script>";
    let body = format!(
        "{{\"not-only-devhub.near\":{{\"widget\":{{\"app\":{{\"metadata\":{{\"description\":\"{}\",\"name\":\"{}\"}}}}}}}}}}",
        description, title
    );
    let response = contract.web4_get(
        "not-only-devhub.near",
        &Web4Request {
            path: String::from("/"),
            preloads: Some(vec![(
                String::from(PRELOAD_URL),
                Web4Response::Body {
                    content_type: String::from("application/json"),
                    body: BASE64_STANDARD.encode(body),
                },
            )]),
        },
    );
    match response {
        Web4Response::Body { content_type, body } => {
            assert_eq!("text/html; charset=UTF-8", content_type);
            let body_string = String::from_utf8(BASE64_STANDARD.decode(body).unwrap()).unwrap();
            assert!(body_string.contains("near-social-viewer"));
            assert!(body_string.contains("content=\"test title\""));
            assert!(body_string.contains(
                "test &amp; description. &quot;Cool stuff&quot; &lt;script&gt;should not work&lt;/script&gt;"
            ));
        }
        _ => panic!("Should return Web4Response::Body"),
    }
}

#[test]
fn test_escapes_supplied_title_and_description() {
    let contract = Contract::default();
    let body = "{\"acme.near\":{\"widget\":{\"app\":{\"metadata\":{\"name\":\"Acme \\\"Co\\\" <Treasury>\",\"description\":\"a & b\"}}}}}";
    let url = "/web4/contract/social.near/get?keys.json=%5B%22acme.near/widget/app/metadata/**%22%5D";
    let response = contract.web4_get(
        "acme.near",
        &Web4Request {
            path: String::from("/"),
            preloads: Some(vec![(
                String::from(url),
                Web4Response::Body {
                    content_type: String::from("application/json"),
                    body: BASE64_STANDARD.encode(body),
                },
            )]),
        },
    );
    match response {
        Web4Response::Body { content_type: _, body } => {
            let html = String::from_utf8(BASE64_STANDARD.decode(body).unwrap()).unwrap();
            assert!(html.contains("Acme &quot;Co&quot; &lt;Treasury&gt;"));
            assert!(html.contains("content=\"a &amp; b\""));
            assert!(!html.contains("Acme \"Co\""));
        }
        _ => panic!("Should return Web4Response::Body"),
    }
}

#[test]
fn test_falls_back_to_defaults_on_unparsable_preload() {
    let contract = Contract::default();
    let url = "/web4/contract/social.near/get?keys.json=%5B%22acme.near/widget/app/metadata/**%22%5D";
    let response = contract.web4_get(
        "acme.near",
        &Web4Request {
            path: String::from("/"),
            preloads: Some(vec![(
                String::from(url),
                Web4Response::Body {
                    content_type: String::from("application/json"),
                    body: BASE64_STANDARD.encode("this is { not json"),
                },
            )]),
        },
    );
    match response {
        Web4Response::Body { content_type: _, body } => {
            let html = String::from_utf8(BASE64_STANDARD.decode(body).unwrap()).unwrap();
            assert!(html.contains("<meta property=\"og:title\" content=\"NEAR Treasury\" />"));
            assert!(html.contains("NEAR Treasury / acme.near"));
            assert!(html.contains(
                "bafkreiefdkigadpkpccreqfnhut2li2nmf3alhz7c3wadveconelisnksu"
            ));
        }
        _ => panic!("Should return Web4Response::Body"),
    }
}

#[test]
fn test_service_worker() {
    let contract = Contract::default();
    let response = contract.web4_get(
        "acme.near",
        &Web4Request { path: String::from("/service-worker.js"), preloads: None },
    );
    match response {
        Web4Response::Body { content_type, body } => {
            assert_eq!("application/javascript", content_type);
            let script = String::from_utf8(BASE64_STANDARD.decode(body).unwrap()).unwrap();
            assert!(script.contains("Minimal Service Worker for Treasury Dashboard"));
            assert!(script.contains("addEventListener('install'"));
            assert!(script.contains("addEventListener('fetch'"));
        }
        _ => panic!("Should return Web4Response::Body"),
    }
}

#[test]
fn test_service_worker_html_contains_registration() {
    let contract = Contract::default();
    let url = "/web4/contract/social.near/get?keys.json=%5B%22acme.near/widget/app/metadata/**%22%5D";
    let body = "{\"acme.near\":{\"widget\":{\"app\":{\"metadata\":{\"name\":\"test title\",\"description\":\"test description\"}}}}}";
    let response = contract.web4_get(
        "acme.near",
        &Web4Request {
            path: String::from("/"),
            preloads: Some(vec![(
                String::from(url),
                Web4Response::Body {
                    content_type: String::from("application/json"),
                    body: BASE64_STANDARD.encode(body),
                },
            )]),
        },
    );
    match response {
        Web4Response::Body { content_type: _, body } => {
            let html = String::from_utf8(BASE64_STANDARD.decode(body).unwrap()).unwrap();
            assert!(
                html.contains("serviceWorker' in navigator"),
                "HTML should contain service worker registration"
            );
            assert!(
                html.contains("navigator.serviceWorker.register('/service-worker.js')"),
                "HTML should contain service worker registration call"
            );
        }
        _ => panic!("Should return Web4Response::Body"),
    }
}

#[test]
fn test_preload_body_requires_canonical_base64() {
    // The gateway protocol carries bodies in padded base64; a body that is
    // not a canonical encoding is treated like an unparsable document.
    let contract = Contract::default();
    let url = "/web4/contract/social.near/get?keys.json=%5B%22acme.near/widget/app/metadata/**%22%5D";
    let unpadded = "eyJhY21lLm5lYXIiOnt9fQ";
    let response = contract.web4_get(
        "acme.near",
        &Web4Request {
            path: String::from("/"),
            preloads: Some(vec![(
                String::from(url),
                Web4Response::Body {
                    content_type: String::from("application/json"),
                    body: String::from(unpadded),
                },
            )]),
        },
    );
    match response {
        Web4Response::Body { content_type: _, body } => {
            let html = String::from_utf8(BASE64_STANDARD.decode(body).unwrap()).unwrap();
            assert!(html.contains("<meta property=\"og:title\" content=\"NEAR Treasury\" />"));
        }
        _ => panic!("Should return Web4Response::Body"),
    }
}
