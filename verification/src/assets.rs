//! The fixed payloads that the two contracts serve: the factory's landing
//! page, the instance page template with its metadata placeholders, and the
//! service-worker script.

use vstd::prelude::*;
use vstd::string::StringSliceAdditionalSpecFns;
use vstd::string::StrSliceExecFns;

verus! {

pub const FACTORY_INDEX_HTML: &'static str =
    "<!DOCTYPE html>\n<html>\n<head>\n<meta charset=\"UTF-8\">\n<meta name=\"viewport\" content=\"width=device-width, initial-scale=1\">\n<title>NEAR Treasury Factory</title>\n</head>\n<body>\n<h1>NEAR Treasury Factory</h1>\n<p>Create a treasury instance to get a DAO with its own near-social-viewer web4 front end.</p>\n<near-social-viewer src=\"treasury-factory.near/widget/app\"></near-social-viewer>\n</body>\n</html>\n";

pub const INSTANCE_INDEX_HTML: &'static str =
    "<!DOCTYPE html>\n<html>\n<head>\n<meta charset=\"UTF-8\">\n<meta name=\"viewport\" content=\"width=device-width, initial-scale=1\">\n<title>SOCIAL_METADATA_TITLE</title>\n<meta property=\"og:url\" content=\"SOCIAL_METADATA_URL\" />\n<meta property=\"og:type\" content=\"website\" />\n<meta property=\"og:title\" content=\"SOCIAL_METADATA_TITLE\" />\n<meta property=\"og:description\" content=\"SOCIAL_METADATA_DESCRIPTION\" />\n<meta property=\"og:image\" content=\"https://ipfs.near.social/ipfs/SOCIAL_IMAGE_IPFS_CID\" />\n<meta name=\"twitter:card\" content=\"summary_large_image\" />\n<meta name=\"twitter:title\" content=\"SOCIAL_METADATA_TITLE\" />\n<meta name=\"twitter:description\" content=\"SOCIAL_METADATA_DESCRIPTION\" />\n<meta name=\"twitter:image\" content=\"https://ipfs.near.social/ipfs/SOCIAL_IMAGE_IPFS_CID\" />\n</head>\n<body>\n<near-social-viewer></near-social-viewer>\n<script>\nif ('serviceWorker' in navigator) {\n  navigator.serviceWorker.register('/service-worker.js');\n}\n</script>\n</body>\n</html>\n";

pub const SERVICE_WORKER_JS: &'static str =
    "// Minimal Service Worker for Treasury Dashboard\nself.addEventListener('install', function (event) {\n  self.skipWaiting();\n});\nself.addEventListener('activate', function (event) {\n  event.waitUntil(self.clients.claim());\n});\nself.addEventListener('fetch', function (event) {});\n";

/// The factory's landing page.
pub open spec fn factory_index() -> Seq<u8> {
    FACTORY_INDEX_HTML.spec_bytes()
}

/// The instance page template, with its four placeholders.
pub open spec fn instance_index() -> Seq<u8> {
    INSTANCE_INDEX_HTML.spec_bytes()
}

/// The service-worker script.
pub open spec fn service_worker() -> Seq<u8> {
    SERVICE_WORKER_JS.spec_bytes()
}

pub fn factory_index_bytes() -> (r: Vec<u8>)
    ensures
        r@ == factory_index(),
{
    FACTORY_INDEX_HTML.as_bytes_vec()
}

pub fn instance_index_bytes() -> (r: Vec<u8>)
    ensures
        r@ == instance_index(),
{
    INSTANCE_INDEX_HTML.as_bytes_vec()
}

pub fn service_worker_bytes() -> (r: Vec<u8>)
    ensures
        r@ == service_worker(),
{
    SERVICE_WORKER_JS.as_bytes_vec()
}

} // verus!
