//! The per-instance web4 contract: a static page responder that follows the
//! preload protocol, a widget replicator that copies the reference widgets
//! into the instance's namespace, and the social-metadata writer.

use vstd::prelude::*;
use vstd::string::StringSliceAdditionalSpecFns;
use vstd::string::StringExecFns;
use vstd::string::StrSliceExecFns;
use vstd::utf8::encode_utf8;
use crate::assets;
use crate::b64::b64_decode;
use crate::b64::b64_decode_bytes;
use crate::b64::b64_encode;
use crate::b64::b64_encode_bytes;
use crate::escape::attr_escape;
use crate::escape::attr_escaped;
use crate::escape::json_escape_into;
use crate::escape::json_escaped;
use crate::json::Json;
use crate::json::JsonSpec;
use crate::json::as_str;
use crate::json::as_str_spec;
use crate::json::obj_get;
use crate::json::obj_get_spec;
use crate::json::parse_document;
use crate::json::sp_document;
use crate::replace::lemma_replace_at_head;
use crate::replace::lemma_replace_no_occurrence;
use crate::replace::lemma_replace_prefix;
use crate::replace::occurs_in;
use crate::replace::replace_bytes;
use crate::replace::replace_spec;
use crate::replace::starts_with_at;

verus! {

/// A web4 gateway request: the path asked for, and the preloaded contents of
/// the URLs the responder asked for earlier, if the gateway supplied them.
pub struct Web4Request {
    pub path: String,
    pub preloads: Option<Vec<(String, Web4Response)>>,
}

/// A web4 gateway response: either a finished body, or the URLs whose
/// contents the responder needs before it can render.
pub enum Web4Response {
    Body { content_type: String, body: String },
    PreloadUrls { preload_urls: Vec<String> },
}

/// The per-instance contract state.  The responder and replicator keep no
/// state of their own.
#[derive(Default)]
pub struct Contract {}

/// The identity that may drive the widget replicator besides the instance
/// itself.
pub open spec fn factory_account() -> Seq<char> {
    "treasury-factory.near"@
}

pub open spec fn service_worker_path() -> Seq<char> {
    "/service-worker.js"@
}

/// The one URL whose contents the responder needs: the social-database query
/// for this instance's app metadata.
pub open spec fn metadata_url(acct: Seq<char>) -> Seq<char> {
    "/web4/contract/social.near/get?keys.json=%5B%22"@ + acct + "/widget/app/metadata/**%22%5D"@
}

pub open spec fn default_name() -> Seq<u8> {
    ("NEAR Treasury").spec_bytes()
}

pub open spec fn default_cid() -> Seq<u8> {
    ("bafkreiefdkigadpkpccreqfnhut2li2nmf3alhz7c3wadveconelisnksu").spec_bytes()
}

pub open spec fn default_description(acct_b: Seq<u8>) -> Seq<u8> {
    ("NEAR Treasury / ").spec_bytes() + acct_b
}

/// The first preloaded entry under the given URL.
pub open spec fn preloads_lookup(p: Seq<(String, Web4Response)>, url: Seq<char>) -> Option<
    Web4Response,
>
    decreases p.len(),
{
    if p.len() == 0 {
        None
    } else if p[0].0@ == url {
        Some(p[0].1)
    } else {
        preloads_lookup(p.skip(1), url)
    }
}

/// The metadata document carried by a preloaded response: its body decoded
/// from base64 and parsed as JSON.
pub open spec fn preload_doc(r: Option<Web4Response>) -> Option<JsonSpec> {
    match r {
        Option::Some(Web4Response::Body { content_type, body }) => {
            match b64_decode_bytes(encode_utf8(body@)) {
                Option::Some(raw) => sp_document(raw),
                Option::None => None,
            }
        },
        _ => None,
    }
}

/// The object under `<account>/widget/app/metadata` in the document.
pub open spec fn metadata_object(doc: Option<JsonSpec>, acct_b: Seq<u8>) -> Option<JsonSpec> {
    match doc {
        Option::None => None,
        Option::Some(d) => match obj_get_spec(d, acct_b) {
            Option::None => None,
            Option::Some(w) => match obj_get_spec(w, ("widget").spec_bytes()) {
                Option::None => None,
                Option::Some(a) => match obj_get_spec(a, ("app").spec_bytes()) {
                    Option::None => None,
                    Option::Some(m) => obj_get_spec(m, ("metadata").spec_bytes()),
                },
            },
        },
    }
}

/// A string field of the metadata object.
pub open spec fn str_field(m: Option<JsonSpec>, key: Seq<u8>) -> Option<Seq<u8>> {
    match m {
        Option::None => None,
        Option::Some(mo) => match obj_get_spec(mo, key) {
            Option::None => None,
            Option::Some(v) => as_str_spec(v),
        },
    }
}

/// The image CID of the metadata object, under `image/ipfs_cid`.
pub open spec fn cid_field(m: Option<JsonSpec>) -> Option<Seq<u8>> {
    match m {
        Option::None => None,
        Option::Some(mo) => match obj_get_spec(mo, ("image").spec_bytes()) {
            Option::None => None,
            Option::Some(im) => match obj_get_spec(im, ("ipfs_cid").spec_bytes()) {
                Option::None => None,
                Option::Some(v) => as_str_spec(v),
            },
        },
    }
}

pub open spec fn chosen_or(v: Option<Seq<u8>>, d: Seq<u8>) -> Seq<u8> {
    match v {
        Option::Some(t) => t,
        Option::None => d,
    }
}

/// The canonical page address of the instance.
pub open spec fn page_url_bytes(acct_b: Seq<u8>) -> Seq<u8> {
    ("https://").spec_bytes() + acct_b + (".page").spec_bytes()
}

/// The page template with its address, escaped title and description, and
/// image CID substituted in, in that order.
pub open spec fn rendered_page(acct_b: Seq<u8>, name_b: Seq<u8>, desc_b: Seq<u8>, cid_b: Seq<u8>) -> Seq<
    u8,
> {
    replace_spec(
        replace_spec(
            replace_spec(
                replace_spec(
                    assets::instance_index(),
                    ("SOCIAL_METADATA_URL").spec_bytes(),
                    page_url_bytes(acct_b),
                ),
                ("SOCIAL_METADATA_TITLE").spec_bytes(),
                attr_escaped(name_b),
            ),
            ("SOCIAL_METADATA_DESCRIPTION").spec_bytes(),
            attr_escaped(desc_b),
        ),
        ("SOCIAL_IMAGE_IPFS_CID").spec_bytes(),
        cid_b,
    )
}

/// The page rendered for a given preloaded response: each metadata field is
/// taken from the document where it is present, and falls back to its fixed
/// default where it is absent or the document does not parse.
pub open spec fn instance_page(acct_b: Seq<u8>, found: Option<Web4Response>) -> Seq<u8> {
    let m = metadata_object(preload_doc(found), acct_b);
    rendered_page(
        acct_b,
        chosen_or(str_field(m, ("name").spec_bytes()), default_name()),
        chosen_or(str_field(m, ("description").spec_bytes()), default_description(acct_b)),
        chosen_or(cid_field(m), default_cid()),
    )
}

/// Looks up the first preloaded entry under the given URL.
#[verifier::loop_isolation(false)]
fn find_preload<'a>(p: &'a Vec<(String, Web4Response)>, url: &String) -> (r: Option<
    &'a Web4Response,
>)
    ensures
        match r {
            Option::Some(w) => preloads_lookup(p@, url@) == Some(*w),
            Option::None => (preloads_lookup(p@, url@) is None),
        },
{
    let n = p.len();
    let mut i: usize = 0;
    proof {
        assert(p@.skip(0) =~= p@);
    }
    while i < n
        invariant
            0 <= i <= n == p@.len(),
            preloads_lookup(p@, url@) == preloads_lookup(p@.skip(i as int), url@),
        decreases n - i,
    {
        proof {
            assert(p@.skip(i as int)[0] == p@[i as int]);
            assert(p@.skip(i as int).skip(1) =~= p@.skip(i + 1));
        }
        if p[i].0 == *url {
            return Some(&p[i].1);
        }
        i = i + 1;
    }
    proof {
        assert(p@.skip(n as int).len() == 0);
    }
    None
}

impl Contract {
    /// Serves a page.  The service-worker path gets the fixed script.  A
    /// request without preloads is answered with the one URL the responder
    /// needs.  A request with preloads gets the page rendered from the
    /// preloaded metadata, base64-encoded.
    pub fn web4_get(&self, current_account_id: &str, request: &Web4Request) -> (r: Web4Response)
        ensures
            request.path@ == service_worker_path() ==> (r matches Web4Response::Body {
                content_type,
                body,
            } && content_type@ == "application/javascript"@ && encode_utf8(body@)
                == b64_encode_bytes(assets::service_worker())),
            request.path@ != service_worker_path() && request.preloads is None ==> (r matches
                Web4Response::PreloadUrls { preload_urls } && preload_urls@.len() == 1
                && preload_urls@[0]@ == metadata_url(current_account_id@)),
            (request.path@ != service_worker_path() && request.preloads is Some) ==> (r
                matches Web4Response::Body { content_type, body } && content_type@
                == "text/html; charset=UTF-8"@ && encode_utf8(body@) == b64_encode_bytes(
                instance_page(
                    encode_utf8(current_account_id@),
                    preloads_lookup(
                        request.preloads->Some_0@,
                        metadata_url(current_account_id@),
                    ),
                ),
            )),
    {
        let sw_path = String::from_str("/service-worker.js");
        if request.path == sw_path {
            let script = assets::service_worker_bytes();
            return Web4Response::Body {
                content_type: String::from_str("application/javascript"),
                body: b64_encode(script.as_slice()),
            };
        }
        let mut url = String::from_str("/web4/contract/social.near/get?keys.json=%5B%22");
        url.append(current_account_id);
        url.append("/widget/app/metadata/**%22%5D");
        match &request.preloads {
            Option::None => {
                let mut urls: Vec<String> = Vec::new();
                urls.push(url);
                Web4Response::PreloadUrls { preload_urls: urls }
            },
            Option::Some(p) => {
                let found = find_preload(p, &url);
                let acct_b: Vec<u8> = current_account_id.as_bytes_vec();
                let mut name: Vec<u8> = ("NEAR Treasury").as_bytes_vec();
                let mut desc: Vec<u8> = ("NEAR Treasury / ").as_bytes_vec();
                desc.extend_from_slice(acct_b.as_slice());
                let mut cid: Vec<u8> = (
                "bafkreiefdkigadpkpccreqfnhut2li2nmf3alhz7c3wadveconelisnksu").as_bytes_vec();
                proof {
                    assert(desc@ =~= default_description(acct_b@));
                }
                let ghost gfound = preloads_lookup(p@, url@);
                let ghost gm = metadata_object(preload_doc(gfound), acct_b@);
                if let Option::Some(resp) = found {
                    if let Web4Response::Body { content_type: _, body } = resp {
                        if let Option::Some(raw) = b64_decode(body.as_str()) {
                            if let Option::Some(doc) = parse_document(raw.as_slice()) {
                                if let Option::Some(meta_owner) = obj_get(&doc, acct_b.as_slice()) {
                                    if let Option::Some(w) = obj_get(meta_owner, "widget".as_bytes()) {
                                        if let Option::Some(a) = obj_get(w, "app".as_bytes()) {
                                            if let Option::Some(m) = obj_get(a, "metadata".as_bytes()) {
                                                proof {
                                                    assert(gm == Some(m@));
                                                }
                                                if let Option::Some(nv) = obj_get(m, "name".as_bytes()) {
                                                    if let Option::Some(t) = as_str(nv) {
                                                        name = t.clone();
                                                    }
                                                }
                                                if let Option::Some(dv) = obj_get(m, "description".as_bytes()) {
                                                    if let Option::Some(t) = as_str(dv) {
                                                        desc = t.clone();
                                                    }
                                                }
                                                if let Option::Some(iv) = obj_get(m, "image".as_bytes()) {
                                                    if let Option::Some(cv) = obj_get(iv, "ipfs_cid".as_bytes()) {
                                                        if let Option::Some(t) = as_str(cv) {
                                                            cid = t.clone();
                                                        }
                                                    }
                                                }
                                            }
                                        }
                                    }
                                }
                            }
                        }
                    }
                }
                proof {
                    assert(name@ == chosen_or(str_field(gm, ("name").spec_bytes()), default_name()));
                    assert(desc@ == chosen_or(
                        str_field(gm, ("description").spec_bytes()),
                        default_description(acct_b@),
                    ));
                    assert(cid@ == chosen_or(cid_field(gm), default_cid()));
                }
                let template = assets::instance_index_bytes();
                let mut target_url: Vec<u8> = ("https://").as_bytes_vec();
                target_url.extend_from_slice(acct_b.as_slice());
                target_url.extend_from_slice(".page".as_bytes());
                proof {
                    assert(target_url@ =~= page_url_bytes(acct_b@));
                }
                let step1 = replace_bytes(
                    template.as_slice(),
                    "SOCIAL_METADATA_URL".as_bytes(),
                    target_url.as_slice(),
                );
                let name_esc = attr_escape(name.as_slice());
                let step2 = replace_bytes(
                    step1.as_slice(),
                    "SOCIAL_METADATA_TITLE".as_bytes(),
                    name_esc.as_slice(),
                );
                let desc_esc = attr_escape(desc.as_slice());
                let step3 = replace_bytes(
                    step2.as_slice(),
                    "SOCIAL_METADATA_DESCRIPTION".as_bytes(),
                    desc_esc.as_slice(),
                );
                let step4 = replace_bytes(
                    step3.as_slice(),
                    "SOCIAL_IMAGE_IPFS_CID".as_bytes(),
                    cid.as_slice(),
                );
                Web4Response::Body {
                    content_type: String::from_str("text/html; charset=UTF-8"),
                    body: b64_encode(step4.as_slice()),
                }
            },
        }
    }
}


/// A `get` call on the social database: fetch the documents under a key
/// pattern.
#[derive(Debug)]
pub struct SocialGet {
    pub social_db_account_id: String,
    pub args: Vec<u8>,
    pub deposit: u128,
    pub gas_tgas: u64,
}

/// A `set` call on the social database: write a document, with the attached
/// deposit covering storage.
#[derive(Debug)]
pub struct SocialSet {
    pub social_db_account_id: String,
    pub args: Vec<u8>,
    pub deposit: u128,
    pub gas_tgas: u64,
}

/// What the replicator's continuation needs to finish its work.
#[derive(Debug)]
pub struct UpdateWidgetsCallbackArgs {
    pub widget_reference_account_id: String,
    pub social_db_account_id: String,
    pub deposit_amount: u128,
}

/// The replicator's first step: fetch the reference widgets, continue in the
/// callback, and optionally write the default metadata as well.
#[derive(Debug)]
pub struct UpdateWidgetsAction {
    pub fetch: SocialGet,
    pub callback: UpdateWidgetsCallbackArgs,
    pub set_defaults: Option<SocialSet>,
}

#[derive(Debug, PartialEq, Eq, Clone, Copy)]
pub enum Web4Error {
    Unauthorized,
    ReferenceFetchFailed,
}

/// The arguments of the `get` that fetches every widget under the reference
/// account: `{"keys":["<reference>/widget/**"]}`.
pub open spec fn keys_query(ref_b: Seq<u8>) -> Seq<u8> {
    ("{\"keys\":[\"").spec_bytes() + json_escaped(ref_b + ("/widget/**").spec_bytes()) + (
    "\"]}").spec_bytes()
}

/// The arguments of the `set` that writes the replicated widgets:
/// `{"data": <document with the reference identity replaced>}`.
pub open spec fn set_data_args(doc: Seq<u8>, from: Seq<u8>, to: Seq<u8>) -> Seq<u8> {
    ("{\"data\": ").spec_bytes() + replace_spec(doc, from, to) + ("}").spec_bytes()
}

/// The metadata document written under `<account>/widget/app/metadata`, with
/// every embedded string JSON-escaped.
pub open spec fn metadata_doc(acct_b: Seq<u8>, name_b: Seq<u8>, desc_b: Seq<u8>, cid_b: Seq<u8>) -> Seq<
    u8,
> {
    ("{\"data\":{\"").spec_bytes() + json_escaped(acct_b) + (
    "\":{\"widget\":{\"app\":{\"metadata\":{\"description\":\"").spec_bytes() + json_escaped(desc_b)
        + ("\",\"image\":{\"ipfs_cid\":\"").spec_bytes() + json_escaped(cid_b) + (
    "\"},\"name\":\"").spec_bytes() + json_escaped(name_b) + (
    "\",\"tags\":{\"app\":\"\",\"neartreasury\":\"\"}}}}}}}").spec_bytes()
}

/// Whether a social `set` writes the default metadata document for the
/// account, to the given social database.
pub open spec fn is_default_metadata_set(a: SocialSet, social_db: Seq<char>, acct_b: Seq<u8>) -> bool {
    &&& a.social_db_account_id@ == social_db
    &&& a.args@ == metadata_doc(acct_b, default_name(), default_description(acct_b), default_cid())
    &&& a.deposit == 0
    &&& a.gas_tgas == 10
}

impl Contract {
    /// Replicates the reference account's widgets into this instance's
    /// namespace: fetches them from the social database and continues in
    /// `update_widgets_callback`, optionally also writing the default
    /// metadata document.  Only the factory or the instance itself may call
    /// this.
    pub fn update_widgets(
        &mut self,
        current_account_id: &str,
        predecessor_account_id: &str,
        widget_reference_account_id: String,
        social_db_account_id: String,
        set_social_metadata_defaults: Option<bool>,
        attached_deposit: u128,
    ) -> (r: Result<UpdateWidgetsAction, Web4Error>)
        ensures
            *final(self) == *old(self),
            (predecessor_account_id@ == factory_account() || predecessor_account_id@
                == current_account_id@) <==> (r is Ok),
            r matches Ok(a) ==> {
                &&& a.fetch.social_db_account_id@ == social_db_account_id@
                &&& a.fetch.args@ == keys_query(encode_utf8(widget_reference_account_id@))
                &&& a.fetch.deposit == 0
                &&& a.fetch.gas_tgas == 10
                &&& a.callback.widget_reference_account_id@ == widget_reference_account_id@
                &&& a.callback.social_db_account_id@ == social_db_account_id@
                &&& a.callback.deposit_amount == attached_deposit
                &&& (set_social_metadata_defaults == Some(true) ==> (a.set_defaults matches Some(
                    d,
                ) && is_default_metadata_set(
                    d,
                    social_db_account_id@,
                    encode_utf8(current_account_id@),
                )))
                &&& (set_social_metadata_defaults != Some(true) ==> a.set_defaults is None)
            },
            r matches Err(e) ==> e == Web4Error::Unauthorized,
    {
        let factory = String::from_str("treasury-factory.near");
        let pred = predecessor_account_id.to_owned();
        let cur = current_account_id.to_owned();
        if !(pred == factory || pred == cur) {
            return Err(Web4Error::Unauthorized);
        }
        let mut key: Vec<u8> = widget_reference_account_id.as_str().as_bytes_vec();
        key.extend_from_slice("/widget/**".as_bytes());
        proof {
            assert(key@ =~= encode_utf8(widget_reference_account_id@) + (
            "/widget/**").spec_bytes());
        }
        let mut args: Vec<u8> = ("{\"keys\":[\"").as_bytes_vec();
        json_escape_into(&mut args, key.as_slice());
        args.extend_from_slice("\"]}".as_bytes());
        proof {
            assert(args@ =~= keys_query(encode_utf8(widget_reference_account_id@)));
        }
        let set_defaults = match set_social_metadata_defaults {
            Option::Some(true) => Some(
                self.internal_set_social_metadata(
                    current_account_id,
                    Some(social_db_account_id.clone()),
                    None,
                    None,
                    None,
                ),
            ),
            _ => None,
        };
        Ok(
            UpdateWidgetsAction {
                fetch: SocialGet {
                    social_db_account_id: social_db_account_id.clone(),
                    args,
                    deposit: 0,
                    gas_tgas: 10,
                },
                callback: UpdateWidgetsCallbackArgs {
                    widget_reference_account_id,
                    social_db_account_id,
                    deposit_amount: attached_deposit,
                },
                set_defaults,
            },
        )
    }

    /// Finishes the replication: rewrites every occurrence of the reference
    /// identity in the fetched document to this instance's identity and
    /// writes the result back, funded with the deposit recorded at the start.
    /// Only the instance itself may call this; a failed fetch fails the
    /// replication with nothing written.
    pub fn update_widgets_callback(
        &mut self,
        current_account_id: &str,
        predecessor_account_id: &str,
        widget_reference_account_id: String,
        social_db_account_id: String,
        deposit_amount: u128,
        fetch_result: Option<Vec<u8>>,
    ) -> (r: Result<SocialSet, Web4Error>)
        ensures
            *final(self) == *old(self),
            predecessor_account_id@ != current_account_id@ ==> r == Result::<
                SocialSet,
                Web4Error,
            >::Err(Web4Error::Unauthorized),
            predecessor_account_id@ == current_account_id@ && fetch_result is None ==> r
                == Result::<SocialSet, Web4Error>::Err(Web4Error::ReferenceFetchFailed),
            (predecessor_account_id@ == current_account_id@ && fetch_result is Some) ==> (r
                matches Ok(a) && a.social_db_account_id@ == social_db_account_id@ && a.deposit
                == deposit_amount && a.gas_tgas == 10 && a.args@ == set_data_args(
                fetch_result->Some_0@,
                encode_utf8(widget_reference_account_id@),
                encode_utf8(current_account_id@),
            )),
    {
        let pred = predecessor_account_id.to_owned();
        let cur = current_account_id.to_owned();
        if !(pred == cur) {
            return Err(Web4Error::Unauthorized);
        }
        match fetch_result {
            Option::None => Err(Web4Error::ReferenceFetchFailed),
            Option::Some(data) => {
                let from = widget_reference_account_id.as_str().as_bytes_vec();
                let to = current_account_id.as_bytes_vec();
                let replaced = replace_bytes(data.as_slice(), from.as_slice(), to.as_slice());
                let mut args: Vec<u8> = ("{\"data\": ").as_bytes_vec();
                args.extend_from_slice(replaced.as_slice());
                args.extend_from_slice("}".as_bytes());
                proof {
                    assert(args@ =~= set_data_args(
                        data@,
                        encode_utf8(widget_reference_account_id@),
                        encode_utf8(current_account_id@),
                    ));
                }
                Ok(
                    SocialSet {
                        social_db_account_id,
                        args,
                        deposit: deposit_amount,
                        gas_tgas: 10,
                    },
                )
            },
        }
    }

    /// Writes the app metadata document, filling absent fields with the fixed
    /// defaults.  Only the instance itself may call this.
    pub fn set_social_metadata(
        &mut self,
        current_account_id: &str,
        predecessor_account_id: &str,
        social_db_account_id: Option<String>,
        name: Option<String>,
        description: Option<String>,
        ipfs_cid: Option<String>,
    ) -> (r: Result<SocialSet, Web4Error>)
        ensures
            *final(self) == *old(self),
            predecessor_account_id@ == current_account_id@ <==> (r is Ok),
            r matches Err(e) ==> e == Web4Error::Unauthorized,
            r matches Ok(a) ==> {
                &&& a.social_db_account_id@ == (match social_db_account_id {
                    Option::Some(db) => db@,
                    Option::None => "social.near"@,
                })
                &&& a.args@ == metadata_doc(
                    encode_utf8(current_account_id@),
                    match name {
                        Option::Some(n) => encode_utf8(n@),
                        Option::None => default_name(),
                    },
                    match description {
                        Option::Some(d) => encode_utf8(d@),
                        Option::None => default_description(encode_utf8(current_account_id@)),
                    },
                    match ipfs_cid {
                        Option::Some(c) => encode_utf8(c@),
                        Option::None => default_cid(),
                    },
                )
                &&& a.deposit == 0
                &&& a.gas_tgas == 10
            },
    {
        let pred = predecessor_account_id.to_owned();
        let cur = current_account_id.to_owned();
        if !(pred == cur) {
            return Err(Web4Error::Unauthorized);
        }
        Ok(
            self.internal_set_social_metadata(
                current_account_id,
                social_db_account_id,
                name,
                description,
                ipfs_cid,
            ),
        )
    }

    /// Builds the metadata `set` call with defaults applied.
    fn internal_set_social_metadata(
        &mut self,
        current_account_id: &str,
        social_db_account_id: Option<String>,
        name: Option<String>,
        description: Option<String>,
        ipfs_cid: Option<String>,
    ) -> (a: SocialSet)
        ensures
            *final(self) == *old(self),
            a.social_db_account_id@ == (match social_db_account_id {
                Option::Some(db) => db@,
                Option::None => "social.near"@,
            }),
            a.args@ == metadata_doc(
                encode_utf8(current_account_id@),
                match name {
                    Option::Some(n) => encode_utf8(n@),
                    Option::None => default_name(),
                },
                match description {
                    Option::Some(d) => encode_utf8(d@),
                    Option::None => default_description(encode_utf8(current_account_id@)),
                },
                match ipfs_cid {
                    Option::Some(c) => encode_utf8(c@),
                    Option::None => default_cid(),
                },
            ),
            a.deposit == 0,
            a.gas_tgas == 10,
    {
        let target: String = match social_db_account_id {
            Option::Some(db) => db,
            Option::None => String::from_str("social.near"),
        };
        let acct_b: Vec<u8> = current_account_id.as_bytes_vec();
        let name_b: Vec<u8> = match name {
            Option::Some(n) => n.as_str().as_bytes_vec(),
            Option::None => ("NEAR Treasury").as_bytes_vec(),
        };
        let desc_b: Vec<u8> = match description {
            Option::Some(d) => d.as_str().as_bytes_vec(),
            Option::None => {
                let mut v: Vec<u8> = ("NEAR Treasury / ").as_bytes_vec();
                v.extend_from_slice(acct_b.as_slice());
                proof {
                    assert(v@ =~= default_description(encode_utf8(current_account_id@)));
                }
                v
            },
        };
        let cid_b: Vec<u8> = match ipfs_cid {
            Option::Some(c) => c.as_str().as_bytes_vec(),
            Option::None => (
            "bafkreiefdkigadpkpccreqfnhut2li2nmf3alhz7c3wadveconelisnksu").as_bytes_vec(),
        };
        let mut args: Vec<u8> = ("{\"data\":{\"").as_bytes_vec();
        json_escape_into(&mut args, acct_b.as_slice());
        args.extend_from_slice(
            "\":{\"widget\":{\"app\":{\"metadata\":{\"description\":\"".as_bytes(),
        );
        json_escape_into(&mut args, desc_b.as_slice());
        args.extend_from_slice("\",\"image\":{\"ipfs_cid\":\"".as_bytes());
        json_escape_into(&mut args, cid_b.as_slice());
        args.extend_from_slice("\"},\"name\":\"".as_bytes());
        json_escape_into(&mut args, name_b.as_slice());
        args.extend_from_slice(
            "\",\"tags\":{\"app\":\"\",\"neartreasury\":\"\"}}}}}}}".as_bytes(),
        );
        proof {
            assert(args@ =~= metadata_doc(
                encode_utf8(current_account_id@),
                match name {
                    Option::Some(n) => encode_utf8(n@),
                    Option::None => default_name(),
                },
                match description {
                    Option::Some(d) => encode_utf8(d@),
                    Option::None => default_description(encode_utf8(current_account_id@)),
                },
                match ipfs_cid {
                    Option::Some(c) => encode_utf8(c@),
                    Option::None => default_cid(),
                },
            ));
        }
        SocialSet { social_db_account_id: target, args, deposit: 0, gas_tgas: 10 }
    }
}


/// A reference document as the social database stores it: one key, the
/// owning identity, over an inner document.
pub open spec fn widget_doc(id: Seq<u8>, inner: Seq<u8>) -> Seq<u8> {
    seq![123u8, 34u8] + id + seq![34u8, 58u8] + inner + seq![125u8]
}

/// Round-trip widget replication: replacing the reference identity
/// throughout the fetched document `{"<ref>":<inner>}` rewrites exactly the
/// key, yielding `{"<target>":<inner>}` — provided the identity does not
/// occur in the inner document and contains no quote, colon or brace, which
/// no account identifier does.
pub proof fn lemma_widget_document_substitution(refid: Seq<u8>, target: Seq<u8>, inner: Seq<u8>)
    requires
        refid.len() > 0,
        forall|k: int| 0 <= k < refid.len() ==> #[trigger] refid[k] != 34 && refid[k] != 58
            && refid[k] != 123 && refid[k] != 125,
        !occurs_in(inner, refid),
    ensures
        replace_spec(widget_doc(refid, inner), refid, target) == widget_doc(target, inner),
{
    let l = refid.len() as int;
    let pre = seq![123u8, 34u8];
    let mid = seq![34u8, 58u8];
    let post = seq![125u8];
    let b = refid + (mid + inner + post);
    let s = widget_doc(refid, inner);
    assert(s =~= pre + b);
    assert forall|j: int| 0 <= j < pre.len() implies !#[trigger] starts_with_at(
        pre + b,
        refid,
        j,
    ) by {
        if starts_with_at(pre + b, refid, j) {
            assert((pre + b).subrange(j, j + l)[0] == (pre + b)[j]);
            assert(refid[0] == (pre + b)[j]);
        }
    }
    lemma_replace_prefix(pre, b, refid, target);
    assert(starts_with_at(b, refid, 0)) by {
        assert(b.subrange(0, l) =~= refid);
    }
    lemma_replace_at_head(b, refid, target);
    let c = b.skip(l);
    assert(c =~= mid + inner + post);
    assert(!occurs_in(c, refid)) by {
        if occurs_in(c, refid) {
            let j = choose|j: int| starts_with_at(c, refid, j);
            assert(c.subrange(j, j + l)[0] == c[j]);
            assert(refid[0] == c[j]);
            if j == 0 {
                assert(c[0] == 34);
            } else if j == 1 {
                assert(c[1] == 58);
            } else if j + l <= 2 + inner.len() {
                assert(inner.subrange(j - 2, j - 2 + l) =~= c.subrange(j, j + l));
                assert(starts_with_at(inner, refid, j - 2));
                assert(occurs_in(inner, refid));
            } else {
                assert(j + l == c.len());
                assert(c.subrange(j, j + l)[l - 1] == c[j + l - 1]);
                assert(refid[l - 1] == c[c.len() - 1]);
                assert(c[c.len() - 1] == 125);
            }
        }
    }
    lemma_replace_no_occurrence(c, refid, target);
    assert(pre + (target + c) =~= widget_doc(target, inner));
}

/// Round-trip widget replication, at the replicator's write: for a fetched
/// reference document `{"<ref>":<inner>}` the callback's arguments are
/// exactly `{"data": {"<target>":<inner>}}`.
pub proof fn lemma_replication_round_trip(refid: Seq<u8>, target: Seq<u8>, inner: Seq<u8>)
    requires
        refid.len() > 0,
        forall|k: int| 0 <= k < refid.len() ==> #[trigger] refid[k] != 34 && refid[k] != 58
            && refid[k] != 123 && refid[k] != 125,
        !occurs_in(inner, refid),
    ensures
        set_data_args(widget_doc(refid, inner), refid, target) == ("{\"data\": ").spec_bytes()
            + widget_doc(target, inner) + ("}").spec_bytes(),
{
    lemma_widget_document_substitution(refid, target, inner);
}


/// A replacement of the contract's own code.
#[derive(Debug)]
pub struct DeployCode {
    pub code: Vec<u8>,
}

impl Contract {
    /// Replaces the contract's own code.  Only the contract itself or the
    /// designated operator identity may do so; any other caller is rejected
    /// with nothing deployed.
    pub fn self_upgrade(
        &mut self,
        current_account_id: &str,
        predecessor_account_id: &str,
        authorized_account_id: &str,
        code: Vec<u8>,
    ) -> (r: Result<DeployCode, Web4Error>)
        ensures
            *final(self) == *old(self),
            (predecessor_account_id@ == current_account_id@ || predecessor_account_id@
                == authorized_account_id@) <==> (r is Ok),
            r matches Ok(d) ==> d.code@ == code@,
            r matches Err(e) ==> e == Web4Error::Unauthorized,
    {
        let pred = predecessor_account_id.to_owned();
        let cur = current_account_id.to_owned();
        let authorized = authorized_account_id.to_owned();
        if pred == cur || pred == authorized {
            Ok(DeployCode { code })
        } else {
            Err(Web4Error::Unauthorized)
        }
    }
}

} // verus!
