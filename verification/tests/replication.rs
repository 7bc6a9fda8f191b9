use treasury_factory::web4::Contract;
use treasury_factory::web4::Web4Error;

const FACTORY: &str = "treasury-factory.near";
const INSTANCE: &str = "webassemblymusic-treasury.near";
const REFERENCE: &str = "treasury-testing.near";

#[test]
fn test_update_widgets() {
    let mut contract = Contract::default();
    let action = contract
        .update_widgets(
            INSTANCE,
            FACTORY,
            String::from(REFERENCE),
            String::from("social.near"),
            None,
            7_000_000_000_000_000_000_000,
        )
        .unwrap();
    assert_eq!(action.fetch.social_db_account_id, "social.near");
    assert_eq!(
        String::from_utf8(action.fetch.args.clone()).unwrap(),
        "{\"keys\":[\"treasury-testing.near/widget/**\"]}"
    );
    assert_eq!(action.fetch.deposit, 0);
    assert_eq!(action.callback.widget_reference_account_id, REFERENCE);
    assert_eq!(action.callback.deposit_amount, 7_000_000_000_000_000_000_000);
    assert!(action.set_defaults.is_none());
}

#[test]
fn test_update_widgets_and_set_social_metadata_defaults() {
    let mut contract = Contract::default();
    let action = contract
        .update_widgets(
            INSTANCE,
            INSTANCE,
            String::from(REFERENCE),
            String::from("social.near"),
            Some(true),
            0,
        )
        .unwrap();
    let defaults = action.set_defaults.expect("the defaults document is written");
    assert_eq!(defaults.social_db_account_id, "social.near");
    let parsed: serde_json::Value = serde_json::from_slice(&defaults.args).unwrap();
    let metadata = &parsed["data"][INSTANCE]["widget"]["app"]["metadata"];
    assert_eq!(metadata["name"], "NEAR Treasury");
    assert_eq!(
        metadata["description"],
        format!("NEAR Treasury / {}", INSTANCE)
    );
    assert_eq!(
        metadata["image"]["ipfs_cid"],
        "bafkreiefdkigadpkpccreqfnhut2li2nmf3alhz7c3wadveconelisnksu"
    );
    assert_eq!(metadata["tags"]["app"], "");
    assert_eq!(metadata["tags"]["neartreasury"], "");
}

#[test]
fn test_update_widgets_rejects_other_callers() {
    let mut contract = Contract::default();
    let r = contract.update_widgets(
        INSTANCE,
        "mallory.near",
        String::from(REFERENCE),
        String::from("social.near"),
        Some(true),
        0,
    );
    assert_eq!(r.unwrap_err(), Web4Error::Unauthorized);
}

#[test]
fn test_update_app_widget() {
    // The replicated document carries the reference widgets with the
    // identity rewritten, wrapped for the social database's `set`.
    let mut contract = Contract::default();
    let reference_doc =
        "{\"treasury-testing.near\":{\"widget\":{\"app\":\"Hello\",\"config\":\"Goodbye\"}}}";
    let set = contract
        .update_widgets_callback(
            INSTANCE,
            INSTANCE,
            String::from(REFERENCE),
            String::from("social.near"),
            500_000_000_000_000_000_000_000,
            Some(reference_doc.as_bytes().to_vec()),
        )
        .unwrap();
    assert_eq!(set.social_db_account_id, "social.near");
    assert_eq!(set.deposit, 500_000_000_000_000_000_000_000);
    assert_eq!(
        String::from_utf8(set.args).unwrap(),
        "{\"data\": {\"webassemblymusic-treasury.near\":{\"widget\":{\"app\":\"Hello\",\"config\":\"Goodbye\"}}}}"
    );
}

#[test]
fn test_update_widgets_callback_requires_fetched_reference() {
    let mut contract = Contract::default();
    let r = contract.update_widgets_callback(
        INSTANCE,
        INSTANCE,
        String::from(REFERENCE),
        String::from("social.near"),
        0,
        None,
    );
    assert_eq!(r.unwrap_err(), Web4Error::ReferenceFetchFailed);

    let r = contract.update_widgets_callback(
        INSTANCE,
        FACTORY,
        String::from(REFERENCE),
        String::from("social.near"),
        0,
        Some(vec![]),
    );
    assert_eq!(r.unwrap_err(), Web4Error::Unauthorized);
}

#[test]
fn test_social_metadata() {
    let mut contract = Contract::default();
    let set = contract
        .set_social_metadata(
            INSTANCE,
            INSTANCE,
            Some(String::from("social.near")),
            Some(String::from("My Treasury")),
            Some(String::from("A treasury with \"quotes\" in its description")),
            Some(String::from("bafybeicustomcid")),
        )
        .unwrap();
    assert_eq!(set.social_db_account_id, "social.near");
    let parsed: serde_json::Value = serde_json::from_slice(&set.args).unwrap();
    let metadata = &parsed["data"][INSTANCE]["widget"]["app"]["metadata"];
    assert_eq!(metadata["name"], "My Treasury");
    assert_eq!(
        metadata["description"],
        "A treasury with \"quotes\" in its description"
    );
    assert_eq!(metadata["image"]["ipfs_cid"], "bafybeicustomcid");

    let r = contract.set_social_metadata(INSTANCE, FACTORY, None, None, None, None);
    assert_eq!(r.unwrap_err(), Web4Error::Unauthorized);
}

#[test]
fn test_social_metadata_defaults_without_database_named() {
    let mut contract = Contract::default();
    let set = contract
        .set_social_metadata(INSTANCE, INSTANCE, None, None, None, None)
        .unwrap();
    assert_eq!(set.social_db_account_id, "social.near");
    let parsed: serde_json::Value = serde_json::from_slice(&set.args).unwrap();
    let metadata = &parsed["data"][INSTANCE]["widget"]["app"]["metadata"];
    assert_eq!(metadata["name"], "NEAR Treasury");
    assert_eq!(metadata["description"], format!("NEAR Treasury / {}", INSTANCE));
}
