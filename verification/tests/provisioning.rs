use base64::Engine;
use base64::engine::general_purpose::STANDARD as BASE64_STANDARD;
use treasury_factory::factory::AccountStageAction;
use treasury_factory::factory::CREATE_SPUTNIK_DAO_DEPOSIT;
use treasury_factory::factory::Contract;
use treasury_factory::factory::FactoryError;
use treasury_factory::factory::NEW_INSTANCE_ACCOUNT_DEPOSIT;
use treasury_factory::factory::REQUIRED_ATTACHED_DEPOSIT;
use treasury_factory::factory::SOCIAL_DB_DEPOSIT;
use treasury_factory::web4::Web4Request;
use treasury_factory::web4::Web4Response;

const FACTORY: &str = "treasury-factory.near";
const SIGNER_PK: &str = "ed25519:6E8sCci9badyRkXb3JoRpBj5p8C6Tw41ELDZoiihKEtp";

fn start_args() -> (String, String, String, String, String) {
    (
        String::from("acme"),
        String::from("sputnik-dao.near"),
        String::from("social.near"),
        String::from("treasury-testing.near"),
        String::from("eyJ0ZXN0IjoidGVzdCJ9"),
    )
}

#[test]
fn web4_get() {
    let contract = Contract::default();
    let response = contract.web4_get(&Web4Request { path: String::from("/"), preloads: None });
    match response {
        Web4Response::Body { content_type, body } => {
            assert_eq!("text/html; charset=UTF-8", content_type);

            let body_string = String::from_utf8(BASE64_STANDARD.decode(body).unwrap()).unwrap();

            assert!(body_string.contains("near-social-viewer"));
        }
        _ => {
            panic!("Should return Web4Response::Body");
        }
    }
}

#[test]
fn test_get_web4_contract_bytes() {
    let wasm = vec![0u8, 97, 115, 109, 1, 2, 3];
    let contract = Contract::new(wasm.clone());
    assert_eq!(contract.get_web4_contract_bytes(), &wasm);
}

#[test]
fn test_create_instance_requires_exact_deposit() {
    let mut contract = Contract::new(vec![0, 97, 115, 109]);
    let (name, dao, social, widget, args) = start_args();
    let r = contract.create_instance(
        "bob.near",
        SIGNER_PK,
        REQUIRED_ATTACHED_DEPOSIT - 1,
        name,
        dao,
        social,
        widget,
        args,
    );
    assert_eq!(r.unwrap_err(), FactoryError::WrongDeposit);

    let (name, dao, social, widget, args) = start_args();
    let r = contract.create_instance(
        "bob.near",
        SIGNER_PK,
        REQUIRED_ATTACHED_DEPOSIT + 1,
        name,
        dao,
        social,
        widget,
        args,
    );
    assert_eq!(r.unwrap_err(), FactoryError::WrongDeposit);
}

#[test]
fn test_create_instance_rejects_malformed_name() {
    let mut contract = Contract::new(vec![0, 97, 115, 109]);
    let (_, dao, social, widget, args) = start_args();
    let r = contract.create_instance(
        "bob.near",
        SIGNER_PK,
        REQUIRED_ATTACHED_DEPOSIT,
        String::from("Acme!"),
        dao,
        social,
        widget,
        args,
    );
    assert_eq!(r.unwrap_err(), FactoryError::InvalidName);
}

#[test]
fn test_create_instance_reserves_account_stage() {
    let wasm = vec![0u8, 97, 115, 109, 9, 9];
    let mut contract = Contract::new(wasm.clone());
    let (name, dao, social, widget, args) = start_args();
    let st = contract
        .create_instance(
            "bob.near",
            SIGNER_PK,
            REQUIRED_ATTACHED_DEPOSIT,
            name,
            dao,
            social,
            widget,
            args,
        )
        .unwrap();
    assert_eq!(st.create_account.registrar, "near");
    assert_eq!(st.create_account.deposit, NEW_INSTANCE_ACCOUNT_DEPOSIT);
    assert_eq!(st.create_account.gas_tgas, 80);
    assert_eq!(st.callback.new_instance_contract_id, "acme.near");
    assert_eq!(st.callback.refund_on_failure_account, "bob.near");

    let parsed: serde_json::Value = serde_json::from_slice(&st.create_account.args).unwrap();
    assert_eq!(parsed["new_account_id"], "acme.near");
    assert_eq!(parsed["options"]["full_access_keys"][0], SIGNER_PK);
    let code_b64 = parsed["options"]["contract_bytes_base64"].as_str().unwrap();
    assert_eq!(BASE64_STANDARD.decode(code_b64).unwrap(), wasm);
}

#[test]
fn test_factory() {
    // The full happy path: exact funds attached, no collisions, terminal
    // success, and the new instance's responder serves the supplied title.
    let mut contract = Contract::new(vec![0, 97, 115, 109]);
    let (name, dao, social, widget, args) = start_args();
    let st = contract
        .create_instance(
            "bob.near",
            SIGNER_PK,
            REQUIRED_ATTACHED_DEPOSIT,
            name,
            dao,
            social,
            widget,
            args,
        )
        .unwrap();

    let stage2 = contract
        .create_account_callback(
            FACTORY,
            FACTORY,
            st.callback.refund_on_failure_account,
            st.callback.name,
            st.callback.new_instance_contract_id,
            st.callback.sputnik_dao_factory_account_id,
            st.callback.social_db_account_id,
            st.callback.widget_reference_account_id,
            st.callback.create_dao_args,
            Some(b"true".to_vec()),
        )
        .unwrap();
    let (dao_create, cb) = match stage2 {
        AccountStageAction::ProceedToDao { dao_create, callback } => (dao_create, callback),
        _ => panic!("expected the DAO stage"),
    };
    assert_eq!(dao_create.dao_factory_account_id, "sputnik-dao.near");
    assert_eq!(dao_create.deposit, CREATE_SPUTNIK_DAO_DEPOSIT);
    assert_eq!(dao_create.gas_tgas, 100);
    let parsed: serde_json::Value = serde_json::from_slice(&dao_create.args).unwrap();
    assert_eq!(parsed["name"], "acme");
    assert_eq!(parsed["args"], "eyJ0ZXN0IjoidGVzdCJ9");
    assert_eq!(cb.sputnik_dao_contract_id, "acme.sputnik-dao.near");

    let done = contract
        .create_dao_callback(
            FACTORY,
            FACTORY,
            cb.refund_on_failure_account,
            cb.new_instance_contract_id,
            cb.sputnik_dao_contract_id,
            cb.widget_reference_account_id,
            cb.social_db_account_id,
            true,
        )
        .unwrap();
    assert!(done.refund.is_none());
    assert!(done.log.is_none());
    assert_eq!(done.update_widgets.deposit, SOCIAL_DB_DEPOSIT);
    assert!(done.update_widgets.set_defaults);
    assert_eq!(done.update_widgets.new_instance_contract_id, "acme.near");

    // The spent reservations add up to exactly the attached deposit.
    assert_eq!(
        NEW_INSTANCE_ACCOUNT_DEPOSIT + CREATE_SPUTNIK_DAO_DEPOSIT + SOCIAL_DB_DEPOSIT,
        REQUIRED_ATTACHED_DEPOSIT
    );

    // The provisioned instance serves its page with the supplied title.
    let responder = treasury_factory::web4::Contract::default();
    let url = "/web4/contract/social.near/get?keys.json=%5B%22acme.near/widget/app/metadata/**%22%5D";
    let body = "{\"acme.near\":{\"widget\":{\"app\":{\"metadata\":{\"name\":\"Acme <Treasury>\"}}}}}";
    let page = responder.web4_get(
        "acme.near",
        &Web4Request {
            path: String::from("/"),
            preloads: Some(vec![(
                String::from(url),
                Web4Response::Body {
                    content_type: String::from("application/json"),
                    body: BASE64_STANDARD.encode(body),
                },
            )]),
        },
    );
    match page {
        Web4Response::Body { content_type: _, body } => {
            let html = String::from_utf8(BASE64_STANDARD.decode(body).unwrap()).unwrap();
            assert!(html.contains("Acme &lt;Treasury&gt;"));
        }
        _ => panic!("Should return Web4Response::Body"),
    }
}

#[test]
fn test_factory_should_refund_if_failing_because_of_existing_account() {
    // The account-creation stage reports a collision: the requester is
    // compensated with the full attached deposit.
    let contract = Contract::new(vec![0, 97, 115, 109]);
    let r = contract
        .create_account_callback(
            FACTORY,
            FACTORY,
            String::from("bob.near"),
            String::from("intellex"),
            String::from("intellex.near"),
            String::from("sputnik-dao.near"),
            String::from("social.near"),
            String::from("treasury-testing.near"),
            String::from("eyJ0ZXN0IjoidGVzdCJ9"),
            Some(b"false".to_vec()),
        )
        .unwrap();
    match r {
        AccountStageAction::RefundAll { refund, log } => {
            assert_eq!(refund.recipient, "bob.near");
            assert_eq!(refund.amount, REQUIRED_ATTACHED_DEPOSIT);
            assert_eq!(log, "Failed creating treasury web4 account intellex.near");
        }
        _ => panic!("expected a full refund"),
    }

    // A missing result counts as a failure too.
    let r = contract
        .create_account_callback(
            FACTORY,
            FACTORY,
            String::from("bob.near"),
            String::from("intellex"),
            String::from("intellex.near"),
            String::from("sputnik-dao.near"),
            String::from("social.near"),
            String::from("treasury-testing.near"),
            String::from("eyJ0ZXN0IjoidGVzdCJ9"),
            None,
        )
        .unwrap();
    assert!(matches!(r, AccountStageAction::RefundAll { .. }));
}

#[test]
fn test_factory_should_refund_if_failing_because_of_existing_dao_but_still_create_web4_and_set_social_metadata()
 {
    // The DAO stage fails: only its reservation is refunded, and the widget
    // replication with metadata defaults is still fired on the instance.
    let contract = Contract::new(vec![0, 97, 115, 109]);
    let done = contract
        .create_dao_callback(
            FACTORY,
            FACTORY,
            String::from("bob.near"),
            String::from("intellex.near"),
            String::from("intellex.sputnik-dao.near"),
            String::from("treasury-testing.near"),
            String::from("social.near"),
            false,
        )
        .unwrap();
    let refund = done.refund.expect("the DAO reservation is refunded");
    assert_eq!(refund.recipient, "bob.near");
    assert_eq!(refund.amount, CREATE_SPUTNIK_DAO_DEPOSIT);
    assert_eq!(
        done.log.unwrap(),
        "Succeeded creating and funding web4 account intellex.near, but failed creating treasury account intellex.sputnik-dao.near"
    );
    assert_eq!(done.update_widgets.deposit, SOCIAL_DB_DEPOSIT);
    assert!(done.update_widgets.set_defaults);
    assert_eq!(done.update_widgets.widget_reference_account_id, "treasury-testing.near");
}

#[test]
fn test_callbacks_reject_unauthorized_callers() {
    let contract = Contract::new(vec![0, 97, 115, 109]);
    let r = contract.create_account_callback(
        FACTORY,
        "mallory.near",
        String::from("bob.near"),
        String::from("acme"),
        String::from("acme.near"),
        String::from("sputnik-dao.near"),
        String::from("social.near"),
        String::from("treasury-testing.near"),
        String::from(""),
        Some(b"true".to_vec()),
    );
    assert_eq!(r.unwrap_err(), FactoryError::Unauthorized);

    let r = contract.create_dao_callback(
        FACTORY,
        "mallory.near",
        String::from("bob.near"),
        String::from("acme.near"),
        String::from("acme.sputnik-dao.near"),
        String::from("treasury-testing.near"),
        String::from("social.near"),
        true,
    );
    assert_eq!(r.unwrap_err(), FactoryError::Unauthorized);
}
