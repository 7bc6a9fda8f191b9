//! The treasury factory: a three-stage provisioning saga.  A request reserves
//! the whole required deposit, creates the instance account with the web4
//! code, then funds the companion DAO and fires the widget replication.  A
//! failure at each stage refunds exactly the reservations that were not
//! irrevocably spent, so no saga ever leaves funds partly paid for.

use vstd::prelude::*;
use vstd::string::StringSliceAdditionalSpecFns;
use vstd::string::StringExecFns;
use vstd::string::StrSliceExecFns;
use vstd::utf8::encode_utf8;
use crate::account::valid_account_bytes;
use crate::account::validate_account_id;
use crate::assets;
use crate::b64::b64_encode;
use crate::b64::b64_encode_bytes;
use crate::escape::json_escape_into;
use crate::escape::json_escaped;
use crate::json::Json;
use crate::json::JsonSpec;
use crate::json::parse_document;
use crate::json::sp_document;
use crate::web4::Web4Request;
use crate::web4::Web4Response;

verus! {

/// What a provisioning request must attach, in yoctoNEAR: the sum of the
/// three stage reservations.
pub const REQUIRED_ATTACHED_DEPOSIT: u128 = 9_000_000_000_000_000_000_000_000;

/// Reserved for creating the DAO on the DAO factory.
pub const CREATE_SPUTNIK_DAO_DEPOSIT: u128 = 6_000_000_000_000_000_000_000_000;

/// Reserved for funding the widget replication's storage.
pub const SOCIAL_DB_DEPOSIT: u128 = 500_000_000_000_000_000_000_000;

/// Reserved for the new instance account and its contract code.
pub const NEW_INSTANCE_ACCOUNT_DEPOSIT: u128 = 2_500_000_000_000_000_000_000_000;

/// The key that the factory operator keeps on every instance.
pub const ADMIN_PUBLIC_KEY: &'static str = "ed25519:DuAFUPhxv3zBDbZP8oCwC1KQPVzaUY88s5tECv8JDPMg";

/// The factory contract state: the instance contract code it deploys.
pub struct Contract {
    pub web4_contract_bytes: Vec<u8>,
}

impl Default for Contract {
    /// A factory with no instance code loaded yet.
    fn default() -> (c: Contract)
        ensures
            c.web4_contract_bytes@ == Seq::<u8>::empty(),
    {
        Contract { web4_contract_bytes: Vec::new() }
    }
}

#[derive(Debug, PartialEq, Eq, Clone, Copy)]
pub enum FactoryError {
    WrongDeposit,
    InvalidName,
    Unauthorized,
}

/// How far a saga came, for the funds accounting.
pub enum SagaOutcome {
    Rejected,
    AccountStageFailed,
    DaoStageFailed,
    Succeeded,
}

/// What was irrevocably spent out of the attached deposit.
pub open spec fn consumed_funds(o: SagaOutcome) -> int {
    match o {
        SagaOutcome::Rejected => 0,
        SagaOutcome::AccountStageFailed => 0,
        SagaOutcome::DaoStageFailed => NEW_INSTANCE_ACCOUNT_DEPOSIT + SOCIAL_DB_DEPOSIT,
        SagaOutcome::Succeeded => NEW_INSTANCE_ACCOUNT_DEPOSIT + CREATE_SPUTNIK_DAO_DEPOSIT
            + SOCIAL_DB_DEPOSIT,
    }
}

/// What the compensating transfer returns to the requester.
pub open spec fn refunded_funds(o: SagaOutcome) -> int {
    match o {
        SagaOutcome::Rejected => 0,
        SagaOutcome::AccountStageFailed => REQUIRED_ATTACHED_DEPOSIT as int,
        SagaOutcome::DaoStageFailed => CREATE_SPUTNIK_DAO_DEPOSIT as int,
        SagaOutcome::Succeeded => 0,
    }
}

/// What the requester is out of pocket at the end: nothing for a rejection
/// (the deposit never moves), the unrefunded part otherwise.
pub open spec fn requester_debit(o: SagaOutcome) -> int {
    match o {
        SagaOutcome::Rejected => 0,
        _ => REQUIRED_ATTACHED_DEPOSIT - refunded_funds(o),
    }
}

/// Funds conservation: whatever the outcome, what a saga consumed and what it
/// refunded account for the whole attached deposit, the requester's debit is
/// exactly what was consumed, and neither side is ever negative — the
/// factory's own balance never pays for a saga.
pub proof fn lemma_saga_funds_conserved(o: SagaOutcome)
    ensures
        !(o is Rejected) ==> consumed_funds(o) + refunded_funds(o) == REQUIRED_ATTACHED_DEPOSIT,
        requester_debit(o) == consumed_funds(o),
        0 <= consumed_funds(o),
        0 <= refunded_funds(o),
{
}

/// A successful saga debits the requester exactly the fixed required deposit
/// and refunds nothing: the three stage reservations spend all of it.
pub proof fn lemma_success_exact_funds()
    ensures
        requester_debit(SagaOutcome::Succeeded) == REQUIRED_ATTACHED_DEPOSIT,
        refunded_funds(SagaOutcome::Succeeded) == 0,
        NEW_INSTANCE_ACCOUNT_DEPOSIT + CREATE_SPUTNIK_DAO_DEPOSIT + SOCIAL_DB_DEPOSIT
            == REQUIRED_ATTACHED_DEPOSIT,
{
}

/// A saga whose account-creation stage fails refunds the full attached
/// deposit: the requester is out nothing.
pub proof fn lemma_full_refund_on_account_failure()
    ensures
        refunded_funds(SagaOutcome::AccountStageFailed) == REQUIRED_ATTACHED_DEPOSIT,
        requester_debit(SagaOutcome::AccountStageFailed) == 0,
{
}

/// A saga whose DAO stage fails refunds exactly the DAO reservation: the
/// requester pays for the account and widget stages, already spent, and
/// nothing else.
pub proof fn lemma_partial_refund_on_dao_failure()
    ensures
        refunded_funds(SagaOutcome::DaoStageFailed) == CREATE_SPUTNIK_DAO_DEPOSIT,
        requester_debit(SagaOutcome::DaoStageFailed) == NEW_INSTANCE_ACCOUNT_DEPOSIT
            + SOCIAL_DB_DEPOSIT,
        requester_debit(SagaOutcome::DaoStageFailed) == REQUIRED_ATTACHED_DEPOSIT
            - CREATE_SPUTNIK_DAO_DEPOSIT,
{
}

/// The registrar call that creates the instance account: its identity, the
/// signer's and the operator's access keys, and the instance code.
#[derive(Debug)]
pub struct CreateAccountCall {
    pub registrar: String,
    pub args: Vec<u8>,
    pub deposit: u128,
    pub gas_tgas: u64,
}

/// What the saga's first continuation needs.
#[derive(Debug)]
pub struct CreateAccountCallbackArgs {
    pub refund_on_failure_account: String,
    pub name: String,
    pub new_instance_contract_id: String,
    pub sputnik_dao_factory_account_id: String,
    pub social_db_account_id: String,
    pub widget_reference_account_id: String,
    pub create_dao_args: String,
}

/// The accepted saga start: the account-creation call chained into the first
/// continuation.
#[derive(Debug)]
pub struct InstanceProvisionStart {
    pub create_account: CreateAccountCall,
    pub callback: CreateAccountCallbackArgs,
}

/// The DAO factory call of the second stage.
#[derive(Debug)]
pub struct DaoCreateCall {
    pub dao_factory_account_id: String,
    pub args: Vec<u8>,
    pub deposit: u128,
    pub gas_tgas: u64,
}

/// What the saga's second continuation needs.
#[derive(Debug)]
pub struct CreateDaoCallbackArgs {
    pub refund_on_failure_account: String,
    pub new_instance_contract_id: String,
    pub sputnik_dao_contract_id: String,
    pub widget_reference_account_id: String,
    pub social_db_account_id: String,
}

/// A compensating transfer.
#[derive(Debug)]
pub struct Refund {
    pub recipient: String,
    pub amount: u128,
}

/// What follows the account-creation stage: proceed to the DAO stage, or
/// compensate the whole deposit.
#[derive(Debug)]
pub enum AccountStageAction {
    ProceedToDao { dao_create: DaoCreateCall, callback: CreateDaoCallbackArgs },
    RefundAll { refund: Refund, log: String },
}

/// The widget replication fired on the new instance.
#[derive(Debug)]
pub struct WidgetsCall {
    pub new_instance_contract_id: String,
    pub widget_reference_account_id: String,
    pub social_db_account_id: String,
    pub deposit: u128,
    pub set_defaults: bool,
}

/// What follows the DAO stage: the best-effort widget replication always,
/// plus the DAO reservation's refund and a log line when the stage failed.
#[derive(Debug)]
pub struct DaoStageResult {
    pub update_widgets: WidgetsCall,
    pub refund: Option<Refund>,
    pub log: Option<String>,
}

/// The registrar arguments: the new account, the two full-access keys, and
/// the instance code, base64-encoded.
pub open spec fn create_account_args(id_b: Seq<u8>, signer_pk_b: Seq<u8>, wasm: Seq<u8>) -> Seq<
    u8,
> {
    ("{\"new_account_id\":\"").spec_bytes() + json_escaped(id_b) + (
    "\",\"options\":{\"contract_bytes_base64\":\"").spec_bytes() + b64_encode_bytes(wasm) + (
    "\",\"full_access_keys\":[\"").spec_bytes() + json_escaped(signer_pk_b) + ("\",\"").spec_bytes()
        + ADMIN_PUBLIC_KEY.spec_bytes() + ("\"]}}").spec_bytes()
}

/// The DAO factory arguments: the instance name and the configuration blob.
pub open spec fn dao_create_args(name_b: Seq<u8>, dao_args_b: Seq<u8>) -> Seq<u8> {
    ("{\"name\":\"").spec_bytes() + json_escaped(name_b) + ("\",\"args\":\"").spec_bytes()
        + json_escaped(dao_args_b) + ("\"}").spec_bytes()
}

/// Whether the account-creation stage reported success: its result must be
/// the JSON document `true`.
pub open spec fn account_creation_succeeded(result: Option<Vec<u8>>) -> bool {
    match result {
        Option::Some(data) => sp_document(data@) == Some(JsonSpec::Bool(true)),
        Option::None => false,
    }
}

impl Contract {
    /// A factory that deploys the given instance contract code.
    pub fn new(web4_contract_bytes: Vec<u8>) -> (c: Contract)
        ensures
            c.web4_contract_bytes@ == web4_contract_bytes@,
    {
        Contract { web4_contract_bytes }
    }

    /// Serves the factory's fixed landing page.
    #[allow(unused_variables)]
    pub fn web4_get(&self, request: &Web4Request) -> (r: Web4Response)
        ensures
            r matches Web4Response::Body { content_type, body } && content_type@
                == "text/html; charset=UTF-8"@ && encode_utf8(body@) == b64_encode_bytes(
                assets::factory_index(),
            ),
    {
        let page = assets::factory_index_bytes();
        Web4Response::Body {
            content_type: String::from_str("text/html; charset=UTF-8"),
            body: b64_encode(page.as_slice()),
        }
    }

    /// The instance contract code the factory deploys.
    pub fn get_web4_contract_bytes(&self) -> (r: &Vec<u8>)
        ensures
            r@ == self.web4_contract_bytes@,
    {
        &self.web4_contract_bytes
    }

    /// Starts a provisioning saga.  The attached deposit must equal the
    /// required amount exactly and the instance name must form a well-formed
    /// account; otherwise the request is rejected before anything moves.
    /// The accepted start reserves the account-stage deposit on the registrar
    /// call and hands everything the continuation needs along.
    pub fn create_instance(
        &mut self,
        predecessor_account_id: &str,
        signer_public_key: &str,
        attached_deposit: u128,
        name: String,
        sputnik_dao_factory_account_id: String,
        social_db_account_id: String,
        widget_reference_account_id: String,
        create_dao_args: String,
    ) -> (r: Result<InstanceProvisionStart, FactoryError>)
        ensures
            *final(self) == *old(self),
            attached_deposit != REQUIRED_ATTACHED_DEPOSIT ==> r == Result::<
                InstanceProvisionStart,
                FactoryError,
            >::Err(FactoryError::WrongDeposit),
            attached_deposit == REQUIRED_ATTACHED_DEPOSIT && !valid_account_bytes(
                encode_utf8(name@ + ".near"@),
            ) ==> r == Result::<InstanceProvisionStart, FactoryError>::Err(
                FactoryError::InvalidName,
            ),
            attached_deposit == REQUIRED_ATTACHED_DEPOSIT && valid_account_bytes(
                encode_utf8(name@ + ".near"@),
            ) ==> (r matches Ok(st) && {
                &&& st.create_account.registrar@ == "near"@
                &&& st.create_account.args@ == create_account_args(
                    encode_utf8(name@ + ".near"@),
                    encode_utf8(signer_public_key@),
                    old(self).web4_contract_bytes@,
                )
                &&& st.create_account.deposit == NEW_INSTANCE_ACCOUNT_DEPOSIT
                &&& st.create_account.gas_tgas == 80
                &&& st.callback.refund_on_failure_account@ == predecessor_account_id@
                &&& st.callback.name@ == name@
                &&& st.callback.new_instance_contract_id@ == name@ + ".near"@
                &&& st.callback.sputnik_dao_factory_account_id@ == sputnik_dao_factory_account_id@
                &&& st.callback.social_db_account_id@ == social_db_account_id@
                &&& st.callback.widget_reference_account_id@ == widget_reference_account_id@
                &&& st.callback.create_dao_args@ == create_dao_args@
            }),
    {
        if attached_deposit != REQUIRED_ATTACHED_DEPOSIT {
            return Err(FactoryError::WrongDeposit);
        }
        let new_instance_contract_id = name.clone().concat(".near");
        if !validate_account_id(new_instance_contract_id.as_str()) {
            return Err(FactoryError::InvalidName);
        }
        let mut args: Vec<u8> = ("{\"new_account_id\":\"").as_bytes_vec();
        json_escape_into(&mut args, new_instance_contract_id.as_str().as_bytes());
        args.extend_from_slice("\",\"options\":{\"contract_bytes_base64\":\"".as_bytes());
        let wasm_b64 = b64_encode(self.web4_contract_bytes.as_slice());
        args.extend_from_slice(wasm_b64.as_str().as_bytes());
        args.extend_from_slice("\",\"full_access_keys\":[\"".as_bytes());
        json_escape_into(&mut args, signer_public_key.as_bytes());
        args.extend_from_slice("\",\"".as_bytes());
        args.extend_from_slice(ADMIN_PUBLIC_KEY.as_bytes());
        args.extend_from_slice("\"]}}".as_bytes());
        proof {
            assert(args@ =~= create_account_args(
                encode_utf8(name@ + ".near"@),
                encode_utf8(signer_public_key@),
                self.web4_contract_bytes@,
            ));
        }
        Ok(
            InstanceProvisionStart {
                create_account: CreateAccountCall {
                    registrar: String::from_str("near"),
                    args,
                    deposit: NEW_INSTANCE_ACCOUNT_DEPOSIT,
                    gas_tgas: 80,
                },
                callback: CreateAccountCallbackArgs {
                    refund_on_failure_account: predecessor_account_id.to_owned(),
                    name,
                    new_instance_contract_id,
                    sputnik_dao_factory_account_id,
                    social_db_account_id,
                    widget_reference_account_id,
                    create_dao_args,
                },
            },
        )
    }

    /// Decides the saga's course once the account-creation stage resolved.
    /// Success chains the DAO-creation stage, funded with its reservation.
    /// Failure compensates the full attached deposit to the requester, since
    /// the account stage's own reservation bounced back with the failed call.
    /// Only the factory itself may invoke this continuation.
    pub fn create_account_callback(
        &self,
        current_account_id: &str,
        predecessor_account_id: &str,
        refund_on_failure_account: String,
        name: String,
        new_instance_contract_id: String,
        sputnik_dao_factory_account_id: String,
        social_db_account_id: String,
        widget_reference_account_id: String,
        create_dao_args: String,
        create_account_result: Option<Vec<u8>>,
    ) -> (r: Result<AccountStageAction, FactoryError>)
        ensures
            (predecessor_account_id@ == current_account_id@) <==> (r is Ok),
            r matches Err(e) ==> e == FactoryError::Unauthorized,
            (r is Ok && account_creation_succeeded(create_account_result)) ==> (r->Ok_0 matches
                AccountStageAction::ProceedToDao { dao_create, callback } && {
                &&& dao_create.dao_factory_account_id@ == sputnik_dao_factory_account_id@
                &&& dao_create.args@ == dao_create_args(
                    encode_utf8(name@),
                    encode_utf8(create_dao_args@),
                )
                &&& dao_create.deposit == CREATE_SPUTNIK_DAO_DEPOSIT
                &&& dao_create.gas_tgas == 100
                &&& callback.refund_on_failure_account@ == refund_on_failure_account@
                &&& callback.new_instance_contract_id@ == new_instance_contract_id@
                &&& callback.sputnik_dao_contract_id@ == name@ + "."@
                    + sputnik_dao_factory_account_id@
                &&& callback.widget_reference_account_id@ == widget_reference_account_id@
                &&& callback.social_db_account_id@ == social_db_account_id@
            }),
            (r is Ok && !account_creation_succeeded(create_account_result)) ==> (r->Ok_0 matches
                AccountStageAction::RefundAll { refund, log } && {
                &&& refund.recipient@ == refund_on_failure_account@
                &&& refund.amount == refunded_funds(SagaOutcome::AccountStageFailed)
                &&& log@ == "Failed creating treasury web4 account "@
                    + new_instance_contract_id@
            }),
    {
        let pred = predecessor_account_id.to_owned();
        let cur = current_account_id.to_owned();
        if !(pred == cur) {
            return Err(FactoryError::Unauthorized);
        }
        let succeeded = match &create_account_result {
            Option::Some(data) => {
                match parse_document(data.as_slice()) {
                    Option::Some(doc) => match doc {
                        Json::Bool(b) => b,
                        _ => false,
                    },
                    Option::None => false,
                }
            },
            Option::None => false,
        };
        if succeeded {
            let mut args: Vec<u8> = ("{\"name\":\"").as_bytes_vec();
            json_escape_into(&mut args, name.as_str().as_bytes());
            args.extend_from_slice("\",\"args\":\"".as_bytes());
            json_escape_into(&mut args, create_dao_args.as_str().as_bytes());
            args.extend_from_slice("\"}".as_bytes());
            proof {
                assert(args@ =~= dao_create_args(
                    encode_utf8(name@),
                    encode_utf8(create_dao_args@),
                ));
            }
            let sputnik_dao_contract_id = name.concat(".").concat(
                sputnik_dao_factory_account_id.as_str(),
            );
            Ok(
                AccountStageAction::ProceedToDao {
                    dao_create: DaoCreateCall {
                        dao_factory_account_id: sputnik_dao_factory_account_id,
                        args,
                        deposit: CREATE_SPUTNIK_DAO_DEPOSIT,
                        gas_tgas: 100,
                    },
                    callback: CreateDaoCallbackArgs {
                        refund_on_failure_account,
                        new_instance_contract_id,
                        sputnik_dao_contract_id,
                        widget_reference_account_id,
                        social_db_account_id,
                    },
                },
            )
        } else {
            let log = String::from_str("Failed creating treasury web4 account ").concat(
                new_instance_contract_id.as_str(),
            );
            Ok(
                AccountStageAction::RefundAll {
                    refund: Refund {
                        recipient: refund_on_failure_account,
                        amount: CREATE_SPUTNIK_DAO_DEPOSIT + SOCIAL_DB_DEPOSIT
                            + NEW_INSTANCE_ACCOUNT_DEPOSIT,
                    },
                    log,
                },
            )
        }
    }

    /// Closes the saga once the DAO stage resolved.  The widget replication
    /// is fired either way, funded with its reservation, and does not gate
    /// the outcome.  A failed DAO stage additionally compensates exactly the
    /// DAO reservation and reports which stage failed.  Only the factory
    /// itself may invoke this continuation.
    pub fn create_dao_callback(
        &self,
        current_account_id: &str,
        predecessor_account_id: &str,
        refund_on_failure_account: String,
        new_instance_contract_id: String,
        sputnik_dao_contract_id: String,
        widget_reference_account_id: String,
        social_db_account_id: String,
        create_dao_succeeded: bool,
    ) -> (r: Result<DaoStageResult, FactoryError>)
        ensures
            (predecessor_account_id@ == current_account_id@) <==> (r is Ok),
            r matches Err(e) ==> e == FactoryError::Unauthorized,
            r matches Ok(a) ==> {
                &&& a.update_widgets.new_instance_contract_id@ == new_instance_contract_id@
                &&& a.update_widgets.widget_reference_account_id@
                    == widget_reference_account_id@
                &&& a.update_widgets.social_db_account_id@ == social_db_account_id@
                &&& a.update_widgets.deposit == SOCIAL_DB_DEPOSIT
                &&& a.update_widgets.set_defaults == true
            },
            (r is Ok && create_dao_succeeded) ==> (r->Ok_0.refund is None) && (r->Ok_0.log
                is None),
            (r is Ok && !create_dao_succeeded) ==> (r->Ok_0.refund matches Some(f)
                && f.recipient@ == refund_on_failure_account@ && f.amount == refunded_funds(
                SagaOutcome::DaoStageFailed,
            )) && (r->Ok_0.log matches Some(log) && log@
                == "Succeeded creating and funding web4 account "@ + new_instance_contract_id@
                + ", but failed creating treasury account "@ + sputnik_dao_contract_id@),
    {
        let pred = predecessor_account_id.to_owned();
        let cur = current_account_id.to_owned();
        if !(pred == cur) {
            return Err(FactoryError::Unauthorized);
        }
        let update_widgets = WidgetsCall {
            new_instance_contract_id: new_instance_contract_id.clone(),
            widget_reference_account_id,
            social_db_account_id,
            deposit: SOCIAL_DB_DEPOSIT,
            set_defaults: true,
        };
        if create_dao_succeeded {
            Ok(DaoStageResult { update_widgets, refund: None, log: None })
        } else {
            let log = String::from_str("Succeeded creating and funding web4 account ").concat(
                new_instance_contract_id.as_str(),
            ).concat(", but failed creating treasury account ").concat(
                sputnik_dao_contract_id.as_str(),
            );
            Ok(
                DaoStageResult {
                    update_widgets,
                    refund: Some(
                        Refund {
                            recipient: refund_on_failure_account,
                            amount: CREATE_SPUTNIK_DAO_DEPOSIT,
                        },
                    ),
                    log: Some(log),
                },
            )
        }
    }
}

} // verus!
