use record_registry::registry::{
    add_record, execute, get_info, get_records, handle_instantiate_reply, instantiate, query, register,
    reply, view_records, AddRecordMsg, ContractError, Directory, ExecuteMsg, ExecuteResponse, InfoResp,
    InstantiateMsg, InstantiateRequest, OffspringExecuteMsg, OffspringInstantiateMsg, OffspringQueryMsg,
    OffspringResp, QueryMsg, QueryResponse, QueryWithPermit, Record, Reply, StoreExecute, StoreQuery,
    SubMsgResponse, SubMsgResult, ViewingKeyGrant, INSTANTIATE_REPLY_ID,
};
use secret_cosmwasm_std::testing::MockStorage;
use secret_toolkit::viewing_key::{ViewingKey, ViewingKeyStore};

fn new_directory() -> Directory {
    instantiate(InstantiateMsg {
        owner: "owner".to_string(),
        offspring_id: 1,
        offspring_hash: "".to_string(),
    })
}

fn confirmation(store: &str, id: &str, owner: &str, key: &str) -> Reply {
    Reply {
        id: INSTANTIATE_REPLY_ID,
        result: SubMsgResult::Success(SubMsgResponse {
            data: Some(Ok(OffspringResp {
                offspring_address: store.to_string(),
                owner_id: id.to_string(),
                owner_address: owner.to_string(),
                key: key.to_string(),
            })),
        }),
    }
}

/// Delivers a completion and hands its viewing key to a real viewing-key store.
fn complete(dir: &mut Directory, keys: &mut MockStorage, msg: Reply) -> Result<(), ContractError> {
    let grant = reply(dir, msg)?;
    ViewingKey::set(keys, &grant.id, &grant.key);
    Ok(())
}

fn info(dir: &Directory, keys: &MockStorage, id: &str, key: &str) -> Result<InfoResp, ContractError> {
    let key_valid = ViewingKey::check(keys, id, key).is_ok();
    get_info(dir, id.to_string(), key.to_string(), key_valid)
}

fn sample_record() -> Record {
    Record {
        title: "checkup".to_string(),
        timestamp: None,
        description: "yearly".to_string(),
        data: "all fine".to_string(),
    }
}

#[test]
fn contract_run_instantiate() {
    let dir = new_directory();
    let keys = MockStorage::new();
    assert_eq!(
        info(&dir, &keys, "John Doe", ""),
        Err(ContractError::NonexistentUser { id: "John Doe".to_string() })
    );
    let sent = register(&dir, &"owner".to_string(), "x".to_string(), "a".to_string(), "".to_string())
        .unwrap();
    assert_eq!(sent.code_id, 1);
    assert_eq!(sent.code_hash, "");
}

#[test]
fn run_register_get_info() {
    let mut dir = new_directory();
    let mut keys = MockStorage::new();
    let sample_id = "John Doe";
    let sample_address = "secret1".to_string();

    let err = execute(
        &dir,
        &"sender".to_string(),
        ExecuteMsg::Register {
            id: sample_id.to_owned(),
            address: sample_address.clone(),
            key: "".to_string(),
        },
    )
    .unwrap_err();
    assert_eq!(ContractError::Unauthorized { sender: "sender".to_string() }, err);

    execute(
        &dir,
        &"owner".to_string(),
        ExecuteMsg::Register {
            id: sample_id.to_owned(),
            address: sample_address.clone(),
            key: "".to_string(),
        },
    )
    .unwrap();

    assert_eq!(
        info(&dir, &keys, sample_id, ""),
        Err(ContractError::NonexistentUser { id: sample_id.to_string() })
    );

    complete(&mut dir, &mut keys, confirmation("contract_address", sample_id, "secret1", "")).unwrap();

    let resp = info(&dir, &keys, sample_id, "").unwrap();
    assert_eq!(
        resp,
        InfoResp { address: sample_address, contract_address: "contract_address".to_string() }
    );
}

#[test]
fn register_by_administrator_issues_create_request() {
    let dir = new_directory();
    let r = register(
        &dir,
        &"owner".to_string(),
        "alice".to_string(),
        "alice_addr".to_string(),
        "pw".to_string(),
    );
    assert_eq!(
        r,
        Ok(InstantiateRequest {
            code_id: 1,
            code_hash: "".to_string(),
            msg: OffspringInstantiateMsg {
                owner: "alice_addr".to_string(),
                owner_id: "alice".to_string(),
                key: "pw".to_string(),
            },
            reply_id: INSTANTIATE_REPLY_ID,
        })
    );
    let through_execute = execute(
        &dir,
        &"owner".to_string(),
        ExecuteMsg::Register {
            id: "alice".to_string(),
            address: "alice_addr".to_string(),
            key: "pw".to_string(),
        },
    );
    assert_eq!(through_execute, Ok(ExecuteResponse::Instantiate(r.unwrap())));
}

#[test]
fn register_by_anyone_else_is_unauthorized() {
    let dir = new_directory();
    for caller in ["alice", "", "owner2", "Owner"] {
        let r = register(&dir, &caller.to_string(), "alice".to_string(), "a".to_string(), "k".to_string());
        assert_eq!(r, Err(ContractError::Unauthorized { sender: caller.to_string() }));
    }
}

#[test]
fn no_mapping_before_completion() {
    let dir = new_directory();
    let keys = MockStorage::new();
    register(&dir, &"owner".to_string(), "alice".to_string(), "a".to_string(), "pw".to_string())
        .unwrap();
    let missing = Err(ContractError::NonexistentUser { id: "alice".to_string() });
    assert_eq!(info(&dir, &keys, "alice", "pw"), missing);
    assert_eq!(get_records::<()>(&dir, "alice".to_string(), 0), Err(ContractError::NonexistentUser {
        id: "alice".to_string(),
    }));
    assert_eq!(
        view_records(&dir, "alice".to_string(), (), "r1".to_string()),
        Err(ContractError::NonexistentUser { id: "alice".to_string() })
    );
    assert_eq!(
        add_record(&dir, "alice".to_string(), "r1".to_string(), sample_record()),
        Err(ContractError::NonexistentUser { id: "alice".to_string() })
    );
}

#[test]
fn mapping_after_success_checks_key() {
    let mut dir = new_directory();
    let mut keys = MockStorage::new();
    complete(&mut dir, &mut keys, confirmation("store_a", "alice", "alice_addr", "pw")).unwrap();
    assert_eq!(
        info(&dir, &keys, "alice", "pw"),
        Ok(InfoResp { address: "alice_addr".to_string(), contract_address: "store_a".to_string() })
    );
    assert_eq!(
        info(&dir, &keys, "alice", "wrong"),
        Err(ContractError::InvalidKey { key: "wrong".to_string() })
    );
}

#[test]
fn reply_returns_viewing_key_grant() {
    let mut dir = new_directory();
    let grant = reply(&mut dir, confirmation("store_a", "alice", "alice_addr", "pw"));
    assert_eq!(grant, Ok(ViewingKeyGrant { id: "alice".to_string(), key: "pw".to_string() }));
}

#[test]
fn unexpected_reply_id_is_rejected() {
    let mut dir = new_directory();
    let mut keys = MockStorage::new();
    let mut msg = confirmation("store_a", "alice", "alice_addr", "pw");
    msg.id = 2;
    assert_eq!(
        complete(&mut dir, &mut keys, msg),
        Err(ContractError::UnexpectedReplyId { id: 2 })
    );
    assert_eq!(
        info(&dir, &keys, "alice", "pw"),
        Err(ContractError::NonexistentUser { id: "alice".to_string() })
    );
}

#[test]
fn completion_without_payload_fails() {
    let mut dir = new_directory();
    let r = reply(
        &mut dir,
        Reply { id: INSTANTIATE_REPLY_ID, result: SubMsgResult::Success(SubMsgResponse { data: None }) },
    );
    assert_eq!(r, Err(ContractError::OffspringInstantiationError {}));
}

#[test]
fn failed_creation_passes_detail_through() {
    let mut dir = new_directory();
    let r = handle_instantiate_reply(&mut dir, SubMsgResult::Failure("out of gas".to_string()));
    assert_eq!(r, Err(ContractError::CustomError { val: "out of gas".to_string() }));
}

#[test]
fn undecodable_confirmation_is_a_platform_error() {
    let mut dir = new_directory();
    let r = handle_instantiate_reply(
        &mut dir,
        SubMsgResult::Success(SubMsgResponse { data: Some(Err("bad json".to_string())) }),
    );
    assert_eq!(r, Err(ContractError::StdError("bad json".to_string())));
}

#[test]
fn second_confirmation_for_same_identity_keeps_first_store() {
    let mut dir = new_directory();
    let mut keys = MockStorage::new();
    complete(&mut dir, &mut keys, confirmation("store_a", "alice", "alice_addr", "pw")).unwrap();
    assert_eq!(
        complete(&mut dir, &mut keys, confirmation("store_b", "alice", "mallory", "pw2")),
        Err(ContractError::UserAlreadyExists { id: "alice".to_string() })
    );
    assert_eq!(
        info(&dir, &keys, "alice", "pw"),
        Ok(InfoResp { address: "alice_addr".to_string(), contract_address: "store_a".to_string() })
    );
}

#[test]
fn add_record_is_forwarded_to_the_identity_store() {
    let mut dir = new_directory();
    reply(&mut dir, confirmation("store_a", "alice", "alice_addr", "pw")).unwrap();
    let expected = StoreExecute {
        contract_address: "store_a".to_string(),
        code_hash: "".to_string(),
        msg: OffspringExecuteMsg::AddRecord(AddRecordMsg {
            id: "r1".to_string(),
            title: "checkup".to_string(),
            description: "yearly".to_string(),
            data: "all fine".to_string(),
        }),
    };
    assert_eq!(
        add_record(&dir, "alice".to_string(), "r1".to_string(), sample_record()),
        Ok(expected.clone())
    );
    let through_execute = execute(
        &dir,
        &"anyone".to_string(),
        ExecuteMsg::AddRecord {
            patient_id: "alice".to_string(),
            record_id: "r1".to_string(),
            record: sample_record(),
        },
    );
    assert_eq!(through_execute, Ok(ExecuteResponse::Execute(expected)));
    assert_eq!(
        execute(
            &dir,
            &"anyone".to_string(),
            ExecuteMsg::AddRecord {
                patient_id: "bob".to_string(),
                record_id: "r1".to_string(),
                record: sample_record(),
            },
        ),
        Err(ContractError::NonexistentUser { id: "bob".to_string() })
    );
}

#[test]
fn queries_are_routed_to_the_identity_store() {
    let mut dir = new_directory();
    reply(&mut dir, confirmation("store_a", "alice", "alice_addr", "pw")).unwrap();
    let records = query::<u8>(&dir, QueryMsg::Records { id: "alice".to_string(), page: 3 }, false);
    assert_eq!(
        records,
        Ok(QueryResponse::Forward(StoreQuery {
            contract_address: "store_a".to_string(),
            code_hash: "".to_string(),
            msg: OffspringQueryMsg::Records { page: 3 },
        }))
    );
    let view = query(
        &dir,
        QueryMsg::WithPermit {
            id: "alice".to_string(),
            permit: 7u8,
            query: QueryWithPermit::ViewById { record_id: "r1".to_string() },
        },
        false,
    );
    assert_eq!(
        view,
        Ok(QueryResponse::Forward(StoreQuery {
            contract_address: "store_a".to_string(),
            code_hash: "".to_string(),
            msg: OffspringQueryMsg::ViewById { permit: 7u8, record_id: "r1".to_string() },
        }))
    );
    let add = query(
        &dir,
        QueryMsg::WithPermit { id: "alice".to_string(), permit: 7u8, query: QueryWithPermit::Add },
        false,
    );
    assert_eq!(add, Ok(QueryResponse::Empty));
    let unknown = query(
        &dir,
        QueryMsg::WithPermit { id: "bob".to_string(), permit: 7u8, query: QueryWithPermit::Add },
        true,
    );
    assert_eq!(unknown, Err(ContractError::NonexistentUser { id: "bob".to_string() }));
    let info_ok = query::<u8>(&dir, QueryMsg::Info { id: "alice".to_string(), key: "pw".to_string() }, true);
    assert_eq!(
        info_ok,
        Ok(QueryResponse::Info(InfoResp {
            address: "alice_addr".to_string(),
            contract_address: "store_a".to_string(),
        }))
    );
    let info_bad = query::<u8>(&dir, QueryMsg::Info { id: "alice".to_string(), key: "no".to_string() }, false);
    assert_eq!(info_bad, Err(ContractError::InvalidKey { key: "no".to_string() }));
}

#[test]
fn directory_parts_round_trip() {
    let mut dir = new_directory();
    reply(&mut dir, confirmation("store_a", "alice", "alice_addr", "pw")).unwrap();
    let (owner, offspring, people) = dir.into_parts();
    assert_eq!(owner, "owner");
    assert_eq!(offspring.code_id, 1);
    assert_eq!(people.len(), 1);
    let dir = Directory::from_parts(owner, offspring, people);
    assert_eq!(
        get_info(&dir, "alice".to_string(), "pw".to_string(), true),
        Ok(InfoResp { address: "alice_addr".to_string(), contract_address: "store_a".to_string() })
    );
}
