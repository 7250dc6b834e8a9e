//! The directory: it provisions one record store per registered identity,
//! learns each store's address from the completion notification of its
//! creation, and routes record commands and queries to that store.
use vstd::prelude::*;
use crate::keyed_store::{
    has_key, inserted, keys_unique, lemma_inserted, lookup, Duplicate, KeyedStore,
};

pub use crate::capability::RecordPermissions;

verus! {

/// The correlation tag carried by every store-creation request.
pub const INSTANTIATE_REPLY_ID: u64 = 1;

/// The directory's constructor arguments: its administrator and the template
/// (code id and code hash) that new stores are created from.
#[derive(Debug, Clone, PartialEq)]
pub struct InstantiateMsg {
    pub owner: String,
    pub offspring_id: u64,
    pub offspring_hash: String,
}

/// The store template.
#[derive(Debug, Clone, PartialEq)]
pub struct OffspringInfo {
    pub code_id: u64,
    pub code_hash: String,
}

/// A registered identity: its owner's address and the address of its store.
#[derive(Debug, Clone, PartialEq)]
pub struct Person {
    pub address: String,
    pub contract_address: String,
}

impl Duplicate for Person {
    fn duplicate(&self) -> (r: Person) {
        Person { address: self.address.clone(), contract_address: self.contract_address.clone() }
    }
}

/// A record as the directory forwards it; the store stamps its own time.
#[derive(Debug, Clone, PartialEq)]
pub struct Record {
    pub title: String,
    pub timestamp: Option<u64>,
    pub description: String,
    pub data: String,
}

#[derive(Debug, Clone, PartialEq)]
pub enum ExecuteMsg {
    Register { id: String, address: String, key: String },
    AddRecord { patient_id: String, record_id: String, record: Record },
}

/// What a permit-carrying query asks of the identity's store.
#[derive(Debug, Clone, PartialEq)]
pub enum QueryWithPermit {
    ViewById { record_id: String },
    Add,
}

/// Directory queries; `P` is the permit, relayed to the store uninterpreted.
#[derive(Debug, Clone, PartialEq)]
pub enum QueryMsg<P> {
    Info { id: String, key: String },
    Records { id: String, page: u32 },
    WithPermit { id: String, permit: P, query: QueryWithPermit },
}

#[derive(Debug, Clone, PartialEq)]
pub struct InfoResp {
    pub address: String,
    pub contract_address: String,
}

/// The constructor arguments handed to a new store.
#[derive(Debug, Clone, PartialEq)]
pub struct OffspringInstantiateMsg {
    pub owner: String,
    pub owner_id: String,
    pub key: String,
}

/// The confirmation a new store returns when its creation completes.
#[derive(Debug, Clone, PartialEq)]
pub struct OffspringResp {
    pub offspring_address: String,
    pub owner_id: String,
    pub owner_address: String,
    pub key: String,
}

/// A record command for a store, sent without a permit.
#[derive(Debug, Clone, PartialEq)]
pub struct AddRecordMsg {
    pub id: String,
    pub title: String,
    pub description: String,
    pub data: String,
}

#[derive(Debug, Clone, PartialEq)]
pub enum OffspringExecuteMsg {
    AddRecord(AddRecordMsg),
}

#[derive(Debug, Clone, PartialEq)]
pub enum OffspringQueryMsg<P> {
    ViewById { permit: P, record_id: String },
    Records { page: u32 },
}

/// A request to create a store from the template; its completion comes back
/// through `reply` under `reply_id`.
#[derive(Debug, Clone, PartialEq)]
pub struct InstantiateRequest {
    pub code_id: u64,
    pub code_hash: String,
    pub msg: OffspringInstantiateMsg,
    pub reply_id: u64,
}

/// A command to run on a store, in the same transaction as the directory's own.
#[derive(Debug, Clone, PartialEq)]
pub struct StoreExecute {
    pub contract_address: String,
    pub code_hash: String,
    pub msg: OffspringExecuteMsg,
}

/// A query to run on a store; its answer is the directory's answer.
#[derive(Debug, Clone, PartialEq)]
pub struct StoreQuery<P> {
    pub contract_address: String,
    pub code_hash: String,
    pub msg: OffspringQueryMsg<P>,
}

/// What a directory command asks the host to send.
#[derive(Debug, Clone, PartialEq)]
pub enum ExecuteResponse {
    Instantiate(InstantiateRequest),
    Execute(StoreExecute),
}

/// The answer to a directory query, or the store query that gives it.
#[derive(Debug, Clone, PartialEq)]
pub enum QueryResponse<P> {
    Info(InfoResp),
    Forward(StoreQuery<P>),
    Empty,
}

/// The result data of a finished store creation: the confirmation as the host
/// decoded it, or the decoder's complaint.
#[derive(Debug, Clone, PartialEq)]
pub struct SubMsgResponse {
    pub data: Option<Result<OffspringResp, String>>,
}

#[derive(Debug, Clone, PartialEq)]
pub enum SubMsgResult {
    Success(SubMsgResponse),
    Failure(String),
}

/// A completion notification.
#[derive(Debug, Clone, PartialEq)]
pub struct Reply {
    pub id: u64,
    pub result: SubMsgResult,
}

/// A viewing key for the host's viewing-key store to record for `id`.
#[derive(Debug, Clone, PartialEq)]
pub struct ViewingKeyGrant {
    pub id: String,
    pub key: String,
}

#[derive(Debug, Clone, PartialEq)]
pub enum ContractError {
    /// A failure of the host platform, passed through unchanged.
    StdError(String),
    Unauthorized { sender: String },
    UnexpectedReplyId { id: u64 },
    OffspringInstantiationError {},
    NonexistentUser { id: String },
    InvalidKey { key: String },
    CustomError { val: String },
    /// A completion arrived for an identity that already has a store.
    UserAlreadyExists { id: String },
}

/// The directory's state.
pub struct Directory {
    owner: String,
    offspring: OffspringInfo,
    people: KeyedStore<Person>,
}

impl Directory {
    /// The administrator's address.
    pub closed spec fn owner(&self) -> Seq<char> {
        self.owner@
    }

    /// The store template.
    pub closed spec fn offspring(&self) -> OffspringInfo {
        self.offspring
    }

    /// The registered identities, in order of registration.
    pub closed spec fn people(&self) -> Seq<(Seq<char>, Person)> {
        self.people@
    }

    /// A directory rebuilt from its parts, as kept in the host's storage.
    pub fn from_parts(owner: String, offspring: OffspringInfo, people: KeyedStore<Person>) -> (r:
        Directory)
        ensures
            r.owner() == owner@,
            r.offspring() == offspring,
            r.people() == people@,
    {
        Directory { owner, offspring, people }
    }

    /// The directory's parts, for the host's storage.
    pub fn into_parts(self) -> (r: (String, OffspringInfo, KeyedStore<Person>))
        ensures
            r.0@ == self.owner(),
            r.1 == self.offspring(),
            r.2@ == self.people(),
    {
        (self.owner, self.offspring, self.people)
    }
}

/// The outcome of a registration request by `sender`: only the administrator
/// may ask for a new store.
pub open spec fn register_result(
    owner: Seq<char>,
    offspring: OffspringInfo,
    sender: String,
    id: String,
    address: String,
    key: String,
) -> Result<InstantiateRequest, ContractError> {
    if sender@ == owner {
        Ok(
            InstantiateRequest {
                code_id: offspring.code_id,
                code_hash: offspring.code_hash,
                msg: OffspringInstantiateMsg { owner: address, owner_id: id, key },
                reply_id: INSTANTIATE_REPLY_ID,
            },
        )
    } else {
        Err(ContractError::Unauthorized { sender })
    }
}

/// The outcome of adding a record for `patient_id`: the command forwarded to
/// that identity's store.
pub open spec fn add_record_result(
    people: Seq<(Seq<char>, Person)>,
    offspring: OffspringInfo,
    patient_id: String,
    record_id: String,
    record: Record,
) -> Result<StoreExecute, ContractError> {
    match lookup(people, patient_id@) {
        None => Err(ContractError::NonexistentUser { id: patient_id }),
        Some(person) => Ok(
            StoreExecute {
                contract_address: person.contract_address,
                code_hash: offspring.code_hash,
                msg: OffspringExecuteMsg::AddRecord(
                    AddRecordMsg {
                        id: record_id,
                        title: record.title,
                        description: record.description,
                        data: record.data,
                    },
                ),
            },
        ),
    }
}

/// The outcome of routing `msg` to the store of identity `id`.
pub open spec fn store_query_result<P>(
    people: Seq<(Seq<char>, Person)>,
    offspring: OffspringInfo,
    id: String,
    msg: OffspringQueryMsg<P>,
) -> Result<StoreQuery<P>, ContractError> {
    match lookup(people, id@) {
        None => Err(ContractError::NonexistentUser { id }),
        Some(person) => Ok(
            StoreQuery {
                contract_address: person.contract_address,
                code_hash: offspring.code_hash,
                msg,
            },
        ),
    }
}

/// The outcome of an info query for `id`, given the viewing-key store's
/// verdict on the presented key.
pub open spec fn info_result(
    people: Seq<(Seq<char>, Person)>,
    id: String,
    key: String,
    key_valid: bool,
) -> Result<InfoResp, ContractError> {
    match lookup(people, id@) {
        None => Err(ContractError::NonexistentUser { id }),
        Some(person) => if key_valid {
            Ok(InfoResp { address: person.address, contract_address: person.contract_address })
        } else {
            Err(ContractError::InvalidKey { key })
        },
    }
}

/// The outcome of a store-creation completion: the viewing key to record, or the error.
pub open spec fn instantiate_reply_result(
    people: Seq<(Seq<char>, Person)>,
    result: SubMsgResult,
) -> Result<ViewingKeyGrant, ContractError> {
    match result {
        SubMsgResult::Success(response) => match response.data {
            Some(Ok(resp)) => if has_key(people, resp.owner_id@) {
                Err(ContractError::UserAlreadyExists { id: resp.owner_id })
            } else {
                Ok(ViewingKeyGrant { id: resp.owner_id, key: resp.key })
            },
            Some(Err(msg)) => Err(ContractError::StdError(msg)),
            None => Err(ContractError::OffspringInstantiationError {  }),
        },
        SubMsgResult::Failure(e) => Err(ContractError::CustomError { val: e }),
    }
}

/// The identities after a store-creation completion: a confirmed new identity
/// is added; anything else leaves them as they were.
pub open spec fn people_after_instantiate_reply(
    people: Seq<(Seq<char>, Person)>,
    result: SubMsgResult,
) -> Seq<(Seq<char>, Person)> {
    match result {
        SubMsgResult::Success(response) => match response.data {
            Some(Ok(resp)) => if has_key(people, resp.owner_id@) {
                people
            } else {
                inserted(
                    people,
                    resp.owner_id@,
                    Person { address: resp.owner_address, contract_address: resp.offspring_address },
                )
            },
            _ => people,
        },
        SubMsgResult::Failure(_) => people,
    }
}

/// The outcome of a completion notification.
pub open spec fn reply_result(people: Seq<(Seq<char>, Person)>, msg: Reply) -> Result<
    ViewingKeyGrant,
    ContractError,
> {
    if msg.id == INSTANTIATE_REPLY_ID {
        instantiate_reply_result(people, msg.result)
    } else {
        Err(ContractError::UnexpectedReplyId { id: msg.id })
    }
}

/// The identities after a completion notification.
pub open spec fn people_after_reply(people: Seq<(Seq<char>, Person)>, msg: Reply) -> Seq<
    (Seq<char>, Person),
> {
    if msg.id == INSTANTIATE_REPLY_ID {
        people_after_instantiate_reply(people, msg.result)
    } else {
        people
    }
}

/// Sets up a directory with its administrator and store template.
pub fn instantiate(msg: InstantiateMsg) -> (r: Directory)
    ensures
        r.owner() == msg.owner@,
        r.offspring() == (OffspringInfo { code_id: msg.offspring_id, code_hash: msg.offspring_hash }),
        r.people() == Seq::<(Seq<char>, Person)>::empty(),
{
    Directory {
        owner: msg.owner,
        offspring: OffspringInfo { code_id: msg.offspring_id, code_hash: msg.offspring_hash },
        people: KeyedStore::new(),
    }
}

/// Handles a directory command sent by `sender`.
pub fn execute(state: &Directory, sender: &String, msg: ExecuteMsg) -> (r: Result<
    ExecuteResponse,
    ContractError,
>)
    ensures
        match msg {
            ExecuteMsg::Register { id, address, key } => match register_result(
                state.owner(),
                state.offspring(),
                *sender,
                id,
                address,
                key,
            ) {
                Ok(q) => r == Ok::<ExecuteResponse, ContractError>(ExecuteResponse::Instantiate(q)),
                Err(e) => r == Err::<ExecuteResponse, ContractError>(e),
            },
            ExecuteMsg::AddRecord { patient_id, record_id, record } => match add_record_result(
                state.people(),
                state.offspring(),
                patient_id,
                record_id,
                record,
            ) {
                Ok(c) => r == Ok::<ExecuteResponse, ContractError>(ExecuteResponse::Execute(c)),
                Err(e) => r == Err::<ExecuteResponse, ContractError>(e),
            },
        },
{
    match msg {
        ExecuteMsg::Register { id, address, key } => match register(state, sender, id, address, key) {
            Ok(q) => Ok(ExecuteResponse::Instantiate(q)),
            Err(e) => Err(e),
        },
        ExecuteMsg::AddRecord { patient_id, record_id, record } => match add_record(
            state,
            patient_id,
            record_id,
            record,
        ) {
            Ok(c) => Ok(ExecuteResponse::Execute(c)),
            Err(e) => Err(e),
        },
    }
}

/// Asks for a new store for identity `id`, owned by `address`. Only the
/// administrator may; the directory itself is left as it is until the
/// creation's completion arrives.
pub fn register(state: &Directory, sender: &String, id: String, address: String, key: String) -> (r:
    Result<InstantiateRequest, ContractError>)
    ensures
        r == register_result(state.owner(), state.offspring(), *sender, id, address, key),
{
    if state.owner != *sender {
        return Err(ContractError::Unauthorized { sender: sender.clone() });
    }
    let initmsg = OffspringInstantiateMsg { owner: address, owner_id: id, key };
    Ok(
        InstantiateRequest {
            code_id: state.offspring.code_id,
            code_hash: state.offspring.code_hash.clone(),
            msg: initmsg,
            reply_id: INSTANTIATE_REPLY_ID,
        },
    )
}

/// Forwards a record to the store of identity `patient_id`.
pub fn add_record(state: &Directory, patient_id: String, record_id: String, record: Record) -> (r:
    Result<StoreExecute, ContractError>)
    ensures
        r == add_record_result(state.people(), state.offspring(), patient_id, record_id, record),
{
    match state.people.get(&patient_id) {
        None => Err(ContractError::NonexistentUser { id: patient_id }),
        Some(person) => {
            let execute_msg = AddRecordMsg {
                id: record_id,
                title: record.title,
                description: record.description,
                data: record.data,
            };
            Ok(
                StoreExecute {
                    contract_address: person.contract_address,
                    code_hash: state.offspring.code_hash.clone(),
                    msg: OffspringExecuteMsg::AddRecord(execute_msg),
                },
            )
        },
    }
}

/// Answers a directory query. `key_valid` is the viewing-key store's verdict
/// on the id and key of an `Info` query; other queries ignore it.
pub fn query<P>(state: &Directory, msg: QueryMsg<P>, key_valid: bool) -> (r: Result<
    QueryResponse<P>,
    ContractError,
>)
    ensures
        match msg {
            QueryMsg::Info { id, key } => match info_result(state.people(), id, key, key_valid) {
                Ok(i) => r == Ok::<QueryResponse<P>, ContractError>(QueryResponse::Info(i)),
                Err(e) => r == Err::<QueryResponse<P>, ContractError>(e),
            },
            QueryMsg::Records { id, page } => match store_query_result(
                state.people(),
                state.offspring(),
                id,
                OffspringQueryMsg::<P>::Records { page },
            ) {
                Ok(q) => r == Ok::<QueryResponse<P>, ContractError>(QueryResponse::Forward(q)),
                Err(e) => r == Err::<QueryResponse<P>, ContractError>(e),
            },
            QueryMsg::WithPermit { id, permit, query } => match query {
                QueryWithPermit::ViewById { record_id } => match store_query_result(
                    state.people(),
                    state.offspring(),
                    id,
                    OffspringQueryMsg::ViewById { permit, record_id },
                ) {
                    Ok(q) => r == Ok::<QueryResponse<P>, ContractError>(QueryResponse::Forward(q)),
                    Err(e) => r == Err::<QueryResponse<P>, ContractError>(e),
                },
                QueryWithPermit::Add => if has_key(state.people(), id@) {
                    r == Ok::<QueryResponse<P>, ContractError>(QueryResponse::Empty)
                } else {
                    r == Err::<QueryResponse<P>, ContractError>(
                        ContractError::NonexistentUser { id },
                    )
                },
            },
        },
{
    match msg {
        QueryMsg::Info { id, key } => match get_info(state, id, key, key_valid) {
            Ok(i) => Ok(QueryResponse::Info(i)),
            Err(e) => Err(e),
        },
        QueryMsg::Records { id, page } => match get_records(state, id, page) {
            Ok(q) => Ok(QueryResponse::Forward(q)),
            Err(e) => Err(e),
        },
        QueryMsg::WithPermit { id, permit, query } => match query {
            QueryWithPermit::ViewById { record_id } => match view_records(
                state,
                id,
                permit,
                record_id,
            ) {
                Ok(q) => Ok(QueryResponse::Forward(q)),
                Err(e) => Err(e),
            },
            QueryWithPermit::Add => {
                if !state.people.contains(&id) {
                    return Err(ContractError::NonexistentUser { id });
                }
                Ok(QueryResponse::Empty)
            },
        },
    }
}

/// The owner and store addresses of identity `id`, for a caller whose viewing
/// key the viewing-key store accepted (`key_valid`).
pub fn get_info(state: &Directory, id: String, key: String, key_valid: bool) -> (r: Result<
    InfoResp,
    ContractError,
>)
    ensures
        r == info_result(state.people(), id, key, key_valid),
{
    match state.people.get(&id) {
        None => Err(ContractError::NonexistentUser { id }),
        Some(person) => {
            if key_valid {
                Ok(InfoResp { address: person.address, contract_address: person.contract_address })
            } else {
                Err(ContractError::InvalidKey { key })
            }
        },
    }
}

fn store_query<P>(state: &Directory, id: String, msg: OffspringQueryMsg<P>) -> (r: Result<
    StoreQuery<P>,
    ContractError,
>)
    ensures
        r == store_query_result(state.people(), state.offspring(), id, msg),
{
    match state.people.get(&id) {
        None => Err(ContractError::NonexistentUser { id }),
        Some(person) => Ok(
            StoreQuery {
                contract_address: person.contract_address,
                code_hash: state.offspring.code_hash.clone(),
                msg,
            },
        ),
    }
}

/// The store query that lists page `page` of identity `id`'s records.
pub fn get_records<P>(state: &Directory, id: String, page: u32) -> (r: Result<
    StoreQuery<P>,
    ContractError,
>)
    ensures
        r == store_query_result(state.people(), state.offspring(), id, OffspringQueryMsg::<P>::Records { page }),
{
    store_query(state, id, OffspringQueryMsg::Records { page })
}

/// The store query that shows record `record_id` of identity `id` to the
/// holder of `permit`; the store judges the permit.
pub fn view_records<P>(state: &Directory, id: String, permit: P, record_id: String) -> (r: Result<
    StoreQuery<P>,
    ContractError,
>)
    ensures
        r == store_query_result(
            state.people(),
            state.offspring(),
            id,
            OffspringQueryMsg::ViewById { permit, record_id },
        ),
{
    store_query(state, id, OffspringQueryMsg::ViewById { permit, record_id })
}

/// Handles a completion notification; only store creations are expected.
pub fn reply(state: &mut Directory, msg: Reply) -> (r: Result<ViewingKeyGrant, ContractError>)
    ensures
        r == reply_result(old(state).people(), msg),
        final(state).people() == people_after_reply(old(state).people(), msg),
        final(state).owner() == old(state).owner(),
        final(state).offspring() == old(state).offspring(),
        keys_unique(final(state).people()),
{
    if msg.id == INSTANTIATE_REPLY_ID {
        handle_instantiate_reply(state, msg.result)
    } else {
        // reading the store brings its distinct-keys guarantee into view
        let _ = state.people.len();
        Err(ContractError::UnexpectedReplyId { id: msg.id })
    }
}

/// Records the identity whose store creation completed with a confirmation;
/// the returned viewing key is for the viewing-key store to keep.
pub fn handle_instantiate_reply(state: &mut Directory, result: SubMsgResult) -> (r: Result<
    ViewingKeyGrant,
    ContractError,
>)
    ensures
        r == instantiate_reply_result(old(state).people(), result),
        final(state).people() == people_after_instantiate_reply(old(state).people(), result),
        final(state).owner() == old(state).owner(),
        final(state).offspring() == old(state).offspring(),
        keys_unique(final(state).people()),
{
    // reading the store brings its distinct-keys guarantee into view
    let _ = state.people.len();
    match result {
        SubMsgResult::Success(response) => match response.data {
            Some(Ok(resp)) => {
                if state.people.contains(&resp.owner_id) {
                    return Err(ContractError::UserAlreadyExists { id: resp.owner_id });
                }
                let grant = ViewingKeyGrant { id: resp.owner_id.clone(), key: resp.key };
                state.people.insert(
                    resp.owner_id,
                    Person { address: resp.owner_address, contract_address: resp.offspring_address },
                );
                Ok(grant)
            },
            Some(Err(msg)) => Err(ContractError::StdError(msg)),
            None => Err(ContractError::OffspringInstantiationError {  }),
        },
        SubMsgResult::Failure(e) => Err(ContractError::CustomError { val: e }),
    }
}

/// Until the completion of its store's creation has been handled, an identity
/// is unknown: its info query and every query or command routed to its store
/// fail with `NonexistentUser` (registering changes nothing in the directory).
pub proof fn lemma_no_mapping_before_completion<P>(
    people: Seq<(Seq<char>, Person)>,
    offspring: OffspringInfo,
    id: String,
    key: String,
    key_valid: bool,
    msg: OffspringQueryMsg<P>,
    record_id: String,
    record: Record,
)
    requires
        !has_key(people, id@),
    ensures
        info_result(people, id, key, key_valid) == Err::<InfoResp, ContractError>(
            ContractError::NonexistentUser { id },
        ),
        store_query_result(people, offspring, id, msg) == Err::<StoreQuery<P>, ContractError>(
            ContractError::NonexistentUser { id },
        ),
        add_record_result(people, offspring, id, record_id, record) == Err::<
            StoreExecute,
            ContractError,
        >(ContractError::NonexistentUser { id }),
{
}

/// Once a confirmed store creation for a new identity is handled, the viewing
/// key it carries is handed to the viewing-key store, and an info query for the
/// identity returns the recorded owner and store addresses when the key check
/// passes and fails with `InvalidKey` when it does not.
pub proof fn lemma_mapping_after_success(
    people: Seq<(Seq<char>, Person)>,
    resp: OffspringResp,
    key: String,
)
    requires
        keys_unique(people),
        !has_key(people, resp.owner_id@),
    ensures
        ({
            let msg = Reply {
                id: INSTANTIATE_REPLY_ID,
                result: SubMsgResult::Success(SubMsgResponse { data: Some(Ok(resp)) }),
            };
            let after = people_after_reply(people, msg);
            &&& reply_result(people, msg) == Ok::<ViewingKeyGrant, ContractError>(
                ViewingKeyGrant { id: resp.owner_id, key: resp.key },
            )
            &&& info_result(after, resp.owner_id, key, true) == Ok::<InfoResp, ContractError>(
                InfoResp { address: resp.owner_address, contract_address: resp.offspring_address },
            )
            &&& info_result(after, resp.owner_id, key, false) == Err::<InfoResp, ContractError>(
                ContractError::InvalidKey { key },
            )
        }),
{
    lemma_inserted(
        people,
        resp.owner_id@,
        Person { address: resp.owner_address, contract_address: resp.offspring_address },
    );
}

/// A completion notification under any tag but the store-creation one is
/// refused with `UnexpectedReplyId` and writes nothing.
pub proof fn lemma_unexpected_reply(people: Seq<(Seq<char>, Person)>, msg: Reply)
    requires
        msg.id != INSTANTIATE_REPLY_ID,
    ensures
        reply_result(people, msg) == Err::<ViewingKeyGrant, ContractError>(
            ContractError::UnexpectedReplyId { id: msg.id },
        ),
        people_after_reply(people, msg) == people,
{
}

/// A recorded identity keeps its owner and store addresses through every
/// completion notification: a store is never re-provisioned for the same id.
pub proof fn lemma_store_address_permanent(
    people: Seq<(Seq<char>, Person)>,
    msg: Reply,
    id: Seq<char>,
)
    requires
        keys_unique(people),
        has_key(people, id),
    ensures
        lookup(people_after_reply(people, msg), id) == lookup(people, id),
        keys_unique(people_after_reply(people, msg)),
{
    if msg.id == INSTANTIATE_REPLY_ID {
        if let SubMsgResult::Success(response) = msg.result {
            if let Some(Ok(resp)) = response.data {
                if !has_key(people, resp.owner_id@) {
                    lemma_inserted(
                        people,
                        resp.owner_id@,
                        Person {
                            address: resp.owner_address,
                            contract_address: resp.offspring_address,
                        },
                    );
                }
            }
        }
    }
}

} // verus!
