//! The per-identity record store: records keyed by a caller-chosen id, written
//! by the directory or by a holder of an adding permit, read by a holder of a
//! permit scoped to the record.
use vstd::prelude::*;
use crate::capability::{authorizes, lemma_permit_scope_exact, CheckedPermit};
use crate::keyed_store::{
    entries_view, inserted, keys_unique, lemma_overwrite, lookup, page_of, Duplicate, KeyedStore,
};

pub use crate::capability::RecordPermissions;

verus! {

/// How many records one page of a listing holds.
pub const RECORDS_PER_PAGE: u32 = 10;

/// The store's constructor arguments, forwarded by the directory.
#[derive(Debug, Clone, PartialEq)]
pub struct InstantiateMsg {
    pub owner: String,
    pub owner_id: String,
    pub key: String,
}

/// What a new store reports back to the directory that created it.
#[derive(Debug, Clone, PartialEq)]
pub struct CallbackInfo {
    pub offspring_address: String,
    pub owner_id: String,
    pub owner_address: String,
    pub key: String,
}

/// A stored record; `timestamp` is the block time of its creation, in nanoseconds.
#[derive(Debug, Clone, PartialEq)]
pub struct Record {
    pub title: String,
    pub timestamp: u64,
    pub description: String,
    pub data: String,
}

impl Duplicate for Record {
    fn duplicate(&self) -> (r: Record) {
        Record {
            title: self.title.clone(),
            timestamp: self.timestamp,
            description: self.description.clone(),
            data: self.data.clone(),
        }
    }
}

#[derive(Debug, Clone)]
pub enum ExecuteMsg {
    /// Write a record. The directory may omit the permit; anyone else must
    /// present one that grants adding.
    AddRecord {
        id: String,
        title: String,
        description: String,
        data: String,
        permit: Option<CheckedPermit>,
    },
}

#[derive(Debug, Clone)]
pub enum QueryMsg {
    ViewById { permit: CheckedPermit, record_id: String },
    Records { page: u32 },
}

/// The answer to a store query.
#[derive(Debug, Clone, PartialEq)]
pub enum QueryAnswer {
    Record(Record),
    Records(Vec<(String, Record)>),
}

#[derive(Debug, Clone, PartialEq)]
pub enum ContractError {
    /// A failure of the host platform, passed through unchanged.
    StdError(String),
    Unauthorized { sender: String },
    InvalidPermit,
    NonexistentRecord { id: String },
}

/// The state of one record store.
pub struct RecordManager {
    owner: String,
    registry: String,
    records: KeyedStore<Record>,
}

impl RecordManager {
    /// The identity owner's address.
    pub closed spec fn owner(&self) -> Seq<char> {
        self.owner@
    }

    /// The address of the directory that created this store.
    pub closed spec fn registry(&self) -> Seq<char> {
        self.registry@
    }

    /// The records, in insertion order.
    pub closed spec fn records(&self) -> Seq<(Seq<char>, Record)> {
        self.records@
    }

    /// A store rebuilt from its parts, as kept in the host's storage.
    pub fn from_parts(owner: String, registry: String, records: KeyedStore<Record>) -> (r:
        RecordManager)
        ensures
            r.owner() == owner@,
            r.registry() == registry@,
            r.records() == records@,
    {
        RecordManager { owner, registry, records }
    }

    /// The store's parts, for the host's storage.
    pub fn into_parts(self) -> (r: (String, String, KeyedStore<Record>))
        ensures
            r.0@ == self.owner(),
            r.1@ == self.registry(),
            r.2@ == self.records(),
    {
        (self.owner, self.registry, self.records)
    }
}

/// Whether `sender` may add a record with the given permit: the directory
/// always may; anyone else needs a verified permit that grants adding.
pub open spec fn add_permission(registry: Seq<char>, sender: String, permit: Option<CheckedPermit>) -> Result<
    (),
    ContractError,
> {
    if sender@ == registry {
        Ok(())
    } else {
        match permit {
            None => Err(ContractError::Unauthorized { sender }),
            Some(p) => if authorizes(p, RecordPermissions::Add) {
                Ok(())
            } else {
                Err(ContractError::InvalidPermit)
            },
        }
    }
}

/// The record stored under `record_id`, or the error for a missing one.
pub open spec fn record_by_id(records: Seq<(Seq<char>, Record)>, record_id: String) -> Result<
    Record,
    ContractError,
> {
    match lookup(records, record_id@) {
        Some(r) => Ok(r),
        None => Err(ContractError::NonexistentRecord { id: record_id }),
    }
}

/// The outcome of viewing `record_id` with `permit`: the permit must grant
/// viewing exactly that record.
pub open spec fn view_by_id(
    records: Seq<(Seq<char>, Record)>,
    permit: CheckedPermit,
    record_id: String,
) -> Result<Record, ContractError> {
    if authorizes(permit, RecordPermissions::ViewById { record_id }) {
        record_by_id(records, record_id)
    } else {
        Err(ContractError::InvalidPermit)
    }
}

/// Sets up a store at `contract_address`, created by `sender` (the directory).
pub fn instantiate(contract_address: String, sender: String, msg: InstantiateMsg) -> (r: (
    RecordManager,
    CallbackInfo,
))
    ensures
        r.0.owner() == msg.owner@,
        r.0.registry() == sender@,
        r.0.records() == Seq::<(Seq<char>, Record)>::empty(),
        r.1 == (CallbackInfo {
            offspring_address: contract_address,
            owner_id: msg.owner_id,
            owner_address: msg.owner,
            key: msg.key,
        }),
{
    let state = RecordManager { owner: msg.owner.clone(), registry: sender, records: KeyedStore::new() };
    let callback_info = CallbackInfo {
        offspring_address: contract_address,
        owner_id: msg.owner_id,
        owner_address: msg.owner,
        key: msg.key,
    };
    (state, callback_info)
}

/// Handles a store command sent by `sender` at block time `block_time`.
pub fn execute(state: &mut RecordManager, sender: &String, block_time: u64, msg: ExecuteMsg) -> (r:
    Result<(), ContractError>)
    ensures
        final(state).owner() == old(state).owner(),
        final(state).registry() == old(state).registry(),
        match msg {
            ExecuteMsg::AddRecord { id, title, description, data, permit } => {
                &&& r == add_permission(old(state).registry(), *sender, permit)
                &&& r is Ok ==> final(state).records() == inserted(
                    old(state).records(),
                    id@,
                    Record { title, timestamp: block_time, description, data },
                )
                &&& r is Err ==> final(state).records() == old(state).records()
            },
        },
{
    match msg {
        ExecuteMsg::AddRecord { id, title, description, data, permit } => {
            if *sender != state.registry {
                match permit {
                    None => {
                        return Err(ContractError::Unauthorized { sender: sender.clone() });
                    },
                    Some(p) => {
                        if !p.authorizes(&RecordPermissions::Add) {
                            return Err(ContractError::InvalidPermit);
                        }
                    },
                }
            }
            add_record(state, block_time, id, title, description, data);
            Ok(())
        },
    }
}

/// Writes a record under `id`, replacing any record already there.
pub fn add_record(
    state: &mut RecordManager,
    block_time: u64,
    id: String,
    title: String,
    description: String,
    data: String,
)
    ensures
        final(state).owner() == old(state).owner(),
        final(state).registry() == old(state).registry(),
        final(state).records() == inserted(
            old(state).records(),
            id@,
            Record { title, timestamp: block_time, description, data },
        ),
{
    state.records.insert(id, Record { title, timestamp: block_time, description, data });
}

/// Answers a store query.
pub fn query(state: &RecordManager, msg: QueryMsg) -> (r: Result<QueryAnswer, ContractError>)
    ensures
        match msg {
            QueryMsg::ViewById { permit, record_id } => match view_by_id(
                state.records(),
                permit,
                record_id,
            ) {
                Ok(rec) => r == Ok::<QueryAnswer, ContractError>(QueryAnswer::Record(rec)),
                Err(e) => r == Err::<QueryAnswer, ContractError>(e),
            },
            QueryMsg::Records { page } => r matches Ok(QueryAnswer::Records(v)) && entries_view(v@)
                == page_of(state.records(), page as int, RECORDS_PER_PAGE as int),
        },
{
    match msg {
        QueryMsg::ViewById { permit, record_id } => {
            let wanted = RecordPermissions::ViewById { record_id: record_id.clone() };
            if !permit.authorizes(&wanted) {
                return Err(ContractError::InvalidPermit);
            }
            match get_record_by_id(state, record_id) {
                Ok(rec) => Ok(QueryAnswer::Record(rec)),
                Err(e) => Err(e),
            }
        },
        QueryMsg::Records { page } => Ok(QueryAnswer::Records(state.records.page(page, RECORDS_PER_PAGE))),
    }
}

/// The record stored under `record_id`.
pub fn get_record_by_id(state: &RecordManager, record_id: String) -> (r: Result<Record, ContractError>)
    ensures
        r == record_by_id(state.records(), record_id),
{
    match state.records.get(&record_id) {
        Some(record) => Ok(record),
        None => Err(ContractError::NonexistentRecord { id: record_id }),
    }
}

/// A verified permit whose only grant is viewing record `granted` lets its
/// holder view that record, and is refused with `InvalidPermit` for any other
/// record and, from anyone but the directory, for adding.
pub proof fn lemma_view_permit_scope(
    records: Seq<(Seq<char>, Record)>,
    permit: CheckedPermit,
    granted: String,
    other: String,
    registry: Seq<char>,
    sender: String,
)
    requires
        permit.verified,
        permit.permissions@ == seq![RecordPermissions::ViewById { record_id: granted }],
        other@ != granted@,
        sender@ != registry,
    ensures
        view_by_id(records, permit, granted) == record_by_id(records, granted),
        view_by_id(records, permit, other) == Err::<Record, ContractError>(
            ContractError::InvalidPermit,
        ),
        add_permission(registry, sender, Some(permit)) == Err::<(), ContractError>(
            ContractError::InvalidPermit,
        ),
{
    lemma_permit_scope_exact(permit, granted, other);
}

/// Writing record `id` twice leaves the second record as the one it returns.
pub proof fn lemma_record_overwrite(
    records: Seq<(Seq<char>, Record)>,
    id: String,
    first: Record,
    second: Record,
)
    requires
        keys_unique(records),
    ensures
        record_by_id(inserted(inserted(records, id@, first), id@, second), id) == Ok::<
            Record,
            ContractError,
        >(second),
{
    lemma_overwrite(records, id@, first, second);
}

} // verus!
