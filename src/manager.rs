//! Data-key managers and the registry that maps keyspaces to them.
use vstd::prelude::*;
use std::collections::HashMap;
use std::sync::Arc;
use crate::backend::{backend_of, create_backend, outcome_view, Backend, BackendView, KeyFile};
use crate::config::{EncryptionConfig, EncryptionMethod, MasterKeyConfig};
use crate::error::Error;

verus! {

broadcast use vstd::std_specs::hash::group_hash_axioms;

/// Settings a data-key manager is built with.
#[derive(Debug, Clone, PartialEq, Eq)]
pub struct DataKeyManagerArgs {
    pub method: EncryptionMethod,
    pub rotation_period_secs: u64,
    /// The directory holding the manager's data-key dictionary.
    pub dict_path: String,
}

impl DataKeyManagerArgs {
    /// The settings of `config`, for a dictionary in `dict_path`.
    pub fn from_encryption_config(dict_path: &String, config: &EncryptionConfig) -> (r: DataKeyManagerArgs)
        ensures
            r.method == config.data_encryption_method,
            r.rotation_period_secs == config.data_key_rotation_period_secs,
            r.dict_path@ == dict_path@,
    {
        DataKeyManagerArgs {
            method: config.data_encryption_method,
            rotation_period_secs: config.data_key_rotation_period_secs,
            dict_path: dict_path.clone(),
        }
    }
}

/// Manages the data keys of one keyspace. It holds the current master key and,
/// unresolved, the configuration of the previous one: that key is resolved
/// only when data written before a rotation has to be read.
#[derive(Debug, Clone)]
pub struct DataKeyManager {
    pub keyspace_id: u32,
    pub master_key: Backend,
    pub previous_master_key: MasterKeyConfig,
    pub args: DataKeyManagerArgs,
}

impl DataKeyManager {
    pub fn new(
        master_key: Backend,
        previous_master_key: MasterKeyConfig,
        keyspace_id: u32,
        args: DataKeyManagerArgs,
    ) -> (r: DataKeyManager)
        ensures
            r.keyspace_id == keyspace_id,
            r.master_key@ == master_key@,
            r.previous_master_key == previous_master_key,
            r.args == args,
    {
        DataKeyManager { keyspace_id, master_key, previous_master_key, args }
    }

    /// Resolves the previous master key, now and only now.
    pub fn previous_master_key_backend(&self, key_files: &Vec<KeyFile>) -> (r: Result<Backend, Error>)
        ensures
            outcome_view(r) == backend_of(self.previous_master_key, key_files@),
    {
        create_backend(&self.previous_master_key, key_files)
    }
}

/// `m` was built for keyspace `id` from master key `key`, with previous key
/// `prev`, a dictionary in `dir` and the settings of `config`.
pub open spec fn built_from(
    m: DataKeyManager,
    id: u32,
    key: MasterKeyConfig,
    prev: MasterKeyConfig,
    dir: Seq<char>,
    config: EncryptionConfig,
    files: Seq<KeyFile>,
) -> bool {
    &&& m.keyspace_id == id
    &&& backend_of(key, files) == Ok::<BackendView, Error>(m.master_key@)
    &&& m.previous_master_key == prev
    &&& m.args.dict_path@ == dir
    &&& m.args.method == config.data_encryption_method
    &&& m.args.rotation_period_secs == config.data_key_rotation_period_secs
}

/// The data-key managers of all keyspaces, by keyspace id. Built once, then only read.
#[derive(Debug)]
pub struct DKMMap {
    managers: HashMap<u32, Arc<DataKeyManager>>,
}

impl View for DKMMap {
    type V = Map<u32, DataKeyManager>;

    closed spec fn view(&self) -> Map<u32, DataKeyManager> {
        self.managers@.map_values(|a: Arc<DataKeyManager>| *a)
    }
}

impl DKMMap {
    pub fn new(managers: HashMap<u32, Arc<DataKeyManager>>) -> (r: DKMMap)
        ensures
            r@ == managers@.map_values(|a: Arc<DataKeyManager>| *a),
    {
        DKMMap { managers }
    }

    /// The manager of keyspace `id`; none is made up for an unknown id.
    pub fn get(&self, id: u32) -> (r: Option<&Arc<DataKeyManager>>)
        ensures
            match r {
                Some(m) => self@.contains_key(id) && self@[id] == **m,
                None => !self@.contains_key(id),
            },
    {
        self.managers.get(&id)
    }

    pub fn contains_keyspace(&self, id: u32) -> (r: bool)
        ensures
            r == self@.contains_key(id),
    {
        self.managers.contains_key(&id)
    }

    /// The number of keyspaces.
    pub fn len(&self) -> (r: usize)
        ensures
            r == self@.len(),
    {
        assert(self.managers@.dom() =~= self@.dom());
        self.managers.len()
    }
}

} // verus!
