//! Building data-key managers from the encryption configuration.
use vstd::prelude::*;
use std::collections::HashMap;
use std::sync::Arc;
use crate::backend::{backend_of, create_backend, BackendView, KeyFile};
use crate::config::EncryptionConfig;
use crate::error::Error;
use crate::manager::{built_from, DKMMap, DataKeyManager, DataKeyManagerArgs};
use crate::path::{keyspace_dict_path, keyspace_dir, lemma_keyspace_dirs_distinct};

verus! {

broadcast use vstd::std_specs::hash::group_hash_axioms;

/// Builds the single manager of keyspace 0, with its dictionary in `dict_path`.
pub fn data_key_manager_from_config(
    config: &EncryptionConfig,
    dict_path: &String,
    key_files: &Vec<KeyFile>,
) -> (r: Result<DataKeyManager, Error>)
    ensures
        r is Ok <==> backend_of(config.master_key, key_files@) is Ok,
        r matches Ok(m) ==> built_from(
            m,
            0,
            config.master_key,
            config.previous_master_key,
            dict_path@,
            *config,
            key_files@,
        ),
        r matches Err(e) ==> backend_of(config.master_key, key_files@) == Err::<BackendView, Error>(e),
{
    let master_key = match create_backend(&config.master_key, key_files) {
        Ok(b) => b,
        Err(e) => return Err(e),
    };
    let args = DataKeyManagerArgs::from_encryption_config(dict_path, config);
    Ok(DataKeyManager::new(master_key, config.previous_master_key.duplicate(), 0, args))
}

/// The ids of the keyspaces among the first `upto` keyspace keys, and keyspace 0.
pub open spec fn registry_ids(config: EncryptionConfig, upto: int) -> Set<u32> {
    Set::new(
        |id: u32|
            id == 0 || exists|j: int|
                0 <= j < upto && (#[trigger] config.keyspace_keys@[j]).keyspace_id == id,
    )
}

/// `m` is what the registry holds for keyspace `id` once the first `upto`
/// keyspace keys were added: the manager of the last of them with that id, or
/// of the global master key for keyspace 0 where none has it.
pub open spec fn registry_entry(
    config: EncryptionConfig,
    base: Seq<char>,
    files: Seq<KeyFile>,
    upto: int,
    id: u32,
    m: DataKeyManager,
) -> bool {
    let keys = config.keyspace_keys@;
    ||| exists|j: int|
        0 <= j < upto && (#[trigger] keys[j]).keyspace_id == id && (forall|k: int|
            j < k < upto ==> (#[trigger] keys[k]).keyspace_id != id) && built_from(
            m,
            id,
            keys[j].key_config,
            keys[j].previous_key_config,
            keyspace_dir(base, id as nat),
            config,
            files,
        )
    ||| id == 0 && (forall|j: int| 0 <= j < upto ==> (#[trigger] keys[j]).keyspace_id != id)
        && built_from(
        m,
        0,
        config.master_key,
        config.previous_master_key,
        keyspace_dir(base, 0),
        config,
        files,
    )
}

/// Every key of `config`, the global one and those of all keyspaces, resolves.
pub open spec fn all_keys_resolve(config: EncryptionConfig, files: Seq<KeyFile>) -> bool {
    &&& backend_of(config.master_key, files) is Ok
    &&& forall|j: int|
        0 <= j < config.keyspace_keys@.len() ==> backend_of(
            (#[trigger] config.keyspace_keys@[j]).key_config,
            files,
        ) is Ok
}

/// `e` is the error of the first key of `config` that does not resolve,
/// in the order global key, then keyspace keys in order.
pub open spec fn first_key_error(config: EncryptionConfig, files: Seq<KeyFile>, e: Error) -> bool {
    let keys = config.keyspace_keys@;
    ||| backend_of(config.master_key, files) == Err::<BackendView, Error>(e)
    ||| backend_of(config.master_key, files) is Ok && exists|i: int|
        0 <= i < keys.len()
            && backend_of((#[trigger] keys[i]).key_config, files) == Err::<BackendView, Error>(e)
            && forall|j: int| 0 <= j < i ==> backend_of((#[trigger] keys[j]).key_config, files) is Ok
}

/// Builds one manager per keyspace, each with its dictionary in
/// `{dict_path}/{keyspace_id}`, and keyspace 0 on the global master key unless
/// a keyspace key is given for it. The first key that does not resolve aborts
/// the whole build.
pub fn data_key_manager_map_from_config(
    config: &EncryptionConfig,
    dict_path: &String,
    key_files: &Vec<KeyFile>,
) -> (r: Result<DKMMap, Error>)
    ensures
        r is Ok <==> all_keys_resolve(*config, key_files@),
        r matches Err(e) ==> first_key_error(*config, key_files@, e),
        r matches Ok(reg) ==> {
            &&& reg@.contains_key(0)
            &&& reg@.dom() == registry_ids(*config, config.keyspace_keys@.len() as int)
            &&& forall|id: u32| #[trigger]
                reg@.contains_key(id) ==> registry_entry(
                    *config,
                    dict_path@,
                    key_files@,
                    config.keyspace_keys@.len() as int,
                    id,
                    reg@[id],
                )
        },
{
    let ghost base = dict_path@;
    let ghost files = key_files@;
    let ghost keys = config.keyspace_keys@;
    let master_key = match create_backend(&config.master_key, key_files) {
        Ok(b) => b,
        Err(e) => return Err(e),
    };
    let default_dir = keyspace_dict_path(dict_path, 0);
    let args = DataKeyManagerArgs::from_encryption_config(&default_dir, config);
    let default_manager = DataKeyManager::new(master_key, config.previous_master_key.duplicate(), 0, args);
    let mut managers: HashMap<u32, Arc<DataKeyManager>> = HashMap::new();
    managers.insert(0, Arc::new(default_manager));
    proof {
        assert(managers@.dom() =~= registry_ids(*config, 0));
    }
    let mut i: usize = 0;
    while i < config.keyspace_keys.len()
        invariant
            base == dict_path@,
            files == key_files@,
            keys == config.keyspace_keys@,
            i <= keys.len(),
            backend_of(config.master_key, files) is Ok,
            forall|j: int| 0 <= j < i ==> backend_of((#[trigger] keys[j]).key_config, files) is Ok,
            managers@.dom() == registry_ids(*config, i as int),
            forall|id: u32| #[trigger]
                managers@.contains_key(id) ==> registry_entry(
                    *config,
                    base,
                    files,
                    i as int,
                    id,
                    *managers@[id],
                ),
        decreases keys.len() - i,
    {
        let keyspace = &config.keyspace_keys[i];
        let key = match create_backend(&keyspace.key_config, key_files) {
            Ok(b) => b,
            Err(e) => {
                assert(first_key_error(*config, files, e));
                return Err(e);
            },
        };
        let id = keyspace.keyspace_id;
        let dir = keyspace_dict_path(dict_path, id);
        let args = DataKeyManagerArgs::from_encryption_config(&dir, config);
        let manager = DataKeyManager::new(key, keyspace.previous_key_config.duplicate(), id, args);
        let ghost before = managers@;
        managers.insert(id, Arc::new(manager));
        proof {
            assert(managers@.dom() =~= registry_ids(*config, i + 1));
            assert forall|x: u32| #[trigger] managers@.contains_key(x) implies registry_entry(
                *config,
                base,
                files,
                i + 1,
                x,
                *managers@[x],
            ) by {
                if x == id {
                    assert(keys[i as int].keyspace_id == x);
                } else {
                    assert(before.contains_key(x));
                    assert(registry_entry(*config, base, files, i as int, x, *before[x]));
                    assert(keys[i as int].keyspace_id != x);
                }
            }
        }
        i = i + 1;
    }
    assert(registry_ids(*config, keys.len() as int).contains(0));
    Ok(DKMMap::new(managers))
}

/// A registry entry is the manager of its own keyspace, with its dictionary
/// in that keyspace's directory.
pub proof fn lemma_registry_entry_dir(
    config: EncryptionConfig,
    base: Seq<char>,
    files: Seq<KeyFile>,
    upto: int,
    id: u32,
    m: DataKeyManager,
)
    requires
        registry_entry(config, base, files, upto, id, m),
    ensures
        m.keyspace_id == id,
        m.args.dict_path@ == keyspace_dir(base, id as nat),
{
}

/// Managers of different keyspaces in one registry never share a directory.
pub proof fn lemma_registry_dirs_isolated(
    config: EncryptionConfig,
    base: Seq<char>,
    files: Seq<KeyFile>,
    upto: int,
    a: u32,
    ma: DataKeyManager,
    b: u32,
    mb: DataKeyManager,
)
    requires
        registry_entry(config, base, files, upto, a, ma),
        registry_entry(config, base, files, upto, b, mb),
        a != b,
    ensures
        ma.args.dict_path@ != mb.args.dict_path@,
{
    lemma_registry_entry_dir(config, base, files, upto, a, ma);
    lemma_registry_entry_dir(config, base, files, upto, b, mb);
    lemma_keyspace_dirs_distinct(base, a as nat, b as nat);
}

/// Keyspace 0 is always in the registry; with no keyspace keys it is the only one.
pub proof fn lemma_registry_ids_hold_default(config: EncryptionConfig)
    ensures
        registry_ids(config, config.keyspace_keys@.len() as int).contains(0),
        config.keyspace_keys@.len() == 0 ==> registry_ids(config, 0) == set![0u32],
{
    assert(registry_ids(config, 0) =~= set![0u32]);
}

} // verus!
