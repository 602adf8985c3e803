use encryption_export::backend::{
    create_cloud_backend_with, CloudVendor, VendorSupport, STORAGE_VENDOR_NAME_AWS,
    STORAGE_VENDOR_NAME_AZURE,
};
use encryption_export::config::{EncryptionMethod, KeyspaceKeyConfig};
use encryption_export::error::{CloudOp, ErrorKind, KeyFileError};
use encryption_export::keyfile::parse_key_file;
use encryption_export::path::keyspace_dict_path;
use encryption_export::{
    create_backend, create_cloud_backend, data_key_manager_from_config,
    data_key_manager_map_from_config, AzureConfig, Backend, EncryptionConfig, Error, FileConfig,
    KeyFile, KmsConfig, MasterKeyConfig,
};

const KEY_HEX: &str = "000102030405060708090a0b0c0d0e0f101112131415161718191A1B1C1D1E1F\n";

fn key_bytes() -> Vec<u8> {
    (0u8..32).collect()
}

fn aws_config(vendor: &str) -> KmsConfig {
    KmsConfig {
        key_id: "key_id".to_owned(),
        region: "region".to_owned(),
        endpoint: "endpoint".to_owned(),
        vendor: vendor.to_owned(),
        azure: None,
    }
}

fn file_key(path: &str) -> MasterKeyConfig {
    MasterKeyConfig::File { config: FileConfig { path: path.to_owned() } }
}

fn read_ok(path: &str, content: &str) -> KeyFile {
    KeyFile { path: path.to_owned(), content: Ok(content.as_bytes().to_vec()) }
}

fn config_with(master_key: MasterKeyConfig, keyspace_keys: Vec<KeyspaceKeyConfig>) -> EncryptionConfig {
    EncryptionConfig {
        data_encryption_method: EncryptionMethod::Aes256Ctr,
        data_key_rotation_period_secs: 604800,
        master_key,
        previous_master_key: MasterKeyConfig::Plaintext,
        keyspace_keys,
    }
}

fn keyspace(id: u32, key_config: MasterKeyConfig) -> KeyspaceKeyConfig {
    KeyspaceKeyConfig { keyspace_id: id, key_config, previous_key_config: MasterKeyConfig::Plaintext }
}

#[test]
fn test_kms_cloud_backend_azure() {
    let config = KmsConfig {
        key_id: "key_id".to_owned(),
        region: "region".to_owned(),
        endpoint: "endpoint".to_owned(),
        vendor: STORAGE_VENDOR_NAME_AZURE.to_owned(),
        azure: Some(AzureConfig {
            tenant_id: "tenant_id".to_owned(),
            client_id: "client_id".to_owned(),
            keyvault_url: "https://keyvault_url.vault.azure.net".to_owned(),
            hsm_name: "hsm_name".to_owned(),
            hsm_url: "https://hsm_url.managedhsm.azure.net/".to_owned(),
            client_secret: Some("client_secret".to_owned()),
            ..AzureConfig::default()
        }),
    };
    let invalid_config = KmsConfig { azure: None, ..config.clone() };
    create_cloud_backend(&invalid_config).unwrap_err();
    let backend = create_cloud_backend(&config).unwrap();
    assert!(backend.is_secure());
}

#[test]
fn aws_backend_is_secure_and_translated() {
    let backend = create_cloud_backend(&aws_config(STORAGE_VENDOR_NAME_AWS)).unwrap();
    assert!(backend.is_secure());
    match backend {
        Backend::Kms(k) => {
            assert_eq!(k.vendor, CloudVendor::Aws);
            assert_eq!(k.config.key_id, "key_id");
            assert_eq!(k.config.region, "region");
            assert_eq!(k.config.endpoint, "endpoint");
            assert!(k.config.azure.is_none());
        }
        other => panic!("unexpected backend {:?}", other),
    }
}

#[test]
fn empty_vendor_resolves_as_aws() {
    let empty = create_cloud_backend(&aws_config(""));
    let aws = create_cloud_backend(&aws_config("aws"));
    assert!(empty.is_ok());
    assert_eq!(empty, aws);
}

#[test]
fn azure_without_sub_config_is_config_error() {
    let err = create_cloud_backend(&aws_config("azure")).unwrap_err();
    assert_eq!(err, Error::MissingAzureConfig);
    assert_eq!(err.kind(), ErrorKind::Config);
    assert_eq!(err.message(), "invalid configurations for Azure KMS");
}

#[test]
fn unknown_vendor_is_named_in_error() {
    let err = create_cloud_backend(&aws_config("unknown-x")).unwrap_err();
    assert_eq!(err, Error::ProviderNotFound { vendor: "unknown-x".to_owned() });
    assert!(err.message().contains("unknown-x"));
    assert_eq!(err.message(), "provider not found unknown-x");
}

#[test]
fn vendor_names_match_exactly() {
    let err = create_cloud_backend(&aws_config("AWS")).unwrap_err();
    assert_eq!(err, Error::ProviderNotFound { vendor: "AWS".to_owned() });
}

#[test]
fn empty_key_id_is_cloud_error() {
    let mut config = aws_config("aws");
    config.key_id = String::new();
    let err = create_cloud_backend(&config).unwrap_err();
    assert_eq!(err, Error::EmptyKeyId { op: CloudOp::AwsFromProto });
    assert_eq!(err.kind(), ErrorKind::Cloud);
}

#[test]
fn plaintext_backend_is_insecure() {
    let backend = create_backend(&MasterKeyConfig::Plaintext, &vec![]).unwrap();
    assert_eq!(backend, Backend::Plaintext);
    assert!(!backend.is_secure());
}

#[test]
fn file_backend_holds_decoded_key() {
    let files = vec![read_ok("/keys/master", KEY_HEX)];
    let backend = create_backend(&file_key("/keys/master"), &files).unwrap();
    assert!(backend.is_secure());
    assert_eq!(backend, Backend::File { key: key_bytes() });
}

#[test]
fn kms_backend_through_resolver_is_secure() {
    let config = MasterKeyConfig::Kms { config: aws_config("aws") };
    assert!(create_backend(&config, &vec![]).unwrap().is_secure());
}

#[test]
fn key_file_errors() {
    assert_eq!(
        parse_key_file(b"abcd\n"),
        Err(KeyFileError::WrongSize { expected: 65, actual: 5 })
    );
    let no_newline = KEY_HEX.replace('\n', "0");
    assert_eq!(parse_key_file(no_newline.as_bytes()), Err(KeyFileError::MissingNewline));
    let bad_hex = KEY_HEX.replacen("0a", "0g", 1);
    assert_eq!(parse_key_file(bad_hex.as_bytes()), Err(KeyFileError::InvalidHex));
    assert_eq!(parse_key_file(KEY_HEX.as_bytes()), Ok(key_bytes()));
}

#[test]
fn file_backend_errors() {
    let files = vec![
        KeyFile { path: "/missing".to_owned(), content: Err("No such file or directory".to_owned()) },
        read_ok("/short", "00\n"),
    ];
    assert_eq!(
        create_backend(&file_key("/missing"), &files),
        Err(Error::Io("No such file or directory".to_owned()))
    );
    assert_eq!(
        create_backend(&file_key("/short"), &files),
        Err(Error::KeyFile(KeyFileError::WrongSize { expected: 65, actual: 3 }))
    );
    let err = create_backend(&file_key("/unread"), &files).unwrap_err();
    assert_eq!(err, Error::KeyFileNotRead { path: "/unread".to_owned() });
    assert_eq!(err.kind(), ErrorKind::Io);
}

#[test]
fn first_read_of_a_path_is_used() {
    let files = vec![read_ok("/k", KEY_HEX), read_ok("/k", "bad")];
    assert!(create_backend(&file_key("/k"), &files).is_ok());
}

#[test]
fn dict_path_of_keyspace() {
    assert_eq!(keyspace_dict_path(&"/data".to_owned(), 0), "/data/0");
    assert_eq!(keyspace_dict_path(&"/data".to_owned(), 4294967295), "/data/4294967295");
    assert_eq!(keyspace_dict_path(&"d".to_owned(), 120), "d/120");
}

#[test]
fn single_manager_is_keyspace_zero() {
    let config = config_with(MasterKeyConfig::Plaintext, vec![]);
    let m = data_key_manager_from_config(&config, &"/dict".to_owned(), &vec![]).unwrap();
    assert_eq!(m.keyspace_id, 0);
    assert_eq!(m.args.dict_path, "/dict");
    assert_eq!(m.args.method, EncryptionMethod::Aes256Ctr);
    assert_eq!(m.args.rotation_period_secs, 604800);
    assert_eq!(m.master_key, Backend::Plaintext);
}

#[test]
fn single_manager_fails_on_master_key() {
    let config = config_with(file_key("/nope"), vec![]);
    let err = data_key_manager_from_config(&config, &"/dict".to_owned(), &vec![]).unwrap_err();
    assert_eq!(err, Error::KeyFileNotRead { path: "/nope".to_owned() });
}

#[test]
fn registry_without_keyspaces_has_default() {
    let config = config_with(MasterKeyConfig::Plaintext, vec![]);
    let reg = data_key_manager_map_from_config(&config, &"/dict".to_owned(), &vec![]).unwrap();
    assert_eq!(reg.len(), 1);
    assert!(reg.contains_keyspace(0));
    assert_eq!(reg.get(0).unwrap().args.dict_path, "/dict/0");
    assert!(reg.get(1).is_none());
}

#[test]
fn registry_holds_configured_keyspaces() {
    let files = vec![read_ok("/k5", KEY_HEX)];
    let config = config_with(
        MasterKeyConfig::Plaintext,
        vec![keyspace(5, file_key("/k5")), keyspace(9, MasterKeyConfig::Kms { config: aws_config("aws") })],
    );
    let reg = data_key_manager_map_from_config(&config, &"/dict".to_owned(), &files).unwrap();
    assert_eq!(reg.len(), 3);
    for id in [0u32, 5, 9] {
        let m = reg.get(id).unwrap();
        assert_eq!(m.keyspace_id, id);
        assert_eq!(m.args.dict_path, format!("/dict/{}", id));
    }
    assert!(!reg.contains_keyspace(7));
    assert_eq!(reg.get(5).unwrap().master_key, Backend::File { key: key_bytes() });
    assert!(reg.get(9).unwrap().master_key.is_secure());
    assert!(!reg.get(0).unwrap().master_key.is_secure());
}

#[test]
fn later_keyspace_key_replaces_earlier() {
    let config = config_with(
        MasterKeyConfig::Plaintext,
        vec![keyspace(0, MasterKeyConfig::Kms { config: aws_config("aws") }), keyspace(3, MasterKeyConfig::Plaintext)],
    );
    let reg = data_key_manager_map_from_config(&config, &"/d".to_owned(), &vec![]).unwrap();
    assert_eq!(reg.len(), 2);
    assert!(reg.get(0).unwrap().master_key.is_secure());
}

#[test]
fn registry_fails_on_first_bad_keyspace_key() {
    let config = config_with(
        MasterKeyConfig::Plaintext,
        vec![
            keyspace(5, MasterKeyConfig::Plaintext),
            keyspace(9, MasterKeyConfig::Kms { config: aws_config("unknown-x") }),
            keyspace(11, file_key("/unread")),
        ],
    );
    let err = data_key_manager_map_from_config(&config, &"/d".to_owned(), &vec![]).unwrap_err();
    assert_eq!(err, Error::ProviderNotFound { vendor: "unknown-x".to_owned() });
}

#[test]
fn registry_fails_on_master_key() {
    let config = config_with(MasterKeyConfig::Kms { config: aws_config("azure") }, vec![keyspace(5, file_key("/unread"))]);
    let err = data_key_manager_map_from_config(&config, &"/d".to_owned(), &vec![]).unwrap_err();
    assert_eq!(err, Error::MissingAzureConfig);
}

#[test]
fn previous_key_is_resolved_lazily() {
    let mut config = config_with(MasterKeyConfig::Plaintext, vec![]);
    config.previous_master_key = file_key("/old");
    let m = data_key_manager_from_config(&config, &"/dict".to_owned(), &vec![]).unwrap();
    assert_eq!(
        m.previous_master_key_backend(&vec![]),
        Err(Error::KeyFileNotRead { path: "/old".to_owned() })
    );
    let files = vec![read_ok("/old", KEY_HEX)];
    assert_eq!(m.previous_master_key_backend(&files), Ok(Backend::File { key: key_bytes() }));
}

#[test]
fn disabled_vendor_is_not_found() {
    let support = VendorSupport { aws: true, azure: false };
    let mut config = aws_config("azure");
    config.azure = Some(AzureConfig::default());
    let err = create_cloud_backend_with(&config, support).unwrap_err();
    assert_eq!(err, Error::ProviderNotFound { vendor: "azure".to_owned() });
    assert!(create_cloud_backend(&config).is_ok());
    let no_aws = VendorSupport { aws: false, azure: true };
    assert_eq!(
        create_cloud_backend_with(&aws_config(""), no_aws),
        Err(Error::ProviderNotFound { vendor: String::new() })
    );
}
