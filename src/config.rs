//! Declarative encryption configuration, as loaded at startup.
use vstd::prelude::*;

verus! {

/// Copies an optional string, keeping it equal to the original.
fn duplicate_opt(s: &Option<String>) -> (r: Option<String>)
    ensures
        r == *s,
{
    match s {
        Some(v) => Some(v.clone()),
        None => None,
    }
}

/// Settings of the Azure Key Vault / Managed HSM vendor.
#[derive(Debug, Clone, PartialEq, Eq)]
pub struct AzureConfig {
    pub tenant_id: String,
    pub client_id: String,
    pub keyvault_url: String,
    pub hsm_name: String,
    pub hsm_url: String,
    pub client_certificate: Option<String>,
    pub client_certificate_path: Option<String>,
    pub client_certificate_password: String,
    pub client_secret: Option<String>,
}

impl AzureConfig {
    /// A field-by-field copy.
    pub fn duplicate(&self) -> (r: AzureConfig)
        ensures
            r == *self,
    {
        AzureConfig {
            tenant_id: self.tenant_id.clone(),
            client_id: self.client_id.clone(),
            keyvault_url: self.keyvault_url.clone(),
            hsm_name: self.hsm_name.clone(),
            hsm_url: self.hsm_url.clone(),
            client_certificate: duplicate_opt(&self.client_certificate),
            client_certificate_path: duplicate_opt(&self.client_certificate_path),
            client_certificate_password: self.client_certificate_password.clone(),
            client_secret: duplicate_opt(&self.client_secret),
        }
    }
}

impl Default for AzureConfig {
    fn default() -> (r: AzureConfig)
        ensures
            r.tenant_id@.len() == 0,
            r.client_id@.len() == 0,
            r.keyvault_url@.len() == 0,
            r.hsm_name@.len() == 0,
            r.hsm_url@.len() == 0,
            r.client_certificate is None,
            r.client_certificate_path is None,
            r.client_certificate_password@.len() == 0,
            r.client_secret is None,
    {
        AzureConfig {
            tenant_id: String::new(),
            client_id: String::new(),
            keyvault_url: String::new(),
            hsm_name: String::new(),
            hsm_url: String::new(),
            client_certificate: None,
            client_certificate_path: None,
            client_certificate_password: String::new(),
            client_secret: None,
        }
    }
}

/// A master key held by a cloud key management service.
#[derive(Debug, Clone, PartialEq, Eq)]
pub struct KmsConfig {
    pub key_id: String,
    pub region: String,
    pub endpoint: String,
    pub vendor: String,
    pub azure: Option<AzureConfig>,
}

impl KmsConfig {
    /// A field-by-field copy.
    pub fn duplicate(&self) -> (r: KmsConfig)
        ensures
            r == *self,
    {
        KmsConfig {
            key_id: self.key_id.clone(),
            region: self.region.clone(),
            endpoint: self.endpoint.clone(),
            vendor: self.vendor.clone(),
            azure: match &self.azure {
                Some(a) => Some(a.duplicate()),
                None => None,
            },
        }
    }
}

/// A master key held in a local file.
#[derive(Debug, Clone, PartialEq, Eq)]
pub struct FileConfig {
    pub path: String,
}

/// Where a master key comes from.
#[derive(Debug, Clone, PartialEq, Eq)]
pub enum MasterKeyConfig {
    /// No encryption at all.
    Plaintext,
    File { config: FileConfig },
    Kms { config: KmsConfig },
}

impl MasterKeyConfig {
    /// A field-by-field copy.
    pub fn duplicate(&self) -> (r: MasterKeyConfig)
        ensures
            r == *self,
    {
        match self {
            MasterKeyConfig::Plaintext => MasterKeyConfig::Plaintext,
            MasterKeyConfig::File { config } => MasterKeyConfig::File {
                config: FileConfig { path: config.path.clone() },
            },
            MasterKeyConfig::Kms { config } => MasterKeyConfig::Kms { config: config.duplicate() },
        }
    }
}

/// The cipher used for data files.
#[derive(Debug, Clone, Copy, PartialEq, Eq)]
pub enum EncryptionMethod {
    Plaintext,
    Aes128Ctr,
    Aes192Ctr,
    Aes256Ctr,
    Sm4Ctr,
}

/// The key of one keyspace, and the key it replaced.
#[derive(Debug, Clone, PartialEq, Eq)]
pub struct KeyspaceKeyConfig {
    pub keyspace_id: u32,
    pub key_config: MasterKeyConfig,
    pub previous_key_config: MasterKeyConfig,
}

/// The whole encryption configuration.
#[derive(Debug, Clone, PartialEq, Eq)]
pub struct EncryptionConfig {
    pub data_encryption_method: EncryptionMethod,
    pub data_key_rotation_period_secs: u64,
    pub master_key: MasterKeyConfig,
    pub previous_master_key: MasterKeyConfig,
    pub keyspace_keys: Vec<KeyspaceKeyConfig>,
}

} // verus!
