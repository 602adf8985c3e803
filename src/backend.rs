//! Resolution of a master-key configuration into a backend.
use vstd::prelude::*;
use crate::config::{AzureConfig, KmsConfig, MasterKeyConfig};
use crate::error::{CloudOp, Error};
use crate::keyfile::{key_file_key, parse_key_file};

verus! {

/// The vendor name of AWS KMS.
pub const STORAGE_VENDOR_NAME_AWS: &'static str = "aws";

/// The vendor name of Azure Key Vault.
pub const STORAGE_VENDOR_NAME_AZURE: &'static str = "azure";

/// A cloud key management service this library can bind to.
#[derive(Debug, Clone, Copy, PartialEq, Eq)]
pub enum CloudVendor {
    Aws,
    Azure,
}

/// The vendor selected by a vendor name. The empty name stands for AWS,
/// which was the only vendor before the name existed.
pub open spec fn vendor_for(name: Seq<char>) -> Option<CloudVendor> {
    if name == STORAGE_VENDOR_NAME_AWS@ || name.len() == 0 {
        Some(CloudVendor::Aws)
    } else if name == STORAGE_VENDOR_NAME_AZURE@ {
        Some(CloudVendor::Azure)
    } else {
        None
    }
}

/// Looks a vendor name up in the table of known vendors.
pub fn vendor_from_name(name: &String) -> (r: Option<CloudVendor>)
    ensures
        r == vendor_for(name@),
{
    let aws = STORAGE_VENDOR_NAME_AWS.to_owned();
    let azure = STORAGE_VENDOR_NAME_AZURE.to_owned();
    if name.as_str().is_empty() || *name == aws {
        Some(CloudVendor::Aws)
    } else if *name == azure {
        Some(CloudVendor::Azure)
    } else {
        None
    }
}

/// A KMS configuration in the form a vendor client is built from.
#[derive(Debug, Clone, PartialEq, Eq)]
pub struct CloudConfig {
    pub key_id: String,
    pub region: String,
    pub endpoint: String,
    pub azure: Option<AzureConfig>,
}

/// A master key bound to a cloud KMS key.
#[derive(Debug, Clone, PartialEq, Eq)]
pub struct KmsBackend {
    pub vendor: CloudVendor,
    pub config: CloudConfig,
}

/// A master-key backend: what wraps and unwraps data keys.
#[derive(Debug, Clone, PartialEq, Eq)]
pub enum Backend {
    /// Data keys are kept unwrapped.
    Plaintext,
    /// Data keys are wrapped with an AES-256 key held in memory.
    File { key: Vec<u8> },
    /// Data keys are wrapped by a cloud KMS.
    Kms(KmsBackend),
}

/// The mathematical content of a backend.
pub enum BackendView {
    Plaintext,
    File(Seq<u8>),
    Kms(KmsBackend),
}

impl View for Backend {
    type V = BackendView;

    open spec fn view(&self) -> BackendView {
        match self {
            Backend::Plaintext => BackendView::Plaintext,
            Backend::File { key } => BackendView::File(key@),
            Backend::Kms(k) => BackendView::Kms(*k),
        }
    }
}

impl BackendView {
    pub open spec fn is_secure(self) -> bool {
        !(self is Plaintext)
    }
}

impl Backend {
    /// Whether this backend protects data keys; only the plaintext one does not.
    pub fn is_secure(&self) -> (r: bool)
        ensures
            r == self@.is_secure(),
    {
        match self {
            Backend::Plaintext => false,
            _ => true,
        }
    }
}

/// The view of a resolution outcome.
pub open spec fn outcome_view(r: Result<Backend, Error>) -> Result<BackendView, Error> {
    match r {
        Ok(b) => Ok(b@),
        Err(e) => Err(e),
    }
}

/// The translated configuration for a vendor client.
pub open spec fn cloud_config_of(c: KmsConfig, vendor: CloudVendor) -> CloudConfig {
    CloudConfig {
        key_id: c.key_id,
        region: c.region,
        endpoint: c.endpoint,
        azure: if vendor is Azure { c.azure } else { None },
    }
}

/// The vendors a build can bind to; a vendor left out is treated as unknown.
#[derive(Debug, Clone, Copy, PartialEq, Eq)]
pub struct VendorSupport {
    pub aws: bool,
    pub azure: bool,
}

impl VendorSupport {
    /// Every vendor enabled.
    pub fn all() -> (r: VendorSupport)
        ensures
            r.aws && r.azure,
    {
        VendorSupport { aws: true, azure: true }
    }

    pub open spec fn enables(self, v: CloudVendor) -> bool {
        match v {
            CloudVendor::Aws => self.aws,
            CloudVendor::Azure => self.azure,
        }
    }
}

/// What a KMS configuration resolves to when only the vendors of `support` are there.
pub open spec fn cloud_backend_with(c: KmsConfig, support: VendorSupport) -> Result<BackendView, Error> {
    match vendor_for(c.vendor@) {
        Some(CloudVendor::Aws) if support.aws => if c.key_id@.len() == 0 {
            Err(Error::EmptyKeyId { op: CloudOp::AwsFromProto })
        } else {
            Ok(BackendView::Kms(KmsBackend { vendor: CloudVendor::Aws, config: cloud_config_of(c, CloudVendor::Aws) }))
        },
        Some(CloudVendor::Azure) if support.azure => if c.azure is None {
            Err(Error::MissingAzureConfig)
        } else if c.key_id@.len() == 0 {
            Err(Error::EmptyKeyId { op: CloudOp::AzureFromProto })
        } else {
            Ok(BackendView::Kms(KmsBackend { vendor: CloudVendor::Azure, config: cloud_config_of(c, CloudVendor::Azure) }))
        },
        _ => Err(Error::ProviderNotFound { vendor: c.vendor }),
    }
}

/// What a KMS configuration resolves to, with every vendor there.
pub open spec fn cloud_backend_of(c: KmsConfig) -> Result<BackendView, Error> {
    cloud_backend_with(c, VendorSupport { aws: true, azure: true })
}

/// Resolves a KMS configuration by its vendor name, among the vendors of `support`.
pub fn create_cloud_backend_with(config: &KmsConfig, support: VendorSupport) -> (r: Result<Backend, Error>)
    ensures
        outcome_view(r) == cloud_backend_with(*config, support),
{
    match vendor_from_name(&config.vendor) {
        Some(CloudVendor::Aws) if support.aws => {
            if config.key_id.as_str().is_empty() {
                return Err(Error::EmptyKeyId { op: CloudOp::AwsFromProto });
            }
            let conf = CloudConfig {
                key_id: config.key_id.clone(),
                region: config.region.clone(),
                endpoint: config.endpoint.clone(),
                azure: None,
            };
            Ok(Backend::Kms(KmsBackend { vendor: CloudVendor::Aws, config: conf }))
        },
        Some(CloudVendor::Azure) if support.azure => {
            let azure = match &config.azure {
                Some(a) => a.duplicate(),
                None => {
                    return Err(Error::MissingAzureConfig);
                },
            };
            if config.key_id.as_str().is_empty() {
                return Err(Error::EmptyKeyId { op: CloudOp::AzureFromProto });
            }
            let conf = CloudConfig {
                key_id: config.key_id.clone(),
                region: config.region.clone(),
                endpoint: config.endpoint.clone(),
                azure: Some(azure),
            };
            Ok(Backend::Kms(KmsBackend { vendor: CloudVendor::Azure, config: conf }))
        },
        _ => Err(Error::ProviderNotFound { vendor: config.vendor.clone() }),
    }
}

/// Resolves a KMS configuration by its vendor name, with every vendor there.
pub fn create_cloud_backend(config: &KmsConfig) -> (r: Result<Backend, Error>)
    ensures
        outcome_view(r) == cloud_backend_of(*config),
{
    create_cloud_backend_with(config, VendorSupport::all())
}

/// A vendor left out of a build is refused exactly as an unknown name is.
pub proof fn lemma_disabled_vendor_not_found(c: KmsConfig, support: VendorSupport)
    requires
        vendor_for(c.vendor@) matches Some(v) && !support.enables(v),
    ensures
        cloud_backend_with(c, support) == Err::<BackendView, Error>(Error::ProviderNotFound { vendor: c.vendor }),
{
}

/// The content of a master key file as it was read, or the reason it could not be.
#[derive(Debug)]
pub struct KeyFile {
    pub path: String,
    pub content: Result<Vec<u8>, String>,
}

/// `i` is the first position of a file read from `path`.
pub open spec fn first_read_of(files: Seq<KeyFile>, path: Seq<char>, i: int) -> bool {
    &&& 0 <= i < files.len()
    &&& files[i].path@ == path
    &&& forall|j: int| 0 <= j < i ==> (#[trigger] files[j]).path@ != path
}

/// The first file read from `path`, if any.
pub open spec fn find_key_file(files: Seq<KeyFile>, path: Seq<char>) -> Option<KeyFile> {
    if exists|i: int| first_read_of(files, path, i) {
        Some(files[choose|i: int| first_read_of(files, path, i)])
    } else {
        None
    }
}

fn lookup_key_file<'a>(files: &'a Vec<KeyFile>, path: &String) -> (r: Option<&'a KeyFile>)
    ensures
        match r {
            Some(f) => find_key_file(files@, path@) == Some(*f),
            None => find_key_file(files@, path@) is None,
        },
{
    let mut i: usize = 0;
    while i < files.len()
        invariant
            i <= files@.len(),
            forall|j: int| 0 <= j < i ==> (#[trigger] files@[j]).path@ != path@,
        decreases files@.len() - i,
    {
        if files[i].path == *path {
            assert(first_read_of(files@, path@, i as int));
            assert forall|k: int| first_read_of(files@, path@, k) implies k == i by {
                if k < i {
                    assert(files@[k].path@ != path@);
                } else if k > i {
                    assert(files@[i as int].path@ != path@);
                }
            }
            return Some(&files[i]);
        }
        i = i + 1;
    }
    None
}

/// What a master-key configuration resolves to, given the key files that were read.
pub open spec fn backend_of(c: MasterKeyConfig, files: Seq<KeyFile>) -> Result<BackendView, Error> {
    match c {
        MasterKeyConfig::Plaintext => Ok(BackendView::Plaintext),
        MasterKeyConfig::File { config } => match find_key_file(files, config.path@) {
            None => Err(Error::KeyFileNotRead { path: config.path }),
            Some(f) => match f.content {
                Err(m) => Err(Error::Io(m)),
                Ok(bytes) => match key_file_key(bytes@) {
                    Ok(k) => Ok(BackendView::File(k)),
                    Err(e) => Err(Error::KeyFile(e)),
                },
            },
        },
        MasterKeyConfig::Kms { config } => cloud_backend_of(config),
    }
}

/// Resolves a master-key configuration. A file key is taken from the first
/// entry of `key_files` read from its path.
pub fn create_backend(config: &MasterKeyConfig, key_files: &Vec<KeyFile>) -> (r: Result<Backend, Error>)
    ensures
        outcome_view(r) == backend_of(*config, key_files@),
{
    match config {
        MasterKeyConfig::Plaintext => Ok(Backend::Plaintext),
        MasterKeyConfig::File { config } => match lookup_key_file(key_files, &config.path) {
            None => Err(Error::KeyFileNotRead { path: config.path.clone() }),
            Some(f) => match &f.content {
                Err(m) => Err(Error::Io(m.clone())),
                Ok(bytes) => match parse_key_file(bytes.as_slice()) {
                    Ok(key) => Ok(Backend::File { key }),
                    Err(e) => Err(Error::KeyFile(e)),
                },
            },
        },
        MasterKeyConfig::Kms { config } => create_cloud_backend(config),
    }
}

/// A KMS configuration that either known vendor accepts: a non-empty key id,
/// and for Azure its sub-configuration.
pub open spec fn kms_config_valid(c: KmsConfig) -> bool {
    &&& c.vendor@ == "aws"@ || c.vendor@ == "azure"@
    &&& c.key_id@.len() > 0
    &&& c.vendor@ == "azure"@ ==> c.azure is Some
}

/// A valid configuration of either known vendor resolves to a secure backend
/// of that vendor.
pub proof fn lemma_valid_kms_config_is_secure(c: KmsConfig)
    requires
        kms_config_valid(c),
    ensures
        cloud_backend_of(c) is Ok,
        cloud_backend_of(c)->Ok_0.is_secure(),
        cloud_backend_of(c)->Ok_0 matches BackendView::Kms(k) && k.vendor == vendor_for(c.vendor@)->0,
{
    reveal_strlit("aws");
    reveal_strlit("azure");
}

/// The empty vendor name resolves exactly as the name "aws" does.
pub proof fn lemma_empty_vendor_is_aws(empty: KmsConfig, aws: KmsConfig)
    requires
        empty.vendor@.len() == 0,
        aws.vendor@ == "aws"@,
        empty.key_id == aws.key_id,
        empty.region == aws.region,
        empty.endpoint == aws.endpoint,
        empty.azure == aws.azure,
    ensures
        cloud_backend_of(empty) == cloud_backend_of(aws),
        backend_of(MasterKeyConfig::Kms { config: empty }, Seq::empty())
            == backend_of(MasterKeyConfig::Kms { config: aws }, Seq::empty()),
{
    reveal_strlit("aws");
}

/// The Azure vendor without its sub-configuration is refused as a
/// configuration error, whatever the other fields hold.
pub proof fn lemma_azure_without_sub_config(c: KmsConfig)
    requires
        c.vendor@ == "azure"@,
        c.azure is None,
    ensures
        cloud_backend_of(c) == Err::<BackendView, Error>(Error::MissingAzureConfig),
        Error::MissingAzureConfig.spec_kind() == crate::error::ErrorKind::Config,
{
    reveal_strlit("aws");
    reveal_strlit("azure");
    assert(c.vendor@.len() != "aws"@.len());
}

/// An unknown vendor name is refused with an error whose message holds that name.
pub proof fn lemma_unknown_vendor_is_named(c: KmsConfig)
    requires
        vendor_for(c.vendor@) is None,
    ensures
        cloud_backend_of(c) == Err::<BackendView, Error>(Error::ProviderNotFound { vendor: c.vendor }),
        ({
            let m = Error::ProviderNotFound { vendor: c.vendor }.spec_message();
            let start = m.len() - c.vendor@.len();
            0 <= start && m.subrange(start, m.len() as int) == c.vendor@
        }),
{
    let m = Error::ProviderNotFound { vendor: c.vendor }.spec_message();
    assert(m.subrange(m.len() - c.vendor@.len(), m.len() as int) =~= c.vendor@);
}

/// Only the plaintext configuration gives an insecure backend, and it always resolves.
pub proof fn lemma_backend_security(c: MasterKeyConfig, files: Seq<KeyFile>)
    ensures
        c is Plaintext ==> backend_of(c, files) == Ok::<BackendView, Error>(BackendView::Plaintext),
        backend_of(c, files) matches Ok(b) ==> (b.is_secure() <==> !(c is Plaintext)),
{
}

} // verus!
