//! The agent's settings: plain records for the server, storage, secrets
//! and cloud sections, with the compiled-in defaults applied by a
//! verified builder. Reading environment variables and config files
//! happens outside; what they override is decided here.

use vstd::prelude::*;

verus! {

/// The management and mesh listeners.
#[derive(Clone)]
pub struct ServerSettings {
    pub port: u16,
    pub mesh_port: u16,
    pub host: String,
    pub public_hostname: Option<String>,
    pub public_ip: Option<String>,
}

/// Where project bundles live.
#[derive(Clone)]
pub struct StorageSettings {
    pub projects_dir: String,
}

/// Where the agent's secret material lives.
#[derive(Clone)]
pub struct SecretsSettings {
    pub worker_secret: Option<String>,
    pub start_port: Option<u16>,
    pub worker_secret_path: String,
    pub master_key_path: String,
    pub identity_path: String,
    pub provisioning_token_path: String,
}

/// How to reach the control plane.
#[derive(Clone)]
pub struct CloudSettings {
    pub api_url: String,
    pub token: Option<String>,
    pub worker_id: Option<String>,
}

/// All of the agent's configuration.
#[derive(Clone)]
pub struct Settings {
    pub server: ServerSettings,
    pub storage: StorageSettings,
    pub secrets: SecretsSettings,
    pub cloud: CloudSettings,
    pub debug: bool,
}

/// The default management-API port.
pub const DEFAULT_SERVER_PORT: u16 = 8081;

/// The default mesh-proxy port.
pub const DEFAULT_MESH_PORT: u16 = 8082;

impl Settings {
    /// Build the settings from the directories the host gives and any
    /// port overrides, with every compiled-in default applied: the
    /// listeners bind all interfaces, the cloud endpoint is the public
    /// API, secret files live under the config directory and bundles
    /// under the data directory.
    pub fn build(
        port_override: Option<u16>,
        mesh_port_override: Option<u16>,
        config_dir: &str,
        data_dir: &str,
    ) -> (r: Settings)
        ensures
            r.server.port == (match port_override {
                Some(p) => p,
                None => DEFAULT_SERVER_PORT,
            }),
            r.server.mesh_port == (match mesh_port_override {
                Some(p) => p,
                None => DEFAULT_MESH_PORT,
            }),
            r.server.host@ == "0.0.0.0"@,
            r.server.public_hostname is None,
            r.server.public_ip is None,
            r.storage.projects_dir@ == data_dir@ + "/apps"@,
            r.secrets.worker_secret is None,
            r.secrets.start_port is None,
            r.secrets.worker_secret_path@ == config_dir@ + "/worker.secret"@,
            r.secrets.master_key_path@ == config_dir@ + "/master.key"@,
            r.secrets.identity_path@ == config_dir@ + "/identity.json"@,
            r.secrets.provisioning_token_path@ == config_dir@ + "/provisioning_token"@,
            r.cloud.api_url@ == "https://api.zexio.io"@,
            r.cloud.token is None,
            r.cloud.worker_id is None,
            !r.debug,
    {
        let port = match port_override {
            Some(p) => p,
            None => DEFAULT_SERVER_PORT,
        };
        let mesh_port = match mesh_port_override {
            Some(p) => p,
            None => DEFAULT_MESH_PORT,
        };
        Settings {
            server: ServerSettings {
                port,
                mesh_port,
                host: String::from_str("0.0.0.0"),
                public_hostname: None,
                public_ip: None,
            },
            storage: StorageSettings {
                projects_dir: String::from_str(data_dir).concat("/apps"),
            },
            secrets: SecretsSettings {
                worker_secret: None,
                start_port: None,
                worker_secret_path: String::from_str(config_dir).concat("/worker.secret"),
                master_key_path: String::from_str(config_dir).concat("/master.key"),
                identity_path: String::from_str(config_dir).concat("/identity.json"),
                provisioning_token_path: String::from_str(config_dir).concat(
                    "/provisioning_token",
                ),
            },
            cloud: CloudSettings {
                api_url: String::from_str("https://api.zexio.io"),
                token: None,
                worker_id: None,
            },
            debug: false,
        }
    }

    /// Whether the agent runs in cloud mode: both a token and a worker id
    /// are configured. In standalone mode the management API requires no
    /// authentication.
    pub fn is_cloud_mode(&self) -> (r: bool)
        ensures
            r <==> (self.cloud.token is Some && self.cloud.worker_id is Some),
    {
        self.cloud.token.is_some() && self.cloud.worker_id.is_some()
    }
}

} // verus!
