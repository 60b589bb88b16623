//! The three configuration facets' settings, their built-in defaults and the
//! per-chain profiles layered over them.
use vstd::prelude::*;
use vstd::string::StringExecFns;

verus! {

/// Settings of one configuration section.
pub struct CosmosTelemetryConfig {
    pub service_name: String,
    pub enabled: bool,
    pub enable_hostname: bool,
    pub enable_hostname_label: bool,
    pub enable_service_label: bool,
    pub prometheus_retention_time: u64,
    pub global_labels: Vec<(String, String)>,
}

/// Settings of one configuration section.
pub struct CosmosApiConfig {
    pub enable: bool,
    pub swagger: bool,
    pub address: String,
    pub max_open_connections: u64,
    pub rpc_read_timeout: u64,
    pub rpc_write_timeout: u64,
    pub rpc_max_body_bytes: u64,
    pub enabled_unsafe_cors: bool,
}

/// Settings of one configuration section.
pub struct CosmosRosettaConfig {
    pub enable: bool,
    pub address: String,
    pub blockchain: String,
    pub network: String,
    pub retries: u64,
    pub offline: bool,
}

/// Settings of one configuration section.
pub struct CosmosGrpcConfig {
    pub enable: bool,
    pub address: String,
}

/// Settings of one configuration section.
pub struct CosmosGrpcWebConfig {
    pub enable: bool,
    pub address: String,
    pub enable_unsafe_cors: bool,
}

/// Settings of one configuration section.
pub struct CosmosStateSyncConfig {
    pub snapshot_interval: u64,
    pub snapshot_keep_recent: u64,
}

/// Settings of one configuration section.
pub struct CosmosWasmConfig {
    pub query_gas_limit: u64,
    pub lru_size: u64,
}

/// Settings of one configuration section.
pub struct CosmosAppConfig {
    pub minimum_gas_prices: String,
    pub pruning: String,
    pub pruning_keep_recent: u64,
    pub pruning_keep_every: u64,
    pub pruning_interval: u64,
    pub halt_height: u64,
    pub halt_time: u64,
    pub min_retain_blocks: u64,
    pub inter_block_cache: bool,
    pub index_events: Vec<String>,
    pub iavl_cache_size: u64,
    pub iavl_disable_fastnode: bool,
    pub telemetry: CosmosTelemetryConfig,
    pub api: CosmosApiConfig,
    pub rosetta: CosmosRosettaConfig,
    pub grpc: CosmosGrpcConfig,
    pub grpc_web: CosmosGrpcWebConfig,
    pub state_sync: CosmosStateSyncConfig,
    pub wasm: Option<CosmosWasmConfig>,
}

/// Settings of one configuration section.
pub struct TendermintRpcConfig {
    pub laddr: String,
    pub cors_allowed_origins: Vec<String>,
    pub cors_allowed_methods: Vec<String>,
    pub cors_allowed_headers: Vec<String>,
    pub grpc_laddr: String,
    pub grpc_max_open_connections: u64,
    pub allow_unsafe: bool,
    pub max_open_connections: u64,
    pub max_subscription_clients: u64,
    pub max_subscriptions_per_client: u64,
    pub subscription_buffer_size: u64,
    pub websocket_write_buffer_size: u64,
    pub close_on_slow_client: bool,
    pub timeout_broadcast_tx_commit: String,
    pub max_body_bytes: u64,
    pub max_header_bytes: u64,
    pub tls_cert_file: String,
    pub tls_key_file: String,
    pub pprof_laddr: String,
}

/// Settings of one configuration section.
pub struct TendermintP2pConfig {
    pub laddr: String,
    pub external_address: String,
    pub seeds: String,
    pub persistent_peers: String,
    pub upnp: bool,
    pub addr_book_file: String,
    pub addr_book_strict: bool,
    pub max_num_inbound_peers: u64,
    pub max_num_outbound_peers: u64,
    pub unconditional_peer_ids: String,
    pub persistent_peers_max_dial_period: String,
    pub flush_throttle_timeout: String,
    pub max_packet_msg_payload_size: u64,
    pub send_rate: u64,
    pub recv_rate: u64,
    pub pex: bool,
    pub seed_mode: bool,
    pub private_peer_ids: String,
    pub allow_duplicate_ip: bool,
    pub handshake_timeout: String,
    pub dial_timeout: String,
}

/// Settings of one configuration section.
pub struct TendermintMempoolConfig {
    pub version: String,
    pub recheck: bool,
    pub broadcast: bool,
    pub wal_dir: String,
    pub size: u64,
    pub max_txs_bytes: u64,
    pub cache_size: u64,
    pub keep_invalid_txs_in_cache: bool,
    pub max_tx_bytes: u64,
    pub max_batch_bytes: u64,
    pub ttl_duration: String,
    pub ttl_num_blocks: u64,
}

/// Settings of one configuration section.
pub struct TendermintStatesyncConfig {
    pub enable: bool,
    pub rpc_servers: Vec<String>,
    pub trust_height: u64,
    pub trust_hash: String,
    pub trust_period: String,
    pub discovery_time: String,
    pub temp_dir: String,
    pub chunk_request_timeout: String,
    pub chunk_fetchers: u64,
}

/// Settings of one configuration section.
pub struct TendermintFastsyncConfig {
    pub version: String,
}

/// Settings of one configuration section.
pub struct TendermintConsensusConfig {
    pub wal_file: String,
    pub timeout_propose: String,
    pub timeout_propose_delta: String,
    pub timeout_prevote: String,
    pub timeout_prevote_delta: String,
    pub timeout_precommit: String,
    pub timeout_precommit_delta: String,
    pub timeout_commit: String,
    pub double_sign_check_height: u64,
    pub skip_timeout_commit: bool,
    pub create_empty_blocks: bool,
    pub create_empty_blocks_interval: String,
    pub peer_gossip_sleep_duration: String,
    pub peer_query_maj23_sleep_duration: String,
}

/// Settings of one configuration section.
pub struct TendermintStorageConfig {
    pub discard_abci_responses: bool,
}

/// Settings of one configuration section.
pub struct TendermintTransactionIndexConfig {
    pub indexer: String,
    pub psql_conn: String,
}

/// Settings of one configuration section.
pub struct TendermintInstrumentationConfig {
    pub prometheus: bool,
    pub prometheus_listen_addr: String,
    pub max_open_connections: u64,
    pub namespace: String,
}

/// Settings of one configuration section.
pub struct TendermintConfig {
    pub proxy_app: String,
    pub moniker: String,
    pub fast_sync: bool,
    pub db_backend: String,
    pub db_dir: String,
    pub log_level: String,
    pub log_format: String,
    pub genesis_file: String,
    pub priv_validator_key_file: String,
    pub priv_validator_state_file: String,
    pub priv_validator_laddr: String,
    pub node_key_file: String,
    pub abci: String,
    pub filter_peers: bool,
    pub rpc: TendermintRpcConfig,
    pub p2p: TendermintP2pConfig,
    pub mempool: TendermintMempoolConfig,
    pub statesync: TendermintStatesyncConfig,
    pub consensus: TendermintConsensusConfig,
    pub fastsync: TendermintFastsyncConfig,
    pub storage: TendermintStorageConfig,
    pub tx_index: TendermintTransactionIndexConfig,
    pub instrumentation: TendermintInstrumentationConfig,
}

/// Settings of one configuration section.
pub struct CosmosChainConfig {
    pub app: CosmosAppConfig,
    pub tendermint: TendermintConfig,
    pub genesis_url: String,
}

/// What a chain profile sets over the built-in defaults.
pub struct ProfileSettings {
    pub fees: Seq<char>,
    pub wasm: bool,
    pub timeout_commit: Seq<char>,
    pub genesis_url: Seq<char>,
}

impl CosmosTelemetryConfig {
    /// Every field holds its built-in default.
    pub open spec fn has_defaults(&self) -> bool {
        &&& self.service_name@ == ""@
        &&& !self.enabled
        &&& !self.enable_hostname
        &&& !self.enable_hostname_label
        &&& !self.enable_service_label
        &&& self.prometheus_retention_time == 0
        &&& self.global_labels@.len() == 0
    }
}

impl CosmosApiConfig {
    /// Every field holds its built-in default.
    pub open spec fn has_defaults(&self) -> bool {
        &&& self.enable
        &&& !self.swagger
        &&& self.address@ == "tcp://127.0.0.1:1317"@
        &&& self.max_open_connections == 1000
        &&& self.rpc_read_timeout == 10
        &&& self.rpc_write_timeout == 10
        &&& self.rpc_max_body_bytes == 1000000
        &&& self.enabled_unsafe_cors
    }
}

impl CosmosRosettaConfig {
    /// Every field holds its built-in default.
    pub open spec fn has_defaults(&self) -> bool {
        &&& !self.enable
        &&& self.address@ == ""@
        &&& self.blockchain@ == ""@
        &&& self.network@ == ""@
        &&& self.retries == 0
        &&& !self.offline
    }
}

impl CosmosGrpcConfig {
    /// Every field holds its built-in default.
    pub open spec fn has_defaults(&self) -> bool {
        &&& self.enable
        &&& self.address@ == "tcp://127.0.0.1:9090"@
    }
}

impl CosmosGrpcWebConfig {
    /// Every field holds its built-in default.
    pub open spec fn has_defaults(&self) -> bool {
        &&& self.enable
        &&& self.address@ == "tcp://127.0.0.1:9091"@
        &&& self.enable_unsafe_cors
    }
}

impl CosmosStateSyncConfig {
    /// Every field holds its built-in default.
    pub open spec fn has_defaults(&self) -> bool {
        &&& self.snapshot_interval == 2000
        &&& self.snapshot_keep_recent == 3
    }
}

impl CosmosWasmConfig {
    /// Every field holds its built-in default.
    pub open spec fn has_defaults(&self) -> bool {
        &&& self.query_gas_limit == 30000000
        &&& self.lru_size == 0
    }
}

impl CosmosAppConfig {
    /// Every field holds its built-in default, apart from those that a chain profile sets.
    pub open spec fn has_defaults(&self) -> bool {
        &&& self.pruning@ == "nothing"@
        &&& self.pruning_keep_recent == 0
        &&& self.pruning_keep_every == 0
        &&& self.pruning_interval == 0
        &&& self.halt_height == 0
        &&& self.halt_time == 0
        &&& self.min_retain_blocks == 0
        &&& self.inter_block_cache
        &&& self.index_events@.len() == 0
        &&& self.iavl_cache_size == 781250
        &&& !self.iavl_disable_fastnode
        &&& self.telemetry.has_defaults()
        &&& self.api.has_defaults()
        &&& self.rosetta.has_defaults()
        &&& self.grpc.has_defaults()
        &&& self.grpc_web.has_defaults()
        &&& self.state_sync.has_defaults()
    }
}

impl TendermintRpcConfig {
    /// Every field holds its built-in default.
    pub open spec fn has_defaults(&self) -> bool {
        &&& self.laddr@ == "tcp://127.0.0.1:26657"@
        &&& self.cors_allowed_origins@.len() == 1
        &&& self.cors_allowed_origins@[0]@ == "*"@
        &&& self.cors_allowed_methods@.len() == 0
        &&& self.cors_allowed_headers@.len() == 0
        &&& self.grpc_laddr@ == ""@
        &&& self.grpc_max_open_connections == 900
        &&& !self.allow_unsafe
        &&& self.max_open_connections == 900
        &&& self.max_subscription_clients == 100
        &&& self.max_subscriptions_per_client == 5
        &&& self.subscription_buffer_size == 200
        &&& self.websocket_write_buffer_size == 200
        &&& !self.close_on_slow_client
        &&& self.timeout_broadcast_tx_commit@ == "10s"@
        &&& self.max_body_bytes == 1000000
        &&& self.max_header_bytes == 1048576
        &&& self.tls_cert_file@ == ""@
        &&& self.tls_key_file@ == ""@
        &&& self.pprof_laddr@ == "localhost:6060"@
    }
}

impl TendermintP2pConfig {
    /// Every field holds its built-in default.
    pub open spec fn has_defaults(&self) -> bool {
        &&& self.laddr@ == "tcp://0.0.0.0:26656"@
        &&& self.external_address@ == ""@
        &&& self.seeds@ == ""@
        &&& self.persistent_peers@ == ""@
        &&& !self.upnp
        &&& self.addr_book_file@ == ""@
        &&& self.addr_book_strict
        &&& self.max_num_inbound_peers == 50
        &&& self.max_num_outbound_peers == 50
        &&& self.unconditional_peer_ids@ == ""@
        &&& self.persistent_peers_max_dial_period@ == "0s"@
        &&& self.flush_throttle_timeout@ == "100ms"@
        &&& self.max_packet_msg_payload_size == 1024
        &&& self.send_rate == 5120000
        &&& self.recv_rate == 5120000
        &&& self.pex
        &&& !self.seed_mode
        &&& self.private_peer_ids@ == ""@
        &&& !self.allow_duplicate_ip
        &&& self.handshake_timeout@ == "20s"@
        &&& self.dial_timeout@ == "3s"@
    }
}

impl TendermintMempoolConfig {
    /// Every field holds its built-in default.
    pub open spec fn has_defaults(&self) -> bool {
        &&& self.version@ == "v0"@
        &&& self.recheck
        &&& self.broadcast
        &&& self.wal_dir@ == ""@
        &&& self.size == 5000
        &&& self.max_txs_bytes == 1073741824
        &&& self.cache_size == 10000
        &&& !self.keep_invalid_txs_in_cache
        &&& self.max_tx_bytes == 1048576
        &&& self.max_batch_bytes == 0
        &&& self.ttl_duration@ == ""@
        &&& self.ttl_num_blocks == 0
    }
}

impl TendermintStatesyncConfig {
    /// Every field holds its built-in default.
    pub open spec fn has_defaults(&self) -> bool {
        &&& !self.enable
        &&& self.rpc_servers@.len() == 0
        &&& self.trust_height == 0
        &&& self.trust_hash@ == ""@
        &&& self.trust_period@ == ""@
        &&& self.discovery_time@ == "15s"@
        &&& self.temp_dir@ == ""@
        &&& self.chunk_request_timeout@ == "10s"@
        &&& self.chunk_fetchers == 4
    }
}

impl TendermintFastsyncConfig {
    /// Every field holds its built-in default.
    pub open spec fn has_defaults(&self) -> bool {
        &&& self.version@ == "v0"@
    }
}

impl TendermintConsensusConfig {
    /// Every field holds its built-in default, apart from those that a chain profile sets.
    pub open spec fn has_defaults(&self) -> bool {
        &&& self.wal_file@ == "data/cs.wal/wal"@
        &&& self.timeout_propose@ == "3s"@
        &&& self.timeout_propose_delta@ == "500ms"@
        &&& self.timeout_prevote@ == "1s"@
        &&& self.timeout_prevote_delta@ == "500ms"@
        &&& self.timeout_precommit@ == "1s"@
        &&& self.timeout_precommit_delta@ == "500ms"@
        &&& self.double_sign_check_height == 0
        &&& !self.skip_timeout_commit
        &&& self.create_empty_blocks
        &&& self.create_empty_blocks_interval@ == "0s"@
        &&& self.peer_gossip_sleep_duration@ == "100ms"@
        &&& self.peer_query_maj23_sleep_duration@ == "2s"@
    }
}

impl TendermintStorageConfig {
    /// Every field holds its built-in default.
    pub open spec fn has_defaults(&self) -> bool {
        &&& !self.discard_abci_responses
    }
}

impl TendermintTransactionIndexConfig {
    /// Every field holds its built-in default.
    pub open spec fn has_defaults(&self) -> bool {
        &&& self.indexer@ == "kv"@
        &&& self.psql_conn@ == ""@
    }
}

impl TendermintInstrumentationConfig {
    /// Every field holds its built-in default.
    pub open spec fn has_defaults(&self) -> bool {
        &&& !self.prometheus
        &&& self.prometheus_listen_addr@ == ":26660"@
        &&& self.max_open_connections == 3
        &&& self.namespace@ == "tendermint"@
    }
}

impl TendermintConfig {
    /// Every field holds its built-in default.
    pub open spec fn has_defaults(&self) -> bool {
        &&& self.proxy_app@ == "tcp://127.0.0.1:26658"@
        &&& self.moniker@ == ""@
        &&& self.fast_sync
        &&& self.db_backend@ == "goleveldb"@
        &&& self.db_dir@ == "data"@
        &&& self.log_level@ == "info"@
        &&& self.log_format@ == "plain"@
        &&& self.genesis_file@ == "config/genesis.json"@
        &&& self.priv_validator_key_file@ == "config/priv_validator_key.json"@
        &&& self.priv_validator_state_file@ == "data/priv_validator_state.json"@
        &&& self.priv_validator_laddr@ == ""@
        &&& self.node_key_file@ == "config/node_key.json"@
        &&& self.abci@ == "socket"@
        &&& !self.filter_peers
        &&& self.rpc.has_defaults()
        &&& self.p2p.has_defaults()
        &&& self.mempool.has_defaults()
        &&& self.statesync.has_defaults()
        &&& self.consensus.has_defaults()
        &&& self.fastsync.has_defaults()
        &&& self.storage.has_defaults()
        &&& self.tx_index.has_defaults()
        &&& self.instrumentation.has_defaults()
    }
}

impl CosmosChainConfig {
    /// The built-in defaults, with the fee list, contract runtime section, commit
    /// timeout and genesis source that `p` gives.
    pub open spec fn is_profile(&self, p: ProfileSettings) -> bool {
        &&& self.app.has_defaults()
        &&& self.app.minimum_gas_prices@ == p.fees
        &&& if p.wasm {
            self.app.wasm matches Some(w) && w.has_defaults()
        } else {
            self.app.wasm is None
        }
        &&& self.tendermint.has_defaults()
        &&& self.tendermint.consensus.timeout_commit@ == p.timeout_commit
        &&& self.genesis_url@ == p.genesis_url
    }
}

/// Minimum gas prices of the kaiyo-1 network.
pub const KAIYO_FEES: &'static str = "0.00119ukuji,0.00150factory/kujira1qk00h5atutpsv900x202pxx42npjr9thg58dnqpa72f2p7m2luase444a7/uusk,0.00150ibc/295548A78785A1007F232DE286149A6FF512F180AF5657780FC89C009E2C348F,0.000125ibc/27394FB092D2ECCD56123C74F36E4C1F926001CEADA9CA97EA622B25F41E5EB2,0.00126ibc/47BD209179859CDE4A2806763D7189B6E6FE13A17880FE2B42DE1E6C1E329E23,0.00652ibc/3607EB5B5E64DD1C0E12E07F077FF470D5BC4706AFCBC98FE1BA960E5AE4CE07,617283951ibc/F3AA7EF362EC5E791FE78A0F4CCC69FEE1F9A7485EB1A8CAB3F6601C00522F10,0.000288ibc/EFF323CC632EC4F747C61BCE238A758EFDB7699C3226565F7C20DA06509D59A5,0.000125ibc/DA59C009A0B3B95E0549E6BF7B075C8239285989FF457A8EDDBB56F10B2A6986,0.00137ibc/A358D7F19237777AF6D8AD0E0F53268F8B18AE8A53ED318095C14D6D7F3B2DB5,0.0488ibc/4F393C3FCA4190C0A6756CE7F6D897D5D1BE57D6CCB80D0BC87393566A7B6602,78492936ibc/004EBF085BBED1029326D56BE8A2E67C08CECE670A94AC1947DF413EF5130EB2,964351ibc/1B38805B1C75352B28169284F96DF56BDEBD9E8FAC005BDCC8CF0378C82AA8E7";

pub open spec fn wasmd_settings() -> ProfileSettings {
    ProfileSettings {
        fees: "0stake"@,
        wasm: true,
        timeout_commit: "5s"@,
        genesis_url: ""@,
    }
}

/// The settings of each chain with a built-in profile.
pub open spec fn profile_settings(chain_id: Seq<char>) -> Option<ProfileSettings> {
    if chain_id == "kaiyo-1"@ {
        Some(ProfileSettings {
            fees: KAIYO_FEES@,
            wasm: true,
            timeout_commit: "1500ms"@,
            genesis_url: "https://raw.githubusercontent.com/Team-Kujira/networks/master/mainnet/kaiyo-1.json"@,
        })
    } else if chain_id == "harpoon-4"@ {
        Some(ProfileSettings {
            fees: "0.00125ukuji"@,
            wasm: true,
            timeout_commit: "1500ms"@,
            genesis_url: "https://raw.githubusercontent.com/Team-Kujira/networks/master/testnet/harpoon-4.json"@,
        })
    } else if chain_id == "cosmoshub-4"@ {
        Some(ProfileSettings {
            fees: "0.0025uatom"@,
            wasm: false,
            timeout_commit: "5s"@,
            genesis_url: "https://raw.githubusercontent.com/cosmos/mainnet/master/genesis/genesis.cosmoshub-4.json.gz"@,
        })
    } else if chain_id == "theta-testnet-001"@ {
        Some(ProfileSettings {
            fees: "0.0025uatom"@,
            wasm: false,
            timeout_commit: "5s"@,
            genesis_url: "https://github.com/cosmos/testnets/raw/master/public/genesis.json.gz"@,
        })
    } else {
        None
    }
}

/// The built-in defaults of a wasmd node.
pub fn default_wasmd_config() -> (r: CosmosChainConfig)
    ensures
        r.is_profile(wasmd_settings()),
{
    CosmosChainConfig {
        app: CosmosAppConfig {
            minimum_gas_prices: String::from_str("0stake"),
            pruning: String::from_str("nothing"),
            pruning_keep_recent: 0,
            pruning_keep_every: 0,
            pruning_interval: 0,
            halt_height: 0,
            halt_time: 0,
            min_retain_blocks: 0,
            inter_block_cache: true,
            index_events: Vec::new(),
            iavl_cache_size: 781250,
            iavl_disable_fastnode: false,
            telemetry: CosmosTelemetryConfig {
                service_name: String::from_str(""),
                enabled: false,
                enable_hostname: false,
                enable_hostname_label: false,
                enable_service_label: false,
                prometheus_retention_time: 0,
                global_labels: Vec::new(),
            },
            api: CosmosApiConfig {
                enable: true,
                swagger: false,
                address: String::from_str("tcp://127.0.0.1:1317"),
                max_open_connections: 1000,
                rpc_read_timeout: 10,
                rpc_write_timeout: 10,
                rpc_max_body_bytes: 1000000,
                enabled_unsafe_cors: true,
            },
            rosetta: CosmosRosettaConfig {
                enable: false,
                address: String::from_str(""),
                blockchain: String::from_str(""),
                network: String::from_str(""),
                retries: 0,
                offline: false,
            },
            grpc: CosmosGrpcConfig {
                enable: true,
                address: String::from_str("tcp://127.0.0.1:9090"),
            },
            grpc_web: CosmosGrpcWebConfig {
                enable: true,
                address: String::from_str("tcp://127.0.0.1:9091"),
                enable_unsafe_cors: true,
            },
            state_sync: CosmosStateSyncConfig {
                snapshot_interval: 2000,
                snapshot_keep_recent: 3,
            },
            wasm: Some(CosmosWasmConfig {
                query_gas_limit: 30000000,
                lru_size: 0,
            }),
        },
        tendermint: TendermintConfig {
            proxy_app: String::from_str("tcp://127.0.0.1:26658"),
            moniker: String::from_str(""),
            fast_sync: true,
            db_backend: String::from_str("goleveldb"),
            db_dir: String::from_str("data"),
            log_level: String::from_str("info"),
            log_format: String::from_str("plain"),
            genesis_file: String::from_str("config/genesis.json"),
            priv_validator_key_file: String::from_str("config/priv_validator_key.json"),
            priv_validator_state_file: String::from_str("data/priv_validator_state.json"),
            priv_validator_laddr: String::from_str(""),
            node_key_file: String::from_str("config/node_key.json"),
            abci: String::from_str("socket"),
            filter_peers: false,
            rpc: TendermintRpcConfig {
                laddr: String::from_str("tcp://127.0.0.1:26657"),
                cors_allowed_origins: vec![String::from_str("*")],
                cors_allowed_methods: Vec::new(),
                cors_allowed_headers: Vec::new(),
                grpc_laddr: String::from_str(""),
                grpc_max_open_connections: 900,
                allow_unsafe: false,
                max_open_connections: 900,
                max_subscription_clients: 100,
                max_subscriptions_per_client: 5,
                subscription_buffer_size: 200,
                websocket_write_buffer_size: 200,
                close_on_slow_client: false,
                timeout_broadcast_tx_commit: String::from_str("10s"),
                max_body_bytes: 1000000,
                max_header_bytes: 1048576,
                tls_cert_file: String::from_str(""),
                tls_key_file: String::from_str(""),
                pprof_laddr: String::from_str("localhost:6060"),
            },
            p2p: TendermintP2pConfig {
                laddr: String::from_str("tcp://0.0.0.0:26656"),
                external_address: String::from_str(""),
                seeds: String::from_str(""),
                persistent_peers: String::from_str(""),
                upnp: false,
                addr_book_file: String::from_str(""),
                addr_book_strict: true,
                max_num_inbound_peers: 50,
                max_num_outbound_peers: 50,
                unconditional_peer_ids: String::from_str(""),
                persistent_peers_max_dial_period: String::from_str("0s"),
                flush_throttle_timeout: String::from_str("100ms"),
                max_packet_msg_payload_size: 1024,
                send_rate: 5120000,
                recv_rate: 5120000,
                pex: true,
                seed_mode: false,
                private_peer_ids: String::from_str(""),
                allow_duplicate_ip: false,
                handshake_timeout: String::from_str("20s"),
                dial_timeout: String::from_str("3s"),
            },
            mempool: TendermintMempoolConfig {
                version: String::from_str("v0"),
                recheck: true,
                broadcast: true,
                wal_dir: String::from_str(""),
                size: 5000,
                max_txs_bytes: 1073741824,
                cache_size: 10000,
                keep_invalid_txs_in_cache: false,
                max_tx_bytes: 1048576,
                max_batch_bytes: 0,
                ttl_duration: String::from_str(""),
                ttl_num_blocks: 0,
            },
            statesync: TendermintStatesyncConfig {
                enable: false,
                rpc_servers: Vec::new(),
                trust_height: 0,
                trust_hash: String::from_str(""),
                trust_period: String::from_str(""),
                discovery_time: String::from_str("15s"),
                temp_dir: String::from_str(""),
                chunk_request_timeout: String::from_str("10s"),
                chunk_fetchers: 4,
            },
            fastsync: TendermintFastsyncConfig {
                version: String::from_str("v0"),
            },
            consensus: TendermintConsensusConfig {
                wal_file: String::from_str("data/cs.wal/wal"),
                timeout_propose: String::from_str("3s"),
                timeout_propose_delta: String::from_str("500ms"),
                timeout_prevote: String::from_str("1s"),
                timeout_prevote_delta: String::from_str("500ms"),
                timeout_precommit: String::from_str("1s"),
                timeout_precommit_delta: String::from_str("500ms"),
                timeout_commit: String::from_str("5s"),
                double_sign_check_height: 0,
                skip_timeout_commit: false,
                create_empty_blocks: true,
                create_empty_blocks_interval: String::from_str("0s"),
                peer_gossip_sleep_duration: String::from_str("100ms"),
                peer_query_maj23_sleep_duration: String::from_str("2s"),
            },
            storage: TendermintStorageConfig {
                discard_abci_responses: false,
            },
            tx_index: TendermintTransactionIndexConfig {
                indexer: String::from_str("kv"),
                psql_conn: String::from_str(""),
            },
            instrumentation: TendermintInstrumentationConfig {
                prometheus: false,
                prometheus_listen_addr: String::from_str(":26660"),
                max_open_connections: 3,
                namespace: String::from_str("tendermint"),
            },
        },
        genesis_url: String::from_str(""),
    }
}

/// The built-in defaults with the profile of `chain_id` applied, or `None` for a
/// chain without a profile.
pub fn default_config(chain_id: &str) -> (r: Option<CosmosChainConfig>)
    ensures
        match profile_settings(chain_id@) {
            Some(p) => r matches Some(c) && c.is_profile(p),
            None => r is None,
        },
{
    let id = String::from_str(chain_id);
    if id == String::from_str("kaiyo-1") {
        let mut cfg = default_wasmd_config();
        cfg.app.minimum_gas_prices = String::from_str(KAIYO_FEES);
        cfg.tendermint.consensus.timeout_commit = String::from_str("1500ms");
        cfg.genesis_url = String::from_str(
            "https://raw.githubusercontent.com/Team-Kujira/networks/master/mainnet/kaiyo-1.json",
        );
        Some(cfg)
    } else if id == String::from_str("harpoon-4") {
        let mut cfg = default_wasmd_config();
        cfg.app.minimum_gas_prices = String::from_str("0.00125ukuji");
        cfg.tendermint.consensus.timeout_commit = String::from_str("1500ms");
        cfg.genesis_url = String::from_str(
            "https://raw.githubusercontent.com/Team-Kujira/networks/master/testnet/harpoon-4.json",
        );
        Some(cfg)
    } else if id == String::from_str("cosmoshub-4") {
        let mut cfg = default_wasmd_config();
        cfg.app.minimum_gas_prices = String::from_str("0.0025uatom");
        cfg.app.wasm = None;
        cfg.genesis_url = String::from_str(
            "https://raw.githubusercontent.com/cosmos/mainnet/master/genesis/genesis.cosmoshub-4.json.gz",
        );
        Some(cfg)
    } else if id == String::from_str("theta-testnet-001") {
        let mut cfg = default_wasmd_config();
        cfg.app.minimum_gas_prices = String::from_str("0.0025uatom");
        cfg.app.wasm = None;
        cfg.genesis_url = String::from_str(
            "https://github.com/cosmos/testnets/raw/master/public/genesis.json.gz",
        );
        Some(cfg)
    } else {
        None
    }
}

} // verus!
