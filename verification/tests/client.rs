use gantry::catalog::handle_config;
use gantry::cli::download;
use gantry::cli::login;
use gantry::cli::progress;
use gantry::cli::put;
use gantry::cli::query;
use gantry::cli::result_cell;
use gantry::cli::to_catalog_query_type;
use gantry::cli::upload;
use gantry::cli::upload_module;
use gantry::cli::ConnectionConfiguration;
use gantry::cli::TokenKind;
use gantry::client::chunk_at;
use gantry::client::chunk_count;
use gantry::client::get_client;
use gantry::client::request_download;
use gantry::client::start_upload;
use gantry::client::upload_chunk;
use gantry::client::AuthenticationStyle;
use gantry::client::ChunkUpload;
use gantry::client::ConnectionPlan;
use gantry::client::DownloadPlan;
use gantry::client::RequestPlan;
use gantry::client::CHUNK_SIZE;
use gantry::client::DEFAULT_URL;
use gantry::config::generate_config;
use gantry::config::handle_command;
use gantry::config::operator_bindings;
use gantry::config::Binding;
use gantry::config::generate_fs_config;
use gantry::config::operator_config;
use gantry::config::redis_config;
use gantry::config::Setting;
use gantry::errors::ErrorKind;
use gantry::protocol::catalog::CatalogQuery;
use gantry::protocol::catalog::CatalogQueryResult;
use gantry::protocol::catalog::QueryType;
use gantry::protocol::catalog::Token;
use gantry::protocol::stream::DownloadRequest;
use gantry::protocol::stream::FileChunk;
use gantry::protocol::stream::UploadRequest;

fn setting(key: &str, value: &str) -> Setting {
    Setting { key: key.to_string(), value: value.to_string() }
}

#[test]
fn requests_go_to_their_subjects_with_their_timeouts() {
    assert_eq!(
        gantry::client::query(),
        RequestPlan { subject: "gantry.catalog.tokens.query".to_string(), timeout_ms: 700 }
    );
    assert_eq!(
        gantry::client::put(),
        RequestPlan { subject: "gantry.catalog.tokens.put".to_string(), timeout_ms: 100 }
    );
    assert_eq!(
        start_upload(),
        RequestPlan { subject: "gantry.stream.put".to_string(), timeout_ms: 100 }
    );
    assert_eq!(
        request_download(&DownloadRequest { actor: "MABCD".to_string() }),
        DownloadPlan {
            subscribe_to: "gantry.stream.download.MABCD".to_string(),
            request: RequestPlan { subject: "gantry.stream.get".to_string(), timeout_ms: 100 },
        }
    );
    assert_eq!(
        upload_chunk(3, "MABCD", 262144, 600000, 2, vec![1, 2, 3]),
        ChunkUpload {
            chunk: FileChunk {
                sequence_no: 3,
                actor: "MABCD".to_string(),
                total_bytes: 600000,
                chunk_size: 262144,
                total_chunks: 2,
                chunk_bytes: vec![1, 2, 3],
            },
            request: RequestPlan {
                subject: "gantry.stream.upload.MABCD".to_string(),
                timeout_ms: 2000,
            },
        }
    );
    assert_eq!(CHUNK_SIZE, 262144);
}

#[test]
fn client_authenticates_with_both_credentials_or_none() {
    let urls = || vec![DEFAULT_URL.to_string()];
    assert_eq!(DEFAULT_URL, "nats://localhost:4222");
    assert_eq!(
        get_client(urls(), Some("jwt"), Some("seed")),
        ConnectionPlan {
            cluster_uris: urls(),
            authentication: AuthenticationStyle::UserCredentials(
                "jwt".to_string(),
                "seed".to_string()
            ),
        }
    );
    for (jwt, seed) in [(None, None), (Some("jwt"), None), (None, Some("seed"))] {
        assert_eq!(
            get_client(urls(), jwt, seed),
            ConnectionPlan { cluster_uris: urls(), authentication: AuthenticationStyle::Anonymous }
        );
    }
    assert_eq!(get_client(vec![], None, None).cluster_uris, Vec::<String>::new());
}

#[test]
fn token_kinds_are_read_in_any_case() {
    assert_eq!(TokenKind::from_str("actor"), Some(TokenKind::Actor));
    assert_eq!(TokenKind::from_str("ACTOR"), Some(TokenKind::Actor));
    assert_eq!(TokenKind::from_str("Operator"), Some(TokenKind::Operator));
    assert_eq!(TokenKind::from_str("aCCount"), Some(TokenKind::Account));
    assert_eq!(TokenKind::from_str("actors"), None);
    assert_eq!(TokenKind::from_str(" actor"), None);
    assert_eq!(TokenKind::from_str(""), None);
    assert_eq!(TokenKind::named("actor"), Some(TokenKind::Actor));
    assert_eq!(TokenKind::named("operator"), Some(TokenKind::Operator));
    assert_eq!(TokenKind::named("account"), Some(TokenKind::Account));
    assert_eq!(TokenKind::named("Actor"), None);
    assert_eq!(to_catalog_query_type(TokenKind::Actor), QueryType::Actor);
    assert_eq!(to_catalog_query_type(TokenKind::Operator), QueryType::Operator);
    assert_eq!(to_catalog_query_type(TokenKind::Account), QueryType::Account);
}

#[test]
fn commands_build_their_requests() {
    assert_eq!(
        query(TokenKind::Account, Some("OPER".to_string())),
        CatalogQuery { query_type: QueryType::Account, issuer: Some("OPER".to_string()) }
    );
    assert_eq!(
        query(TokenKind::Actor, None),
        CatalogQuery { query_type: QueryType::Actor, issuer: None }
    );
    assert_eq!(
        put("raw.signed.string".to_string()),
        Token {
            raw_token: "raw.signed.string".to_string(),
            decoded_token_json: String::new(),
            validation_result: None,
        }
    );
    assert_eq!(
        upload("MABCD".to_string(), 600000),
        UploadRequest {
            actor: "MABCD".to_string(),
            total_bytes: 600000,
            chunk_size: 262144,
            total_chunks: 2,
        }
    );
    assert_eq!(upload("M".to_string(), 0).total_chunks, 0);
    assert_eq!(upload("M".to_string(), 262144).total_chunks, 1);
    let result = CatalogQueryResult {
        subject: "MABCD".to_string(),
        issuer: "AXYZ".to_string(),
        name: "demo".to_string(),
        actor: None,
    };
    assert_eq!(result_cell(&result), "MABCD\nAXYZ");
}

#[test]
fn progress_of_a_transfer() {
    assert_eq!(progress(0, 262144, 262144), Some(262144));
    assert_eq!(progress(2, 262144, 75712), Some(600000));
    assert_eq!(progress(0, 0, 0), Some(0));
    assert_eq!(progress(u64::MAX, 1, 0), Some(u64::MAX));
    assert_eq!(progress(u64::MAX, 1, 1), None);
    assert_eq!(progress(u64::MAX, 2, 0), None);
    let chunk = |sequence_no: u64, len: usize| FileChunk {
        sequence_no,
        actor: "MABCD".to_string(),
        total_bytes: 600000,
        chunk_size: 262144,
        total_chunks: 2,
        chunk_bytes: vec![0; len],
    };
    assert_eq!(download(&chunk(0, 262144)), (Some(262144), false));
    assert_eq!(download(&chunk(1, 262144)), (Some(524288), false));
    assert_eq!(download(&chunk(2, 75712)), (Some(600000), true));
}

#[test]
fn login_stores_credentials_and_addresses() {
    assert_eq!(
        login("jwt".to_string(), "seed".to_string(), "nats://a:4222, nats://b:4222 ,\tnats://c"),
        ConnectionConfiguration {
            server_urls: vec![
                "nats://a:4222".to_string(),
                "nats://b:4222".to_string(),
                "nats://c".to_string()
            ],
            user_jwt: "jwt".to_string(),
            user_seed: "seed".to_string(),
        }
    );
    assert_eq!(login(String::new(), String::new(), "").server_urls, vec![""]);
    assert_eq!(login(String::new(), String::new(), " , ").server_urls, vec!["", ""]);
}

#[test]
fn settings_of_the_server() {
    assert_eq!(
        generate_config("gantry.catalog.tokens.*"),
        vec![setting("SUBSCRIPTION", "gantry.catalog.tokens.*"), setting("URL", "nats://localhost:4222")]
    );
    assert_eq!(redis_config(), vec![setting("URL", "redis://127.0.0.1:6379")]);
    assert_eq!(
        generate_fs_config(),
        vec![
            setting("ENDPOINT", "http://localhost:9000"),
            setting("REGION", "us-east-1"),
            setting("AWS_ACCESS_KEY", "minioadmin"),
            setting("AWS_SECRET_ACCESS_KEY", "minioadmin"),
        ]
    );
    let signers = vec!["OS1".to_string(), "OS2".to_string()];
    assert_eq!(
        operator_config("OPER", &signers),
        vec![setting("operator", "OPER"), setting("signers", "OS1,OS2")]
    );
    assert_eq!(
        operator_config("OPER", &vec![]),
        vec![setting("operator", "OPER"), setting("signers", "")]
    );
}

#[test]
fn catalog_reads_what_the_server_configures() {
    let signers = vec!["OS1".to_string(), "OS2".to_string(), "OS3".to_string()];
    let settings = operator_config("OPER", &signers);
    let keys = handle_config(&settings[0].value, &settings[1].value);
    assert_eq!(keys, vec!["OPER", "OS1", "OS2", "OS3"]);
}

fn expected_bindings(operator: &str, signers: &str) -> Vec<Binding> {
    let catalog = "MCIXJVXAXKDX7UFYDFW2737SHVIRNZILS3ULODGEQOVCTWQ7HSGOHUY7";
    let streams = "MATR36QS6IWITSNUS2I7V72R2I3ALJCIS2Y4FJQJZ33KQN5MRXDNJMJ2";
    let binding = |actor: &str, capability: &str, settings: Vec<Setting>| Binding {
        actor: actor.to_string(),
        capability: capability.to_string(),
        settings,
    };
    vec![
        binding(catalog, "wascc:keyvalue", vec![setting("URL", "redis://127.0.0.1:6379")]),
        binding(
            catalog,
            "wascc:messaging",
            vec![
                setting("SUBSCRIPTION", "gantry.catalog.tokens.*"),
                setting("URL", "nats://localhost:4222"),
            ],
        ),
        binding(
            streams,
            "wascc:messaging",
            vec![
                setting(
                    "SUBSCRIPTION",
                    "gantry.stream.get,gantry.stream.put,gantry.stream.upload.*",
                ),
                setting("URL", "nats://localhost:4222"),
            ],
        ),
        binding(catalog, catalog, vec![setting("operator", operator), setting("signers", signers)]),
        binding(
            streams,
            "wascc:blobstore",
            vec![
                setting("ENDPOINT", "http://localhost:9000"),
                setting("REGION", "us-east-1"),
                setting("AWS_ACCESS_KEY", "minioadmin"),
                setting("AWS_SECRET_ACCESS_KEY", "minioadmin"),
            ],
        ),
    ]
}

#[test]
fn server_binds_actors_to_capabilities() {
    let signers = vec!["OS1".to_string(), "OS2".to_string()];
    assert_eq!(handle_command("OPER", &signers), expected_bindings("OPER", "OS1,OS2"));
}

#[test]
fn server_reads_its_operator_from_a_token() {
    let operator = wascap::prelude::KeyPair::new_operator();
    let first = wascap::prelude::KeyPair::new_operator().public_key();
    let second = wascap::prelude::KeyPair::new_operator().public_key();
    let claims = wascap::jwt::Claims::<wascap::jwt::Operator>::new(
        "the operator".to_string(),
        operator.public_key(),
        operator.public_key(),
        vec![first.clone(), second.clone()],
    );
    let jwt = claims.encode(&operator).unwrap();
    assert_eq!(
        operator_bindings(&jwt),
        Ok(Some(expected_bindings(&operator.public_key(), &format!("{first},{second}"))))
    );
    // A token that names no signers decodes, and gives nothing to bind.
    let mut bare = claims.clone();
    bare.metadata.as_mut().unwrap().valid_signers = None;
    assert_eq!(operator_bindings(&bare.encode(&operator).unwrap()), Ok(None));
    let mut without_metadata = claims.clone();
    without_metadata.metadata = None;
    assert_eq!(operator_bindings(&without_metadata.encode(&operator).unwrap()), Ok(None));
    assert_eq!(operator_bindings("not a token"), Err(ErrorKind::InvalidToken));
    assert_eq!(operator_bindings(""), Err(ErrorKind::InvalidToken));
}

#[test]
fn upload_request_is_read_from_the_module() {
    let empty_module: Vec<u8> = vec![0, 97, 115, 109, 1, 0, 0, 0];
    assert_eq!(upload_module(&empty_module), Ok(None));
    let account = wascap::prelude::KeyPair::new_account();
    let module = wascap::prelude::KeyPair::new_module();
    let claims = wascap::jwt::Claims::<wascap::jwt::Component>::new(
        "test actor".to_string(),
        account.public_key(),
        module.public_key(),
        None,
        false,
        Some(1),
        Some("1.0.0".to_string()),
        None,
    );
    let signed = wascap::wasm::embed_claims(&empty_module, &claims, &account).unwrap();
    assert_eq!(
        upload_module(&signed),
        Ok(Some(UploadRequest {
            actor: module.public_key(),
            total_bytes: signed.len() as u64,
            chunk_size: 262144,
            total_chunks: 0,
        }))
    );
    assert_eq!(upload_module(&vec![1, 2, 3]), Err(ErrorKind::InvalidToken));
    assert_eq!(upload_module(&vec![]), Err(ErrorKind::InvalidToken));
    // A module that was changed after it was signed is refused.
    let mut tampered = signed.clone();
    tampered.splice(8..8, [1u8, 4, 1, 96, 0, 0]);
    assert_eq!(upload_module(&tampered), Err(ErrorKind::InvalidToken));
}

#[test]
fn bytes_are_cut_into_chunks() {
    let bytes: Vec<u8> = (0..10u8).collect();
    assert_eq!(chunk_count(10, 4), 3);
    assert_eq!(chunk_at(&bytes, 4, 0), vec![0, 1, 2, 3]);
    assert_eq!(chunk_at(&bytes, 4, 1), vec![4, 5, 6, 7]);
    assert_eq!(chunk_at(&bytes, 4, 2), vec![8, 9]);
    assert_eq!(chunk_at(&bytes, 4, 3), Vec::<u8>::new());
    assert_eq!(chunk_at(&bytes, 4, u64::MAX), Vec::<u8>::new());
    assert_eq!(chunk_at(&bytes, u64::MAX, 0), bytes);
    assert_eq!(chunk_at(&bytes, u64::MAX, 1), Vec::<u8>::new());
    assert_eq!(chunk_at(&bytes, 10, 0), bytes);
    assert_eq!(chunk_at(&bytes, 10, 1), Vec::<u8>::new());
    assert_eq!(chunk_at(&vec![], 4, 0), Vec::<u8>::new());
    assert_eq!(chunk_count(0, 4), 0);
    assert_eq!(chunk_count(1, 4), 1);
    assert_eq!(chunk_count(8, 4), 2);
    assert_eq!(chunk_count(9, 4), 3);
    assert_eq!(chunk_count(600000, 262144), 3);
    assert_eq!(chunk_count(524288, 262144), 2);
    assert_eq!(chunk_count(u64::MAX, 1), u64::MAX);
    assert_eq!(chunk_count(u64::MAX, 2), 1 << 63);
    assert_eq!(chunk_count(u64::MAX, u64::MAX), 1);
    // The chunks, put together, are the bytes.
    let bytes: Vec<u8> = (0..1000u32).map(|i| (i % 251) as u8).collect();
    for chunk_size in [1u64, 2, 7, 250, 999, 1000, 1001, 5000] {
        let count = chunk_count(bytes.len() as u64, chunk_size);
        let mut gathered: Vec<u8> = Vec::new();
        for index in 0..count {
            let chunk = chunk_at(&bytes, chunk_size, index);
            assert!(!chunk.is_empty());
            assert!(chunk.len() as u64 <= chunk_size);
            assert_eq!(progress(index, chunk_size, chunk.len()), Some((gathered.len() + chunk.len()) as u64));
            gathered.extend(chunk);
        }
        assert_eq!(gathered, bytes);
        assert_eq!(chunk_at(&bytes, chunk_size, count), Vec::<u8>::new());
    }
}
