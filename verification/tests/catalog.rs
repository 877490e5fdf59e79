use std::collections::BTreeMap;
use std::collections::BTreeSet;

use gantry::catalog::decode_claims;
use gantry::catalog::handle_config;
use gantry::catalog::handle_message;
use gantry::catalog::health;
use gantry::catalog::put_claims;
use gantry::catalog::put_token;
use gantry::catalog::query_catalog;
use gantry::catalog::query_keeps;
use gantry::catalog::query_row;
use gantry::catalog::read_claims;
use gantry::catalog::revision;
use gantry::catalog::row_key;
use gantry::catalog::stored_token_row;
use gantry::catalog::write_token;
use gantry::catalog::CatalogRequest;
use gantry::catalog::Claims;
use gantry::catalog::PutPlan;
use gantry::catalog::StoredToken;
use gantry::envelope::publish_results;
use gantry::envelope::wanted_reply;
use gantry::envelope::Publication;
use gantry::errors::ErrorKind;
use gantry::json::nested_text_at;
use gantry::json::nested_unsigned_at;
use gantry::json::text_at;
use gantry::keyspace::query_set_key;
use gantry::keyspace::revisions_key;
use gantry::keyspace::token_key;
use gantry::keyspace::token_raw_key;
use gantry::keyspace::token_type;
use gantry::keyspace::variant_key;
use gantry::keyspace::KvOp;
use gantry::protocol::catalog::CatalogQuery;
use gantry::protocol::catalog::CatalogQueryResult;
use gantry::protocol::catalog::CatalogQueryResults;
use gantry::protocol::catalog::QueryType;
use gantry::protocol::catalog::Token;
use gantry::protocol::catalog::TokenValidation;
use gantry::protocol::token::TokenType;

/// A key-value store in memory, with the two writes that the catalog makes.
struct Kv {
    values: BTreeMap<String, String>,
    sets: BTreeMap<String, BTreeSet<String>>,
}

fn empty_kv() -> Kv {
    Kv { values: BTreeMap::new(), sets: BTreeMap::new() }
}

fn apply(kv: &mut Kv, op: &KvOp) {
    match op {
        KvOp::SetValue { key, value } => {
            kv.values.insert(key.clone(), value.clone());
        }
        KvOp::SetAdd { key, member } => {
            kv.sets.entry(key.clone()).or_default().insert(member.clone());
        }
    }
}

fn apply_first(kv: &mut Kv, plan: &PutPlan, made: usize) {
    for op in plan.writes.iter().take(made) {
        apply(kv, op);
    }
}

fn members(kv: &Kv, key: &str) -> Vec<String> {
    match kv.sets.get(key) {
        Some(set) => set.iter().cloned().collect(),
        None => Vec::new(),
    }
}

/// Every subject in a variant set has a revision in its set of revisions whose claims are
/// stored, and no subject is in two variant sets.
fn check_consistent(kv: &Kv) {
    let kinds = [TokenType::Actor, TokenType::Operator, TokenType::Account];
    for kind in kinds {
        for subject in members(kv, &variant_key(kind)) {
            let revisions = members(kv, &revisions_key(&subject));
            assert!(
                revisions.iter().any(|r| {
                    let number: u64 = r.parse().unwrap();
                    kv.values.contains_key(&token_key(&subject, number))
                }),
                "{subject} has no revision on file"
            );
            for other in kinds {
                if other != kind {
                    assert!(!members(kv, &variant_key(other)).contains(&subject));
                }
            }
            assert_eq!(token_type(&subject), Some(kind));
        }
    }
}

fn valid() -> Option<TokenValidation> {
    Some(TokenValidation {
        expired: false,
        expires_human: "never".to_string(),
        not_before_human: "immediately".to_string(),
        cannot_use_yet: false,
        signature_valid: true,
    })
}

fn claims_json(sub: &str, iss: &str, name: &str, revision: u64) -> String {
    format!(
        "{{\"sub\":\"{sub}\",\"iss\":\"{iss}\",\"wascap\":{{\"name\":\"{name}\"}},\"metadata\":{{\"revision\":{revision}}}}}"
    )
}

fn token(raw: &str, json: String, validation_result: Option<TokenValidation>) -> Token {
    Token { raw_token: raw.to_string(), decoded_token_json: json, validation_result }
}

fn demo_token() -> Token {
    token("raw.signed.string", claims_json("MABCD", "AXYZ", "demo", 3), valid())
}

fn fetch(kv: &Kv, key: &str) -> Vec<StoredToken> {
    members(kv, key)
        .into_iter()
        .map(|subject| {
            let record = kv.values.get(&row_key(&subject)).cloned();
            StoredToken { subject, record }
        })
        .collect()
}

fn row(subject: &str, issuer: &str, name: &str) -> CatalogQueryResult {
    CatalogQueryResult {
        subject: subject.to_string(),
        issuer: issuer.to_string(),
        name: name.to_string(),
        actor: None,
    }
}

#[test]
fn valid_actor_put() {
    let token = demo_token();
    let plan = put_token(&token).unwrap();
    assert_eq!(plan.reply, row("MABCD", "AXYZ", "demo"));
    assert_eq!(
        plan.writes,
        vec![
            KvOp::SetValue {
                key: "gantry:tokens:MABCD:3".to_string(),
                value: token.decoded_token_json.clone(),
            },
            KvOp::SetValue {
                key: "gantry:tokens:MABCD:3:raw".to_string(),
                value: "raw.signed.string".to_string(),
            },
            KvOp::SetAdd {
                key: "gantry:tokens:MABCD:revisions".to_string(),
                member: "3".to_string(),
            },
            KvOp::SetAdd { key: "gantry:actors".to_string(), member: "MABCD".to_string() },
        ]
    );
    let mut kv = empty_kv();
    apply_first(&mut kv, &plan, 4);
    assert!(kv.sets["gantry:actors"].contains("MABCD"));
    assert!(kv.sets["gantry:tokens:MABCD:revisions"].contains("3"));
    assert_eq!(kv.values["gantry:tokens:MABCD:3"], token.decoded_token_json);
    assert_eq!(kv.values["gantry:tokens:MABCD:3:raw"], "raw.signed.string");
    assert_eq!(kv.values.len(), 2);
    assert_eq!(kv.sets.len(), 2);
    check_consistent(&kv);
}

#[test]
fn expired_put_rejected() {
    let mut token = demo_token();
    token.validation_result.as_mut().unwrap().expired = true;
    assert_eq!(put_token(&token), Err(ErrorKind::InvalidToken));
}

#[test]
fn unvalidated_or_badly_signed_put_rejected() {
    let mut token = demo_token();
    token.validation_result.as_mut().unwrap().signature_valid = false;
    assert_eq!(put_token(&token), Err(ErrorKind::InvalidToken));
    token.validation_result = None;
    assert_eq!(put_token(&token), Err(ErrorKind::InvalidToken));
    // A token that may not be used yet is stored all the same.
    let mut early = demo_token();
    early.validation_result.as_mut().unwrap().cannot_use_yet = true;
    assert!(put_token(&early).is_ok());
}

#[test]
fn put_without_readable_subject_rejected() {
    for json in ["", "not json", "{", "[]", "{}", "{\"sub\":7}", "{\"iss\":\"AXYZ\"}", "\"MABCD\""] {
        let token = token("raw", json.to_string(), valid());
        assert_eq!(put_token(&token), Err(ErrorKind::InvalidToken), "{json}");
    }
    assert_eq!(put_claims(&demo_token(), None), Err(ErrorKind::InvalidToken));
}

#[test]
fn put_of_unknown_variant_rejected() {
    for sub in ["XABCD", "mabcd", "", "1", ":M"] {
        let token = token("raw", claims_json(sub, "AXYZ", "demo", 0), valid());
        assert_eq!(put_token(&token), Err(ErrorKind::InvalidToken), "{sub}");
    }
}

#[test]
fn put_defaults() {
    // No revision: 0. No name: Anonymous. No issuer: unknown.
    let token = token("raw", "{\"sub\":\"OPER\"}".to_string(), valid());
    let plan = put_token(&token).unwrap();
    assert_eq!(plan.reply, row("OPER", "??", "Anonymous"));
    assert_eq!(
        plan.writes[0],
        KvOp::SetValue {
            key: "gantry:tokens:OPER:0".to_string(),
            value: "{\"sub\":\"OPER\"}".to_string()
        }
    );
    assert_eq!(
        plan.writes[1],
        KvOp::SetValue { key: "gantry:tokens:OPER:0:raw".to_string(), value: "raw".to_string() }
    );
    assert_eq!(
        plan.writes[2],
        KvOp::SetAdd { key: "gantry:tokens:OPER:revisions".to_string(), member: "0".to_string() }
    );
    assert_eq!(
        plan.writes[3],
        KvOp::SetAdd { key: "gantry:operators".to_string(), member: "OPER".to_string() }
    );
    // A revision that is no unsigned integer counts as none.
    for revision in ["-1", "1.5", "\"3\"", "null", "18446744073709551616"] {
        let json = format!("{{\"sub\":\"ACCT\",\"metadata\":{{\"revision\":{revision}}}}}");
        let plan = put_token(&token_with(json)).unwrap();
        assert_eq!(
            plan.writes[2],
            KvOp::SetAdd {
                key: "gantry:tokens:ACCT:revisions".to_string(),
                member: "0".to_string()
            }
        );
        assert_eq!(
            plan.writes[3],
            KvOp::SetAdd { key: "gantry:accounts".to_string(), member: "ACCT".to_string() }
        );
    }
    let json = "{\"sub\":\"ACCT\",\"metadata\":{\"revision\":18446744073709551615}}".to_string();
    let plan = put_token(&token_with(json)).unwrap();
    assert_eq!(
        plan.writes[2],
        KvOp::SetAdd {
            key: "gantry:tokens:ACCT:revisions".to_string(),
            member: "18446744073709551615".to_string()
        }
    );
}

fn token_with(json: String) -> Token {
    token("raw", json, valid())
}

#[test]
fn write_token_files_under_the_given_subject() {
    let claims = Claims {
        subject: Some("MOTHER".to_string()),
        issuer: Some("AXYZ".to_string()),
        name: None,
        revision: Some(12),
    };
    let plan = write_token("AGIVEN", &demo_token(), &claims).unwrap();
    assert_eq!(plan.reply, row("MOTHER", "AXYZ", "Anonymous"));
    assert_eq!(
        plan.writes[0],
        KvOp::SetValue {
            key: "gantry:tokens:AGIVEN:12".to_string(),
            value: demo_token().decoded_token_json
        }
    );
    assert_eq!(
        plan.writes[3],
        KvOp::SetAdd { key: "gantry:accounts".to_string(), member: "AGIVEN".to_string() }
    );
    assert_eq!(write_token("ZGIVEN", &demo_token(), &claims), Err(ErrorKind::InvalidToken));
    let mut expired = demo_token();
    expired.validation_result.as_mut().unwrap().expired = true;
    assert_eq!(write_token("AGIVEN", &expired, &claims), Err(ErrorKind::InvalidToken));
}

#[test]
fn query_actors() {
    let mut kv = empty_kv();
    apply_first(&mut kv, &put_token(&demo_token()).unwrap(), 4);
    let query = CatalogQuery { query_type: QueryType::Actor, issuer: None };
    let key = query_set_key(query.query_type);
    assert_eq!(key, "gantry:actors");
    // Only revision 3 is stored, and a query reads revision 0.
    let results = query_catalog(&query, &fetch(&kv, &key));
    assert_eq!(results, CatalogQueryResults { results: vec![row("MABCD", "??", "??")] });
    // With revision 0 on file the fields are read from it.
    let first = token("raw", claims_json("MABCD", "AXYZ", "demo", 0), valid());
    apply_first(&mut kv, &put_token(&first).unwrap(), 4);
    let results = query_catalog(&query, &fetch(&kv, &key));
    assert_eq!(results, CatalogQueryResults { results: vec![row("MABCD", "AXYZ", "demo")] });
    // The other sets are empty.
    for query_type in [QueryType::Operator, QueryType::Account] {
        let query = CatalogQuery { query_type, issuer: None };
        let rows = fetch(&kv, &query_set_key(query_type));
        assert_eq!(query_catalog(&query, &rows), CatalogQueryResults { results: vec![] });
    }
    check_consistent(&kv);
}

#[test]
fn query_filters_by_issuer() {
    let rows = vec![
        StoredToken {
            subject: "MONE".to_string(),
            record: Some(claims_json("MONE", "AXYZ", "one", 0)),
        },
        StoredToken {
            subject: "MTWO".to_string(),
            record: Some(claims_json("MTWO", "AOTHER", "two", 0)),
        },
        StoredToken { subject: "MTHREE".to_string(), record: None },
        StoredToken { subject: "MFOUR".to_string(), record: Some("{ not json".to_string()) },
        StoredToken {
            subject: "MFIVE".to_string(),
            record: Some(claims_json("MFIVE", "AXYZ", "five", 0)),
        },
        StoredToken { subject: "MSIX".to_string(), record: Some("{\"iss\":\"AXYZ\"}".to_string()) },
    ];
    let all = CatalogQuery { query_type: QueryType::Actor, issuer: None };
    assert_eq!(
        query_catalog(&all, &rows).results,
        vec![
            row("MONE", "AXYZ", "one"),
            row("MTWO", "AOTHER", "two"),
            row("MTHREE", "??", "??"),
            row("MFOUR", "??", "??"),
            row("MFIVE", "AXYZ", "five"),
            row("MSIX", "AXYZ", "??"),
        ]
    );
    let of_xyz = CatalogQuery { query_type: QueryType::Actor, issuer: Some("AXYZ".to_string()) };
    assert_eq!(
        query_catalog(&of_xyz, &rows).results,
        vec![row("MONE", "AXYZ", "one"), row("MFIVE", "AXYZ", "five"), row("MSIX", "AXYZ", "??")]
    );
    let of_nobody = CatalogQuery { query_type: QueryType::Actor, issuer: Some("A".to_string()) };
    assert_eq!(query_catalog(&of_nobody, &rows).results, vec![]);
    let unknown = CatalogQuery { query_type: QueryType::Actor, issuer: Some("??".to_string()) };
    assert_eq!(
        query_catalog(&unknown, &rows).results,
        vec![row("MTHREE", "??", "??"), row("MFOUR", "??", "??")]
    );
    assert_eq!(query_catalog(&all, &vec![]).results, vec![]);
}

#[test]
fn query_rows() {
    let claims = Claims {
        subject: Some("MABCD".to_string()),
        issuer: None,
        name: Some("demo".to_string()),
        revision: None,
    };
    assert_eq!(query_row("MABCD", Some(&claims)), row("MABCD", "??", "demo"));
    assert_eq!(query_row("MABCD", None), row("MABCD", "??", "??"));
    let stored = StoredToken {
        subject: "MABCD".to_string(),
        record: Some(claims_json("MOTHER", "AXYZ", "demo", 0)),
    };
    assert_eq!(stored_token_row(&stored), row("MABCD", "AXYZ", "demo"));
    assert_eq!(row_key("MABCD"), "gantry:tokens:MABCD:0");
    let of_xyz = CatalogQuery { query_type: QueryType::Account, issuer: Some("AXYZ".to_string()) };
    assert!(query_keeps(&of_xyz, &row("M", "AXYZ", "n")));
    assert!(!query_keeps(&of_xyz, &row("M", "AXYZ ", "n")));
    assert!(!query_keeps(&of_xyz, &row("AXYZ", "", "AXYZ")));
}

#[test]
fn store_stays_consistent_through_puts() {
    let tokens = vec![
        token("r1", claims_json("MABCD", "AXYZ", "demo", 3), valid()),
        token("r2", claims_json("MABCD", "AXYZ", "demo", 4), valid()),
        token("r3", claims_json("AXYZ", "OPER", "account", 0), valid()),
        token("r4", claims_json("OPER", "OPER", "operator", 1), valid()),
        token("r5", claims_json("M:1", "AXYZ", "odd", 2), valid()),
        token("r6", claims_json("MABCD", "AXYZ", "demo", 3), valid()),
        token("r7", claims_json("Arevisions", "OPER", "odd", 7), valid()),
    ];
    // Whichever write of a put is the last to succeed, the store is left consistent.
    for stop_at in 0..tokens.len() {
        for made in 0..=4 {
            let mut kv = empty_kv();
            for (i, token) in tokens.iter().enumerate() {
                let plan = put_token(token).unwrap();
                assert_eq!(plan.writes.len(), 4);
                if i < stop_at {
                    apply_first(&mut kv, &plan, 4);
                } else if i == stop_at {
                    apply_first(&mut kv, &plan, made);
                }
                check_consistent(&kv);
            }
        }
    }
    let mut kv = empty_kv();
    for token in &tokens {
        apply_first(&mut kv, &put_token(token).unwrap(), 4);
    }
    assert_eq!(members(&kv, "gantry:actors"), vec!["M:1", "MABCD"]);
    assert_eq!(members(&kv, "gantry:accounts"), vec!["AXYZ", "Arevisions"]);
    assert_eq!(members(&kv, "gantry:operators"), vec!["OPER"]);
    assert_eq!(members(&kv, "gantry:tokens:MABCD:revisions"), vec!["3", "4"]);
    assert_eq!(kv.values["gantry:tokens:MABCD:3:raw"], "r6");
}

#[test]
fn put_is_idempotent() {
    let mut once = empty_kv();
    apply_first(&mut once, &put_token(&demo_token()).unwrap(), 4);
    let mut twice = empty_kv();
    apply_first(&mut twice, &put_token(&demo_token()).unwrap(), 4);
    apply_first(&mut twice, &put_token(&demo_token()).unwrap(), 4);
    assert_eq!(once.values, twice.values);
    assert_eq!(once.sets, twice.sets);
}

#[test]
fn keys_of_the_catalog() {
    assert_eq!(token_key("MABCD", 0), "gantry:tokens:MABCD:0");
    assert_eq!(token_key("MABCD", 7), "gantry:tokens:MABCD:7");
    assert_eq!(token_key("MABCD", 10), "gantry:tokens:MABCD:10");
    assert_eq!(token_key("", 1234567890), "gantry:tokens::1234567890");
    assert_eq!(token_key("M", u64::MAX), "gantry:tokens:M:18446744073709551615");
    assert_eq!(token_raw_key("MABCD", 42), "gantry:tokens:MABCD:42:raw");
    assert_eq!(revisions_key("MABCD"), "gantry:tokens:MABCD:revisions");
    assert_eq!(variant_key(TokenType::Actor), "gantry:actors");
    assert_eq!(variant_key(TokenType::Operator), "gantry:operators");
    assert_eq!(variant_key(TokenType::Account), "gantry:accounts");
    assert_eq!(query_set_key(QueryType::Actor), "gantry:actors");
    assert_eq!(query_set_key(QueryType::Operator), "gantry:operators");
    assert_eq!(query_set_key(QueryType::Account), "gantry:accounts");
}

#[test]
fn variant_is_told_by_first_character() {
    assert_eq!(token_type("OABC"), Some(TokenType::Operator));
    assert_eq!(token_type("AABC"), Some(TokenType::Account));
    assert_eq!(token_type("MABC"), Some(TokenType::Actor));
    assert_eq!(token_type("O"), Some(TokenType::Operator));
    assert_eq!(token_type("XABC"), None);
    assert_eq!(token_type("mabc"), None);
    assert_eq!(token_type(" M"), None);
    assert_eq!(token_type(""), None);
}

#[test]
fn claims_are_read_from_json() {
    let claims = decode_claims(&claims_json("MABCD", "AXYZ", "demo", 3)).unwrap();
    assert_eq!(
        claims,
        Claims {
            subject: Some("MABCD".to_string()),
            issuer: Some("AXYZ".to_string()),
            name: Some("demo".to_string()),
            revision: Some(3),
        }
    );
    assert_eq!(revision(&claims), 3);
    let none = Claims { subject: None, issuer: None, name: None, revision: None };
    assert_eq!(decode_claims("{}").unwrap(), none);
    assert_eq!(decode_claims("[1, 2]").unwrap(), none);
    assert_eq!(decode_claims("null").unwrap(), none);
    assert_eq!(revision(&none), 0);
    assert_eq!(decode_claims("{\"sub\":"), None);
    assert_eq!(decode_claims(""), None);
    // The name is read under "wascap", the revision under "metadata", and neither elsewhere.
    let swapped = "{\"sub\":\"M\",\"metadata\":{\"name\":\"n\"},\"wascap\":{\"revision\":5}}";
    assert_eq!(
        decode_claims(swapped).unwrap(),
        Claims { subject: Some("M".to_string()), issuer: None, name: None, revision: None }
    );
    let doc: serde_json::Value =
        serde_json::from_str("{\"a\":{\"b\":\"text\",\"c\":17},\"d\":\"top\"}").unwrap();
    assert_eq!(read_claims(&doc), none);
    assert_eq!(text_at(&doc, "d"), Some("top".to_string()));
    assert_eq!(text_at(&doc, "a"), None);
    assert_eq!(text_at(&doc, "e"), None);
    assert_eq!(nested_text_at(&doc, "a", "b"), Some("text".to_string()));
    assert_eq!(nested_text_at(&doc, "a", "c"), None);
    assert_eq!(nested_text_at(&doc, "d", "b"), None);
    assert_eq!(nested_unsigned_at(&doc, "a", "c"), Some(17));
    assert_eq!(nested_unsigned_at(&doc, "a", "b"), None);
    assert_eq!(nested_unsigned_at(&doc, "x", "c"), None);
}

#[test]
fn catalog_routes_by_subject() {
    assert_eq!(handle_message("gantry.catalog.tokens.put"), Ok(CatalogRequest::PutToken));
    assert_eq!(handle_message("gantry.catalog.tokens.query"), Ok(CatalogRequest::Query));
    assert_eq!(handle_message("gantry.catalog.tokens.delete"), Err(ErrorKind::UnknownSubject));
    assert_eq!(handle_message("gantry.catalog.tokens.put "), Err(ErrorKind::UnknownSubject));
    assert_eq!(handle_message("gantry.stream.get"), Err(ErrorKind::UnknownSubject));
    assert_eq!(handle_message(""), Err(ErrorKind::UnknownSubject));
}

#[test]
fn results_are_published_only_where_a_reply_is_wanted() {
    assert_eq!(publish_results("", vec![1, 2, 3]), None);
    assert_eq!(
        publish_results("_INBOX.1", vec![1, 2, 3]),
        Some(Publication { subject: "_INBOX.1".to_string(), body: vec![1, 2, 3] })
    );
    assert_eq!(
        publish_results(" ", vec![]),
        Some(Publication { subject: " ".to_string(), body: vec![] })
    );
    assert_eq!(wanted_reply(""), None);
    assert_eq!(wanted_reply("_INBOX.1"), Some("_INBOX.1".to_string()));
}

#[test]
fn catalog_is_configured_with_operator_and_signers() {
    assert_eq!(handle_config("OPER", "OS1,OS2"), vec!["OPER", "OS1", "OS2"]);
    assert_eq!(handle_config("OPER", "OS1"), vec!["OPER", "OS1"]);
    assert_eq!(handle_config("OPER", ""), vec!["OPER", ""]);
    assert_eq!(handle_config("OPER", "OS1,,OS2,"), vec!["OPER", "OS1", "", "OS2", ""]);
    assert_eq!(handle_config("", " a , b"), vec!["", " a ", " b"]);
}

#[test]
fn health_is_an_empty_body() {
    assert_eq!(health(), Vec::<u8>::new());
    assert_eq!(gantry::streams::health(), Vec::<u8>::new());
}

#[test]
fn every_error_has_a_message() {
    let kinds = [
        ErrorKind::CodecError,
        ErrorKind::UnknownSubject,
        ErrorKind::InvalidToken,
        ErrorKind::StorageError,
        ErrorKind::NotRegistered,
        ErrorKind::NotFound,
        ErrorKind::BrokerError,
    ];
    for (i, kind) in kinds.iter().enumerate() {
        assert!(!kind.message().is_empty());
        for other in &kinds[..i] {
            assert_ne!(kind.message(), other.message());
        }
    }
    assert_eq!(ErrorKind::NotRegistered.message(), "Module is not registered in catalog");
    assert_eq!(
        ErrorKind::NotFound.message(),
        "There was no file found for this actor. Has it been uploaded?"
    );
}
