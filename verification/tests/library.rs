//! The verified functions of the registry on concrete values.

use vapor_registry::api::{
    ecosystem_reply, internal_error, not_found, provider_account_reply, unknown_ecosystem,
    unknown_provider_account, DATABASE_FAILURE, HEALTHZ_BODY, INTERNAL_SERVER_ERROR, NOT_FOUND,
};
use vapor_registry::lookup::{
    ecosystem, ecosystem_found, ecosystem_query, provider_account, provider_account_found,
    provider_account_query, EcosystemLookup, ProviderAccountLookup, SELECT_ECOSYSTEM,
    SELECT_ECOSYSTEM_REPOSITORIES, SELECT_PROVIDER_ACCOUNT, SELECT_PROVIDER_REPOSITORIES,
};
use vapor_registry::plan::{
    migration_plan, statements, Bind, Statement, Write, CREATE_REGISTRY_META, SET_META,
    UPSERT_PROVIDER_ACCOUNT, INSERT_ECOSYSTEM_REPOSITORY, CLEAR_ECOSYSTEM_REPOSITORIES,
};
use vapor_registry::seed::{initialize, seed_plan};
use vapor_registry::text::decimal_text;
use vapor_registry::types::{
    status, Ecosystem, EcosystemResponse, ProviderAccount, REGISTRY_SCHEMA_VERSION, SERVICE_NAME,
};

fn texts(statement: &Statement) -> Vec<String> {
    statement
        .binds
        .iter()
        .map(|b| match b {
            Bind::Text(t) => t.clone(),
            Bind::Int(i) => format!("#{}", i),
        })
        .collect()
}

fn strings(items: &[&str]) -> Vec<String> {
    items.iter().map(|s| s.to_string()).collect()
}

fn row8(values: [&str; 8]) -> (String, String, String, String, String, String, String, String) {
    (
        values[0].to_string(),
        values[1].to_string(),
        values[2].to_string(),
        values[3].to_string(),
        values[4].to_string(),
        values[5].to_string(),
        values[6].to_string(),
        values[7].to_string(),
    )
}

#[test]
fn decimal_text_renders_numbers() {
    assert_eq!(decimal_text(0), "0");
    assert_eq!(decimal_text(1), "1");
    assert_eq!(decimal_text(10), "10");
    assert_eq!(decimal_text(1234), "1234");
    assert_eq!(decimal_text(u32::MAX), u32::MAX.to_string());
}

#[test]
fn status_reports_counts_and_identity() {
    let s = status(1, 2, 5);
    assert_eq!(s.schema_version, 1);
    assert_eq!(s.service, "vapor-registry-server");
    assert_eq!(s.service, SERVICE_NAME);
    assert_eq!(s.ecosystems, 1);
    assert_eq!(s.provider_accounts, 2);
    assert_eq!(s.repositories, 5);
    assert_eq!(REGISTRY_SCHEMA_VERSION, 1);
}

#[test]
fn migrations_create_schema_then_record_version() {
    let plan = migration_plan();
    assert_eq!(plan.len(), 8);
    assert_eq!(plan[0].sql, CREATE_REGISTRY_META);
    assert!(plan[..7].iter().all(|s| s.binds.is_empty()));
    assert_eq!(plan[7].sql, SET_META);
    assert_eq!(texts(&plan[7]), strings(&["schema_version", "1"]));
}

#[test]
fn seed_plan_writes_the_official_records() {
    let plan = seed_plan();
    assert_eq!(plan.len(), 10);
    match &plan[0] {
        Write::UpsertProviderAccount(a) => {
            assert_eq!(a.id, "github:GHF-Studios");
            assert_eq!(a.login, "GHF-Studios");
            assert!(a.verified);
        }
        _ => panic!("the account comes first"),
    }
    let repositories: Vec<String> = plan
        .iter()
        .filter_map(|w| match w {
            Write::UpsertRepository(r) => Some(r.name.clone()),
            _ => None,
        })
        .collect();
    assert_eq!(
        repositories,
        strings(&["Vapor-Root", "Vapor", "Vapor-Examples", "Vapor-Server-Root", "Vapor-Registry-Server"])
    );
    match &plan[7] {
        Write::ClearEcosystemRepositories(e) => assert_eq!(e, "ghf-studios/vapor"),
        _ => panic!("the topology is cleared before it is written"),
    }
    match (&plan[8], &plan[9]) {
        (Write::InsertEcosystemRepository(a), Write::InsertEcosystemRepository(b)) => {
            assert_eq!(a.repository_id, "github:GHF-Studios/Vapor-Root");
            assert_eq!(a.checkout_path, "Vapor-Root");
            assert_eq!(a.ordinal, 10);
            assert_eq!(b.repository_id, "github:GHF-Studios/Vapor-Server-Root");
            assert_eq!(b.checkout_path, "Vapor-Server-Root");
            assert_eq!(b.ordinal, 20);
        }
        _ => panic!("the two container repos come last"),
    }
}

#[test]
fn seed_statements_carry_every_value() {
    let plan = seed_plan();
    let seed = statements(&plan);
    assert_eq!(seed.len(), 10);
    assert_eq!(seed[0].sql, UPSERT_PROVIDER_ACCOUNT);
    assert_eq!(
        texts(&seed[0]),
        strings(&[
            "github:GHF-Studios",
            "github",
            "organization",
            "GHF-Studios",
            "https://github.com/GHF-Studios",
            "#1",
        ])
    );
    assert_eq!(seed[7].sql, CLEAR_ECOSYSTEM_REPOSITORIES);
    assert_eq!(texts(&seed[7]), strings(&["ghf-studios/vapor"]));
    assert_eq!(seed[9].sql, INSERT_ECOSYSTEM_REPOSITORY);
    assert_eq!(
        texts(&seed[9]),
        strings(&[
            "ghf-studios/vapor",
            "github:GHF-Studios/Vapor-Server-Root",
            "Vapor-Server-Root",
            "#20",
        ])
    );
    let init = initialize();
    assert_eq!(init.migrations.len(), 8);
    assert_eq!(init.seed.len(), 10);
    assert_eq!(texts(&init.seed[2]), texts(&seed[2]));
}

#[test]
fn unverified_account_is_stored_as_zero() {
    let write = Write::UpsertProviderAccount(vapor_registry::plan::ProviderAccountRecord {
        id: "github:someone".to_string(),
        provider: "github".to_string(),
        account_kind: "user".to_string(),
        login: "someone".to_string(),
        canonical_url: "https://github.com/someone".to_string(),
        verified: false,
    });
    let statement = write.statement();
    assert_eq!(texts(&statement)[5], "#0");
    let meta = Write::SetMeta { key: "k".to_string(), value: "v".to_string() };
    assert_eq!(texts(&meta.statement()), strings(&["k", "v"]));
}

#[test]
fn ecosystem_lookup_steps() {
    let q = ecosystem_query("ghf-studios", "vapor");
    assert_eq!(q.sql, SELECT_ECOSYSTEM);
    assert_eq!(texts(&q), strings(&["ghf-studios", "vapor"]));
    assert!(matches!(ecosystem_found(None), EcosystemLookup::Unknown));
    let header = (
        "ghf-studios/vapor".to_string(),
        "ghf-studios".to_string(),
        "vapor".to_string(),
        "Vapor".to_string(),
    );
    match ecosystem_found(Some(header)) {
        EcosystemLookup::Found { ecosystem, repositories } => {
            assert_eq!(ecosystem.id, "ghf-studios/vapor");
            assert_eq!(ecosystem.namespace, "ghf-studios");
            assert_eq!(ecosystem.name, "vapor");
            assert_eq!(ecosystem.display_name, "Vapor");
            assert_eq!(repositories.sql, SELECT_ECOSYSTEM_REPOSITORIES);
            assert_eq!(texts(&repositories), strings(&["ghf-studios/vapor"]));
        }
        EcosystemLookup::Unknown => panic!("a found row continues the lookup"),
    }
}

#[test]
fn ecosystem_response_keeps_rows_in_order() {
    let header = Ecosystem {
        id: "e".to_string(),
        namespace: "n".to_string(),
        name: "m".to_string(),
        display_name: "D".to_string(),
    };
    let rows = vec![
        row8(["r2", "github", "o", "second", "workspace", "p2", "w2", "c2"]),
        row8(["r1", "github", "o", "first", "container-repo", "p1", "w1", "c1"]),
    ];
    let response = ecosystem(header, rows);
    assert_eq!(response.schema_version, 1);
    assert_eq!(response.ecosystem.id, "e");
    assert_eq!(response.repositories.len(), 2);
    assert_eq!(response.repositories[0].id, "r2");
    assert_eq!(response.repositories[0].name, "second");
    assert_eq!(response.repositories[0].checkout_path, "p2");
    assert_eq!(response.repositories[1].owner, "o");
    assert_eq!(response.repositories[1].kind, "container-repo");
    assert_eq!(response.repositories[1].web_url, "w1");
    assert_eq!(response.repositories[1].clone_url, "c1");
    let empty = ecosystem(
        Ecosystem {
            id: "e".to_string(),
            namespace: "n".to_string(),
            name: "m".to_string(),
            display_name: "D".to_string(),
        },
        Vec::new(),
    );
    assert!(empty.repositories.is_empty());
}

#[test]
fn provider_account_lookup_steps() {
    let q = provider_account_query("github", "GHF-Studios");
    assert_eq!(q.sql, SELECT_PROVIDER_ACCOUNT);
    assert_eq!(texts(&q), strings(&["github", "GHF-Studios"]));
    assert!(matches!(provider_account_found(None), ProviderAccountLookup::Unknown));
    for (stored, verified) in [(0_i64, false), (1, true), (2, true), (-1, true)] {
        let row = (
            "id".to_string(),
            "github".to_string(),
            "organization".to_string(),
            "login".to_string(),
            "url".to_string(),
            stored,
        );
        match provider_account_found(Some(row)) {
            ProviderAccountLookup::Found { account, repositories } => {
                assert_eq!(account.verified, verified);
                assert_eq!(account.kind, "organization");
                assert_eq!(account.canonical_url, "url");
                assert_eq!(repositories.sql, SELECT_PROVIDER_REPOSITORIES);
                assert_eq!(texts(&repositories), strings(&["id"]));
            }
            ProviderAccountLookup::Unknown => panic!("a found row continues the lookup"),
        }
    }
}

#[test]
fn provider_account_response_keeps_rows_in_order() {
    let account = ProviderAccount {
        id: "a".to_string(),
        provider: "github".to_string(),
        kind: "user".to_string(),
        login: "l".to_string(),
        canonical_url: "u".to_string(),
        verified: false,
    };
    let rows = vec![
        ("r1".to_string(), "n1".to_string(), "k1".to_string(), "w1".to_string(), "c1".to_string()),
        ("r0".to_string(), "n0".to_string(), "k0".to_string(), "w0".to_string(), "c0".to_string()),
    ];
    let response = provider_account(account, rows);
    assert_eq!(response.schema_version, 1);
    assert!(!response.account.verified);
    assert_eq!(response.repositories.len(), 2);
    assert_eq!(response.repositories[0].id, "r1");
    assert_eq!(response.repositories[1].name, "n0");
    assert_eq!(response.repositories[1].kind, "k0");
    assert_eq!(response.repositories[1].web_url, "w0");
    assert_eq!(response.repositories[1].clone_url, "c0");
}

#[test]
fn error_replies() {
    let e = unknown_ecosystem("ghf-studios", "steam");
    assert_eq!(e.status, 404);
    assert_eq!(e.body.error, "unknown Vapor ecosystem `ghf-studios/steam`");
    let p = unknown_provider_account("github", "nobody");
    assert_eq!(p.status, NOT_FOUND);
    assert_eq!(p.body.error, "unknown Vapor provider account `github:nobody`");
    let i = internal_error();
    assert_eq!(i.status, 500);
    assert_eq!(i.status, INTERNAL_SERVER_ERROR);
    assert_eq!(i.body.error, "registry database operation failed");
    assert_eq!(i.body.error, DATABASE_FAILURE);
    let n = not_found("gone".to_string());
    assert_eq!(n.status, 404);
    assert_eq!(n.body.error, "gone");
    assert_eq!(HEALTHZ_BODY, "ok\n");
}

#[test]
fn lookup_replies() {
    let found = EcosystemResponse {
        schema_version: 1,
        ecosystem: Ecosystem {
            id: "ghf-studios/vapor".to_string(),
            namespace: "ghf-studios".to_string(),
            name: "vapor".to_string(),
            display_name: "Vapor".to_string(),
        },
        repositories: Vec::new(),
    };
    match ecosystem_reply("ghf-studios", "vapor", Some(found)) {
        Ok(r) => assert_eq!(r.ecosystem.display_name, "Vapor"),
        Err(_) => panic!("a found ecosystem is served"),
    }
    match ecosystem_reply("ghf-studios", "steam", None) {
        Err(e) => {
            assert_eq!(e.status, 404);
            assert_eq!(e.body.error, "unknown Vapor ecosystem `ghf-studios/steam`");
        }
        Ok(_) => panic!("an unknown ecosystem is not found"),
    }
    match provider_account_reply("github", "nobody", None) {
        Err(e) => {
            assert_eq!(e.status, 404);
            assert_eq!(e.body.error, "unknown Vapor provider account `github:nobody`");
        }
        Ok(_) => panic!("an unknown account is not found"),
    }
}
