//! The registry's statements run against a real SQLite store.

use sqlx::sqlite::{SqliteArguments, SqlitePoolOptions};
use sqlx::{Sqlite, SqlitePool};
use vapor_registry::lookup::{
    ecosystem, ecosystem_found, ecosystem_query, provider_account, provider_account_found,
    provider_account_query, EcosystemHeaderRow, EcosystemLookup, EcosystemRepositoryRow,
    ProviderAccountLookup, ProviderAccountRow, ProviderRepositoryRow, COUNT_ECOSYSTEMS,
    COUNT_PROVIDER_ACCOUNTS, COUNT_REPOSITORIES,
};
use vapor_registry::plan::{Bind, ProviderAccountRecord, Statement, Write};
use vapor_registry::seed::initialize;
use vapor_registry::types::{status, EcosystemResponse, ProviderAccountResponse, RegistryStatus};

fn runtime() -> tokio::runtime::Runtime {
    tokio::runtime::Builder::new_current_thread().enable_all().build().unwrap()
}

async fn memory_pool() -> SqlitePool {
    SqlitePoolOptions::new().max_connections(1).connect("sqlite::memory:").await.unwrap()
}

fn query(statement: Statement) -> sqlx::query::Query<'static, Sqlite, SqliteArguments<'static>> {
    let mut query = sqlx::query(statement.sql);
    for bind in statement.binds {
        query = match bind {
            Bind::Text(text) => query.bind(text),
            Bind::Int(value) => query.bind(value),
        };
    }
    query
}

fn query_as<O>(statement: Statement) -> sqlx::query::QueryAs<'static, Sqlite, O, SqliteArguments<'static>>
where
    O: for<'r> sqlx::FromRow<'r, sqlx::sqlite::SqliteRow>,
{
    let mut query = sqlx::query_as::<_, O>(statement.sql);
    for bind in statement.binds {
        query = match bind {
            Bind::Text(text) => query.bind(text),
            Bind::Int(value) => query.bind(value),
        };
    }
    query
}

async fn run_initialize(pool: &SqlitePool) -> Result<(), sqlx::Error> {
    let init = initialize();
    for statement in init.migrations {
        query(statement).execute(pool).await?;
    }
    let mut transaction = pool.begin().await?;
    for statement in init.seed {
        query(statement).execute(&mut *transaction).await?;
    }
    transaction.commit().await
}

async fn lookup_ecosystem(
    pool: &SqlitePool,
    namespace: &str,
    name: &str,
) -> Result<Option<EcosystemResponse>, sqlx::Error> {
    let row = query_as::<EcosystemHeaderRow>(ecosystem_query(namespace, name))
        .fetch_optional(pool)
        .await?;
    match ecosystem_found(row) {
        EcosystemLookup::Unknown => Ok(None),
        EcosystemLookup::Found { ecosystem: header, repositories } => {
            let rows = query_as::<EcosystemRepositoryRow>(repositories).fetch_all(pool).await?;
            Ok(Some(ecosystem(header, rows)))
        }
    }
}

async fn lookup_provider_account(
    pool: &SqlitePool,
    provider: &str,
    login: &str,
) -> Result<Option<ProviderAccountResponse>, sqlx::Error> {
    let row = query_as::<ProviderAccountRow>(provider_account_query(provider, login))
        .fetch_optional(pool)
        .await?;
    match provider_account_found(row) {
        ProviderAccountLookup::Unknown => Ok(None),
        ProviderAccountLookup::Found { account, repositories } => {
            let rows = query_as::<ProviderRepositoryRow>(repositories).fetch_all(pool).await?;
            Ok(Some(provider_account(account, rows)))
        }
    }
}

async fn count(pool: &SqlitePool, sql: &'static str) -> i64 {
    sqlx::query_scalar::<_, i64>(sql).fetch_one(pool).await.unwrap()
}

async fn read_status(pool: &SqlitePool) -> RegistryStatus {
    status(
        count(pool, COUNT_ECOSYSTEMS).await,
        count(pool, COUNT_PROVIDER_ACCOUNTS).await,
        count(pool, COUNT_REPOSITORIES).await,
    )
}

fn repository_names(response: &EcosystemResponse) -> Vec<String> {
    response.repositories.iter().map(|r| r.name.clone()).collect()
}

#[test]
fn official_seed_exposes_recovery_topology() {
    runtime().block_on(async {
        let pool = memory_pool().await;

        run_initialize(&pool).await.unwrap();

        let ecosystem = lookup_ecosystem(&pool, "ghf-studios", "vapor").await.unwrap().unwrap();

        assert_eq!(ecosystem.repositories.len(), 2,);

        assert_eq!(ecosystem.repositories[0].name, "Vapor-Root",);

        assert_eq!(ecosystem.repositories[1].name, "Vapor-Server-Root",);

        let account = lookup_provider_account(&pool, "github", "GHF-Studios").await.unwrap().unwrap();

        assert!(account.account.verified,);

        assert_eq!(account.repositories.len(), 5,);
    });
}

#[test]
fn seeding_twice_changes_nothing() {
    runtime().block_on(async {
        let pool = memory_pool().await;
        run_initialize(&pool).await.unwrap();
        let first = lookup_ecosystem(&pool, "ghf-studios", "vapor").await.unwrap().unwrap();
        let first_status = read_status(&pool).await;
        run_initialize(&pool).await.unwrap();
        let second = lookup_ecosystem(&pool, "ghf-studios", "vapor").await.unwrap().unwrap();
        let second_status = read_status(&pool).await;
        assert_eq!(repository_names(&first), repository_names(&second));
        assert_eq!(first.ecosystem.id, second.ecosystem.id);
        assert_eq!(first_status.ecosystems, 1);
        assert_eq!(first_status.provider_accounts, 1);
        assert_eq!(first_status.repositories, 5);
        assert_eq!(second_status.ecosystems, 1);
        assert_eq!(second_status.provider_accounts, 1);
        assert_eq!(second_status.repositories, 5);
    });
}

#[test]
fn seeded_topology_reads_back_in_full() {
    runtime().block_on(async {
        let pool = memory_pool().await;
        run_initialize(&pool).await.unwrap();
        let ecosystem = lookup_ecosystem(&pool, "ghf-studios", "vapor").await.unwrap().unwrap();
        assert_eq!(ecosystem.schema_version, 1);
        assert_eq!(ecosystem.ecosystem.id, "ghf-studios/vapor");
        assert_eq!(ecosystem.ecosystem.display_name, "Vapor");
        let root = &ecosystem.repositories[0];
        assert_eq!(root.id, "github:GHF-Studios/Vapor-Root");
        assert_eq!(root.provider, "github");
        assert_eq!(root.owner, "GHF-Studios");
        assert_eq!(root.kind, "container-repo");
        assert_eq!(root.checkout_path, "Vapor-Root");
        assert_eq!(root.web_url, "https://github.com/GHF-Studios/Vapor-Root");
        assert_eq!(root.clone_url, "https://github.com/GHF-Studios/Vapor-Root.git");
        assert_eq!(ecosystem.repositories[1].checkout_path, "Vapor-Server-Root");
    });
}

#[test]
fn account_listing_is_ordered_by_kind_then_name() {
    runtime().block_on(async {
        let pool = memory_pool().await;
        run_initialize(&pool).await.unwrap();
        let account = lookup_provider_account(&pool, "github", "GHF-Studios").await.unwrap().unwrap();
        let names: Vec<String> = account.repositories.iter().map(|r| r.name.clone()).collect();
        assert_eq!(
            names,
            vec![
                "Vapor-Root".to_string(),
                "Vapor-Server-Root".to_string(),
                "Vapor".to_string(),
                "Vapor-Examples".to_string(),
                "Vapor-Registry-Server".to_string(),
            ]
        );
        assert_eq!(account.account.kind, "organization");
        assert_eq!(account.account.canonical_url, "https://github.com/GHF-Studios");
    });
}

#[test]
fn account_lookup_ignores_ascii_case() {
    runtime().block_on(async {
        let pool = memory_pool().await;
        run_initialize(&pool).await.unwrap();
        let account = lookup_provider_account(&pool, "GitHub", "ghf-studios").await.unwrap().unwrap();
        assert_eq!(account.account.id, "github:GHF-Studios");
        assert_eq!(account.account.login, "GHF-Studios");
    });
}

#[test]
fn unknown_names_are_not_found() {
    runtime().block_on(async {
        let pool = memory_pool().await;
        run_initialize(&pool).await.unwrap();
        assert!(lookup_ecosystem(&pool, "ghf-studios", "steam").await.unwrap().is_none());
        assert!(lookup_ecosystem(&pool, "GHF-Studios", "vapor").await.unwrap().is_none());
        assert!(lookup_provider_account(&pool, "gitlab", "GHF-Studios").await.unwrap().is_none());
    });
}

#[test]
fn store_refuses_a_second_account_with_the_same_login() {
    runtime().block_on(async {
        let pool = memory_pool().await;
        run_initialize(&pool).await.unwrap();
        let clash = Write::UpsertProviderAccount(ProviderAccountRecord {
            id: "github:ghf-studios-copy".to_string(),
            provider: "GITHUB".to_string(),
            account_kind: "organization".to_string(),
            login: "ghf-studios".to_string(),
            canonical_url: "https://github.com/GHF-Studios".to_string(),
            verified: false,
        });
        assert!(query(clash.statement()).execute(&pool).await.is_err());
        assert_eq!(read_status(&pool).await.provider_accounts, 1);
    });
}

#[test]
fn store_refuses_a_repository_of_an_unknown_account() {
    runtime().block_on(async {
        let pool = memory_pool().await;
        run_initialize(&pool).await.unwrap();
        let orphan = Write::UpsertRepository(vapor_registry::plan::RepositoryRecord {
            id: "github:nobody/thing".to_string(),
            provider_account_id: "github:nobody".to_string(),
            name: "thing".to_string(),
            kind: "workspace".to_string(),
            web_url: "https://github.com/nobody/thing".to_string(),
            clone_url: "https://github.com/nobody/thing.git".to_string(),
        });
        assert!(query(orphan.statement()).execute(&pool).await.is_err());
        assert_eq!(read_status(&pool).await.repositories, 5);
    });
}

#[test]
fn schema_version_is_recorded() {
    runtime().block_on(async {
        let pool = memory_pool().await;
        run_initialize(&pool).await.unwrap();
        let version = sqlx::query_scalar::<_, String>(
            "SELECT value FROM registry_meta WHERE key = 'schema_version'",
        )
        .fetch_one(&pool)
        .await
        .unwrap();
        assert_eq!(version, "1");
    });
}
