//! The registry's read path: the queries it runs, the decision after the
//! first query of a lookup, and the assembly of the replies from the rows.
use vstd::prelude::*;
use crate::plan::{Bind, BindValue, Statement, StatementValue};
use crate::types::{
    Ecosystem, EcosystemRepository, EcosystemResponse, ProviderAccount, ProviderAccountResponse,
    ProviderRepository, REGISTRY_SCHEMA_VERSION,
};

verus! {

pub const COUNT_ECOSYSTEMS: &'static str = "SELECT COUNT(*) FROM ecosystems";

pub const COUNT_PROVIDER_ACCOUNTS: &'static str = "SELECT COUNT(*) FROM provider_accounts";

pub const COUNT_REPOSITORIES: &'static str = "SELECT COUNT(*) FROM repositories";

pub const SELECT_ECOSYSTEM: &'static str = r#"
            SELECT
                id,
                namespace,
                name,
                display_name
            FROM ecosystems
            WHERE namespace = ?
              AND name = ?
            "#;

pub const SELECT_ECOSYSTEM_REPOSITORIES: &'static str = r#"
            SELECT
                repositories.id,
                provider_accounts.provider,
                provider_accounts.login,
                repositories.name,
                repositories.kind,
                ecosystem_repositories.checkout_path,
                repositories.web_url,
                repositories.clone_url
            FROM ecosystem_repositories
            JOIN repositories
              ON repositories.id =
                 ecosystem_repositories.repository_id
            JOIN provider_accounts
              ON provider_accounts.id =
                 repositories.provider_account_id
            WHERE ecosystem_repositories.ecosystem_id = ?
            ORDER BY
                ecosystem_repositories.ordinal,
                repositories.id
            "#;

pub const SELECT_PROVIDER_ACCOUNT: &'static str = r#"
            SELECT
                id,
                provider,
                account_kind,
                login,
                canonical_url,
                verified
            FROM provider_accounts
            WHERE provider = ? COLLATE NOCASE
              AND login = ? COLLATE NOCASE
            "#;

pub const SELECT_PROVIDER_REPOSITORIES: &'static str = r#"
            SELECT
                id,
                name,
                kind,
                web_url,
                clone_url
            FROM repositories
            WHERE provider_account_id = ?
            ORDER BY kind, name
            "#;

/// A row of `ecosystems` as the lookup query returns it.
pub type EcosystemHeaderRow = (String, String, String, String);

/// A row of the ecosystem listing query.
pub type EcosystemRepositoryRow = (String, String, String, String, String, String, String, String);

/// A row of `provider_accounts` as the lookup query returns it.
pub type ProviderAccountRow = (String, String, String, String, String, i64);

/// A row of the account listing query.
pub type ProviderRepositoryRow = (String, String, String, String, String);

fn text_bind(s: &str) -> (b: Bind)
    ensures
        b@ == BindValue::Text(s@),
{
    Bind::Text(String::from_str(s))
}

/// The query that finds an ecosystem by namespace and name.
pub fn ecosystem_query(namespace: &str, name: &str) -> (q: Statement)
    ensures
        q@ == (StatementValue {
            sql: SELECT_ECOSYSTEM@,
            binds: seq![BindValue::Text(namespace@), BindValue::Text(name@)],
        }),
{
    let q = Statement { sql: SELECT_ECOSYSTEM, binds: vec![text_bind(namespace), text_bind(name)] };
    assert(q@.binds =~= seq![BindValue::Text(namespace@), BindValue::Text(name@)]);
    q
}

/// What follows the first query of an ecosystem lookup.
pub enum EcosystemLookup {
    /// No ecosystem has that namespace and name.
    Unknown,
    /// The ecosystem exists; its repositories come from `repositories`.
    Found { ecosystem: Ecosystem, repositories: Statement },
}

/// Decides the next step of an ecosystem lookup from the row found, if any.
pub fn ecosystem_found(row: Option<EcosystemHeaderRow>) -> (step: EcosystemLookup)
    ensures
        row is None <==> step is Unknown,
        row matches Some(r) ==> step matches EcosystemLookup::Found { ecosystem, repositories } && {
            &&& ecosystem.id@ == r.0@
            &&& ecosystem.namespace@ == r.1@
            &&& ecosystem.name@ == r.2@
            &&& ecosystem.display_name@ == r.3@
            &&& repositories@ == (StatementValue {
                sql: SELECT_ECOSYSTEM_REPOSITORIES@,
                binds: seq![BindValue::Text(r.0@)],
            })
        },
{
    match row {
        None => EcosystemLookup::Unknown,
        Some((id, namespace, name, display_name)) => {
            let repositories = Statement {
                sql: SELECT_ECOSYSTEM_REPOSITORIES,
                binds: vec![text_bind(id.as_str())],
            };
            assert(repositories@.binds =~= seq![BindValue::Text(id@)]);
            EcosystemLookup::Found {
                ecosystem: Ecosystem { id, namespace, name, display_name },
                repositories,
            }
        },
    }
}

/// The reply to an ecosystem lookup: the ecosystem and its repositories,
/// in the order of the listing rows.
pub fn ecosystem(header: Ecosystem, rows: Vec<EcosystemRepositoryRow>) -> (r: EcosystemResponse)
    ensures
        r.schema_version == REGISTRY_SCHEMA_VERSION,
        r.ecosystem == header,
        r.repositories@.map_values(|x: EcosystemRepository| x.columns()) == rows@.map_values(
            |t: EcosystemRepositoryRow| t@,
        ),
{
    let mut repositories: Vec<EcosystemRepository> = Vec::new();
    for i in 0..rows.len()
        invariant
            repositories@.len() == i,
            forall|j: int| 0 <= j < i ==> #[trigger] repositories@[j].columns() == rows@[j]@,
    {
        let t = &rows[i];
        repositories.push(
            EcosystemRepository {
                id: t.0.clone(),
                provider: t.1.clone(),
                owner: t.2.clone(),
                name: t.3.clone(),
                kind: t.4.clone(),
                checkout_path: t.5.clone(),
                web_url: t.6.clone(),
                clone_url: t.7.clone(),
            },
        );
    }
    assert(repositories@.map_values(|x: EcosystemRepository| x.columns()) =~= rows@.map_values(
        |t: EcosystemRepositoryRow| t@,
    ));
    EcosystemResponse { schema_version: REGISTRY_SCHEMA_VERSION, ecosystem: header, repositories }
}

/// The query that finds a provider account, ignoring ASCII case.
pub fn provider_account_query(provider: &str, login: &str) -> (q: Statement)
    ensures
        q@ == (StatementValue {
            sql: SELECT_PROVIDER_ACCOUNT@,
            binds: seq![BindValue::Text(provider@), BindValue::Text(login@)],
        }),
{
    let q = Statement {
        sql: SELECT_PROVIDER_ACCOUNT,
        binds: vec![text_bind(provider), text_bind(login)],
    };
    assert(q@.binds =~= seq![BindValue::Text(provider@), BindValue::Text(login@)]);
    q
}

/// What follows the first query of a provider account lookup.
pub enum ProviderAccountLookup {
    /// No account has that provider and login.
    Unknown,
    /// The account exists; its repositories come from `repositories`.
    Found { account: ProviderAccount, repositories: Statement },
}

/// Decides the next step of a provider account lookup from the row found,
/// if any; the stored `verified` flag is true when it is not 0.
pub fn provider_account_found(row: Option<ProviderAccountRow>) -> (step: ProviderAccountLookup)
    ensures
        row is None <==> step is Unknown,
        row matches Some(r) ==> step matches ProviderAccountLookup::Found { account, repositories }
            && {
            &&& account.id@ == r.0@
            &&& account.provider@ == r.1@
            &&& account.kind@ == r.2@
            &&& account.login@ == r.3@
            &&& account.canonical_url@ == r.4@
            &&& account.verified == (r.5 != 0)
            &&& repositories@ == (StatementValue {
                sql: SELECT_PROVIDER_REPOSITORIES@,
                binds: seq![BindValue::Text(r.0@)],
            })
        },
{
    match row {
        None => ProviderAccountLookup::Unknown,
        Some((id, provider, kind, login, canonical_url, verified)) => {
            let repositories = Statement {
                sql: SELECT_PROVIDER_REPOSITORIES,
                binds: vec![text_bind(id.as_str())],
            };
            assert(repositories@.binds =~= seq![BindValue::Text(id@)]);
            ProviderAccountLookup::Found {
                account: ProviderAccount {
                    id,
                    provider,
                    kind,
                    login,
                    canonical_url,
                    verified: verified != 0,
                },
                repositories,
            }
        },
    }
}

/// The reply to a provider account lookup: the account and its
/// repositories, in the order of the listing rows.
pub fn provider_account(account: ProviderAccount, rows: Vec<ProviderRepositoryRow>) -> (r:
    ProviderAccountResponse)
    ensures
        r.schema_version == REGISTRY_SCHEMA_VERSION,
        r.account == account,
        r.repositories@.map_values(|x: ProviderRepository| x.columns()) == rows@.map_values(
            |t: ProviderRepositoryRow| t@,
        ),
{
    let mut repositories: Vec<ProviderRepository> = Vec::new();
    for i in 0..rows.len()
        invariant
            repositories@.len() == i,
            forall|j: int| 0 <= j < i ==> #[trigger] repositories@[j].columns() == rows@[j]@,
    {
        let t = &rows[i];
        repositories.push(
            ProviderRepository {
                id: t.0.clone(),
                name: t.1.clone(),
                kind: t.2.clone(),
                web_url: t.3.clone(),
                clone_url: t.4.clone(),
            },
        );
    }
    assert(repositories@.map_values(|x: ProviderRepository| x.columns()) =~= rows@.map_values(
        |t: ProviderRepositoryRow| t@,
    ));
    ProviderAccountResponse { schema_version: REGISTRY_SCHEMA_VERSION, account, repositories }
}

} // verus!
