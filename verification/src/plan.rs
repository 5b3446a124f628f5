//! The statements the registry issues against its store: the typed writes,
//! the SQL text and parameters of each, and the schema migrations.
use vstd::prelude::*;
use crate::model::{AccountRow, EcosystemRow, MembershipRow, RepositoryRow, WriteOp};
use crate::text::{decimal, decimal_text};
use crate::types::REGISTRY_SCHEMA_VERSION;

verus! {

pub const CREATE_REGISTRY_META: &'static str = r#"
        CREATE TABLE IF NOT EXISTS registry_meta (
            key TEXT PRIMARY KEY,
            value TEXT NOT NULL
        )
        "#;

pub const CREATE_PROVIDER_ACCOUNTS: &'static str = r#"
        CREATE TABLE IF NOT EXISTS provider_accounts (
            id TEXT PRIMARY KEY,
            provider TEXT NOT NULL COLLATE NOCASE,
            account_kind TEXT NOT NULL,
            login TEXT NOT NULL COLLATE NOCASE,
            canonical_url TEXT NOT NULL,
            verified INTEGER NOT NULL DEFAULT 0
                CHECK (verified IN (0, 1)),
            UNIQUE(provider, login)
        )
        "#;

pub const CREATE_REPOSITORIES: &'static str = r#"
        CREATE TABLE IF NOT EXISTS repositories (
            id TEXT PRIMARY KEY,
            provider_account_id TEXT NOT NULL
                REFERENCES provider_accounts(id),
            name TEXT NOT NULL,
            kind TEXT NOT NULL,
            web_url TEXT NOT NULL,
            clone_url TEXT NOT NULL,
            UNIQUE(provider_account_id, name)
        )
        "#;

pub const CREATE_ECOSYSTEMS: &'static str = r#"
        CREATE TABLE IF NOT EXISTS ecosystems (
            id TEXT PRIMARY KEY,
            namespace TEXT NOT NULL,
            name TEXT NOT NULL,
            display_name TEXT NOT NULL,
            UNIQUE(namespace, name)
        )
        "#;

pub const CREATE_ECOSYSTEM_REPOSITORIES: &'static str = r#"
        CREATE TABLE IF NOT EXISTS ecosystem_repositories (
            ecosystem_id TEXT NOT NULL
                REFERENCES ecosystems(id)
                ON DELETE CASCADE,
            repository_id TEXT NOT NULL
                REFERENCES repositories(id)
                ON DELETE CASCADE,
            checkout_path TEXT NOT NULL,
            ordinal INTEGER NOT NULL DEFAULT 0,
            PRIMARY KEY(ecosystem_id, repository_id),
            UNIQUE(ecosystem_id, checkout_path)
        )
        "#;

pub const CREATE_REPOSITORIES_ACCOUNT_INDEX: &'static str = r#"
        CREATE INDEX IF NOT EXISTS repositories_provider_account_idx
            ON repositories(provider_account_id)
        "#;

pub const CREATE_ECOSYSTEM_REPOSITORIES_INDEX: &'static str = r#"
        CREATE INDEX IF NOT EXISTS ecosystem_repositories_ecosystem_idx
            ON ecosystem_repositories(ecosystem_id, ordinal)
        "#;

pub const SET_META: &'static str = r#"
        INSERT INTO registry_meta(key, value)
        VALUES (?, ?)
        ON CONFLICT(key) DO UPDATE SET
            value = excluded.value
        "#;

pub const UPSERT_PROVIDER_ACCOUNT: &'static str = r#"
        INSERT INTO provider_accounts(
            id,
            provider,
            account_kind,
            login,
            canonical_url,
            verified
        )
        VALUES (?, ?, ?, ?, ?, ?)
        ON CONFLICT(id) DO UPDATE SET
            provider = excluded.provider,
            account_kind = excluded.account_kind,
            login = excluded.login,
            canonical_url = excluded.canonical_url,
            verified = excluded.verified
        "#;

pub const UPSERT_ECOSYSTEM: &'static str = r#"
        INSERT INTO ecosystems(
            id,
            namespace,
            name,
            display_name
        )
        VALUES (?, ?, ?, ?)
        ON CONFLICT(id) DO UPDATE SET
            namespace = excluded.namespace,
            name = excluded.name,
            display_name = excluded.display_name
        "#;

pub const UPSERT_REPOSITORY: &'static str = r#"
            INSERT INTO repositories(
                id,
                provider_account_id,
                name,
                kind,
                web_url,
                clone_url
            )
            VALUES (?, ?, ?, ?, ?, ?)
            ON CONFLICT(id) DO UPDATE SET
                provider_account_id = excluded.provider_account_id,
                name = excluded.name,
                kind = excluded.kind,
                web_url = excluded.web_url,
                clone_url = excluded.clone_url
            "#;

pub const CLEAR_ECOSYSTEM_REPOSITORIES: &'static str = r#"
        DELETE FROM ecosystem_repositories
        WHERE ecosystem_id = ?
        "#;

pub const INSERT_ECOSYSTEM_REPOSITORY: &'static str = r#"
            INSERT INTO ecosystem_repositories(
                ecosystem_id,
                repository_id,
                checkout_path,
                ordinal
            )
            VALUES (?, ?, ?, ?)
            "#;

/// The key under which the schema version is recorded.
pub const SCHEMA_VERSION_KEY: &'static str = "schema_version";

/// A parameter bound to a `?` of a statement.
pub enum Bind {
    Text(String),
    Int(i64),
}

/// A parameter, by its value.
pub enum BindValue {
    Text(Seq<char>),
    Int(int),
}

impl View for Bind {
    type V = BindValue;

    open spec fn view(&self) -> BindValue {
        match self {
            Bind::Text(s) => BindValue::Text(s@),
            Bind::Int(i) => BindValue::Int(*i as int),
        }
    }
}

/// A SQL statement with its parameters, in the order of its `?`s.
pub struct Statement {
    pub sql: &'static str,
    pub binds: Vec<Bind>,
}

/// A statement, by its text and parameter values.
pub struct StatementValue {
    pub sql: Seq<char>,
    pub binds: Seq<BindValue>,
}

impl View for Statement {
    type V = StatementValue;

    open spec fn view(&self) -> StatementValue {
        StatementValue { sql: self.sql@, binds: self.binds@.map_values(|b: Bind| b@) }
    }
}

/// A `provider_accounts` row.
pub struct ProviderAccountRecord {
    pub id: String,
    pub provider: String,
    pub account_kind: String,
    pub login: String,
    pub canonical_url: String,
    pub verified: bool,
}

impl View for ProviderAccountRecord {
    type V = AccountRow;

    open spec fn view(&self) -> AccountRow {
        AccountRow {
            id: self.id@,
            provider: self.provider@,
            account_kind: self.account_kind@,
            login: self.login@,
            canonical_url: self.canonical_url@,
            verified: self.verified,
        }
    }
}

/// An `ecosystems` row.
pub struct EcosystemRecord {
    pub id: String,
    pub namespace: String,
    pub name: String,
    pub display_name: String,
}

impl View for EcosystemRecord {
    type V = EcosystemRow;

    open spec fn view(&self) -> EcosystemRow {
        EcosystemRow {
            id: self.id@,
            namespace: self.namespace@,
            name: self.name@,
            display_name: self.display_name@,
        }
    }
}

/// A `repositories` row.
pub struct RepositoryRecord {
    pub id: String,
    pub provider_account_id: String,
    pub name: String,
    pub kind: String,
    pub web_url: String,
    pub clone_url: String,
}

impl View for RepositoryRecord {
    type V = RepositoryRow;

    open spec fn view(&self) -> RepositoryRow {
        RepositoryRow {
            id: self.id@,
            provider_account_id: self.provider_account_id@,
            name: self.name@,
            kind: self.kind@,
            web_url: self.web_url@,
            clone_url: self.clone_url@,
        }
    }
}

/// An `ecosystem_repositories` row.
pub struct EcosystemRepositoryRecord {
    pub ecosystem_id: String,
    pub repository_id: String,
    pub checkout_path: String,
    pub ordinal: i64,
}

impl View for EcosystemRepositoryRecord {
    type V = MembershipRow;

    open spec fn view(&self) -> MembershipRow {
        MembershipRow {
            ecosystem_id: self.ecosystem_id@,
            repository_id: self.repository_id@,
            checkout_path: self.checkout_path@,
            ordinal: self.ordinal as int,
        }
    }
}

/// A write against the registry store.
pub enum Write {
    SetMeta { key: String, value: String },
    UpsertProviderAccount(ProviderAccountRecord),
    UpsertEcosystem(EcosystemRecord),
    UpsertRepository(RepositoryRecord),
    ClearEcosystemRepositories(String),
    InsertEcosystemRepository(EcosystemRepositoryRecord),
}

impl View for Write {
    type V = WriteOp;

    open spec fn view(&self) -> WriteOp {
        match self {
            Write::SetMeta { key, value } => WriteOp::SetMeta { key: key@, value: value@ },
            Write::UpsertProviderAccount(a) => WriteOp::UpsertAccount(a@),
            Write::UpsertEcosystem(e) => WriteOp::UpsertEcosystem(e@),
            Write::UpsertRepository(r) => WriteOp::UpsertRepository(r@),
            Write::ClearEcosystemRepositories(e) => WriteOp::ClearMemberships(e@),
            Write::InsertEcosystemRepository(m) => WriteOp::InsertMembership(m@),
        }
    }
}

/// The stored form of a boolean: `verified IN (0, 1)`.
pub open spec fn flag(b: bool) -> int {
    if b {
        1
    } else {
        0
    }
}

/// The SQL text and parameters that carry out a write.
pub open spec fn statement_of(op: WriteOp) -> StatementValue {
    match op {
        WriteOp::SetMeta { key, value } => StatementValue {
            sql: SET_META@,
            binds: seq![BindValue::Text(key), BindValue::Text(value)],
        },
        WriteOp::UpsertAccount(a) => StatementValue {
            sql: UPSERT_PROVIDER_ACCOUNT@,
            binds: seq![
                BindValue::Text(a.id),
                BindValue::Text(a.provider),
                BindValue::Text(a.account_kind),
                BindValue::Text(a.login),
                BindValue::Text(a.canonical_url),
                BindValue::Int(flag(a.verified)),
            ],
        },
        WriteOp::UpsertEcosystem(e) => StatementValue {
            sql: UPSERT_ECOSYSTEM@,
            binds: seq![
                BindValue::Text(e.id),
                BindValue::Text(e.namespace),
                BindValue::Text(e.name),
                BindValue::Text(e.display_name),
            ],
        },
        WriteOp::UpsertRepository(r) => StatementValue {
            sql: UPSERT_REPOSITORY@,
            binds: seq![
                BindValue::Text(r.id),
                BindValue::Text(r.provider_account_id),
                BindValue::Text(r.name),
                BindValue::Text(r.kind),
                BindValue::Text(r.web_url),
                BindValue::Text(r.clone_url),
            ],
        },
        WriteOp::ClearMemberships(e) => StatementValue {
            sql: CLEAR_ECOSYSTEM_REPOSITORIES@,
            binds: seq![BindValue::Text(e)],
        },
        WriteOp::InsertMembership(m) => StatementValue {
            sql: INSERT_ECOSYSTEM_REPOSITORY@,
            binds: seq![
                BindValue::Text(m.ecosystem_id),
                BindValue::Text(m.repository_id),
                BindValue::Text(m.checkout_path),
                BindValue::Int(m.ordinal),
            ],
        },
    }
}

fn text(s: &String) -> (b: Bind)
    ensures
        b@ == BindValue::Text(s@),
{
    Bind::Text(s.clone())
}

impl Write {
    /// The statement that carries out this write.
    pub fn statement(&self) -> (s: Statement)
        ensures
            s@ == statement_of(self@),
    {
        let (sql, binds) = match self {
            Write::SetMeta { key, value } => (SET_META, vec![text(key), text(value)]),
            Write::UpsertProviderAccount(a) => (
                UPSERT_PROVIDER_ACCOUNT,
                vec![
                    text(&a.id),
                    text(&a.provider),
                    text(&a.account_kind),
                    text(&a.login),
                    text(&a.canonical_url),
                    Bind::Int(if a.verified { 1 } else { 0 }),
                ],
            ),
            Write::UpsertEcosystem(e) => (
                UPSERT_ECOSYSTEM,
                vec![text(&e.id), text(&e.namespace), text(&e.name), text(&e.display_name)],
            ),
            Write::UpsertRepository(r) => (
                UPSERT_REPOSITORY,
                vec![
                    text(&r.id),
                    text(&r.provider_account_id),
                    text(&r.name),
                    text(&r.kind),
                    text(&r.web_url),
                    text(&r.clone_url),
                ],
            ),
            Write::ClearEcosystemRepositories(e) => (CLEAR_ECOSYSTEM_REPOSITORIES, vec![text(e)]),
            Write::InsertEcosystemRepository(m) => (
                INSERT_ECOSYSTEM_REPOSITORY,
                vec![
                    text(&m.ecosystem_id),
                    text(&m.repository_id),
                    text(&m.checkout_path),
                    Bind::Int(m.ordinal),
                ],
            ),
        };
        let s = Statement { sql, binds };
        assert(s@.binds =~= statement_of(self@).binds);
        s
    }
}

/// The statements that carry out `writes`, in order.
pub fn statements(writes: &Vec<Write>) -> (r: Vec<Statement>)
    ensures
        r@.len() == writes@.len(),
        forall|i: int| 0 <= i < writes@.len() ==> #[trigger] r@[i]@ == statement_of(writes@[i]@),
{
    let mut r: Vec<Statement> = Vec::new();
    for i in 0..writes.len()
        invariant
            r@.len() == i,
            forall|j: int| 0 <= j < i ==> #[trigger] r@[j]@ == statement_of(writes@[j]@),
    {
        r.push(writes[i].statement());
    }
    r
}

/// The schema's tables and indexes, in creation order.
pub open spec fn schema_definitions() -> Seq<Seq<char>> {
    seq![
        CREATE_REGISTRY_META@,
        CREATE_PROVIDER_ACCOUNTS@,
        CREATE_REPOSITORIES@,
        CREATE_ECOSYSTEMS@,
        CREATE_ECOSYSTEM_REPOSITORIES@,
        CREATE_REPOSITORIES_ACCOUNT_INDEX@,
        CREATE_ECOSYSTEM_REPOSITORIES_INDEX@,
    ]
}

/// The write that records the schema version.
pub open spec fn schema_version_op() -> WriteOp {
    WriteOp::SetMeta { key: SCHEMA_VERSION_KEY@, value: decimal(REGISTRY_SCHEMA_VERSION as nat) }
}

/// The migrations: each schema definition, without parameters, then the
/// recording of the schema version.
pub fn migration_plan() -> (r: Vec<Statement>)
    ensures
        r@.len() == schema_definitions().len() + 1,
        forall|i: int|
            0 <= i < schema_definitions().len() ==> (#[trigger] r@[i]@) == (StatementValue {
                sql: schema_definitions()[i],
                binds: Seq::empty(),
            }),
        r@[schema_definitions().len() as int]@ == statement_of(schema_version_op()),
{
    let mut r: Vec<Statement> = Vec::new();
    r.push(Statement { sql: CREATE_REGISTRY_META, binds: Vec::new() });
    r.push(Statement { sql: CREATE_PROVIDER_ACCOUNTS, binds: Vec::new() });
    r.push(Statement { sql: CREATE_REPOSITORIES, binds: Vec::new() });
    r.push(Statement { sql: CREATE_ECOSYSTEMS, binds: Vec::new() });
    r.push(Statement { sql: CREATE_ECOSYSTEM_REPOSITORIES, binds: Vec::new() });
    r.push(Statement { sql: CREATE_REPOSITORIES_ACCOUNT_INDEX, binds: Vec::new() });
    r.push(Statement { sql: CREATE_ECOSYSTEM_REPOSITORIES_INDEX, binds: Vec::new() });
    let version = Write::SetMeta {
        key: String::from_str(SCHEMA_VERSION_KEY),
        value: decimal_text(REGISTRY_SCHEMA_VERSION),
    };
    r.push(version.statement());
    assert forall|i: int| 0 <= i < schema_definitions().len() implies (#[trigger] r@[i]@) == (
    StatementValue { sql: schema_definitions()[i], binds: Seq::empty() }) by {
        assert(r@[i].binds@.map_values(|b: Bind| b@) =~= Seq::<BindValue>::empty());
    }
    r
}

} // verus!
