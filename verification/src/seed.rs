//! The official bootstrap records: the GHF-Studios provider account, the
//! Vapor ecosystem, its repositories, and the top-level container repos
//! from which the ecosystem is reconstructed; and the start-up plan that
//! writes them.
use vstd::prelude::*;
use crate::model::{
    nocase_eq, upsert_account, upsert_ecosystem, upsert_repository, clear_memberships, AccountRow,
    EcosystemRow, MembershipRow, Registry, RepositoryRow, WriteOp,
};
use crate::plan::{
    migration_plan, schema_definitions, schema_version_op, statement_of, statements,
    EcosystemRecord, EcosystemRepositoryRecord, ProviderAccountRecord, RepositoryRecord, Statement,
    StatementValue, Write,
};
use crate::query::{EcosystemRepositoryColumns};
use crate::seed_laws::lemma_seed_urls;

verus! {

/// The provider account that owns the Vapor repositories.
pub open spec fn ghf_account() -> AccountRow {
    AccountRow {
        id: "github:GHF-Studios"@,
        provider: "github"@,
        account_kind: "organization"@,
        login: "GHF-Studios"@,
        canonical_url: "https://github.com/GHF-Studios"@,
        verified: true,
    }
}

/// The Vapor ecosystem.
pub open spec fn vapor_ecosystem() -> EcosystemRow {
    EcosystemRow {
        id: "ghf-studios/vapor"@,
        namespace: "ghf-studios"@,
        name: "vapor"@,
        display_name: "Vapor"@,
    }
}

/// A repository of the GHF-Studios account.
pub open spec fn ghf_repository(
    id: Seq<char>,
    name: Seq<char>,
    kind: Seq<char>,
    web_url: Seq<char>,
    clone_url: Seq<char>,
) -> RepositoryRow {
    RepositoryRow { id, provider_account_id: ghf_account().id, name, kind, web_url, clone_url }
}

pub open spec fn vapor_root() -> RepositoryRow {
    ghf_repository(
        "github:GHF-Studios/Vapor-Root"@,
        "Vapor-Root"@,
        "container-repo"@,
        "https://github.com/GHF-Studios/Vapor-Root"@,
        "https://github.com/GHF-Studios/Vapor-Root.git"@,
    )
}

pub open spec fn vapor_workspace() -> RepositoryRow {
    ghf_repository(
        "github:GHF-Studios/Vapor"@,
        "Vapor"@,
        "workspace"@,
        "https://github.com/GHF-Studios/Vapor"@,
        "https://github.com/GHF-Studios/Vapor.git"@,
    )
}

pub open spec fn vapor_examples() -> RepositoryRow {
    ghf_repository(
        "github:GHF-Studios/Vapor-Examples"@,
        "Vapor-Examples"@,
        "workspace"@,
        "https://github.com/GHF-Studios/Vapor-Examples"@,
        "https://github.com/GHF-Studios/Vapor-Examples.git"@,
    )
}

pub open spec fn vapor_server_root() -> RepositoryRow {
    ghf_repository(
        "github:GHF-Studios/Vapor-Server-Root"@,
        "Vapor-Server-Root"@,
        "container-repo"@,
        "https://github.com/GHF-Studios/Vapor-Server-Root"@,
        "https://github.com/GHF-Studios/Vapor-Server-Root.git"@,
    )
}

pub open spec fn vapor_registry_server() -> RepositoryRow {
    ghf_repository(
        "github:GHF-Studios/Vapor-Registry-Server"@,
        "Vapor-Registry-Server"@,
        "workspace"@,
        "https://github.com/GHF-Studios/Vapor-Registry-Server"@,
        "https://github.com/GHF-Studios/Vapor-Registry-Server.git"@,
    )
}

/// The seeded repositories, in the order they are written.
pub open spec fn seed_repositories() -> Seq<RepositoryRow> {
    seq![vapor_root(), vapor_workspace(), vapor_examples(), vapor_server_root(), vapor_registry_server()]
}

/// A top-level container repo of the Vapor ecosystem.
pub open spec fn vapor_member(repository: RepositoryRow, ordinal: int) -> MembershipRow {
    MembershipRow {
        ecosystem_id: vapor_ecosystem().id,
        repository_id: repository.id,
        checkout_path: repository.name,
        ordinal,
    }
}

/// The ecosystem topology: the two container repos, in acquisition order.
pub open spec fn seed_memberships() -> Seq<MembershipRow> {
    seq![vapor_member(vapor_root(), 10), vapor_member(vapor_server_root(), 20)]
}

/// The writes of the seeding transaction, in order.
pub open spec fn seed_ops() -> Seq<WriteOp> {
    seq![
        WriteOp::UpsertAccount(ghf_account()),
        WriteOp::UpsertEcosystem(vapor_ecosystem()),
        WriteOp::UpsertRepository(vapor_root()),
        WriteOp::UpsertRepository(vapor_workspace()),
        WriteOp::UpsertRepository(vapor_examples()),
        WriteOp::UpsertRepository(vapor_server_root()),
        WriteOp::UpsertRepository(vapor_registry_server()),
        WriteOp::ClearMemberships(vapor_ecosystem().id),
        WriteOp::InsertMembership(seed_memberships()[0]),
        WriteOp::InsertMembership(seed_memberships()[1]),
    ]
}

/// The repositories after the five seed upserts.
pub open spec fn seeded_repositories(repositories: Set<RepositoryRow>) -> Set<RepositoryRow> {
    upsert_repository(
        upsert_repository(
            upsert_repository(
                upsert_repository(upsert_repository(repositories, vapor_root()), vapor_workspace()),
                vapor_examples(),
            ),
            vapor_server_root(),
        ),
        vapor_registry_server(),
    )
}

/// The store after a successful seeding transaction.
pub open spec fn seeded(db: Registry) -> Registry {
    Registry {
        meta: db.meta,
        accounts: upsert_account(db.accounts, ghf_account()),
        ecosystems: upsert_ecosystem(db.ecosystems, vapor_ecosystem()),
        repositories: seeded_repositories(db.repositories),
        memberships: clear_memberships(db.memberships, vapor_ecosystem().id).insert(
            seed_memberships()[0],
        ).insert(seed_memberships()[1]),
    }
}

/// The id of a seeded repository.
pub open spec fn is_seed_repository_id(id: Seq<char>) -> bool {
    exists|i: int| 0 <= i < 5 && #[trigger] seed_repositories()[i].id == id
}

/// No row of `db` outside the seed stands in the way of the seed writes.
pub open spec fn seed_admissible(db: Registry) -> bool {
    &&& forall|r: AccountRow|
        #![trigger db.accounts.contains(r)]
        db.accounts.contains(r) && nocase_eq(r.provider, ghf_account().provider) && nocase_eq(
            r.login,
            ghf_account().login,
        ) ==> r.id == ghf_account().id
    &&& forall|r: EcosystemRow|
        #![trigger db.ecosystems.contains(r)]
        db.ecosystems.contains(r) && r.namespace == vapor_ecosystem().namespace && r.name
            == vapor_ecosystem().name ==> r.id == vapor_ecosystem().id
    &&& forall|r: RepositoryRow, i: int|
        #![trigger db.repositories.contains(r), seed_repositories()[i]]
        db.repositories.contains(r) && 0 <= i < 5 && r.provider_account_id == ghf_account().id
            && r.name == seed_repositories()[i].name ==> r.id == seed_repositories()[i].id
}


/// The repositories after upserting the first `n` seeded repositories.
pub open spec fn upsert_seed_prefix(repositories: Set<RepositoryRow>, n: nat) -> Set<RepositoryRow>
    decreases n,
{
    if n == 0 {
        repositories
    } else {
        upsert_repository(
            upsert_seed_prefix(repositories, (n - 1) as nat),
            seed_repositories()[n - 1],
        )
    }
}


/// What an ecosystem listing shows for a seeded container repo.
pub open spec fn topology_columns(r: RepositoryRow) -> EcosystemRepositoryColumns {
    (
        r.id,
        ghf_account().provider,
        ghf_account().login,
        r.name,
        r.kind,
        r.name,
        r.web_url,
        r.clone_url,
    )
}


/// The GHF-Studios repositories as the account listing shows them:
/// ordered by kind, then name.
pub open spec fn ghf_listing() -> Seq<RepositoryRow> {
    seq![
        vapor_root(),
        vapor_server_root(),
        vapor_workspace(),
        vapor_examples(),
        vapor_registry_server(),
    ]
}


fn ghf_repository_record(
    id: &str,
    name: &str,
    kind: &str,
    web_url: &str,
    clone_url: &str,
) -> (r: RepositoryRecord)
    ensures
        r@ == ghf_repository(id@, name@, kind@, web_url@, clone_url@),
{
    RepositoryRecord {
        id: String::from_str(id),
        provider_account_id: String::from_str("github:GHF-Studios"),
        name: String::from_str(name),
        kind: String::from_str(kind),
        web_url: String::from_str(web_url),
        clone_url: String::from_str(clone_url),
    }
}

fn vapor_member_record(repository_id: &str, checkout_path: &str, ordinal: i64) -> (m:
    EcosystemRepositoryRecord)
    ensures
        m@.ecosystem_id == vapor_ecosystem().id,
        m@.repository_id == repository_id@,
        m@.checkout_path == checkout_path@,
        m@.ordinal == ordinal,
{
    EcosystemRepositoryRecord {
        ecosystem_id: String::from_str("ghf-studios/vapor"),
        repository_id: String::from_str(repository_id),
        checkout_path: String::from_str(checkout_path),
        ordinal,
    }
}

/// The seeding transaction: the official bootstrap records required to
/// reconstruct the Vapor ecosystem, written in order.
pub fn seed_plan() -> (plan: Vec<Write>)
    ensures
        plan@.map_values(|w: Write| w@) == seed_ops(),
        forall|i: int|
            #![trigger plan@[i]]
            0 <= i < plan@.len() ==> (plan@[i]@ matches WriteOp::UpsertAccount(a) ==> a.canonical_url
                == "https://github.com/"@ + a.login),
        forall|i: int|
            #![trigger plan@[i]]
            0 <= i < plan@.len() ==> (plan@[i]@ matches WriteOp::UpsertRepository(r) ==> {
                &&& r.provider_account_id == ghf_account().id
                &&& r.web_url == ghf_account().canonical_url + "/"@ + r.name
                &&& r.clone_url == r.web_url + ".git"@
            }),
{
    let mut plan: Vec<Write> = Vec::new();
    plan.push(
        Write::UpsertProviderAccount(
            ProviderAccountRecord {
                id: String::from_str("github:GHF-Studios"),
                provider: String::from_str("github"),
                account_kind: String::from_str("organization"),
                login: String::from_str("GHF-Studios"),
                canonical_url: String::from_str("https://github.com/GHF-Studios"),
                verified: true,
            },
        ),
    );
    plan.push(
        Write::UpsertEcosystem(
            EcosystemRecord {
                id: String::from_str("ghf-studios/vapor"),
                namespace: String::from_str("ghf-studios"),
                name: String::from_str("vapor"),
                display_name: String::from_str("Vapor"),
            },
        ),
    );
    plan.push(
        Write::UpsertRepository(
            ghf_repository_record(
                "github:GHF-Studios/Vapor-Root",
                "Vapor-Root",
                "container-repo",
                "https://github.com/GHF-Studios/Vapor-Root",
                "https://github.com/GHF-Studios/Vapor-Root.git",
            ),
        ),
    );
    plan.push(
        Write::UpsertRepository(
            ghf_repository_record(
                "github:GHF-Studios/Vapor",
                "Vapor",
                "workspace",
                "https://github.com/GHF-Studios/Vapor",
                "https://github.com/GHF-Studios/Vapor.git",
            ),
        ),
    );
    plan.push(
        Write::UpsertRepository(
            ghf_repository_record(
                "github:GHF-Studios/Vapor-Examples",
                "Vapor-Examples",
                "workspace",
                "https://github.com/GHF-Studios/Vapor-Examples",
                "https://github.com/GHF-Studios/Vapor-Examples.git",
            ),
        ),
    );
    plan.push(
        Write::UpsertRepository(
            ghf_repository_record(
                "github:GHF-Studios/Vapor-Server-Root",
                "Vapor-Server-Root",
                "container-repo",
                "https://github.com/GHF-Studios/Vapor-Server-Root",
                "https://github.com/GHF-Studios/Vapor-Server-Root.git",
            ),
        ),
    );
    plan.push(
        Write::UpsertRepository(
            ghf_repository_record(
                "github:GHF-Studios/Vapor-Registry-Server",
                "Vapor-Registry-Server",
                "workspace",
                "https://github.com/GHF-Studios/Vapor-Registry-Server",
                "https://github.com/GHF-Studios/Vapor-Registry-Server.git",
            ),
        ),
    );
    // The registry only identifies the top-level container repos of the
    // ecosystem; their `.gitmodules` stay authoritative for the workspaces
    // they contain.  The listing is rewritten as a whole.
    plan.push(Write::ClearEcosystemRepositories(String::from_str("ghf-studios/vapor")));
    plan.push(
        Write::InsertEcosystemRepository(
            vapor_member_record("github:GHF-Studios/Vapor-Root", "Vapor-Root", 10),
        ),
    );
    plan.push(
        Write::InsertEcosystemRepository(
            vapor_member_record("github:GHF-Studios/Vapor-Server-Root", "Vapor-Server-Root", 20),
        ),
    );
    assert(plan@.map_values(|w: Write| w@) =~= seed_ops());
    proof {
        lemma_seed_urls();
        assert forall|i: int| #![trigger plan@[i]] 0 <= i < plan@.len() implies {
            &&& (plan@[i]@ matches WriteOp::UpsertAccount(a) ==> a.canonical_url
                == "https://github.com/"@ + a.login)
            &&& (plan@[i]@ matches WriteOp::UpsertRepository(r) ==> {
                &&& r.provider_account_id == ghf_account().id
                &&& r.web_url == ghf_account().canonical_url + "/"@ + r.name
                &&& r.clone_url == r.web_url + ".git"@
            })
        } by {
            assert(plan@[i]@ == seed_ops()[i]);
            if 2 <= i < 7 {
                assert(seed_ops()[i] == WriteOp::UpsertRepository(seed_repositories()[i - 2]));
            }
        }
    }
    plan
}

/// Everything the registry runs against its store at start-up: the schema
/// migrations, each on its own, then the seeding transaction.
pub struct Initialization {
    pub migrations: Vec<Statement>,
    pub seed: Vec<Statement>,
}

/// The start-up statements of the registry.
pub fn initialize() -> (init: Initialization)
    ensures
        init.migrations@.len() == schema_definitions().len() + 1,
        forall|i: int|
            0 <= i < schema_definitions().len() ==> (#[trigger] init.migrations@[i]@) == (
            StatementValue { sql: schema_definitions()[i], binds: Seq::empty() }),
        init.migrations@[schema_definitions().len() as int]@ == statement_of(schema_version_op()),
        init.seed@.len() == seed_ops().len(),
        forall|i: int|
            0 <= i < seed_ops().len() ==> #[trigger] init.seed@[i]@ == statement_of(seed_ops()[i]),
{
    let migrations = migration_plan();
    let plan = seed_plan();
    let seed = statements(&plan);
    assert forall|i: int| 0 <= i < seed_ops().len() implies #[trigger] seed@[i]@ == statement_of(
        seed_ops()[i],
    ) by {
        assert(plan@.map_values(|w: Write| w@)[i] == plan@[i]@);
    }
    Initialization { migrations, seed }
}

} // verus!
