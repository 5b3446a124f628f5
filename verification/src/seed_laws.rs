//! What the seeding transaction does to the registry store, and what the
//! store answers afterwards.
use vstd::prelude::*;
use crate::model::{
    account_clash, apply, apply_all, apply_from, clear_memberships, consistent, ecosystem_clash,
    empty_registry, fold_char, has_account, has_ecosystem, has_repository, lemma_apply_all_consistent,
    lemma_apply_consistent, lemma_empty_consistent, membership_clash, nocase_eq, repository_clash,
    upsert_account, upsert_ecosystem, upsert_repository, AccountRow, EcosystemRow, MembershipRow,
    Registry, RepositoryRow,
};
use crate::plan::{schema_version_op, SCHEMA_VERSION_KEY};
use crate::query::{
    account_matches, ecosystem_entry_after, ecosystem_matches, in_ecosystem_listing,
    is_ecosystem_listing, is_provider_listing, lemma_ordered_enumeration, listing_entry,
    provider_columns, provider_entry_before, text_lt, EcosystemListingEntry,
    EcosystemRepositoryColumns, ProviderRepositoryColumns,
};
use crate::seed::{
    ghf_account, ghf_listing, is_seed_repository_id, seed_admissible, seed_memberships, seed_ops,
    seed_repositories, seeded, seeded_repositories, topology_columns, upsert_seed_prefix,
    vapor_ecosystem, vapor_examples, vapor_registry_server, vapor_root, vapor_server_root,
    vapor_workspace,
};
use crate::text::decimal;
use crate::types::REGISTRY_SCHEMA_VERSION;

verus! {

proof fn lemma_seed_literals()
    ensures
        vapor_root().name != vapor_workspace().name,
        vapor_root().name != vapor_examples().name,
        vapor_root().name != vapor_server_root().name,
        vapor_root().name != vapor_registry_server().name,
        vapor_workspace().name != vapor_examples().name,
        vapor_workspace().name != vapor_server_root().name,
        vapor_workspace().name != vapor_registry_server().name,
        vapor_examples().name != vapor_server_root().name,
        vapor_examples().name != vapor_registry_server().name,
        vapor_server_root().name != vapor_registry_server().name,
        vapor_root().id != vapor_workspace().id,
        vapor_root().id != vapor_examples().id,
        vapor_root().id != vapor_server_root().id,
        vapor_root().id != vapor_registry_server().id,
        vapor_workspace().id != vapor_examples().id,
        vapor_workspace().id != vapor_server_root().id,
        vapor_workspace().id != vapor_registry_server().id,
        vapor_examples().id != vapor_server_root().id,
        vapor_examples().id != vapor_registry_server().id,
        vapor_server_root().id != vapor_registry_server().id,
{
    reveal_strlit("Vapor-Root");
    reveal_strlit("Vapor");
    reveal_strlit("Vapor-Examples");
    reveal_strlit("Vapor-Server-Root");
    reveal_strlit("Vapor-Registry-Server");
    reveal_strlit("github:GHF-Studios/Vapor-Root");
    reveal_strlit("github:GHF-Studios/Vapor");
    reveal_strlit("github:GHF-Studios/Vapor-Examples");
    reveal_strlit("github:GHF-Studios/Vapor-Server-Root");
    reveal_strlit("github:GHF-Studios/Vapor-Registry-Server");
    assert(vapor_root().name.len() != vapor_workspace().name.len());
    assert(vapor_root().name.len() != vapor_examples().name.len());
    assert(vapor_root().name.len() != vapor_server_root().name.len());
    assert(vapor_root().name.len() != vapor_registry_server().name.len());
    assert(vapor_workspace().name.len() != vapor_examples().name.len());
    assert(vapor_workspace().name.len() != vapor_server_root().name.len());
    assert(vapor_workspace().name.len() != vapor_registry_server().name.len());
    assert(vapor_examples().name.len() != vapor_server_root().name.len());
    assert(vapor_examples().name.len() != vapor_registry_server().name.len());
    assert(vapor_server_root().name.len() != vapor_registry_server().name.len());
    assert(vapor_root().id.len() != vapor_workspace().id.len());
    assert(vapor_root().id.len() != vapor_examples().id.len());
    assert(vapor_root().id.len() != vapor_server_root().id.len());
    assert(vapor_root().id.len() != vapor_registry_server().id.len());
    assert(vapor_workspace().id.len() != vapor_examples().id.len());
    assert(vapor_workspace().id.len() != vapor_server_root().id.len());
    assert(vapor_workspace().id.len() != vapor_registry_server().id.len());
    assert(vapor_examples().id.len() != vapor_server_root().id.len());
    assert(vapor_examples().id.len() != vapor_registry_server().id.len());
    assert(vapor_server_root().id.len() != vapor_registry_server().id.len());
}

/// Whenever the seeding transaction succeeds, it leaves exactly `seeded(db)`.
pub proof fn lemma_seed_effect(db: Registry)
    ensures
        apply_all(db, seed_ops()) matches Some(d) ==> d == seeded(db),
{
    reveal_with_fuel(apply_from, 11);
}

proof fn lemma_seed_repositories_distinct()
    ensures
        forall|i: int, j: int|
            #![trigger seed_repositories()[i], seed_repositories()[j]]
            0 <= i < 5 && 0 <= j < 5 && i != j ==> seed_repositories()[i].id
                != seed_repositories()[j].id && seed_repositories()[i].name
                != seed_repositories()[j].name,
        forall|i: int|
            #![trigger seed_repositories()[i]]
            0 <= i < 5 ==> seed_repositories()[i].provider_account_id == ghf_account().id,
{
    lemma_seed_literals();
    assert(seed_repositories()[0] == vapor_root());
    assert(seed_repositories()[1] == vapor_workspace());
    assert(seed_repositories()[2] == vapor_examples());
    assert(seed_repositories()[3] == vapor_server_root());
    assert(seed_repositories()[4] == vapor_registry_server());
}

/// Which rows the repositories hold after the first `n` seed upserts.
proof fn lemma_seed_prefix_contains(repositories: Set<RepositoryRow>, n: nat, x: RepositoryRow)
    requires
        n <= 5,
    ensures
        upsert_seed_prefix(repositories, n).contains(x) <==> ((exists|j: int|
            0 <= j < n && x == #[trigger] seed_repositories()[j]) || (repositories.contains(x)
            && forall|j: int| 0 <= j < n ==> x.id != #[trigger] seed_repositories()[j].id)),
    decreases n,
{
    lemma_seed_repositories_distinct();
    if n > 0 {
        lemma_seed_prefix_contains(repositories, (n - 1) as nat, x);
        let last = seed_repositories()[n - 1];
        if upsert_seed_prefix(repositories, n).contains(x) {
            if x != last {
                assert(upsert_seed_prefix(repositories, (n - 1) as nat).contains(x));
                assert(x.id != last.id);
            }
        }
        if exists|j: int| 0 <= j < n && x == #[trigger] seed_repositories()[j] {
            let j = choose|j: int| 0 <= j < n && x == #[trigger] seed_repositories()[j];
            if j < n - 1 {
                assert(x.id != last.id);
            }
        }
    }
}

proof fn lemma_seeded_repositories(repositories: Set<RepositoryRow>)
    ensures
        seeded_repositories(repositories) == upsert_seed_prefix(repositories, 5),
{
    reveal_with_fuel(upsert_seed_prefix, 6);
    lemma_seed_repositories_distinct();
    assert(seed_repositories()[0] == vapor_root());
    assert(seed_repositories()[1] == vapor_workspace());
    assert(seed_repositories()[2] == vapor_examples());
    assert(seed_repositories()[3] == vapor_server_root());
    assert(seed_repositories()[4] == vapor_registry_server());
}


proof fn lemma_seed_prefix_steps(repositories: Set<RepositoryRow>)
    ensures
        upsert_seed_prefix(repositories, 1) == upsert_repository(repositories, vapor_root()),
        upsert_seed_prefix(repositories, 2) == upsert_repository(
            upsert_seed_prefix(repositories, 1),
            vapor_workspace(),
        ),
        upsert_seed_prefix(repositories, 3) == upsert_repository(
            upsert_seed_prefix(repositories, 2),
            vapor_examples(),
        ),
        upsert_seed_prefix(repositories, 4) == upsert_repository(
            upsert_seed_prefix(repositories, 3),
            vapor_server_root(),
        ),
        upsert_seed_prefix(repositories, 5) == upsert_repository(
            upsert_seed_prefix(repositories, 4),
            vapor_registry_server(),
        ),
{
    reveal_with_fuel(upsert_seed_prefix, 2);
    assert(seed_repositories()[0] == vapor_root());
    assert(seed_repositories()[1] == vapor_workspace());
    assert(seed_repositories()[2] == vapor_examples());
    assert(seed_repositories()[3] == vapor_server_root());
    assert(seed_repositories()[4] == vapor_registry_server());
}

/// On an admissible store no seed upsert of a repository meets a clash.
proof fn lemma_seed_repository_steps(db: Registry)
    requires
        seed_admissible(db),
    ensures
        forall|i: int|
            0 <= i < 5 ==> !#[trigger] repository_clash(
                upsert_seed_prefix(db.repositories, i as nat),
                seed_repositories()[i],
            ),
{
    lemma_seed_repositories_distinct();
    assert forall|i: int| 0 <= i < 5 implies !#[trigger] repository_clash(
        upsert_seed_prefix(db.repositories, i as nat),
        seed_repositories()[i],
    ) by {
        let set = upsert_seed_prefix(db.repositories, i as nat);
        let x = seed_repositories()[i];
        if repository_clash(set, x) {
            let r = choose|r: RepositoryRow|
                #![trigger set.contains(r)]
                set.contains(r) && r.id != x.id && r.provider_account_id == x.provider_account_id
                    && r.name == x.name;
            lemma_seed_prefix_contains(db.repositories, i as nat, r);
            if exists|j: int| 0 <= j < i && r == #[trigger] seed_repositories()[j] {
                let j = choose|j: int| 0 <= j < i && r == #[trigger] seed_repositories()[j];
                assert(seed_repositories()[j].name != seed_repositories()[i].name);
            } else {
                assert(db.repositories.contains(r));
            }
        }
    }
}

/// On an admissible store the seeding transaction succeeds.
pub proof fn lemma_seed_succeeds(db: Registry)
    requires
        seed_admissible(db),
    ensures
        apply_all(db, seed_ops()) == Some(seeded(db)),
{
    lemma_seed_literals();
    lemma_seed_repositories_distinct();
    lemma_seeded_repositories(db.repositories);
    lemma_seed_prefix_steps(db.repositories);
    lemma_seed_repository_steps(db);
    let acct = ghf_account();
    let eco = vapor_ecosystem();
    let accounts = upsert_account(db.accounts, acct);
    let ecosystems = upsert_ecosystem(db.ecosystems, eco);
    assert(!account_clash(db.accounts, acct));
    assert(!ecosystem_clash(db.ecosystems, eco));
    assert(accounts.contains(acct));
    assert(ecosystems.contains(eco));
    let s2 = Registry { accounts, ecosystems, ..db };
    assert(s2.accounts.contains(acct));
    assert(has_account(s2, acct.id));
    let repos = seeded_repositories(db.repositories);
    let m0 = seed_memberships()[0];
    let m1 = seed_memberships()[1];
    lemma_seed_prefix_contains(db.repositories, 5, vapor_root());
    lemma_seed_prefix_contains(db.repositories, 5, vapor_server_root());
    assert(seed_repositories()[0] == vapor_root());
    assert(seed_repositories()[3] == vapor_server_root());
    assert(repos.contains(vapor_root()));
    assert(repos.contains(vapor_server_root()));
    let s7 = Registry { repositories: repos, ..s2 };
    assert(s7.ecosystems.contains(eco));
    assert(s7.repositories.contains(vapor_root()));
    assert(s7.repositories.contains(vapor_server_root()));
    assert(has_ecosystem(s7, eco.id));
    assert(has_repository(s7, vapor_root().id));
    assert(has_repository(s7, vapor_server_root().id));
    let cleared = clear_memberships(db.memberships, eco.id);
    assert(!membership_clash(cleared, m0));
    assert(!membership_clash(cleared.insert(m0), m1));
    assert(!repository_clash(db.repositories, vapor_root()));
    reveal_with_fuel(apply_from, 11);
}


/// A successful seeding transaction met no clash at any of its upserts.
proof fn lemma_seed_success_steps(db: Registry)
    requires
        apply_all(db, seed_ops()) is Some,
    ensures
        !account_clash(db.accounts, ghf_account()),
        !ecosystem_clash(db.ecosystems, vapor_ecosystem()),
        forall|i: int|
            0 <= i < 5 ==> !#[trigger] repository_clash(
                upsert_seed_prefix(db.repositories, i as nat),
                seed_repositories()[i],
            ),
{
    lemma_seed_prefix_steps(db.repositories);
    reveal_with_fuel(upsert_seed_prefix, 1);
    reveal_with_fuel(apply_from, 11);
    assert(seed_repositories()[0] == vapor_root());
    assert(seed_repositories()[1] == vapor_workspace());
    assert(seed_repositories()[2] == vapor_examples());
    assert(seed_repositories()[3] == vapor_server_root());
    assert(seed_repositories()[4] == vapor_registry_server());
}

/// After a successful seeding, the store admits the seed again.
proof fn lemma_seeded_admissible(db: Registry)
    requires
        apply_all(db, seed_ops()) is Some,
    ensures
        seed_admissible(seeded(db)),
{
    lemma_seed_success_steps(db);
    lemma_seed_repositories_distinct();
    lemma_seeded_repositories(db.repositories);
    let d = seeded(db);
    assert forall|r: AccountRow|
        #![trigger d.accounts.contains(r)]
        d.accounts.contains(r) && nocase_eq(r.provider, ghf_account().provider) && nocase_eq(
            r.login,
            ghf_account().login,
        ) implies r.id == ghf_account().id by {
        if r != ghf_account() {
            assert(db.accounts.contains(r));
        }
    }
    assert forall|r: EcosystemRow|
        #![trigger d.ecosystems.contains(r)]
        d.ecosystems.contains(r) && r.namespace == vapor_ecosystem().namespace && r.name
            == vapor_ecosystem().name implies r.id == vapor_ecosystem().id by {
        if r != vapor_ecosystem() {
            assert(db.ecosystems.contains(r));
        }
    }
    assert forall|r: RepositoryRow, i: int|
        #![trigger d.repositories.contains(r), seed_repositories()[i]]
        d.repositories.contains(r) && 0 <= i < 5 && r.provider_account_id == ghf_account().id
            && r.name == seed_repositories()[i].name implies r.id == seed_repositories()[i].id by {
        lemma_seed_prefix_contains(db.repositories, 5, r);
        if exists|j: int| 0 <= j < 5 && r == #[trigger] seed_repositories()[j] {
            let j = choose|j: int| 0 <= j < 5 && r == #[trigger] seed_repositories()[j];
            if j != i {
                assert(seed_repositories()[j].name != seed_repositories()[i].name);
            }
        } else {
            lemma_seed_prefix_contains(db.repositories, i as nat, r);
            let set = upsert_seed_prefix(db.repositories, i as nat);
            assert(set.contains(r));
            assert(!repository_clash(set, seed_repositories()[i]));
        }
    }
}

proof fn lemma_seeded_twice(db: Registry)
    ensures
        seeded(seeded(db)) == seeded(db),
{
    lemma_seeded_repositories(db.repositories);
    lemma_seeded_repositories(seeded(db).repositories);
    let once = seeded(db);
    let twice = seeded(once);
    assert(twice.accounts =~= once.accounts);
    assert(twice.ecosystems =~= once.ecosystems);
    assert forall|x: RepositoryRow| twice.repositories.contains(x) <==> once.repositories.contains(
        x,
    ) by {
        lemma_seed_prefix_contains(db.repositories, 5, x);
        lemma_seed_prefix_contains(once.repositories, 5, x);
    }
    assert(twice.repositories =~= once.repositories);
    assert(twice.memberships =~= once.memberships);
}

/// Seeding is idempotent: once the seeding transaction has succeeded on a
/// store, running it again succeeds and changes nothing.  This is what lets
/// the registry re-seed at every start-up.
pub proof fn lemma_seed_idempotent(db: Registry)
    ensures
        apply_all(db, seed_ops()) matches Some(d) ==> apply_all(d, seed_ops()) == Some(d),
{
    lemma_seed_effect(db);
    if apply_all(db, seed_ops()) is Some {
        lemma_seeded_admissible(db);
        lemma_seed_succeeds(seeded(db));
        lemma_seeded_twice(db);
    }
}

/// The rows of the join behind the Vapor listing of a seeded store.
proof fn lemma_seeded_join(db: Registry, e: EcosystemListingEntry)
    ensures
        in_ecosystem_listing(seeded(db), vapor_ecosystem().id, e) <==> (e == listing_entry(
            seed_memberships()[0],
            vapor_root(),
            ghf_account(),
        ) || e == listing_entry(seed_memberships()[1], vapor_server_root(), ghf_account())),
{
    let d = seeded(db);
    let m0 = seed_memberships()[0];
    let m1 = seed_memberships()[1];
    let acct = ghf_account();
    lemma_seed_repositories_distinct();
    lemma_seeded_repositories(db.repositories);
    assert(seed_repositories()[0] == vapor_root());
    assert(seed_repositories()[3] == vapor_server_root());
    if in_ecosystem_listing(d, vapor_ecosystem().id, e) {
        let (m, r, a) = choose|m: MembershipRow, r: RepositoryRow, a: AccountRow|
            #![trigger d.memberships.contains(m), d.repositories.contains(r), d.accounts.contains(a)]
            d.memberships.contains(m) && d.repositories.contains(r) && d.accounts.contains(a)
                && m.ecosystem_id == vapor_ecosystem().id && r.id == m.repository_id && a.id
                == r.provider_account_id && e == listing_entry(m, r, a);
        assert(m == m0 || m == m1);
        lemma_seed_prefix_contains(db.repositories, 5, r);
        if m == m0 {
            assert(r.id == seed_repositories()[0].id);
            if exists|j: int| 0 <= j < 5 && r == #[trigger] seed_repositories()[j] {
                let j = choose|j: int| 0 <= j < 5 && r == #[trigger] seed_repositories()[j];
                assert(j == 0);
            }
            assert(r == vapor_root());
        } else {
            assert(r.id == seed_repositories()[3].id);
            if exists|j: int| 0 <= j < 5 && r == #[trigger] seed_repositories()[j] {
                let j = choose|j: int| 0 <= j < 5 && r == #[trigger] seed_repositories()[j];
                assert(j == 3);
            }
            assert(r == vapor_server_root());
        }
        assert(a == acct);
    }
    lemma_seed_prefix_contains(db.repositories, 5, vapor_root());
    lemma_seed_prefix_contains(db.repositories, 5, vapor_server_root());
    assert(d.accounts.contains(acct));
    assert(d.memberships.contains(m0));
    assert(d.memberships.contains(m1));
    assert(d.repositories.contains(vapor_root()));
    assert(d.repositories.contains(vapor_server_root()));
}

/// Reading back the Vapor ecosystem after a successful seeding: the lookup
/// by `ghf-studios/vapor` finds exactly the seeded ecosystem, and its
/// listing is exactly the two container repos, Vapor-Root then
/// Vapor-Server-Root, whatever the store held before.
pub proof fn lemma_seeded_ecosystem(db: Registry, d: Registry)
    requires
        apply_all(db, seed_ops()) == Some(d),
    ensures
        forall|row: EcosystemRow|
            ecosystem_matches(d, vapor_ecosystem().namespace, vapor_ecosystem().name, row) <==> row
                == vapor_ecosystem(),
        forall|rows: Seq<EcosystemRepositoryColumns>|
            is_ecosystem_listing(d, vapor_ecosystem().id, rows) ==> rows == seq![
                topology_columns(vapor_root()),
                topology_columns(vapor_server_root()),
            ],
{
    lemma_seed_effect(db);
    lemma_seed_success_steps(db);
    assert forall|row: EcosystemRow|
        ecosystem_matches(d, vapor_ecosystem().namespace, vapor_ecosystem().name, row) <==> row
            == vapor_ecosystem() by {
        if ecosystem_matches(d, vapor_ecosystem().namespace, vapor_ecosystem().name, row) && row
            != vapor_ecosystem() {
            assert(db.ecosystems.contains(row));
        }
    }
    let j0 = listing_entry(seed_memberships()[0], vapor_root(), ghf_account());
    let j1 = listing_entry(seed_memberships()[1], vapor_server_root(), ghf_account());
    assert forall|rows: Seq<EcosystemRepositoryColumns>|
        is_ecosystem_listing(d, vapor_ecosystem().id, rows) implies rows == seq![
            topology_columns(vapor_root()),
            topology_columns(vapor_server_root()),
        ] by {
        let entries = choose|entries: Seq<EcosystemListingEntry>|
            {
                &&& entries.no_duplicates()
                &&& forall|e: EcosystemListingEntry|
                    #![trigger entries.contains(e)]
                    entries.contains(e) <==> in_ecosystem_listing(d, vapor_ecosystem().id, e)
                &&& forall|i: int, k: int|
                    #![trigger entries[i], entries[k]]
                    0 <= i < k < entries.len() ==> !ecosystem_entry_after(entries[i], entries[k])
                &&& rows == entries.map_values(|e: EcosystemListingEntry| e.columns)
            };
        let xs = seq![j0, j1];
        assert forall|e: EcosystemListingEntry| entries.contains(e) <==> xs.contains(e) by {
            lemma_seeded_join(db, e);
            assert(xs[0] == j0 && xs[1] == j1);
        }
        assert forall|i: int, k: int, a: int|
            #![trigger entries[i], entries[k], xs[a]]
            0 <= i < k < entries.len() && 0 <= a && a + 1 < xs.len() implies !(entries[i] == xs[a
                + 1] && entries[k] == xs[a]) by {
            assert(a == 0);
            assert(!ecosystem_entry_after(entries[i], entries[k]));
        }
        lemma_ordered_enumeration(entries, xs);
        assert(rows =~= seq![topology_columns(vapor_root()), topology_columns(vapor_server_root())]);
    }
}

proof fn lemma_ghf_listing_ordered()
    ensures
        forall|a: int|
            0 <= a && a + 1 < 5 ==> provider_entry_before(
                #[trigger] ghf_listing()[a],
                ghf_listing()[a + 1],
            ),
{
    reveal_strlit("Vapor-Root");
    reveal_strlit("Vapor-Server-Root");
    reveal_strlit("Vapor");
    reveal_strlit("Vapor-Examples");
    reveal_strlit("Vapor-Registry-Server");
    reveal_strlit("container-repo");
    reveal_strlit("workspace");
    reveal_with_fuel(text_lt, 8);
    assert(text_lt("Vapor-Root"@, "Vapor-Server-Root"@));
    assert(text_lt("container-repo"@, "workspace"@));
    assert(text_lt("Vapor"@, "Vapor-Examples"@));
    assert(text_lt("Vapor-Examples"@, "Vapor-Registry-Server"@));
    assert(ghf_listing()[0] == vapor_root());
    assert(ghf_listing()[1] == vapor_server_root());
    assert(ghf_listing()[2] == vapor_workspace());
    assert(ghf_listing()[3] == vapor_examples());
    assert(ghf_listing()[4] == vapor_registry_server());
}

/// Reading back the GHF-Studios account after a successful seeding: the
/// case-insensitive lookup of `github` / `GHF-Studios` finds exactly the
/// seeded, verified account.
pub proof fn lemma_seeded_account(db: Registry, d: Registry)
    requires
        apply_all(db, seed_ops()) == Some(d),
    ensures
        forall|row: AccountRow|
            account_matches(d, ghf_account().provider, ghf_account().login, row) <==> row
                == ghf_account(),
        ghf_account().verified,
{
    lemma_seed_effect(db);
    lemma_seed_success_steps(db);
    assert forall|row: AccountRow|
        account_matches(d, ghf_account().provider, ghf_account().login, row) <==> row
            == ghf_account() by {
        if account_matches(d, ghf_account().provider, ghf_account().login, row) && row
            != ghf_account() {
            assert(db.accounts.contains(row));
        }
    }
}

/// When no other repository belongs to GHF-Studios before seeding (as in a
/// fresh registry), the account listing after a successful seeding is
/// exactly its five repositories, ordered by kind, then name.
pub proof fn lemma_seeded_account_listing(db: Registry, d: Registry)
    requires
        apply_all(db, seed_ops()) == Some(d),
        forall|r: RepositoryRow|
            #[trigger] db.repositories.contains(r) && r.provider_account_id == ghf_account().id
                ==> is_seed_repository_id(r.id),
    ensures
        forall|rows: Seq<ProviderRepositoryColumns>|
            is_provider_listing(d, ghf_account().id, rows) ==> rows == ghf_listing().map_values(
                |r: RepositoryRow| provider_columns(r),
            ),
{
    lemma_seed_effect(db);
    lemma_seed_repositories_distinct();
    lemma_seeded_repositories(db.repositories);
    lemma_ghf_listing_ordered();
    lemma_seed_literals();
    let xs = ghf_listing();
    assert(xs[0] == vapor_root() && xs[1] == vapor_server_root() && xs[2] == vapor_workspace()
        && xs[3] == vapor_examples() && xs[4] == vapor_registry_server());
    assert(seed_repositories()[0] == vapor_root() && seed_repositories()[1] == vapor_workspace()
        && seed_repositories()[2] == vapor_examples() && seed_repositories()[3]
        == vapor_server_root() && seed_repositories()[4] == vapor_registry_server());
    assert(xs.no_duplicates());
    assert forall|r: RepositoryRow|
        (d.repositories.contains(r) && r.provider_account_id == ghf_account().id) <==> xs.contains(
            r,
        ) by {
        lemma_seed_prefix_contains(db.repositories, 5, r);
        if d.repositories.contains(r) && r.provider_account_id == ghf_account().id {
            if exists|j: int| 0 <= j < 5 && r == #[trigger] seed_repositories()[j] {
                let j = choose|j: int| 0 <= j < 5 && r == #[trigger] seed_repositories()[j];
                if j == 0 {
                    assert(r == xs[0]);
                } else if j == 1 {
                    assert(r == xs[2]);
                } else if j == 2 {
                    assert(r == xs[3]);
                } else if j == 3 {
                    assert(r == xs[1]);
                } else {
                    assert(r == xs[4]);
                }
            } else {
                assert(db.repositories.contains(r));
                let j = choose|j: int| 0 <= j < 5 && #[trigger] seed_repositories()[j].id == r.id;
                assert(false);
            }
        }
        if xs.contains(r) {
            let c = choose|c: int| 0 <= c < 5 && xs[c] == r;
            if c == 0 {
                assert(r == seed_repositories()[0]);
            } else if c == 1 {
                assert(r == seed_repositories()[3]);
            } else if c == 2 {
                assert(r == seed_repositories()[1]);
            } else if c == 3 {
                assert(r == seed_repositories()[2]);
            } else {
                assert(r == seed_repositories()[4]);
            }
        }
    }
    assert forall|rows: Seq<ProviderRepositoryColumns>|
        is_provider_listing(d, ghf_account().id, rows) implies rows == xs.map_values(
            |r: RepositoryRow| provider_columns(r),
        ) by {
        let entries = choose|entries: Seq<RepositoryRow>|
            {
                &&& entries.no_duplicates()
                &&& forall|r: RepositoryRow|
                    #![trigger entries.contains(r)]
                    entries.contains(r) <==> (d.repositories.contains(r) && r.provider_account_id
                        == ghf_account().id)
                &&& forall|i: int, k: int|
                    #![trigger entries[i], entries[k]]
                    0 <= i < k < entries.len() ==> !provider_entry_before(entries[k], entries[i])
                &&& rows == entries.map_values(|r: RepositoryRow| provider_columns(r))
            };
        assert forall|i: int, k: int, a: int|
            #![trigger entries[i], entries[k], xs[a]]
            0 <= i < k < entries.len() && 0 <= a && a + 1 < xs.len() implies !(entries[i] == xs[a
                + 1] && entries[k] == xs[a]) by {
            assert(provider_entry_before(xs[a], xs[a + 1]));
            assert(!provider_entry_before(entries[k], entries[i]));
        }
        lemma_ordered_enumeration(entries, xs);
    }
}


/// A fresh registry after start-up: recording the schema version and
/// seeding both succeed, the store is consistent, the schema version is
/// recorded, and the Vapor ecosystem, the GHF-Studios account and its
/// listings read back exactly as seeded.
pub proof fn lemma_fresh_registry_start()
    ensures
        apply(empty_registry(), schema_version_op()) matches Some(migrated) && {
            &&& apply_all(migrated, seed_ops()) == Some(seeded(migrated))
            &&& consistent(seeded(migrated))
            &&& seeded(migrated).meta[SCHEMA_VERSION_KEY@] == decimal(REGISTRY_SCHEMA_VERSION as nat)
            &&& forall|rows: Seq<EcosystemRepositoryColumns>|
                is_ecosystem_listing(seeded(migrated), vapor_ecosystem().id, rows) ==> rows == seq![
                    topology_columns(vapor_root()),
                    topology_columns(vapor_server_root()),
                ]
            &&& forall|rows: Seq<ProviderRepositoryColumns>|
                is_provider_listing(seeded(migrated), ghf_account().id, rows) ==> rows
                    == ghf_listing().map_values(|r: RepositoryRow| provider_columns(r))
        },
{
    let migrated = Registry {
        meta: Map::empty().insert(SCHEMA_VERSION_KEY@, decimal(REGISTRY_SCHEMA_VERSION as nat)),
        ..empty_registry()
    };
    assert(apply(empty_registry(), schema_version_op()) == Some(migrated));
    lemma_seed_repositories_distinct();
    assert(seed_admissible(migrated));
    lemma_seed_succeeds(migrated);
    lemma_empty_consistent();
    lemma_apply_consistent(empty_registry(), schema_version_op());
    lemma_apply_all_consistent(migrated, seed_ops());
    lemma_seeded_ecosystem(migrated, seeded(migrated));
    lemma_seeded_account_listing(migrated, seeded(migrated));
}

/// The ecosystem lists exactly the top-level container repos: a seeded
/// repository is a member of the Vapor topology if and only if its kind is
/// `container-repo`, and each member is checked out under its own name.
pub proof fn lemma_topology_is_container_repos()
    ensures
        forall|i: int|
            #![trigger seed_repositories()[i]]
            0 <= i < 5 ==> (seed_repositories()[i].kind == "container-repo"@ <==> exists|j: int|
                0 <= j < 2 && #[trigger] seed_memberships()[j].repository_id
                    == seed_repositories()[i].id),
        forall|j: int|
            #![trigger seed_memberships()[j]]
            0 <= j < 2 ==> seed_memberships()[j].ecosystem_id == vapor_ecosystem().id
                && exists|i: int|
                0 <= i < 5 && #[trigger] seed_repositories()[i].id
                    == seed_memberships()[j].repository_id && seed_repositories()[i].name
                    == seed_memberships()[j].checkout_path,
{
    lemma_seed_repositories_distinct();
    reveal_strlit("container-repo");
    reveal_strlit("workspace");
    assert(seed_repositories()[0] == vapor_root());
    assert(seed_repositories()[1] == vapor_workspace());
    assert(seed_repositories()[2] == vapor_examples());
    assert(seed_repositories()[3] == vapor_server_root());
    assert(seed_repositories()[4] == vapor_registry_server());
    assert("workspace"@.len() != "container-repo"@.len());
    assert forall|i: int|
        #![trigger seed_repositories()[i]]
        0 <= i < 5 implies (seed_repositories()[i].kind == "container-repo"@ <==> exists|j: int|
            0 <= j < 2 && #[trigger] seed_memberships()[j].repository_id
                == seed_repositories()[i].id) by {
        if i == 0 {
            assert(seed_memberships()[0].repository_id == seed_repositories()[0].id);
        } else if i == 3 {
            assert(seed_memberships()[1].repository_id == seed_repositories()[3].id);
        } else {
            assert(seed_repositories()[i].kind == "workspace"@);
            assert(seed_memberships()[0].repository_id == seed_repositories()[0].id);
            assert(seed_memberships()[1].repository_id == seed_repositories()[3].id);
        }
    }
    assert(seed_memberships()[0].repository_id == seed_repositories()[0].id);
    assert(seed_memberships()[1].repository_id == seed_repositories()[3].id);
}

/// `prefix + a == prefix + b` only when `a == b`.
proof fn lemma_concat_cancel(prefix: Seq<char>, a: Seq<char>, b: Seq<char>)
    requires
        prefix + a == prefix + b,
    ensures
        a == b,
{
    assert((prefix + a).skip(prefix.len() as int) =~= a);
    assert((prefix + b).skip(prefix.len() as int) =~= b);
}

/// Every seeded repository lives at its own GitHub address: the account's
/// canonical URL is `https://github.com/` followed by its login, each
/// repository's web URL is the account's canonical URL, `/` and the
/// repository's name, and its clone URL is the web URL followed by `.git`.
/// So no two seeded repositories share a web URL or a clone URL.
pub proof fn lemma_seed_urls()
    ensures
        ghf_account().canonical_url == "https://github.com/"@ + ghf_account().login,
        forall|i: int|
            #![trigger seed_repositories()[i]]
            0 <= i < 5 ==> {
                &&& seed_repositories()[i].provider_account_id == ghf_account().id
                &&& seed_repositories()[i].web_url == ghf_account().canonical_url + "/"@
                    + seed_repositories()[i].name
                &&& seed_repositories()[i].clone_url == seed_repositories()[i].web_url + ".git"@
            },
        forall|i: int, j: int|
            #![trigger seed_repositories()[i], seed_repositories()[j]]
            0 <= i < 5 && 0 <= j < 5 && i != j ==> seed_repositories()[i].web_url
                != seed_repositories()[j].web_url && seed_repositories()[i].clone_url
                != seed_repositories()[j].clone_url,
{
    reveal_strlit("https://github.com/");
    reveal_strlit("GHF-Studios");
    reveal_strlit("https://github.com/GHF-Studios");
    reveal_strlit("/");
    reveal_strlit(".git");
    reveal_strlit("Vapor-Root");
    reveal_strlit("Vapor");
    reveal_strlit("Vapor-Examples");
    reveal_strlit("Vapor-Server-Root");
    reveal_strlit("Vapor-Registry-Server");
    reveal_strlit("https://github.com/GHF-Studios/Vapor-Root");
    reveal_strlit("https://github.com/GHF-Studios/Vapor");
    reveal_strlit("https://github.com/GHF-Studios/Vapor-Examples");
    reveal_strlit("https://github.com/GHF-Studios/Vapor-Server-Root");
    reveal_strlit("https://github.com/GHF-Studios/Vapor-Registry-Server");
    reveal_strlit("https://github.com/GHF-Studios/Vapor-Root.git");
    reveal_strlit("https://github.com/GHF-Studios/Vapor.git");
    reveal_strlit("https://github.com/GHF-Studios/Vapor-Examples.git");
    reveal_strlit("https://github.com/GHF-Studios/Vapor-Server-Root.git");
    reveal_strlit("https://github.com/GHF-Studios/Vapor-Registry-Server.git");
    lemma_seed_repositories_distinct();
    let base = ghf_account().canonical_url + "/"@;
    assert(ghf_account().canonical_url =~= "https://github.com/"@ + ghf_account().login);
    assert(vapor_root().web_url =~= base + vapor_root().name);
    assert(vapor_workspace().web_url =~= base + vapor_workspace().name);
    assert(vapor_examples().web_url =~= base + vapor_examples().name);
    assert(vapor_server_root().web_url =~= base + vapor_server_root().name);
    assert(vapor_registry_server().web_url =~= base + vapor_registry_server().name);
    assert(vapor_root().clone_url =~= vapor_root().web_url + ".git"@);
    assert(vapor_workspace().clone_url =~= vapor_workspace().web_url + ".git"@);
    assert(vapor_examples().clone_url =~= vapor_examples().web_url + ".git"@);
    assert(vapor_server_root().clone_url =~= vapor_server_root().web_url + ".git"@);
    assert(vapor_registry_server().clone_url =~= vapor_registry_server().web_url + ".git"@);
    assert(seed_repositories()[0] == vapor_root());
    assert(seed_repositories()[1] == vapor_workspace());
    assert(seed_repositories()[2] == vapor_examples());
    assert(seed_repositories()[3] == vapor_server_root());
    assert(seed_repositories()[4] == vapor_registry_server());
    assert forall|i: int, j: int|
        #![trigger seed_repositories()[i], seed_repositories()[j]]
        0 <= i < 5 && 0 <= j < 5 && i != j implies seed_repositories()[i].web_url
            != seed_repositories()[j].web_url && seed_repositories()[i].clone_url
            != seed_repositories()[j].clone_url by {
        let ri = seed_repositories()[i];
        let rj = seed_repositories()[j];
        if ri.web_url == rj.web_url {
            lemma_concat_cancel(base, ri.name, rj.name);
        }
        if ri.clone_url == rj.clone_url {
            assert((ri.web_url + ".git"@).take(ri.web_url.len() as int) =~= ri.web_url);
            assert((rj.web_url + ".git"@).take(rj.web_url.len() as int) =~= rj.web_url);
            assert(ri.web_url.len() == rj.web_url.len());
            lemma_concat_cancel(base, ri.name, rj.name);
        }
    }
}

/// After a successful seeding, every row of the Vapor listing points at the
/// GitHub address of the repository it names: web URL
/// `https://github.com/<owner>/<name>`, clone URL that followed by `.git`.
/// In particular its second row, Vapor-Server-Root, clones from
/// `https://github.com/GHF-Studios/Vapor-Server-Root.git`, and no two rows
/// share a clone URL.
pub proof fn lemma_seeded_listing_urls(
    db: Registry,
    d: Registry,
    rows: Seq<EcosystemRepositoryColumns>,
)
    requires
        apply_all(db, seed_ops()) == Some(d),
        is_ecosystem_listing(d, vapor_ecosystem().id, rows),
    ensures
        forall|k: int|
            #![trigger rows[k]]
            0 <= k < rows.len() ==> {
                &&& rows[k].6 == "https://github.com/"@ + rows[k].2 + "/"@ + rows[k].3
                &&& rows[k].7 == rows[k].6 + ".git"@
            },
        forall|k: int, l: int|
            #![trigger rows[k], rows[l]]
            0 <= k < rows.len() && 0 <= l < rows.len() && k != l ==> rows[k].7 != rows[l].7,
        rows.len() == 2,
        rows[1].3 == "Vapor-Server-Root"@,
        rows[1].7 == "https://github.com/GHF-Studios/Vapor-Server-Root.git"@,
{
    lemma_seeded_ecosystem(db, d);
    lemma_seed_urls();
    assert(seed_repositories()[0] == vapor_root());
    assert(seed_repositories()[3] == vapor_server_root());
    assert(rows[0] == topology_columns(vapor_root()));
    assert(rows[1] == topology_columns(vapor_server_root()));
    assert(ghf_account().canonical_url + "/"@ + vapor_root().name =~= "https://github.com/"@
        + ghf_account().login + "/"@ + vapor_root().name);
    assert(ghf_account().canonical_url + "/"@ + vapor_server_root().name =~= "https://github.com/"@
        + ghf_account().login + "/"@ + vapor_server_root().name);
}

/// After a successful seeding of a store where no other repository belongs
/// to GHF-Studios (as a fresh registry), every row of the account listing
/// points at its own GitHub address: web URL the account's canonical URL,
/// `/` and the row's name; clone URL that followed by `.git`.  In
/// particular the row named Vapor-Examples (the fourth) has web URL
/// `https://github.com/GHF-Studios/Vapor-Examples`, and no two rows share a
/// web URL.
pub proof fn lemma_seeded_account_listing_urls(
    db: Registry,
    d: Registry,
    rows: Seq<ProviderRepositoryColumns>,
)
    requires
        apply_all(db, seed_ops()) == Some(d),
        forall|r: RepositoryRow|
            #[trigger] db.repositories.contains(r) && r.provider_account_id == ghf_account().id
                ==> is_seed_repository_id(r.id),
        is_provider_listing(d, ghf_account().id, rows),
    ensures
        forall|k: int|
            #![trigger rows[k]]
            0 <= k < rows.len() ==> {
                &&& rows[k].3 == ghf_account().canonical_url + "/"@ + rows[k].1
                &&& rows[k].4 == rows[k].3 + ".git"@
            },
        forall|k: int, l: int|
            #![trigger rows[k], rows[l]]
            0 <= k < rows.len() && 0 <= l < rows.len() && k != l ==> rows[k].3 != rows[l].3,
        rows.len() == 5,
        rows[3].1 == "Vapor-Examples"@,
        rows[3].3 == "https://github.com/GHF-Studios/Vapor-Examples"@,
{
    lemma_seeded_account_listing(db, d);
    lemma_seed_urls();
    let xs = ghf_listing();
    assert(rows == xs.map_values(|r: RepositoryRow| provider_columns(r)));
    assert(xs[0] == seed_repositories()[0]);
    assert(xs[1] == seed_repositories()[3]);
    assert(xs[2] == seed_repositories()[1]);
    assert(xs[3] == seed_repositories()[2]);
    assert(xs[4] == seed_repositories()[4]);
    assert forall|k: int| #![trigger rows[k]] 0 <= k < rows.len() implies {
        &&& rows[k].3 == ghf_account().canonical_url + "/"@ + rows[k].1
        &&& rows[k].4 == rows[k].3 + ".git"@
    } by {
        assert(rows[k] == provider_columns(xs[k]));
    }
    assert forall|k: int, l: int|
        #![trigger rows[k], rows[l]]
        0 <= k < rows.len() && 0 <= l < rows.len() && k != l implies rows[k].3 != rows[l].3 by {
        assert(rows[k] == provider_columns(xs[k]));
        assert(rows[l] == provider_columns(xs[l]));
        let i = if k == 0 { 0int } else if k == 1 { 3int } else if k == 2 { 1int } else if k == 3 { 2int } else { 4int };
        let j = if l == 0 { 0int } else if l == 1 { 3int } else if l == 2 { 1int } else if l == 3 { 2int } else { 4int };
        assert(xs[k] == seed_repositories()[i]);
        assert(xs[l] == seed_repositories()[j]);
    }
    reveal_strlit("Vapor-Examples");
    reveal_strlit("https://github.com/GHF-Studios/Vapor-Examples");
    assert(rows[3] == provider_columns(vapor_examples()));
}

/// The seeded identities are derived from the names they identify: the
/// account's id is `provider:login` and its canonical URL is
/// `https://<provider>.com/<login>`; the ecosystem's id is
/// `namespace/name`, its namespace is the owning account's login and its
/// name is its display name, both ignoring ASCII case; and each seeded
/// repository's id is the account's id, `/` and the repository's name.
pub proof fn lemma_seed_identities()
    ensures
        ghf_account().id == ghf_account().provider + ":"@ + ghf_account().login,
        ghf_account().canonical_url == "https://"@ + ghf_account().provider + ".com/"@
            + ghf_account().login,
        vapor_ecosystem().id == vapor_ecosystem().namespace + "/"@ + vapor_ecosystem().name,
        nocase_eq(vapor_ecosystem().namespace, ghf_account().login),
        nocase_eq(vapor_ecosystem().name, vapor_ecosystem().display_name),
        forall|i: int|
            #![trigger seed_repositories()[i]]
            0 <= i < 5 ==> seed_repositories()[i].id == ghf_account().id + "/"@
                + seed_repositories()[i].name,
{
    reveal_strlit("github:GHF-Studios");
    reveal_strlit("github");
    reveal_strlit("GHF-Studios");
    reveal_strlit("ghf-studios");
    reveal_strlit(":");
    reveal_strlit("/");
    reveal_strlit("https://");
    reveal_strlit(".com/");
    reveal_strlit("https://github.com/GHF-Studios");
    reveal_strlit("ghf-studios/vapor");
    reveal_strlit("vapor");
    reveal_strlit("Vapor");
    reveal_strlit("Vapor-Root");
    reveal_strlit("Vapor-Examples");
    reveal_strlit("Vapor-Server-Root");
    reveal_strlit("Vapor-Registry-Server");
    reveal_strlit("github:GHF-Studios/Vapor-Root");
    reveal_strlit("github:GHF-Studios/Vapor");
    reveal_strlit("github:GHF-Studios/Vapor-Examples");
    reveal_strlit("github:GHF-Studios/Vapor-Server-Root");
    reveal_strlit("github:GHF-Studios/Vapor-Registry-Server");
    assert(ghf_account().id =~= ghf_account().provider + ":"@ + ghf_account().login);
    assert(ghf_account().canonical_url =~= "https://"@ + ghf_account().provider + ".com/"@
        + ghf_account().login);
    assert(vapor_ecosystem().id =~= vapor_ecosystem().namespace + "/"@ + vapor_ecosystem().name);
    assert(vapor_ecosystem().namespace.map_values(|c: char| fold_char(c))
        =~= ghf_account().login.map_values(|c: char| fold_char(c)));
    assert(vapor_ecosystem().name.map_values(|c: char| fold_char(c))
        =~= vapor_ecosystem().display_name.map_values(|c: char| fold_char(c)));
    assert(vapor_root().id =~= ghf_account().id + "/"@ + vapor_root().name);
    assert(vapor_workspace().id =~= ghf_account().id + "/"@ + vapor_workspace().name);
    assert(vapor_examples().id =~= ghf_account().id + "/"@ + vapor_examples().name);
    assert(vapor_server_root().id =~= ghf_account().id + "/"@ + vapor_server_root().name);
    assert(vapor_registry_server().id =~= ghf_account().id + "/"@ + vapor_registry_server().name);
    assert(seed_repositories()[0] == vapor_root());
    assert(seed_repositories()[1] == vapor_workspace());
    assert(seed_repositories()[2] == vapor_examples());
    assert(seed_repositories()[3] == vapor_server_root());
    assert(seed_repositories()[4] == vapor_registry_server());
}

} // verus!
