//! The registry tables as mathematical values, and the meaning of every
//! statement the registry issues against them.
//!
//! Each table is a set of rows.  A write either fails (a constraint of the
//! schema would be broken, so the store refuses it) or yields the new
//! tables.  A sequence of writes runs as one transaction: if one write
//! fails, the whole sequence fails and the tables stay as they were.
use vstd::prelude::*;

verus! {

/// A row of `provider_accounts`.
pub struct AccountRow {
    pub id: Seq<char>,
    pub provider: Seq<char>,
    pub account_kind: Seq<char>,
    pub login: Seq<char>,
    pub canonical_url: Seq<char>,
    pub verified: bool,
}

/// A row of `ecosystems`.
pub struct EcosystemRow {
    pub id: Seq<char>,
    pub namespace: Seq<char>,
    pub name: Seq<char>,
    pub display_name: Seq<char>,
}

/// A row of `repositories`.
pub struct RepositoryRow {
    pub id: Seq<char>,
    pub provider_account_id: Seq<char>,
    pub name: Seq<char>,
    pub kind: Seq<char>,
    pub web_url: Seq<char>,
    pub clone_url: Seq<char>,
}

/// A row of `ecosystem_repositories`.
pub struct MembershipRow {
    pub ecosystem_id: Seq<char>,
    pub repository_id: Seq<char>,
    pub checkout_path: Seq<char>,
    pub ordinal: int,
}

/// The whole registry store.
pub struct Registry {
    pub meta: Map<Seq<char>, Seq<char>>,
    pub accounts: Set<AccountRow>,
    pub ecosystems: Set<EcosystemRow>,
    pub repositories: Set<RepositoryRow>,
    pub memberships: Set<MembershipRow>,
}

/// A write the registry issues, by its meaning.
pub enum WriteOp {
    /// `registry_meta` upsert of one key.
    SetMeta { key: Seq<char>, value: Seq<char> },
    /// `provider_accounts` upsert keyed by `id`.
    UpsertAccount(AccountRow),
    /// `ecosystems` upsert keyed by `id`.
    UpsertEcosystem(EcosystemRow),
    /// `repositories` upsert keyed by `id`.
    UpsertRepository(RepositoryRow),
    /// Deletion of every `ecosystem_repositories` row of one ecosystem.
    ClearMemberships(Seq<char>),
    /// Plain insertion into `ecosystem_repositories`.
    InsertMembership(MembershipRow),
}

/// The empty store.
pub open spec fn empty_registry() -> Registry {
    Registry {
        meta: Map::empty(),
        accounts: Set::empty(),
        ecosystems: Set::empty(),
        repositories: Set::empty(),
        memberships: Set::empty(),
    }
}

/// SQLite's `NOCASE` folding of one character: ASCII upper case to lower case.
pub open spec fn fold_char(c: char) -> char {
    if 'A' <= c && c <= 'Z' {
        ((c as int) + 32) as char
    } else {
        c
    }
}

/// `NOCASE` equality of two texts.
pub open spec fn nocase_eq(a: Seq<char>, b: Seq<char>) -> bool {
    a.map_values(|c: char| fold_char(c)) == b.map_values(|c: char| fold_char(c))
}

/// Another account already holds the `(provider, login)` pair of `a`.
pub open spec fn account_clash(accounts: Set<AccountRow>, a: AccountRow) -> bool {
    exists|r: AccountRow|
        #![trigger accounts.contains(r)]
        accounts.contains(r) && r.id != a.id && nocase_eq(r.provider, a.provider) && nocase_eq(
            r.login,
            a.login,
        )
}

/// Another ecosystem already holds the `(namespace, name)` pair of `e`.
pub open spec fn ecosystem_clash(ecosystems: Set<EcosystemRow>, e: EcosystemRow) -> bool {
    exists|r: EcosystemRow|
        #![trigger ecosystems.contains(r)]
        ecosystems.contains(r) && r.id != e.id && r.namespace == e.namespace && r.name == e.name
}

/// Another repository of the same account already has the name of `x`.
pub open spec fn repository_clash(repositories: Set<RepositoryRow>, x: RepositoryRow) -> bool {
    exists|r: RepositoryRow|
        #![trigger repositories.contains(r)]
        repositories.contains(r) && r.id != x.id && r.provider_account_id == x.provider_account_id
            && r.name == x.name
}

/// Some account has the given id.
pub open spec fn has_account(db: Registry, id: Seq<char>) -> bool {
    exists|r: AccountRow| #![trigger db.accounts.contains(r)] db.accounts.contains(r) && r.id == id
}

/// Some ecosystem has the given id.
pub open spec fn has_ecosystem(db: Registry, id: Seq<char>) -> bool {
    exists|r: EcosystemRow|
        #![trigger db.ecosystems.contains(r)]
        db.ecosystems.contains(r) && r.id == id
}

/// Some repository has the given id.
pub open spec fn has_repository(db: Registry, id: Seq<char>) -> bool {
    exists|r: RepositoryRow|
        #![trigger db.repositories.contains(r)]
        db.repositories.contains(r) && r.id == id
}

/// The ecosystem of `m` already lists its repository or uses its checkout path.
pub open spec fn membership_clash(memberships: Set<MembershipRow>, m: MembershipRow) -> bool {
    exists|r: MembershipRow|
        #![trigger memberships.contains(r)]
        memberships.contains(r) && r.ecosystem_id == m.ecosystem_id && (r.repository_id
            == m.repository_id || r.checkout_path == m.checkout_path)
}

/// The accounts after an upsert of `a`: the row with its id is replaced.
pub open spec fn upsert_account(accounts: Set<AccountRow>, a: AccountRow) -> Set<AccountRow> {
    accounts.filter(|r: AccountRow| r.id != a.id).insert(a)
}

/// The ecosystems after an upsert of `e`.
pub open spec fn upsert_ecosystem(ecosystems: Set<EcosystemRow>, e: EcosystemRow) -> Set<
    EcosystemRow,
> {
    ecosystems.filter(|r: EcosystemRow| r.id != e.id).insert(e)
}

/// The repositories after an upsert of `x`.
pub open spec fn upsert_repository(repositories: Set<RepositoryRow>, x: RepositoryRow) -> Set<
    RepositoryRow,
> {
    repositories.filter(|r: RepositoryRow| r.id != x.id).insert(x)
}

/// The memberships left after deleting those of ecosystem `e`.
pub open spec fn clear_memberships(memberships: Set<MembershipRow>, e: Seq<char>) -> Set<
    MembershipRow,
> {
    memberships.filter(|r: MembershipRow| r.ecosystem_id != e)
}

/// What one write does to the store; `None` when the store refuses it.
pub open spec fn apply(db: Registry, op: WriteOp) -> Option<Registry> {
    match op {
        WriteOp::SetMeta { key, value } => Some(Registry { meta: db.meta.insert(key, value), ..db }),
        WriteOp::UpsertAccount(a) => if account_clash(db.accounts, a) {
            None
        } else {
            Some(Registry { accounts: upsert_account(db.accounts, a), ..db })
        },
        WriteOp::UpsertEcosystem(e) => if ecosystem_clash(db.ecosystems, e) {
            None
        } else {
            Some(Registry { ecosystems: upsert_ecosystem(db.ecosystems, e), ..db })
        },
        WriteOp::UpsertRepository(x) => if !has_account(db, x.provider_account_id)
            || repository_clash(db.repositories, x) {
            None
        } else {
            Some(Registry { repositories: upsert_repository(db.repositories, x), ..db })
        },
        WriteOp::ClearMemberships(e) => Some(
            Registry { memberships: clear_memberships(db.memberships, e), ..db },
        ),
        WriteOp::InsertMembership(m) => if !has_ecosystem(db, m.ecosystem_id) || !has_repository(
            db,
            m.repository_id,
        ) || membership_clash(db.memberships, m) {
            None
        } else {
            Some(Registry { memberships: db.memberships.insert(m), ..db })
        },
    }
}

/// What the writes of `ops` from position `i` on do, one after another.
pub open spec fn apply_from(db: Registry, ops: Seq<WriteOp>, i: int) -> Option<Registry>
    decreases ops.len() - i,
{
    if i < 0 || i >= ops.len() {
        Some(db)
    } else {
        match apply(db, ops[i]) {
            Some(next) => apply_from(next, ops, i + 1),
            None => None,
        }
    }
}

/// What a sequence of writes does, run as one transaction: the final
/// store, or `None` when some write is refused (and nothing changes).
pub open spec fn apply_all(db: Registry, ops: Seq<WriteOp>) -> Option<Registry> {
    apply_from(db, ops, 0)
}

/// The store keeps every constraint of the schema: primary keys, the
/// `UNIQUE` constraints (with `NOCASE` where the schema asks for it) and
/// the foreign keys.
pub open spec fn consistent(db: Registry) -> bool {
    &&& forall|r: AccountRow, s: AccountRow|
        #![trigger db.accounts.contains(r), db.accounts.contains(s)]
        db.accounts.contains(r) && db.accounts.contains(s) && r != s ==> r.id != s.id && !(nocase_eq(
            r.provider,
            s.provider,
        ) && nocase_eq(r.login, s.login))
    &&& forall|r: EcosystemRow, s: EcosystemRow|
        #![trigger db.ecosystems.contains(r), db.ecosystems.contains(s)]
        db.ecosystems.contains(r) && db.ecosystems.contains(s) && r != s ==> r.id != s.id && !(
        r.namespace == s.namespace && r.name == s.name)
    &&& forall|r: RepositoryRow, s: RepositoryRow|
        #![trigger db.repositories.contains(r), db.repositories.contains(s)]
        db.repositories.contains(r) && db.repositories.contains(s) && r != s ==> r.id != s.id && !(
        r.provider_account_id == s.provider_account_id && r.name == s.name)
    &&& forall|r: RepositoryRow|
        #![trigger db.repositories.contains(r)]
        db.repositories.contains(r) ==> has_account(db, r.provider_account_id)
    &&& forall|r: MembershipRow, s: MembershipRow|
        #![trigger db.memberships.contains(r), db.memberships.contains(s)]
        db.memberships.contains(r) && db.memberships.contains(s) && r != s ==> !(r.ecosystem_id
            == s.ecosystem_id && (r.repository_id == s.repository_id || r.checkout_path
            == s.checkout_path))
    &&& forall|m: MembershipRow|
        #![trigger db.memberships.contains(m)]
        db.memberships.contains(m) ==> has_ecosystem(db, m.ecosystem_id) && has_repository(
            db,
            m.repository_id,
        )
}

/// The empty store is consistent.
pub proof fn lemma_empty_consistent()
    ensures
        consistent(empty_registry()),
{
}

/// The foreign keys survive a write that keeps every referenced id and
/// only adds rows whose references exist.
proof fn lemma_references_kept(db: Registry, d: Registry)
    requires
        consistent(db),
        forall|w: AccountRow| #[trigger] db.accounts.contains(w) ==> has_account(d, w.id),
        forall|w: EcosystemRow| #[trigger] db.ecosystems.contains(w) ==> has_ecosystem(d, w.id),
        forall|w: RepositoryRow|
            #[trigger] db.repositories.contains(w) ==> has_repository(d, w.id),
        forall|r: RepositoryRow|
            #[trigger] d.repositories.contains(r) ==> db.repositories.contains(r) || has_account(
                d,
                r.provider_account_id,
            ),
        forall|m: MembershipRow|
            #[trigger] d.memberships.contains(m) ==> db.memberships.contains(m) || (has_ecosystem(
                d,
                m.ecosystem_id,
            ) && has_repository(d, m.repository_id)),
    ensures
        forall|r: RepositoryRow|
            #[trigger] d.repositories.contains(r) ==> has_account(d, r.provider_account_id),
        forall|m: MembershipRow|
            #[trigger] d.memberships.contains(m) ==> has_ecosystem(d, m.ecosystem_id)
                && has_repository(d, m.repository_id),
{
    assert forall|r: RepositoryRow| #[trigger] d.repositories.contains(r) implies has_account(
        d,
        r.provider_account_id,
    ) by {
        if db.repositories.contains(r) {
            let w = choose|w: AccountRow|
                #![trigger db.accounts.contains(w)]
                db.accounts.contains(w) && w.id == r.provider_account_id;
            assert(has_account(d, w.id));
        }
    }
    assert forall|m: MembershipRow| #[trigger] d.memberships.contains(m) implies has_ecosystem(
        d,
        m.ecosystem_id,
    ) && has_repository(d, m.repository_id) by {
        if db.memberships.contains(m) {
            let w = choose|w: EcosystemRow|
                #![trigger db.ecosystems.contains(w)]
                db.ecosystems.contains(w) && w.id == m.ecosystem_id;
            assert(has_ecosystem(d, w.id));
            let v = choose|v: RepositoryRow|
                #![trigger db.repositories.contains(v)]
                db.repositories.contains(v) && v.id == m.repository_id;
            assert(has_repository(d, v.id));
        }
    }
}

/// Every write that the store accepts keeps it consistent.
pub proof fn lemma_apply_consistent(db: Registry, op: WriteOp)
    requires
        consistent(db),
    ensures
        apply(db, op) matches Some(d) ==> consistent(d),
{
    if let Some(d) = apply(db, op) {
        assert forall|w: AccountRow| #[trigger] db.accounts.contains(w) implies has_account(
            d,
            w.id,
        ) by {
            match op {
                WriteOp::UpsertAccount(a) => {
                    if w.id == a.id {
                        assert(d.accounts.contains(a));
                    } else {
                        assert(d.accounts.contains(w));
                    }
                },
                _ => {
                    assert(d.accounts.contains(w));
                },
            }
        }
        assert forall|w: EcosystemRow| #[trigger] db.ecosystems.contains(w) implies has_ecosystem(
            d,
            w.id,
        ) by {
            match op {
                WriteOp::UpsertEcosystem(e) => {
                    if w.id == e.id {
                        assert(d.ecosystems.contains(e));
                    } else {
                        assert(d.ecosystems.contains(w));
                    }
                },
                _ => {
                    assert(d.ecosystems.contains(w));
                },
            }
        }
        assert forall|w: RepositoryRow|
            #[trigger] db.repositories.contains(w) implies has_repository(d, w.id) by {
            match op {
                WriteOp::UpsertRepository(x) => {
                    if w.id == x.id {
                        assert(d.repositories.contains(x));
                    } else {
                        assert(d.repositories.contains(w));
                    }
                },
                _ => {
                    assert(d.repositories.contains(w));
                },
            }
        }
        match op {
            WriteOp::UpsertRepository(x) => {
                let w = choose|w: AccountRow|
                    #![trigger db.accounts.contains(w)]
                    db.accounts.contains(w) && w.id == x.provider_account_id;
                assert(has_account(d, w.id));
            },
            WriteOp::InsertMembership(m) => {
                let w = choose|w: EcosystemRow|
                    #![trigger db.ecosystems.contains(w)]
                    db.ecosystems.contains(w) && w.id == m.ecosystem_id;
                assert(has_ecosystem(d, w.id));
                let v = choose|v: RepositoryRow|
                    #![trigger db.repositories.contains(v)]
                    db.repositories.contains(v) && v.id == m.repository_id;
                assert(has_repository(d, v.id));
            },
            _ => {},
        }
        lemma_references_kept(db, d);
    }
}

/// Every transaction that the store accepts keeps it consistent.
pub proof fn lemma_apply_all_consistent(db: Registry, ops: Seq<WriteOp>)
    requires
        consistent(db),
    ensures
        apply_all(db, ops) matches Some(d) ==> consistent(d),
{
    lemma_apply_from_consistent(db, ops, 0);
}

proof fn lemma_apply_from_consistent(db: Registry, ops: Seq<WriteOp>, i: int)
    requires
        consistent(db),
    ensures
        apply_from(db, ops, i) matches Some(d) ==> consistent(d),
    decreases ops.len() - i,
{
    if 0 <= i < ops.len() {
        lemma_apply_consistent(db, ops[i]);
        if let Some(next) = apply(db, ops[i]) {
            lemma_apply_from_consistent(next, ops, i + 1);
        }
    }
}

} // verus!
