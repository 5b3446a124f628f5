//! The meaning of the registry's read queries over the model of its tables.
use vstd::prelude::*;
use crate::model::{nocase_eq, AccountRow, EcosystemRow, MembershipRow, Registry, RepositoryRow};

verus! {

/// The columns of one row of an ecosystem's repository listing:
/// id, provider, owner, name, kind, checkout path, web URL, clone URL.
pub type EcosystemRepositoryColumns = (
    Seq<char>,
    Seq<char>,
    Seq<char>,
    Seq<char>,
    Seq<char>,
    Seq<char>,
    Seq<char>,
    Seq<char>,
);

/// The columns of one row of an account's repository listing:
/// id, name, kind, web URL, clone URL.
pub type ProviderRepositoryColumns = (Seq<char>, Seq<char>, Seq<char>, Seq<char>, Seq<char>);

/// Text order of SQLite's `BINARY` collation: UTF-8 byte order, which is
/// the order of code points, compared lexicographically.
pub open spec fn text_lt(a: Seq<char>, b: Seq<char>) -> bool
    decreases a.len(),
{
    if a.len() == 0 {
        b.len() > 0
    } else if b.len() == 0 {
        false
    } else if a[0] != b[0] {
        (a[0] as int) < (b[0] as int)
    } else {
        text_lt(a.drop_first(), b.drop_first())
    }
}

/// `row` answers `WHERE namespace = ? AND name = ?` on `ecosystems`.
pub open spec fn ecosystem_matches(
    db: Registry,
    namespace: Seq<char>,
    name: Seq<char>,
    row: EcosystemRow,
) -> bool {
    db.ecosystems.contains(row) && row.namespace == namespace && row.name == name
}

/// `row` answers `WHERE provider = ? COLLATE NOCASE AND login = ? COLLATE NOCASE`.
pub open spec fn account_matches(
    db: Registry,
    provider: Seq<char>,
    login: Seq<char>,
    row: AccountRow,
) -> bool {
    db.accounts.contains(row) && nocase_eq(row.provider, provider) && nocase_eq(row.login, login)
}

/// One row of the join behind an ecosystem listing, with its sort key.
pub struct EcosystemListingEntry {
    pub columns: EcosystemRepositoryColumns,
    pub ordinal: int,
}

/// The join of one membership with its repository and that repository's account.
pub open spec fn listing_entry(
    m: MembershipRow,
    r: RepositoryRow,
    a: AccountRow,
) -> EcosystemListingEntry {
    EcosystemListingEntry {
        columns: (r.id, a.provider, a.login, r.name, r.kind, m.checkout_path, r.web_url, r.clone_url),
        ordinal: m.ordinal,
    }
}

/// `e` is a row of the join for ecosystem `ecosystem_id`.
pub open spec fn in_ecosystem_listing(
    db: Registry,
    ecosystem_id: Seq<char>,
    e: EcosystemListingEntry,
) -> bool {
    exists|m: MembershipRow, r: RepositoryRow, a: AccountRow|
        #![trigger db.memberships.contains(m), db.repositories.contains(r), db.accounts.contains(a)]
        db.memberships.contains(m) && db.repositories.contains(r) && db.accounts.contains(a)
            && m.ecosystem_id == ecosystem_id && r.id == m.repository_id && a.id
            == r.provider_account_id && e == listing_entry(m, r, a)
}

/// `ORDER BY ordinal, repositories.id`: `e` may not come before `f`.
pub open spec fn ecosystem_entry_after(e: EcosystemListingEntry, f: EcosystemListingEntry) -> bool {
    e.ordinal > f.ordinal || (e.ordinal == f.ordinal && text_lt(f.columns.0, e.columns.0))
}

/// `rows` is what the ecosystem listing query returns on a consistent store:
/// every row of the join once, in `ORDER BY ordinal, id` order.
pub open spec fn is_ecosystem_listing(
    db: Registry,
    ecosystem_id: Seq<char>,
    rows: Seq<EcosystemRepositoryColumns>,
) -> bool {
    exists|entries: Seq<EcosystemListingEntry>|
        {
            &&& entries.no_duplicates()
            &&& forall|e: EcosystemListingEntry|
                #![trigger entries.contains(e)]
                entries.contains(e) <==> in_ecosystem_listing(db, ecosystem_id, e)
            &&& forall|i: int, k: int|
                #![trigger entries[i], entries[k]]
                0 <= i < k < entries.len() ==> !ecosystem_entry_after(entries[i], entries[k])
            &&& rows == entries.map_values(|e: EcosystemListingEntry| e.columns)
        }
}

/// The columns of a repository in an account listing.
pub open spec fn provider_columns(r: RepositoryRow) -> ProviderRepositoryColumns {
    (r.id, r.name, r.kind, r.web_url, r.clone_url)
}

/// `ORDER BY kind, name`: `r` must come before `s`.
pub open spec fn provider_entry_before(r: RepositoryRow, s: RepositoryRow) -> bool {
    text_lt(r.kind, s.kind) || (r.kind == s.kind && text_lt(r.name, s.name))
}

/// `rows` is what the account listing query returns on a consistent store:
/// every repository of account `account_id` once, in `ORDER BY kind, name` order.
pub open spec fn is_provider_listing(
    db: Registry,
    account_id: Seq<char>,
    rows: Seq<ProviderRepositoryColumns>,
) -> bool {
    exists|entries: Seq<RepositoryRow>|
        {
            &&& entries.no_duplicates()
            &&& forall|r: RepositoryRow|
                #![trigger entries.contains(r)]
                entries.contains(r) <==> (db.repositories.contains(r) && r.provider_account_id
                    == account_id)
            &&& forall|i: int, k: int|
                #![trigger entries[i], entries[k]]
                0 <= i < k < entries.len() ==> !provider_entry_before(entries[k], entries[i])
            &&& rows == entries.map_values(|r: RepositoryRow| provider_columns(r))
        }
}

/// Account lookup ignores ASCII case: two spellings of the provider and of
/// the login that differ only in ASCII case find the same accounts.
pub proof fn lemma_account_lookup_ignores_case(
    db: Registry,
    provider: Seq<char>,
    login: Seq<char>,
    other_provider: Seq<char>,
    other_login: Seq<char>,
    row: AccountRow,
)
    requires
        nocase_eq(provider, other_provider),
        nocase_eq(login, other_login),
    ensures
        account_matches(db, provider, login, row) == account_matches(
            db,
            other_provider,
            other_login,
            row,
        ),
{
}

/// A duplicate-free sequence that holds exactly the elements of `xs`, and
/// never puts `xs[a + 1]` before `xs[a]`, is `xs` itself.
pub proof fn lemma_ordered_enumeration<A>(s: Seq<A>, xs: Seq<A>)
    requires
        s.no_duplicates(),
        xs.no_duplicates(),
        forall|e: A| s.contains(e) <==> xs.contains(e),
        forall|i: int, k: int, a: int|
            #![trigger s[i], s[k], xs[a]]
            0 <= i < k < s.len() && 0 <= a && a + 1 < xs.len() ==> !(s[i] == xs[a + 1] && s[k]
                == xs[a]),
    ensures
        s == xs,
    decreases xs.len(),
{
    if xs.len() == 0 {
        if s.len() > 0 {
            assert(s.contains(s[0]));
        }
        assert(s =~= xs);
    } else {
        assert(xs.contains(xs[0]));
        let k0 = choose|k: int| 0 <= k < s.len() && s[k] == xs[0];
        assert(s.contains(s[0]));
        let b = choose|b: int| 0 <= b < xs.len() && xs[b] == s[0];
        if b > 0 {
            assert(xs.contains(xs[b - 1]));
            let k = choose|k: int| 0 <= k < s.len() && s[k] == xs[b - 1];
            assert(k != 0);
            assert(s[0] == xs[(b - 1) + 1] && s[k] == xs[b - 1]);
        }
        assert(s[0] == xs[0]);
        let s1 = s.drop_first();
        let xs1 = xs.drop_first();
        assert forall|e: A| s1.contains(e) <==> xs1.contains(e) by {
            if s1.contains(e) {
                let k = choose|k: int| 0 <= k < s1.len() && s1[k] == e;
                assert(s[k + 1] == e);
                assert(e != s[0]);
                assert(s.contains(e));
                let c = choose|c: int| 0 <= c < xs.len() && xs[c] == e;
                assert(c != 0);
                assert(xs1[c - 1] == e);
            }
            if xs1.contains(e) {
                let c = choose|c: int| 0 <= c < xs1.len() && xs1[c] == e;
                assert(xs[c + 1] == e);
                assert(e != xs[0]);
                assert(xs.contains(e));
                let k = choose|k: int| 0 <= k < s.len() && s[k] == e;
                assert(k != 0);
                assert(s1[k - 1] == e);
            }
        }
        assert forall|i: int, k: int, a: int|
            #![trigger s1[i], s1[k], xs1[a]]
            0 <= i < k < s1.len() && 0 <= a && a + 1 < xs1.len() implies !(s1[i] == xs1[a + 1]
                && s1[k] == xs1[a]) by {
            assert(s[i + 1] == s1[i] && s[k + 1] == s1[k]);
            assert(xs[a + 1] == xs1[a] && xs[(a + 1) + 1] == xs1[a + 1]);
        }
        lemma_ordered_enumeration(s1, xs1);
        assert(s =~= seq![s[0]] + s1);
        assert(xs =~= seq![xs[0]] + xs1);
    }
}

} // verus!
