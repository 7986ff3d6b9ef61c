//! The durable mapping from tenant domains to visibility bits, and its
//! reconciliation against the declared tenants.

use vstd::prelude::*;

use crate::config::{declared, AppConfig, SiteConfig, SiteDecl};
use crate::mask::{
    check_tenant_bit, is_tenant_bit, lemma_first_bit, lemma_next_bit_is_tenant_bit, lemma_tenant_bit_bounds,
    next_bit, spec_next_bit,
};

verus! {

/// Why the registry refused an operation.
#[derive(Debug, Clone, Copy, PartialEq, Eq, Structural)]
pub enum RegistryError {
    /// The declared tenants cannot be served: the mask has no bit left.
    ConfigurationError,
    /// The stored rows break the one-bit-per-tenant discipline.
    AllocationConflict,
    /// The domain is registered already.
    DomainTaken,
}

impl RegistryError {
    /// What went wrong, in words for operators.
    pub open spec fn spec_message(self) -> Seq<char> {
        match self {
            RegistryError::ConfigurationError =>
                "the declared sites need more bits than the visibility mask has"@,
            RegistryError::AllocationConflict =>
                "the persisted sites do not hold one distinct bit each"@,
            RegistryError::DomainTaken => "the domain is registered already"@,
        }
    }

    /// What went wrong, in words for operators.
    pub fn message(&self) -> (r: &'static str)
        ensures
            r@ == self.spec_message(),
    {
        match self {
            RegistryError::ConfigurationError => {
                "the declared sites need more bits than the visibility mask has"
            },
            RegistryError::AllocationConflict => {
                "the persisted sites do not hold one distinct bit each"
            },
            RegistryError::DomainTaken => "the domain is registered already",
        }
    }
}

/// One registered tenant.
#[derive(Debug, Clone, PartialEq, Eq)]
pub struct Tenant {
    pub domain: String,
    pub bit: i32,
    pub requires_auth: bool,
}

/// A registered tenant as contracts see it.
pub ghost struct TenantRow {
    pub domain: Seq<char>,
    pub bit: i32,
    pub requires_auth: bool,
}

impl View for Tenant {
    type V = TenantRow;

    open spec fn view(&self) -> TenantRow {
        TenantRow { domain: self.domain@, bit: self.bit, requires_auth: self.requires_auth }
    }
}

/// The rows held by a vector of tenants, in order.
pub open spec fn rows_of(tenants: Seq<Tenant>) -> Seq<TenantRow> {
    tenants.map_values(|t: Tenant| t@)
}

/// Every row holds a tenant bit, and no bit and no domain occurs twice.
pub open spec fn rows_wf(rows: Seq<TenantRow>) -> bool {
    &&& forall|i: int| 0 <= i < rows.len() ==> is_tenant_bit(#[trigger] rows[i].bit)
    &&& forall|i: int, j: int|
        0 <= i < j < rows.len() ==> (#[trigger] rows[i]).bit != (#[trigger] rows[j]).bit
    &&& forall|i: int, j: int|
        0 <= i < j < rows.len() ==> (#[trigger] rows[i]).domain != (#[trigger] rows[j]).domain
}

/// Some row is registered under `domain`.
pub open spec fn has_domain(rows: Seq<TenantRow>, domain: Seq<char>) -> bool {
    exists|i: int| 0 <= i < rows.len() && (#[trigger] rows[i]).domain == domain
}

/// The largest bit in use, 0 when there is no row.
pub open spec fn max_bit(rows: Seq<TenantRow>) -> i32
    decreases rows.len(),
{
    if rows.len() == 0 {
        0
    } else {
        let rest = max_bit(rows.drop_last());
        if rows.last().bit > rest {
            rows.last().bit
        } else {
            rest
        }
    }
}

/// The rows with `requires_auth` replaced on every row of `domain`.
pub open spec fn with_auth(rows: Seq<TenantRow>, domain: Seq<char>, auth: bool) -> Seq<TenantRow> {
    rows.map_values(
        |r: TenantRow|
            if r.domain == domain {
                TenantRow { requires_auth: auth, ..r }
            } else {
                r
            },
    )
}

/// The effect of one declaration: a known domain keeps its bit and takes
/// the declared flag; an unknown one is appended with the next free bit.
/// `None` when the mask has no bit left.
pub open spec fn declare(rows: Seq<TenantRow>, site: SiteDecl) -> Option<Seq<TenantRow>> {
    if has_domain(rows, site.domain) {
        Some(with_auth(rows, site.domain, site.auth))
    } else {
        match spec_next_bit(max_bit(rows)) {
            Some(bit) => Some(
                rows.push(TenantRow { domain: site.domain, bit, requires_auth: site.auth }),
            ),
            None => None,
        }
    }
}

/// The rows after all of `sites` were declared in order.
pub open spec fn reconciled(rows: Seq<TenantRow>, sites: Seq<SiteDecl>) -> Option<Seq<TenantRow>>
    decreases sites.len(),
{
    if sites.len() == 0 {
        Some(rows)
    } else {
        match reconciled(rows, sites.drop_last()) {
            Some(before) => declare(before, sites.last()),
            None => None,
        }
    }
}

/// `out` keeps every row of `rows` under its domain and bit, and the rows it
/// adds carry strictly increasing bits, all above every bit of `rows`.
pub open spec fn extends(rows: Seq<TenantRow>, out: Seq<TenantRow>) -> bool {
    &&& rows.len() <= out.len()
    &&& forall|i: int|
        0 <= i < rows.len() ==> (#[trigger] out[i]).domain == rows[i].domain && out[i].bit
            == rows[i].bit
    &&& forall|i: int, j: int|
        rows.len() <= i < j < out.len() ==> (#[trigger] out[i]).bit < (#[trigger] out[j]).bit
    &&& forall|i: int, j: int|
        0 <= i < rows.len() <= j < out.len() ==> (#[trigger] rows[i]).bit < (#[trigger] out[j]).bit
}

/// The flag that the last declaration of `domain` in `sites` carries.
pub open spec fn last_auth(sites: Seq<SiteDecl>, domain: Seq<char>) -> Option<bool>
    decreases sites.len(),
{
    if sites.len() == 0 {
        None
    } else if sites.last().domain == domain {
        Some(sites.last().auth)
    } else {
        last_auth(sites.drop_last(), domain)
    }
}

/// The largest bit is at least every bit in use, and is itself in use
/// unless it is 0.
pub proof fn lemma_max_bit(rows: Seq<TenantRow>)
    ensures
        0 <= max_bit(rows),
        forall|i: int| 0 <= i < rows.len() ==> (#[trigger] rows[i]).bit <= max_bit(rows),
        max_bit(rows) == 0 || exists|i: int|
            0 <= i < rows.len() && (#[trigger] rows[i]).bit == max_bit(rows),
    decreases rows.len(),
{
    if rows.len() > 0 {
        let init = rows.drop_last();
        lemma_max_bit(init);
        assert forall|i: int| 0 <= i < rows.len() implies (#[trigger] rows[i]).bit
            <= max_bit(rows) by {
            if i < init.len() {
                assert(init[i] == rows[i]);
            }
        }
        if rows.last().bit > max_bit(init) {
            assert(rows[rows.len() - 1].bit == max_bit(rows));
        } else if max_bit(init) != 0 {
            let i = choose|i: int| 0 <= i < init.len() && (#[trigger] init[i]).bit == max_bit(init);
            assert(rows[i].bit == max_bit(rows));
        }
    }
}

/// In well-formed rows the largest bit is 0 or a tenant bit.
pub proof fn lemma_max_bit_wf(rows: Seq<TenantRow>)
    requires
        rows_wf(rows),
    ensures
        max_bit(rows) == 0 || is_tenant_bit(max_bit(rows)),
        rows.len() > 0 ==> max_bit(rows) > 0,
{
    lemma_max_bit(rows);
    if rows.len() > 0 {
        lemma_tenant_bit_bounds(rows[0].bit);
    }
}

/// Replacing the flag of one domain keeps every domain and bit in place.
pub proof fn lemma_with_auth(rows: Seq<TenantRow>, domain: Seq<char>, auth: bool)
    ensures
        with_auth(rows, domain, auth).len() == rows.len(),
        forall|i: int|
            0 <= i < rows.len() ==> {
                let r = #[trigger] with_auth(rows, domain, auth)[i];
                &&& r.domain == rows[i].domain
                &&& r.bit == rows[i].bit
                &&& r.requires_auth == if rows[i].domain == domain {
                    auth
                } else {
                    rows[i].requires_auth
                }
            },
        rows_wf(rows) ==> rows_wf(with_auth(rows, domain, auth)),
        max_bit(with_auth(rows, domain, auth)) == max_bit(rows),
        forall|d: Seq<char>| has_domain(with_auth(rows, domain, auth), d) == has_domain(rows, d),
    decreases rows.len(),
{
    let out = with_auth(rows, domain, auth);
    if rows_wf(rows) {
        assert forall|i: int| 0 <= i < out.len() implies is_tenant_bit(#[trigger] out[i].bit) by {
            assert(out[i].bit == rows[i].bit);
        }
        assert forall|i: int, j: int| 0 <= i < j < out.len() implies (#[trigger] out[i]).bit
            != (#[trigger] out[j]).bit by {
            assert(rows[i].bit != rows[j].bit);
        }
        assert forall|i: int, j: int| 0 <= i < j < out.len() implies (#[trigger] out[i]).domain
            != (#[trigger] out[j]).domain by {
            assert(rows[i].domain != rows[j].domain);
        }
    }
    if rows.len() > 0 {
        lemma_with_auth(rows.drop_last(), domain, auth);
        assert(out.drop_last() =~= with_auth(rows.drop_last(), domain, auth));
    }
    assert forall|d: Seq<char>| has_domain(out, d) == has_domain(rows, d) by {
        if has_domain(rows, d) {
            let i = choose|i: int| 0 <= i < rows.len() && (#[trigger] rows[i]).domain == d;
            assert(out[i].domain == d);
        }
        if has_domain(out, d) {
            let i = choose|i: int| 0 <= i < out.len() && (#[trigger] out[i]).domain == d;
            assert(rows[i].domain == d);
        }
    }
}

/// One declaration keeps the rows well-formed, keeps every earlier row's
/// domain and bit, and gives a new row a bit above all earlier ones.
pub proof fn lemma_declare(rows: Seq<TenantRow>, site: SiteDecl)
    requires
        rows_wf(rows),
        declare(rows, site) is Some,
    ensures
        ({
            let out = declare(rows, site)->0;
            &&& rows_wf(out)
            &&& has_domain(out, site.domain)
            &&& rows.len() <= out.len() <= rows.len() + 1
            &&& forall|i: int|
                0 <= i < rows.len() ==> (#[trigger] out[i]).domain == rows[i].domain && out[i].bit
                    == rows[i].bit
            &&& out.len() > rows.len() ==> out.last().bit > max_bit(rows) && max_bit(out)
                == out.last().bit
            &&& out.len() == rows.len() ==> max_bit(out) == max_bit(rows)
        }),
{
    let out = declare(rows, site)->0;
    lemma_with_auth(rows, site.domain, site.auth);
    lemma_max_bit(rows);
    lemma_max_bit_wf(rows);
    if !has_domain(rows, site.domain) {
        if max_bit(rows) == 0 {
            lemma_first_bit();
        } else {
            lemma_tenant_bit_bounds(max_bit(rows));
            lemma_next_bit_is_tenant_bit(max_bit(rows));
        }
        assert(out.drop_last() =~= rows);
        assert(out[rows.len() as int].domain == site.domain);
        assert forall|i: int, j: int| 0 <= i < j < out.len() implies (#[trigger] out[i]).bit
            != (#[trigger] out[j]).bit by {
            if j < rows.len() {
                assert(rows[i].bit != rows[j].bit);
            } else {
                assert(rows[i].bit <= max_bit(rows));
            }
        }
        assert forall|i: int, j: int| 0 <= i < j < out.len() implies (#[trigger] out[i]).domain
            != (#[trigger] out[j]).domain by {
            if j < rows.len() {
                assert(rows[i].domain != rows[j].domain);
            } else {
                assert(rows[i].domain != site.domain);
            }
        }
        assert forall|i: int| 0 <= i < out.len() implies is_tenant_bit(#[trigger] out[i].bit) by {
            if i < rows.len() {
                assert(is_tenant_bit(rows[i].bit));
            }
        }
    }
}

/// Reconciliation keeps the rows well-formed and never moves a bit: every
/// earlier row keeps its domain and bit, and the bits it assigns are
/// pairwise distinct, strictly increasing in the order of assignment and
/// above every bit that was in use before.
pub proof fn lemma_reconciled_extends(rows: Seq<TenantRow>, sites: Seq<SiteDecl>)
    requires
        rows_wf(rows),
        reconciled(rows, sites) is Some,
    ensures
        rows_wf(reconciled(rows, sites)->0),
        extends(rows, reconciled(rows, sites)->0),
    decreases sites.len(),
{
    if sites.len() > 0 {
        let before = reconciled(rows, sites.drop_last())->0;
        let out = reconciled(rows, sites)->0;
        lemma_reconciled_extends(rows, sites.drop_last());
        lemma_declare(before, sites.last());
        lemma_max_bit(before);
        assert forall|i: int, j: int| rows.len() <= i < j < out.len() implies (#[trigger] out[i]).bit
            < (#[trigger] out[j]).bit by {
            if j < before.len() {
                assert(before[i].bit < before[j].bit);
            } else {
                assert(before[i].bit <= max_bit(before));
            }
        }
        assert forall|i: int, j: int| 0 <= i < rows.len() <= j < out.len() implies (
            #[trigger] rows[i]
        ).bit < (#[trigger] out[j]).bit by {
            if j < before.len() {
                assert(rows[i].bit < before[j].bit);
            } else {
                assert(before[i].bit <= max_bit(before));
            }
        }
    }
}

/// After reconciliation every declared domain is registered, and each row
/// carries the flag of the last declaration of its domain, or its earlier
/// flag where the domain was not declared.
pub proof fn lemma_reconciled_flags(rows: Seq<TenantRow>, sites: Seq<SiteDecl>)
    requires
        reconciled(rows, sites) is Some,
    ensures
        forall|k: int|
            0 <= k < sites.len() ==> has_domain(
                reconciled(rows, sites)->0,
                (#[trigger] sites[k]).domain,
            ),
        forall|i: int|
            0 <= i < reconciled(rows, sites)->0.len() ==> match last_auth(
                sites,
                (#[trigger] reconciled(rows, sites)->0[i]).domain,
            ) {
                Some(auth) => reconciled(rows, sites)->0[i].requires_auth == auth,
                None => i < rows.len() && reconciled(rows, sites)->0[i] == rows[i],
            },
    decreases sites.len(),
{
    let out = reconciled(rows, sites)->0;
    if sites.len() > 0 {
        let init = sites.drop_last();
        let site = sites.last();
        let before = reconciled(rows, init)->0;
        lemma_reconciled_flags(rows, init);
        lemma_with_auth(before, site.domain, site.auth);
        if !has_domain(before, site.domain) {
            assert(out[before.len() as int].domain == site.domain);
        }
        assert forall|k: int| 0 <= k < sites.len() implies has_domain(
            out,
            (#[trigger] sites[k]).domain,
        ) by {
            if k < init.len() {
                assert(init[k] == sites[k]);
                let i = choose|i: int|
                    0 <= i < before.len() && (#[trigger] before[i]).domain == sites[k].domain;
                assert(out[i].domain == sites[k].domain);
            }
        }
        assert forall|i: int| 0 <= i < out.len() implies match last_auth(
            sites,
            (#[trigger] out[i]).domain,
        ) {
            Some(auth) => out[i].requires_auth == auth,
            None => i < rows.len() && out[i] == rows[i],
        } by {
            if i < before.len() {
                assert(before[i].domain == out[i].domain);
            }
        }
    }
}

/// Where every declared domain is registered already, reconciliation
/// succeeds, adds no row and moves no bit: it only sets flags.
pub proof fn lemma_reconciled_known(rows: Seq<TenantRow>, sites: Seq<SiteDecl>)
    requires
        forall|k: int| 0 <= k < sites.len() ==> has_domain(rows, (#[trigger] sites[k]).domain),
    ensures
        reconciled(rows, sites) is Some,
        reconciled(rows, sites)->0.len() == rows.len(),
        forall|i: int|
            0 <= i < rows.len() ==> {
                let r = #[trigger] reconciled(rows, sites)->0[i];
                &&& r.domain == rows[i].domain
                &&& r.bit == rows[i].bit
                &&& r.requires_auth == match last_auth(sites, rows[i].domain) {
                    Some(auth) => auth,
                    None => rows[i].requires_auth,
                }
            },
    decreases sites.len(),
{
    if sites.len() > 0 {
        let init = sites.drop_last();
        let site = sites.last();
        assert forall|k: int| 0 <= k < init.len() implies has_domain(
            rows,
            (#[trigger] init[k]).domain,
        ) by {
            assert(init[k] == sites[k]);
        }
        lemma_reconciled_known(rows, init);
        let before = reconciled(rows, init)->0;
        lemma_with_auth(before, site.domain, site.auth);
        let i = choose|i: int| 0 <= i < rows.len() && (#[trigger] rows[i]).domain == site.domain;
        assert(before[i].domain == site.domain);
    }
}

/// Two reconciliations in a row are one reconciliation of both lists of
/// declarations in a row, so that what holds of one run holds of every
/// sequence of runs.
pub proof fn lemma_reconciled_in_runs(
    rows: Seq<TenantRow>,
    first: Seq<SiteDecl>,
    second: Seq<SiteDecl>,
)
    ensures
        reconciled(rows, first + second) == match reconciled(rows, first) {
            Some(between) => reconciled(between, second),
            None => None,
        },
    decreases second.len(),
{
    if second.len() == 0 {
        assert(first + second =~= first);
    } else {
        assert((first + second).drop_last() =~= first + second.drop_last());
        assert((first + second).last() == second.last());
        lemma_reconciled_in_runs(rows, first, second.drop_last());
    }
}

/// Reconciling a second time with the same declarations changes nothing.
pub proof fn lemma_reconcile_idempotent(rows: Seq<TenantRow>, sites: Seq<SiteDecl>)
    requires
        reconciled(rows, sites) is Some,
    ensures
        reconciled(reconciled(rows, sites)->0, sites) == reconciled(rows, sites),
{
    let out = reconciled(rows, sites)->0;
    lemma_reconciled_flags(rows, sites);
    lemma_reconciled_known(out, sites);
    let again = reconciled(out, sites)->0;
    assert forall|i: int| 0 <= i < out.len() implies again[i] == out[i] by {
        assert(again[i].domain == out[i].domain);
    }
    assert(again =~= out);
}

/// A prefix of the declarations that cannot be served makes the whole list
/// fail.
pub proof fn lemma_reconciled_prefix_fails(rows: Seq<TenantRow>, sites: Seq<SiteDecl>, k: int)
    requires
        0 <= k <= sites.len(),
        reconciled(rows, sites.take(k)) is None,
    ensures
        reconciled(rows, sites) is None,
    decreases sites.len() - k,
{
    if k < sites.len() {
        assert(sites.take(k + 1).drop_last() =~= sites.take(k));
        lemma_reconciled_prefix_fails(rows, sites, k + 1);
    } else {
        assert(sites.take(k) =~= sites);
    }
}

/// The effect of registering one new tenant: it is appended with the next
/// free bit, unless its domain is taken or the mask has no bit left.
pub open spec fn created(rows: Seq<TenantRow>, domain: Seq<char>, auth: bool) -> Result<
    Seq<TenantRow>,
    RegistryError,
> {
    if has_domain(rows, domain) {
        Err(RegistryError::DomainTaken)
    } else {
        match spec_next_bit(max_bit(rows)) {
            Some(bit) => Ok(rows.push(TenantRow { domain, bit, requires_auth: auth })),
            None => Err(RegistryError::ConfigurationError),
        }
    }
}

/// The rows to persist after the declared tenants were reconciled against
/// the persisted ones.
pub open spec fn synced(rows: Seq<TenantRow>, sites: Seq<SiteDecl>) -> Result<
    Seq<TenantRow>,
    RegistryError,
> {
    if !rows_wf(rows) {
        Err(RegistryError::AllocationConflict)
    } else {
        match reconciled(rows, sites) {
            Some(out) => Ok(out),
            None => Err(RegistryError::ConfigurationError),
        }
    }
}

impl Tenant {
    /// A tenant from a persisted row, whose flag may be missing and then
    /// counts as off.
    pub fn from_row(domain: String, bit: i32, requires_auth: Option<bool>) -> (r: Tenant)
        ensures
            r@ == (TenantRow {
                domain: domain@,
                bit,
                requires_auth: requires_auth == Some(true),
            }),
    {
        let flag = match requires_auth {
            Some(b) => b,
            None => false,
        };
        Tenant { domain, bit, requires_auth: flag }
    }
}

/// The registered tenants. No two share a domain or a bit, and every bit is
/// a single usable bit of the mask.
#[derive(Debug)]
pub struct TenantRegistry {
    tenants: Vec<Tenant>,
}

impl View for TenantRegistry {
    type V = Seq<TenantRow>;

    closed spec fn view(&self) -> Seq<TenantRow> {
        rows_of(self.tenants@)
    }
}

/// The row registered under `domain`, if there is one.
pub open spec fn row_for(rows: Seq<TenantRow>, domain: Seq<char>) -> Option<TenantRow> {
    if has_domain(rows, domain) {
        Some(rows[choose|i: int| 0 <= i < rows.len() && (#[trigger] rows[i]).domain == domain])
    } else {
        None
    }
}

fn position(tenants: &Vec<Tenant>, domain: &String) -> (r: Option<usize>)
    ensures
        match r {
            Some(i) => i < tenants.len() && tenants[i as int]@.domain == domain@,
            None => !has_domain(rows_of(tenants@), domain@),
        },
{
    let mut i: usize = 0;
    while i < tenants.len()
        invariant
            i <= tenants.len(),
            forall|j: int| 0 <= j < i ==> (#[trigger] rows_of(tenants@)[j]).domain != domain@,
        decreases tenants.len() - i,
    {
        if tenants[i].domain == *domain {
            return Some(i);
        }
        i = i + 1;
    }
    None
}

fn largest_bit(tenants: &Vec<Tenant>) -> (r: i32)
    ensures
        r == max_bit(rows_of(tenants@)),
{
    let ghost rows = rows_of(tenants@);
    let mut m: i32 = 0;
    let mut i: usize = 0;
    while i < tenants.len()
        invariant
            i <= tenants.len(),
            rows == rows_of(tenants@),
            m == max_bit(rows.take(i as int)),
        decreases tenants.len() - i,
    {
        proof {
            assert(rows.take(i + 1).drop_last() =~= rows.take(i as int));
            assert(rows.take(i + 1).last() == tenants[i as int]@);
        }
        if tenants[i].bit > m {
            m = tenants[i].bit;
        }
        i = i + 1;
    }
    proof {
        assert(rows.take(i as int) =~= rows);
    }
    m
}

fn set_auth(tenants: &mut Vec<Tenant>, domain: &String, auth: bool)
    ensures
        rows_of(final(tenants)@) == with_auth(rows_of(old(tenants)@), domain@, auth),
{
    let ghost before = rows_of(tenants@);
    let mut i: usize = 0;
    while i < tenants.len()
        invariant
            i <= tenants.len(),
            tenants.len() == before.len(),
            forall|j: int|
                0 <= j < i ==> (#[trigger] rows_of(tenants@)[j]) == with_auth(
                    before,
                    domain@,
                    auth,
                )[j],
            forall|j: int| i <= j < tenants.len() ==> (#[trigger] rows_of(tenants@)[j]) == before[j],
        decreases tenants.len() - i,
    {
        let ghost prev = tenants@;
        if tenants[i].domain == *domain {
            let updated = Tenant {
                domain: tenants[i].domain.clone(),
                bit: tenants[i].bit,
                requires_auth: auth,
            };
            tenants.set(i, updated);
        }
        proof {
            assert(rows_of(prev)[i as int] == before[i as int]);
            assert forall|j: int| 0 <= j < i + 1 implies (#[trigger] rows_of(tenants@)[j])
                == with_auth(before, domain@, auth)[j] by {
                if j < i {
                    assert(rows_of(prev)[j] == with_auth(before, domain@, auth)[j]);
                }
            }
            assert forall|j: int| i + 1 <= j < tenants.len() implies (#[trigger] rows_of(
                tenants@,
            )[j]) == before[j] by {
                assert(rows_of(prev)[j] == before[j]);
            }
        }
        i = i + 1;
    }
    proof {
        assert(rows_of(tenants@) =~= with_auth(before, domain@, auth));
    }
}

fn copy_tenants(tenants: &Vec<Tenant>) -> (r: Vec<Tenant>)
    ensures
        rows_of(r@) == rows_of(tenants@),
{
    let mut out: Vec<Tenant> = Vec::new();
    let mut i: usize = 0;
    while i < tenants.len()
        invariant
            i <= tenants.len(),
            out.len() == i,
            forall|j: int| 0 <= j < i ==> (#[trigger] out[j])@ == tenants[j]@,
        decreases tenants.len() - i,
    {
        out.push(
            Tenant {
                domain: tenants[i].domain.clone(),
                bit: tenants[i].bit,
                requires_auth: tenants[i].requires_auth,
            },
        );
        i = i + 1;
    }
    proof {
        assert(rows_of(out@) =~= rows_of(tenants@));
    }
    out
}

fn check_rows(tenants: &Vec<Tenant>) -> (r: bool)
    ensures
        r == rows_wf(rows_of(tenants@)),
{
    let ghost rows = rows_of(tenants@);
    let mut i: usize = 0;
    while i < tenants.len()
        invariant
            i <= tenants.len(),
            rows == rows_of(tenants@),
            rows_wf(rows.take(i as int)),
        decreases tenants.len() - i,
    {
        if !check_tenant_bit(tenants[i].bit) {
            proof {
                assert(rows[i as int].bit == tenants[i as int].bit);
            }
            return false;
        }
        let mut j: usize = 0;
        while j < i
            invariant
                j <= i,
                i < tenants.len(),
                rows == rows_of(tenants@),
                forall|k: int|
                    0 <= k < j ==> (#[trigger] rows[k]).bit != rows[i as int].bit && rows[k].domain
                        != rows[i as int].domain,
            decreases i - j,
        {
            if tenants[j].bit == tenants[i].bit || tenants[j].domain == tenants[i].domain {
                proof {
                    assert(rows[j as int] == tenants[j as int]@);
                    assert(rows[i as int] == tenants[i as int]@);
                }
                return false;
            }
            j = j + 1;
        }
        proof {
            let next = rows.take(i + 1);
            assert forall|a: int, b: int| 0 <= a < b < next.len() implies (#[trigger] next[a]).bit
                != (#[trigger] next[b]).bit && next[a].domain != next[b].domain by {
                if b < i {
                    assert(rows.take(i as int)[a].bit != rows.take(i as int)[b].bit);
                    assert(rows.take(i as int)[a].domain != rows.take(i as int)[b].domain);
                } else {
                    assert(rows[a].bit != rows[i as int].bit);
                }
            }
            assert forall|a: int| 0 <= a < next.len() implies is_tenant_bit(
                #[trigger] next[a].bit,
            ) by {
                if a < i {
                    assert(is_tenant_bit(rows.take(i as int)[a].bit));
                }
            }
        }
        i = i + 1;
    }
    proof {
        assert(rows.take(i as int) =~= rows);
    }
    true
}

impl TenantRegistry {
    #[verifier::type_invariant]
    spec fn inv(self) -> bool {
        rows_wf(rows_of(self.tenants@))
    }

    /// A registry without tenants.
    pub fn new() -> (r: Self)
        ensures
            r@ == Seq::<TenantRow>::empty(),
    {
        let tenants: Vec<Tenant> = Vec::new();
        proof {
            assert(rows_of(tenants@) =~= Seq::<TenantRow>::empty());
        }
        TenantRegistry { tenants }
    }

    /// Takes over persisted rows, or refuses them where two rows share a
    /// domain or a bit or a row's bit is not a single usable bit.
    pub fn from_rows(rows: Vec<Tenant>) -> (r: Result<Self, RegistryError>)
        ensures
            match r {
                Ok(registry) => rows_wf(rows_of(rows@)) && registry@ == rows_of(rows@),
                Err(e) => e == RegistryError::AllocationConflict && !rows_wf(rows_of(rows@)),
            },
    {
        if check_rows(&rows) {
            Ok(TenantRegistry { tenants: rows })
        } else {
            Err(RegistryError::AllocationConflict)
        }
    }

    /// The registered tenants, oldest first.
    pub fn tenants(&self) -> (r: &Vec<Tenant>)
        ensures
            rows_of(r@) == self@,
            rows_wf(self@),
    {
        proof {
            use_type_invariant(self);
        }
        &self.tenants
    }

    /// Gives up the registry for its rows, oldest first.
    pub fn into_tenants(self) -> (r: Vec<Tenant>)
        ensures
            rows_of(r@) == self@,
            rows_wf(self@),
    {
        proof {
            use_type_invariant(&self);
        }
        self.tenants
    }

    /// The number of registered tenants.
    pub fn len(&self) -> (r: usize)
        ensures
            r == self@.len(),
    {
        self.tenants.len()
    }

    /// The largest bit in use, 0 for an empty registry.
    pub fn max_bit(&self) -> (r: i32)
        ensures
            r == max_bit(self@),
    {
        largest_bit(&self.tenants)
    }

    /// Finds the tenant registered under `domain`.
    pub fn lookup(&self, domain: &str) -> (r: Option<&Tenant>)
        ensures
            rows_wf(self@),
            match r {
                Some(t) => row_for(self@, domain@) == Some(t@),
                None => row_for(self@, domain@) is None,
            },
    {
        proof {
            use_type_invariant(self);
        }
        let key = domain.to_owned();
        match position(&self.tenants, &key) {
            Some(i) => {
                proof {
                    let rows = rows_of(self.tenants@);
                    assert(rows[i as int].domain == domain@);
                    let c = choose|c: int|
                        0 <= c < rows.len() && (#[trigger] rows[c]).domain == domain@;
                    assert(c == i) by {
                        if c < i {
                            assert(rows[c].domain != rows[i as int].domain);
                        } else if i < c {
                            assert(rows[i as int].domain != rows[c].domain);
                        }
                    }
                }
                Some(&self.tenants[i])
            },
            None => None,
        }
    }

    /// Registers a new tenant under the next free bit and returns that bit.
    /// Nothing changes where the domain is taken or the mask is full.
    pub fn create_site(
        &mut self,
        domain: String,
        requires_auth: bool,
    ) -> (r: Result<i32, RegistryError>)
        ensures
            rows_wf(old(self)@),
            match created(old(self)@, domain@, requires_auth) {
                Ok(rows) => r == Ok::<i32, RegistryError>(rows.last().bit) && final(self)@ == rows
                    && rows_wf(rows) && extends(old(self)@, rows),
                Err(e) => r == Err::<i32, RegistryError>(e) && final(self)@ == old(self)@,
            },
            r is Ok ==> is_tenant_bit(r->Ok_0) && r->Ok_0 > max_bit(old(self)@),
    {
        proof {
            use_type_invariant(&*self);
            lemma_max_bit(self@);
        }
        let ghost before = self@;
        let ghost site = SiteDecl { domain: domain@, auth: requires_auth };
        if let Some(at) = position(&self.tenants, &domain) {
            proof {
                assert(before[at as int].domain == domain@);
            }
            return Err(RegistryError::DomainTaken);
        }
        match next_bit(largest_bit(&self.tenants)) {
            Ok(bit) => {
                let mut work = copy_tenants(&self.tenants);
                work.push(Tenant { domain, bit, requires_auth });
                proof {
                    lemma_declare(before, site);
                    assert(rows_of(work@) =~= declare(before, site)->0);
                }
                self.tenants = work;
                Ok(bit)
            },
            Err(_) => Err(RegistryError::ConfigurationError),
        }
    }

    /// Brings the registry in line with the declared tenants, in order: a
    /// registered domain keeps its bit and takes the declared flag, a new
    /// domain gets the next free bit. Tenants that are no longer declared
    /// stay. Either every declaration is applied or, where the mask runs
    /// out of bits, none is.
    pub fn reconcile(&mut self, sites: &Vec<SiteConfig>) -> (r: Result<(), RegistryError>)
        ensures
            rows_wf(old(self)@),
            match reconciled(old(self)@, declared(sites@)) {
                Some(rows) => r is Ok && final(self)@ == rows && rows_wf(rows) && extends(
                    old(self)@,
                    rows,
                ),
                None => r == Err::<(), RegistryError>(RegistryError::ConfigurationError)
                    && final(self)@ == old(self)@,
            },
    {
        proof {
            use_type_invariant(&*self);
        }
        let ghost start = self@;
        let ghost decls = declared(sites@);
        let mut work = copy_tenants(&self.tenants);
        let mut i: usize = 0;
        while i < sites.len()
            invariant
                i <= sites.len(),
                decls == declared(sites@),
                start == old(self)@,
                self@ == start,
                rows_wf(start),
                rows_wf(rows_of(work@)),
                reconciled(start, decls.take(i as int)) == Some(rows_of(work@)),
            decreases sites.len() - i,
        {
            let site = &sites[i];
            proof {
                assert(decls.take(i + 1).drop_last() =~= decls.take(i as int));
                assert(decls.take(i + 1).last() == site@);
            }
            let ghost before = rows_of(work@);
            match position(&work, &site.domain) {
                Some(at) => {
                    proof {
                        assert(before[at as int].domain == site@.domain);
                    }
                    set_auth(&mut work, &site.domain, site.auth);
                },
                None => {
                    match next_bit(largest_bit(&work)) {
                        Ok(bit) => {
                            work.push(
                                Tenant {
                                    domain: site.domain.clone(),
                                    bit,
                                    requires_auth: site.auth,
                                },
                            );
                            proof {
                                assert(rows_of(work@) =~= before.push(
                                    TenantRow {
                                        domain: site@.domain,
                                        bit,
                                        requires_auth: site@.auth,
                                    },
                                ));
                            }
                        },
                        Err(_) => {
                            proof {
                                lemma_reconciled_prefix_fails(start, decls, i + 1);
                            }
                            return Err(RegistryError::ConfigurationError);
                        },
                    }
                },
            }
            proof {
                lemma_declare(before, site@);
            }
            i = i + 1;
        }
        proof {
            assert(decls.take(i as int) =~= decls);
            lemma_reconciled_extends(start, decls);
        }
        self.tenants = work;
        Ok(())
    }
}

/// Reconciles the declared tenants of `config` against the persisted rows
/// and returns the rows to persist. Persisted rows that break the
/// one-bit-per-tenant discipline are refused before anything is assigned.
pub fn sync_sites(
    existing: Vec<Tenant>,
    config: &AppConfig,
) -> (r: Result<Vec<Tenant>, RegistryError>)
    ensures
        match synced(rows_of(existing@), declared(config.sites@)) {
            Ok(rows) => r is Ok && rows_of(r->Ok_0@) == rows && rows_wf(rows) && extends(
                rows_of(existing@),
                rows,
            ),
            Err(e) => r == Err::<Vec<Tenant>, RegistryError>(e),
        },
{
    let mut registry = match TenantRegistry::from_rows(existing) {
        Ok(registry) => registry,
        Err(e) => {
            return Err(e);
        },
    };
    match registry.reconcile(&config.sites) {
        Ok(()) => Ok(registry.into_tenants()),
        Err(e) => Err(e),
    }
}

} // verus!
