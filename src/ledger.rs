use vstd::prelude::*;
use vstd::pervasive::VecAdditionalExecFns;
use vstd::arithmetic::div_mod::{lemma_fundamental_div_mod, lemma_mod_pos_bound, lemma_div_is_ordered, lemma_div_multiples_vanish};
use crate::key::AccountKey;
use crate::state::LenderShare;

verus! {

/// Basis points in a whole (100%).
pub const WHOLE_BPS: u64 = 10_000;

/// The total contributed over a sequence of shares.
pub open spec fn sum_principal(s: Seq<LenderShare>) -> int
    decreases s.len(),
{
    if s.len() == 0 {
        0
    } else {
        sum_principal(s.drop_last()) + s.last().principal
    }
}

/// The total of the pro-rata parts over a sequence of shares.
pub open spec fn sum_bps(s: Seq<LenderShare>) -> int
    decreases s.len(),
{
    if s.len() == 0 {
        0
    } else {
        sum_bps(s.drop_last()) + s.last().pro_rata_bps
    }
}

/// A contribution's part of `total`, in basis points, rounded down.
pub open spec fn floor_bps(principal: int, total: int) -> int {
    principal * WHOLE_BPS / total
}

/// The rounded-down parts of all shares, added up.
pub open spec fn sum_floor_bps(s: Seq<LenderShare>, total: int) -> int
    decreases s.len(),
{
    if s.len() == 0 {
        0
    } else {
        sum_floor_bps(s.drop_last(), total) + floor_bps(s.last().principal as int, total)
    }
}

/// The position of the largest contributor; among equal contributions, the first.
pub open spec fn largest_index(s: Seq<LenderShare>) -> int
    decreases s.len(),
{
    if s.len() <= 1 {
        0
    } else {
        let k = largest_index(s.drop_last());
        if s.last().principal > s[k].principal {
            s.len() - 1
        } else {
            k
        }
    }
}

/// The shares with their pro-rata parts of `total` set: each gets its
/// rounded-down part, and the largest contributor also absorbs what rounding
/// left over, so that the parts make up the whole.
pub open spec fn pro_rata_shares(s: Seq<LenderShare>, total: int) -> Seq<LenderShare> {
    let rest = WHOLE_BPS - sum_floor_bps(s, total);
    Seq::new(
        s.len(),
        |i: int|
            LenderShare {
                pro_rata_bps: (floor_bps(s[i].principal as int, total) + if i == largest_index(s) {
                    rest
                } else {
                    0
                }) as u32,
                ..s[i]
            },
    )
}

/// Whether `lender` holds a share.
pub open spec fn has_share(s: Seq<LenderShare>, lender: AccountKey) -> bool {
    exists|i: int| 0 <= i < s.len() && s[i].lender == lender
}

/// The position of `lender`'s share, when it holds one.
pub open spec fn share_index(s: Seq<LenderShare>, lender: AccountKey) -> int {
    choose|i: int| 0 <= i < s.len() && s[i].lender == lender
}

/// No lender holds two shares.
pub open spec fn lenders_unique(s: Seq<LenderShare>) -> bool {
    forall|i: int, j: int|
        0 <= i < s.len() && 0 <= j < s.len() && s[i].lender == s[j].lender ==> i == j
}

/// The shares after `lender` contributes `amount`: its share grows, or a new
/// share is opened for it at the end.
pub open spec fn credited(s: Seq<LenderShare>, loan_id: u64, lender: AccountKey, amount: u64) -> Seq<
    LenderShare,
> {
    if has_share(s, lender) {
        let i = share_index(s, lender);
        s.update(i, LenderShare { principal: (s[i].principal + amount) as u64, ..s[i] })
    } else {
        s.push(
            LenderShare {
                lender,
                loan: loan_id,
                principal: amount,
                repaid_principal: 0,
                repaid_interest: 0,
                pro_rata_bps: 0,
                payout_claimed: false,
            },
        )
    }
}

pub proof fn lemma_share_le_sum(s: Seq<LenderShare>, i: int)
    requires
        0 <= i < s.len(),
    ensures
        s[i].principal <= sum_principal(s),
        0 <= sum_principal(s),
    decreases s.len(),
{
    lemma_sum_principal_nonneg(s.drop_last());
    if i < s.len() - 1 {
        lemma_share_le_sum(s.drop_last(), i);
    }
}

pub proof fn lemma_sum_principal_nonneg(s: Seq<LenderShare>)
    ensures
        0 <= sum_principal(s),
    decreases s.len(),
{
    if s.len() > 0 {
        lemma_sum_principal_nonneg(s.drop_last());
    }
}

pub proof fn lemma_prefix_principal_le(s: Seq<LenderShare>, i: int)
    requires
        0 <= i <= s.len(),
    ensures
        sum_principal(s.take(i)) <= sum_principal(s),
    decreases s.len(),
{
    if i == s.len() {
        assert(s.take(i) =~= s);
    } else {
        assert(s.take(i) =~= s.drop_last().take(i));
        lemma_prefix_principal_le(s.drop_last(), i);
    }
}

pub proof fn lemma_sum_principal_update(s: Seq<LenderShare>, i: int, v: LenderShare)
    requires
        0 <= i < s.len(),
    ensures
        sum_principal(s.update(i, v)) == sum_principal(s) - s[i].principal + v.principal,
    decreases s.len(),
{
    let t = s.update(i, v);
    if i == s.len() - 1 {
        assert(t.drop_last() =~= s.drop_last());
    } else {
        assert(t.drop_last() =~= s.drop_last().update(i, v));
        lemma_sum_principal_update(s.drop_last(), i, v);
    }
}

pub proof fn lemma_sum_principal_push(s: Seq<LenderShare>, v: LenderShare)
    ensures
        sum_principal(s.push(v)) == sum_principal(s) + v.principal,
{
    assert(s.push(v).drop_last() =~= s);
}

pub proof fn lemma_prefix_bps_le(s: Seq<LenderShare>, i: int)
    requires
        0 <= i <= s.len(),
    ensures
        sum_bps(s.take(i)) <= sum_bps(s),
    decreases s.len(),
{
    if i == s.len() {
        assert(s.take(i) =~= s);
    } else {
        assert(s.take(i) =~= s.drop_last().take(i));
        lemma_prefix_bps_le(s.drop_last(), i);
    }
}

/// Rounding down never gives more than the exact part: `floor * total <= principal * 10000`.
pub proof fn lemma_floor_bps_below(principal: int, total: int)
    requires
        principal >= 0,
        total > 0,
    ensures
        floor_bps(principal, total) * total <= principal * WHOLE_BPS,
        floor_bps(principal, total) >= 0,
{
    let x = principal * WHOLE_BPS;
    lemma_fundamental_div_mod(x, total);
    lemma_mod_pos_bound(x, total);
    let q = x / total;
    assert(q >= 0 && q * total <= x) by (nonlinear_arith)
        requires
            x == total * q + x % total,
            0 <= x % total < total,
            x >= 0,
            total > 0,
    ;
}

/// A contribution no larger than the total is at most the whole.
pub proof fn lemma_floor_bps_at_most_whole(principal: int, total: int)
    requires
        0 <= principal <= total,
        total > 0,
    ensures
        0 <= floor_bps(principal, total) <= WHOLE_BPS,
{
    lemma_floor_bps_below(principal, total);
    lemma_div_is_ordered(principal * WHOLE_BPS, total * WHOLE_BPS, total);
    assert(total * WHOLE_BPS == WHOLE_BPS * total);
    lemma_div_multiples_vanish(WHOLE_BPS as int, total);
}

pub proof fn lemma_sum_floor_bound(s: Seq<LenderShare>, total: int)
    requires
        total > 0,
    ensures
        sum_floor_bps(s, total) * total <= WHOLE_BPS * sum_principal(s),
        sum_floor_bps(s, total) >= 0,
    decreases s.len(),
{
    if s.len() > 0 {
        lemma_sum_floor_bound(s.drop_last(), total);
        let p = s.last().principal as int;
        lemma_floor_bps_below(p, total);
        let a = sum_floor_bps(s.drop_last(), total);
        let f = floor_bps(p, total);
        let b = sum_principal(s.drop_last());
        assert((a + f) * total <= WHOLE_BPS * (b + p)) by (nonlinear_arith)
            requires
                a * total <= WHOLE_BPS * b,
                f * total <= p * WHOLE_BPS,
        ;
    }
}

/// When the shares make up `total`, their rounded-down parts make up at most the whole.
pub proof fn lemma_sum_floor_at_most_whole(s: Seq<LenderShare>, total: int, i: int)
    requires
        total > 0,
        sum_principal(s) == total,
        0 <= i <= s.len(),
    ensures
        0 <= sum_floor_bps(s.take(i), total) <= WHOLE_BPS,
{
    lemma_sum_floor_bound(s.take(i), total);
    lemma_prefix_principal_le(s, i);
    lemma_sum_principal_nonneg(s.take(i));
    let a = sum_floor_bps(s.take(i), total);
    let b = sum_principal(s.take(i));
    assert(a <= WHOLE_BPS) by (nonlinear_arith)
        requires
            a * total <= WHOLE_BPS * b,
            b <= total,
            total > 0,
    ;
}

pub proof fn lemma_floor_le_sum_floor(s: Seq<LenderShare>, total: int, i: int)
    requires
        total > 0,
        0 <= i < s.len(),
    ensures
        floor_bps(s[i].principal as int, total) <= sum_floor_bps(s, total),
    decreases s.len(),
{
    lemma_sum_floor_bound(s.drop_last(), total);
    lemma_floor_bps_below(s.last().principal as int, total);
    if i < s.len() - 1 {
        lemma_floor_le_sum_floor(s.drop_last(), total, i);
    }
}

pub proof fn lemma_largest_in_range(s: Seq<LenderShare>)
    requires
        s.len() > 0,
    ensures
        0 <= largest_index(s) < s.len(),
    decreases s.len(),
{
    if s.len() > 1 {
        lemma_largest_in_range(s.drop_last());
    }
}

/// Each contribution's rounded-down part, with the remainder added at the
/// largest contributor, stays within the whole.
pub proof fn lemma_pro_rata_entry(s: Seq<LenderShare>, total: int, i: int)
    requires
        total > 0,
        sum_principal(s) == total,
        0 <= i < s.len(),
    ensures
        pro_rata_shares(s, total)[i].pro_rata_bps == floor_bps(s[i].principal as int, total) + if i
            == largest_index(s) {
            WHOLE_BPS - sum_floor_bps(s, total)
        } else {
            0
        },
{
    lemma_share_le_sum(s, i);
    lemma_floor_bps_at_most_whole(s[i].principal as int, total);
    lemma_floor_le_sum_floor(s, total, i);
    lemma_sum_floor_at_most_whole(s, total, s.len() as int);
    assert(s.take(s.len() as int) =~= s);
}

proof fn lemma_pro_rata_prefix(s: Seq<LenderShare>, total: int, j: int)
    requires
        total > 0,
        sum_principal(s) == total,
        0 <= j <= s.len(),
    ensures
        sum_bps(pro_rata_shares(s, total).take(j)) == sum_floor_bps(s.take(j), total) + if largest_index(s) < j {
            WHOLE_BPS - sum_floor_bps(s, total)
        } else {
            0
        },
    decreases j,
{
    let t = pro_rata_shares(s, total);
    if j > 0 {
        lemma_pro_rata_prefix(s, total, j - 1);
        assert(t.take(j).drop_last() =~= t.take(j - 1));
        assert(s.take(j).drop_last() =~= s.take(j - 1));
        assert(t.take(j).last() == t[j - 1]);
        assert(s.take(j).last() == s[j - 1]);
        lemma_pro_rata_entry(s, total, j - 1);
        assert(sum_bps(t.take(j)) == sum_bps(t.take(j - 1)) + t[j - 1].pro_rata_bps);
        assert(sum_floor_bps(s.take(j), total) == sum_floor_bps(s.take(j - 1), total) + floor_bps(
            s[j - 1].principal as int,
            total,
        ));
    } else {
        assert(t.take(0) =~= Seq::<LenderShare>::empty());
        assert(s.take(0) =~= Seq::<LenderShare>::empty());
        if s.len() > 0 {
            lemma_largest_in_range(s);
        }
    }
}

/// The pro-rata parts of a loan's shares make up exactly the whole, 10,000
/// basis points, whenever the shares make up the total they are parts of.
pub proof fn lemma_pro_rata_sums_to_whole(s: Seq<LenderShare>, total: int)
    requires
        total > 0,
        sum_principal(s) == total,
    ensures
        sum_bps(pro_rata_shares(s, total)) == WHOLE_BPS,
{
    if s.len() == 0 {
        assert(false);
    }
    lemma_pro_rata_prefix(s, total, s.len() as int);
    lemma_largest_in_range(s);
    assert(pro_rata_shares(s, total).take(s.len() as int) =~= pro_rata_shares(s, total));
    assert(s.take(s.len() as int) =~= s);
}

/// Shares that agree on every contribution add up to the same total.
pub proof fn lemma_same_principals(a: Seq<LenderShare>, b: Seq<LenderShare>)
    requires
        a.len() == b.len(),
        forall|i: int| 0 <= i < a.len() ==> #[trigger] a[i].principal == b[i].principal,
    ensures
        sum_principal(a) == sum_principal(b),
    decreases a.len(),
{
    if a.len() > 0 {
        lemma_same_principals(a.drop_last(), b.drop_last());
    }
}

/// Shares that agree on every pro-rata part add up to the same total of parts.
pub proof fn lemma_same_bps(a: Seq<LenderShare>, b: Seq<LenderShare>)
    requires
        a.len() == b.len(),
        forall|i: int| 0 <= i < a.len() ==> #[trigger] a[i].pro_rata_bps == b[i].pro_rata_bps,
    ensures
        sum_bps(a) == sum_bps(b),
    decreases a.len(),
{
    if a.len() > 0 {
        lemma_same_bps(a.drop_last(), b.drop_last());
    }
}

pub proof fn lemma_bps_le_sum(s: Seq<LenderShare>, i: int)
    requires
        0 <= i < s.len(),
    ensures
        s[i].pro_rata_bps <= sum_bps(s),
    decreases s.len(),
{
    lemma_sum_bps_nonneg(s.drop_last());
    if i < s.len() - 1 {
        lemma_bps_le_sum(s.drop_last(), i);
    }
}

pub proof fn lemma_sum_bps_nonneg(s: Seq<LenderShare>)
    ensures
        0 <= sum_bps(s),
    decreases s.len(),
{
    if s.len() > 0 {
        lemma_sum_bps_nonneg(s.drop_last());
    }
}

/// Every share belongs to the loan `loan_id`.
pub open spec fn all_of_loan(s: Seq<LenderShare>, loan_id: u64) -> bool {
    forall|i: int| 0 <= i < s.len() ==> #[trigger] s[i].loan == loan_id
}

/// Fixing the pro-rata parts keeps every contribution, lender and loan.
pub proof fn lemma_pro_rata_keeps_shares(s: Seq<LenderShare>, total: int, loan_id: u64)
    requires
        lenders_unique(s),
        all_of_loan(s, loan_id),
    ensures
        sum_principal(pro_rata_shares(s, total)) == sum_principal(s),
        lenders_unique(pro_rata_shares(s, total)),
        all_of_loan(pro_rata_shares(s, total), loan_id),
{
    let t = pro_rata_shares(s, total);
    assert forall|i: int| 0 <= i < t.len() implies #[trigger] t[i].principal == s[i].principal by {}
    lemma_same_principals(t, s);
    assert forall|i: int, j: int|
        0 <= i < t.len() && 0 <= j < t.len() && t[i].lender == t[j].lender implies i == j by {
        assert(s[i].lender == t[i].lender && s[j].lender == t[j].lender);
    }
}

/// A contribution adds its amount to the total and keeps lenders unique and
/// every share on the same loan.
pub proof fn lemma_credited(s: Seq<LenderShare>, loan_id: u64, lender: AccountKey, amount: u64)
    requires
        lenders_unique(s),
        all_of_loan(s, loan_id),
        sum_principal(s) + amount <= u64::MAX,
    ensures
        sum_principal(credited(s, loan_id, lender, amount)) == sum_principal(s) + amount,
        lenders_unique(credited(s, loan_id, lender, amount)),
        all_of_loan(credited(s, loan_id, lender, amount), loan_id),
        has_share(credited(s, loan_id, lender, amount), lender),
{
    let t = credited(s, loan_id, lender, amount);
    if has_share(s, lender) {
        let i = share_index(s, lender);
        lemma_share_le_sum(s, i);
        lemma_sum_principal_update(s, i, t[i]);
        assert(t[i].lender == lender);
        assert forall|a: int, b: int|
            0 <= a < t.len() && 0 <= b < t.len() && t[a].lender == t[b].lender implies a == b by {
            assert(t[a].lender == s[a].lender && t[b].lender == s[b].lender);
        }
    } else {
        lemma_sum_principal_push(s, t.last());
        assert(t[s.len() as int].lender == lender);
        assert forall|a: int, b: int|
            0 <= a < t.len() && 0 <= b < t.len() && t[a].lender == t[b].lender implies a == b by {
            if a < s.len() && b < s.len() {
                assert(t[a] == s[a] && t[b] == s[b]);
            } else if a < s.len() {
                assert(t[a] == s[a]);
            } else if b < s.len() {
                assert(t[b] == s[b]);
            }
        }
    }
}

/// A contribution's part of `total` in basis points, rounded down.
pub fn contribution_bps(principal: u64, total: u64) -> (r: u64)
    requires
        principal <= total,
        total > 0,
    ensures
        r == floor_bps(principal as int, total as int),
        r <= WHOLE_BPS,
{
    proof {
        lemma_floor_bps_at_most_whole(principal as int, total as int);
    }
    let x: u128 = principal as u128 * 10_000u128;
    let q = x / (total as u128);
    q as u64
}

/// The position of `lender`'s share, if it holds one.
pub fn find_share(shares: &Vec<LenderShare>, lender: &AccountKey) -> (r: Option<usize>)
    ensures
        match r {
            Some(i) => i < shares@.len() && shares@[i as int].lender == *lender,
            None => !has_share(shares@, *lender),
        },
{
    let mut i: usize = 0;
    while i < shares.len()
        invariant
            0 <= i <= shares@.len(),
            forall|j: int| 0 <= j < i ==> shares@[j].lender != *lender,
        decreases shares@.len() - i,
    {
        if shares[i].lender.same(lender) {
            return Some(i);
        }
        i = i + 1;
    }
    None
}

/// In a sequence where no lender holds two shares, a share found for a lender is its share.
pub proof fn lemma_found_is_share_index(s: Seq<LenderShare>, lender: AccountKey, i: int)
    requires
        lenders_unique(s),
        0 <= i < s.len(),
        s[i].lender == lender,
    ensures
        has_share(s, lender),
        share_index(s, lender) == i,
{
    assert(has_share(s, lender));
}

/// Adds `amount` to `lender`'s share, opening it if the lender has none.
pub fn credit_share(shares: &mut Vec<LenderShare>, loan_id: u64, lender: AccountKey, amount: u64)
    requires
        lenders_unique(old(shares)@),
        sum_principal(old(shares)@) + amount <= u64::MAX,
    ensures
        final(shares)@ == credited(old(shares)@, loan_id, lender, amount),
{
    match find_share(shares, &lender) {
        Some(i) => {
            proof {
                lemma_found_is_share_index(shares@, lender, i as int);
                lemma_share_le_sum(shares@, i as int);
            }
            let mut sh = shares[i];
            sh.principal = sh.principal + amount;
            shares.set(i, sh);
        },
        None => {
            let sh = LenderShare {
                lender,
                loan: loan_id,
                principal: amount,
                repaid_principal: 0,
                repaid_interest: 0,
                pro_rata_bps: 0,
                payout_claimed: false,
            };
            shares.push(sh);
        },
    }
}

/// The shares with their pro-rata parts of `total` set, the largest contributor
/// absorbing the rounding remainder.
pub fn assign_pro_rata(shares: &Vec<LenderShare>, total: u64) -> (r: Vec<LenderShare>)
    requires
        total > 0,
        sum_principal(shares@) == total,
    ensures
        r@ == pro_rata_shares(shares@, total as int),
        sum_bps(r@) == WHOLE_BPS,
{
    let ghost s = shares@;
    let n = shares.len();
    let mut floor_total: u64 = 0;
    let mut largest: usize = 0;
    let mut i: usize = 0;
    while i < n
        invariant
            n == s.len(),
            s == shares@,
            0 <= i <= n,
            total > 0,
            sum_principal(s) == total,
            floor_total == sum_floor_bps(s.take(i as int), total as int),
            floor_total <= WHOLE_BPS,
            i == 0 ==> largest == 0,
            i > 0 ==> largest == largest_index(s.take(i as int)) && largest < i,
        decreases n - i,
    {
        proof {
            lemma_share_le_sum(s, i as int);
            assert(s.take(i + 1).drop_last() =~= s.take(i as int));
            lemma_sum_floor_at_most_whole(s, total as int, i + 1);
        }
        let f = contribution_bps(shares[i].principal, total);
        floor_total = floor_total + f;
        if i > 0 && shares[i].principal > shares[largest].principal {
            largest = i;
        }
        i = i + 1;
    }
    proof {
        assert(s.take(n as int) =~= s);
    }
    let rest = WHOLE_BPS - floor_total;
    let mut out: Vec<LenderShare> = Vec::new();
    let mut j: usize = 0;
    while j < n
        invariant
            n == s.len(),
            s == shares@,
            0 <= j <= n,
            total > 0,
            sum_principal(s) == total,
            rest == WHOLE_BPS - sum_floor_bps(s, total as int),
            rest <= WHOLE_BPS,
            n > 0 ==> largest == largest_index(s),
            out@.len() == j,
            forall|k: int| 0 <= k < j ==> out@[k] == pro_rata_shares(s, total as int)[k],
        decreases n - j,
    {
        proof {
            lemma_share_le_sum(s, j as int);
        }
        let mut sh = shares[j];
        let f = contribution_bps(sh.principal, total);
        let bps = if j == largest {
            f + rest
        } else {
            f
        };
        sh.pro_rata_bps = bps as u32;
        out.push(sh);
        j = j + 1;
    }
    proof {
        assert(out@ =~= pro_rata_shares(s, total as int));
        lemma_pro_rata_sums_to_whole(s, total as int);
    }
    out
}

} // verus!
