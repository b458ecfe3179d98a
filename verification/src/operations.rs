//! Operations that drive the contract in property tests, over plain
//! stand-ins for addresses and symbols, with the value rules each kind of
//! operation must respect and the per-offering period-ordering invariant
//! that a valid sequence of operations keeps.

use crate::security_assertions::input_validation::{
    non_negative_amount_result, positive_amount_result, positive_period_id_result,
    valid_bps_result, valid_share_bps_result, MAX_BPS,
};
use vstd::prelude::*;

verus! {

/// Longest namespace symbol, in characters.
pub const NAMESPACE_MAX_CHARS: usize = 4;

/// An offering is identified by its issuer, its namespace and its token.
/// Addresses and symbols are represented by plain identifiers.
#[derive(Clone, Copy, Debug, PartialEq, Eq, Structural)]
pub struct OfferingKey {
    pub issuer: u64,
    pub namespace: u64,
    pub token: u64,
}

/// A governance action proposed to the multisig. The variants are this
/// library's own stand-ins for the contract's proposal actions (setting the
/// admin, the threshold, and adding or removing an owner), over plain
/// identifiers.
#[derive(Clone, Copy, Debug, PartialEq, Eq, Structural)]
pub enum ProposalAction {
    SetAdmin(u64),
    SetThreshold(u32),
    AddOwner(u64),
    RemoveOwner(u64),
}

/// One call on the contract, as generated for property tests.
#[derive(Clone, Copy, Debug, PartialEq, Eq, Structural)]
pub enum TestOperation {
    /// Register an offering with a revenue-share rate and a payout asset.
    RegisterOffering { offering: OfferingKey, revenue_share_bps: u32, payout_asset: u64 },
    /// Report revenue for a period, optionally overwriting an earlier report.
    ReportRevenue { offering: OfferingKey, payout: u64, amount: i128, period_id: u64, overwrite: bool },
    /// Deposit revenue for a period, transferring the payment token.
    DepositRevenue { offering: OfferingKey, payment_token: u64, amount: i128, period_id: u64 },
    /// Set a holder's share.
    SetHolderShare { offering: OfferingKey, holder: u64, share_bps: u32 },
    /// Add an investor to the offering's blacklist.
    BlacklistAdd { offering: OfferingKey, investor: u64 },
    /// Remove an investor from the offering's blacklist.
    BlacklistRemove { offering: OfferingKey, investor: u64 },
    /// Set the concentration limit and whether it is enforced.
    SetConcentrationLimit { offering: OfferingKey, max_bps: u32, enforce: bool },
    /// Report the current concentration.
    ReportConcentration { offering: OfferingKey, concentration_bps: u32 },
    /// Pause the contract.
    Pause,
    /// Unpause the contract.
    Unpause,
    /// Propose a multisig action.
    MultisigPropose(ProposalAction),
    /// Approve a multisig proposal.
    MultisigApprove(u32),
}

/// The value rules of a generated operation: rates lie in `0..=10_000`
/// basis points; a report has a non-negative amount, a non-zero period and
/// pays out in the offering's token; a deposit has a positive amount, a
/// non-zero period and pays in the offering's token. Period 0 is reserved
/// and never valid.
pub open spec fn operation_in_range(op: TestOperation) -> bool {
    match op {
        TestOperation::RegisterOffering { revenue_share_bps, .. } => revenue_share_bps <= MAX_BPS,
        TestOperation::ReportRevenue { offering, payout, amount, period_id, .. } => amount >= 0
            && period_id >= 1 && payout == offering.token,
        TestOperation::DepositRevenue { offering, payment_token, amount, period_id } => amount >= 1
            && period_id >= 1 && payment_token == offering.token,
        TestOperation::SetHolderShare { share_bps, .. } => share_bps <= MAX_BPS,
        TestOperation::SetConcentrationLimit { max_bps, .. } => max_bps <= MAX_BPS,
        TestOperation::ReportConcentration { concentration_bps, .. } => concentration_bps <= MAX_BPS,
        _ => true,
    }
}

/// The first `min(4, n)` characters of a string of `n` characters: the part
/// of a drawn string that becomes a namespace symbol.
pub fn namespace_prefix(s: &str) -> (r: String)
    ensures
        r@ == s@.take(
            if s@.len() < NAMESPACE_MAX_CHARS {
                s@.len() as int
            } else {
                NAMESPACE_MAX_CHARS as int
            },
        ),
{
    let n = s.unicode_len();
    let k = if n < NAMESPACE_MAX_CHARS {
        n
    } else {
        NAMESPACE_MAX_CHARS
    };
    let prefix = s.substring_char(0, k);
    let r = String::from_str(prefix);
    assert(r@ =~= s@.take(k as int));
    r
}

/// Registration of an offering at a valid revenue-share rate.
pub fn register_offering_op(o: OfferingKey, revenue_share_bps: u32, payout_asset: u64) -> (op: TestOperation)
    requires
        revenue_share_bps <= MAX_BPS,
    ensures
        op == (TestOperation::RegisterOffering { offering: o, revenue_share_bps, payout_asset }),
        operation_in_range(op),
{
    TestOperation::RegisterOffering { offering: o, revenue_share_bps, payout_asset }
}

/// A revenue report in the offering's own token, for a non-zero period and a
/// non-negative amount.
pub fn report_revenue_op(o: OfferingKey, amount: i128, period_id: u64, overwrite: bool) -> (op: TestOperation)
    requires
        amount >= 0,
        period_id >= 1,
    ensures
        op == (TestOperation::ReportRevenue { offering: o, payout: o.token, amount, period_id, overwrite }),
        operation_in_range(op),
{
    TestOperation::ReportRevenue { offering: o, payout: o.token, amount, period_id, overwrite }
}

/// A deposit of a positive amount in the offering's own token, for a
/// non-zero period.
pub fn deposit_revenue_op(o: OfferingKey, amount: i128, period_id: u64) -> (op: TestOperation)
    requires
        amount >= 1,
        period_id >= 1,
    ensures
        op == (TestOperation::DepositRevenue { offering: o, payment_token: o.token, amount, period_id }),
        operation_in_range(op),
{
    TestOperation::DepositRevenue { offering: o, payment_token: o.token, amount, period_id }
}

/// A holder share at a valid rate.
pub fn set_holder_share_op(o: OfferingKey, holder: u64, share_bps: u32) -> (op: TestOperation)
    requires
        share_bps <= MAX_BPS,
    ensures
        op == (TestOperation::SetHolderShare { offering: o, holder, share_bps }),
        operation_in_range(op),
{
    TestOperation::SetHolderShare { offering: o, holder, share_bps }
}

/// A concentration limit at a valid rate.
pub fn set_concentration_limit_op(o: OfferingKey, max_bps: u32, enforce: bool) -> (op: TestOperation)
    requires
        max_bps <= MAX_BPS,
    ensures
        op == (TestOperation::SetConcentrationLimit { offering: o, max_bps, enforce }),
        operation_in_range(op),
{
    TestOperation::SetConcentrationLimit { offering: o, max_bps, enforce }
}

/// A concentration report at a valid rate.
pub fn report_concentration_op(o: OfferingKey, concentration_bps: u32) -> (op: TestOperation)
    requires
        concentration_bps <= MAX_BPS,
    ensures
        op == (TestOperation::ReportConcentration { offering: o, concentration_bps }),
        operation_in_range(op),
{
    TestOperation::ReportConcentration { offering: o, concentration_bps }
}

impl TestOperation {
    /// Whether this operation respects the value rules of its kind.
    pub fn is_in_range(&self) -> (r: bool)
        ensures
            r == operation_in_range(*self),
    {
        match self {
            TestOperation::RegisterOffering { revenue_share_bps, .. } => *revenue_share_bps <= MAX_BPS,
            TestOperation::ReportRevenue { offering, payout, amount, period_id, .. } => *amount >= 0
                && *period_id >= 1 && *payout == offering.token,
            TestOperation::DepositRevenue { offering, payment_token, amount, period_id } => *amount
                >= 1 && *period_id >= 1 && *payment_token == offering.token,
            TestOperation::SetHolderShare { share_bps, .. } => *share_bps <= MAX_BPS,
            TestOperation::SetConcentrationLimit { max_bps, .. } => *max_bps <= MAX_BPS,
            TestOperation::ReportConcentration { concentration_bps, .. } => *concentration_bps
                <= MAX_BPS,
            _ => true,
        }
    }
}

/// Every operation in range passes the guards the contract applies to it:
/// rates pass the basis-point checks, reports pass the non-negative amount
/// and non-zero period checks, deposits pass the positive amount check.
pub proof fn lemma_in_range_operations_pass_guards(op: TestOperation)
    requires
        operation_in_range(op),
    ensures
        op matches TestOperation::RegisterOffering { revenue_share_bps, .. } ==> valid_bps_result(
            revenue_share_bps,
        ) is Ok,
        op matches TestOperation::ReportRevenue { amount, period_id, .. } ==> (
        non_negative_amount_result(amount) is Ok && positive_period_id_result(period_id) is Ok),
        op matches TestOperation::DepositRevenue { amount, period_id, .. } ==> (
        positive_amount_result(amount) is Ok && positive_period_id_result(period_id) is Ok),
        op matches TestOperation::SetHolderShare { share_bps, .. } ==> valid_share_bps_result(
            share_bps,
        ) is Ok,
{
}

/// What an operation contributes to period ordering: a report or a deposit
/// for a period of an offering, or nothing.
#[derive(Clone, Copy, Debug, PartialEq, Eq, Structural)]
pub enum PeriodOp {
    Report { offering: OfferingKey, period_id: u64 },
    Deposit { offering: OfferingKey, period_id: u64 },
    Other,
}

/// The offering and period of a report or a deposit.
pub open spec fn keyed_period(op: PeriodOp) -> Option<(OfferingKey, u64)> {
    match op {
        PeriodOp::Report { offering, period_id } => Some((offering, period_id)),
        PeriodOp::Deposit { offering, period_id } => Some((offering, period_id)),
        PeriodOp::Other => None,
    }
}

/// Periods are strictly increasing per offering: whenever an earlier and a
/// later operation (reports and deposits alike) concern the same offering,
/// the earlier one's period is smaller.
pub open spec fn period_pair_ordered(a: PeriodOp, b: PeriodOp) -> bool {
    match (keyed_period(a), keyed_period(b)) {
        (Some((oa, pa)), Some((ob, pb))) => oa == ob ==> pa < pb,
        _ => true,
    }
}

/// A sequence keeps per-offering period ordering.
pub open spec fn preserves_period_ordering(ops: Seq<PeriodOp>) -> bool {
    forall|i: int, j: int|
        0 <= i < j < ops.len() ==> #[trigger] period_pair_ordered(ops[i], ops[j])
}

/// The period-ordering view of a generated operation.
pub open spec fn period_view(op: TestOperation) -> PeriodOp {
    match op {
        TestOperation::ReportRevenue { offering, period_id, .. } => PeriodOp::Report {
            offering,
            period_id,
        },
        TestOperation::DepositRevenue { offering, period_id, .. } => PeriodOp::Deposit {
            offering,
            period_id,
        },
        _ => PeriodOp::Other,
    }
}

impl TestOperation {
    /// The period-ordering view of this operation.
    pub fn period_op(&self) -> (r: PeriodOp)
        ensures
            r == period_view(*self),
    {
        match self {
            TestOperation::ReportRevenue { offering, period_id, .. } => PeriodOp::Report {
                offering: *offering,
                period_id: *period_id,
            },
            TestOperation::DepositRevenue { offering, period_id, .. } => PeriodOp::Deposit {
                offering: *offering,
                period_id: *period_id,
            },
            _ => PeriodOp::Other,
        }
    }
}

/// Whether an earlier operation `a` and a later operation `b` are ordered.
fn pair_ordered(a: &PeriodOp, b: &PeriodOp) -> (r: bool)
    ensures
        r == period_pair_ordered(*a, *b),
{
    let (oa, pa) = match a {
        PeriodOp::Report { offering, period_id } => (*offering, *period_id),
        PeriodOp::Deposit { offering, period_id } => (*offering, *period_id),
        PeriodOp::Other => {
            return true;
        },
    };
    let (ob, pb) = match b {
        PeriodOp::Report { offering, period_id } => (*offering, *period_id),
        PeriodOp::Deposit { offering, period_id } => (*offering, *period_id),
        PeriodOp::Other => {
            return true;
        },
    };
    !(oa == ob) || pa < pb
}

/// Whether a sequence keeps per-offering period ordering.
pub fn sequence_preserves_invariants(ops: &Vec<PeriodOp>) -> (r: bool)
    ensures
        r == preserves_period_ordering(ops@),
{
    let n = ops.len();
    let mut j: usize = 0;
    while j < n
        invariant
            n == ops@.len(),
            j <= n,
            forall|a: int, b: int| 0 <= a < b < j ==> #[trigger] period_pair_ordered(ops@[a], ops@[b]),
        decreases n - j,
    {
        let mut i: usize = 0;
        while i < j
            invariant
                n == ops@.len(),
                i <= j < n,
                forall|a: int, b: int| 0 <= a < b < j ==> #[trigger] period_pair_ordered(ops@[a], ops@[b]),
                forall|a: int| 0 <= a < i ==> #[trigger] period_pair_ordered(ops@[a], ops@[j as int]),
            decreases j - i,
        {
            if !pair_ordered(&ops[i], &ops[j]) {
                return false;
            }
            i += 1;
        }
        j += 1;
    }
    true
}

/// Whether a sequence of generated operations keeps per-offering period
/// ordering; sequences that do not are filtered out of property tests.
pub fn validate_sequence_preserves_invariants(ops: &Vec<TestOperation>) -> (r: bool)
    ensures
        r == preserves_period_ordering(ops@.map_values(|o: TestOperation| period_view(o))),
{
    let mut views: Vec<PeriodOp> = Vec::new();
    let mut k: usize = 0;
    while k < ops.len()
        invariant
            k <= ops@.len(),
            views@ =~= ops@.take(k as int).map_values(|o: TestOperation| period_view(o)),
        decreases ops@.len() - k,
    {
        let v = ops[k].period_op();
        views.push(v);
        k += 1;
        assert(views@ =~= ops@.take(k as int).map_values(|o: TestOperation| period_view(o)));
    }
    assert(ops@.take(k as int) =~= ops@);
    sequence_preserves_invariants(&views)
}

/// Appending a report or deposit to an ordered sequence keeps it ordered
/// exactly when its period exceeds every earlier period of the same
/// offering; and a sequence with at most one operation is always ordered.
pub proof fn lemma_ordering_extend(ops: Seq<PeriodOp>, op: PeriodOp)
    requires
        preserves_period_ordering(ops),
    ensures
        preserves_period_ordering(ops.push(op)) <==> (forall|i: int|
            0 <= i < ops.len() ==> #[trigger] period_pair_ordered(ops[i], op)),
        preserves_period_ordering(Seq::<PeriodOp>::empty()),
        preserves_period_ordering(seq![op]),
{
    let s = ops.push(op);
    if forall|i: int| 0 <= i < ops.len() ==> #[trigger] period_pair_ordered(ops[i], op) {
        assert forall|i: int, j: int| 0 <= i < j < s.len() implies #[trigger] period_pair_ordered(
            s[i],
            s[j],
        ) by {
            if j < ops.len() {
                assert(s[i] == ops[i] && s[j] == ops[j]);
            } else {
                assert(s[i] == ops[i] && s[j] == op);
            }
        }
    }
    if preserves_period_ordering(s) {
        assert forall|i: int| 0 <= i < ops.len() implies #[trigger] period_pair_ordered(ops[i], op) by {
            assert(s[i] == ops[i] && s[ops.len() as int] == op);
            assert(period_pair_ordered(s[i], s[ops.len() as int]));
        }
    }
}

/// Two operations constrain each other only when they concern the very same
/// offering (same issuer, same namespace and same token): then, whether each
/// is a report or a deposit, the earlier period must be strictly smaller.
/// Operations on offerings that differ in any field never constrain each
/// other, and an operation that is neither a report nor a deposit
/// constrains nothing.
pub proof fn lemma_pair_ordering_exact(oa: OfferingKey, pa: u64, ob: OfferingKey, pb: u64)
    ensures
        ({
            let same = oa.issuer == ob.issuer && oa.namespace == ob.namespace && oa.token
                == ob.token;
            &&& preserves_period_ordering(
                seq![PeriodOp::Report { offering: oa, period_id: pa }, PeriodOp::Report { offering: ob, period_id: pb }],
            ) <==> (!same || pa < pb)
            &&& preserves_period_ordering(
                seq![PeriodOp::Report { offering: oa, period_id: pa }, PeriodOp::Deposit { offering: ob, period_id: pb }],
            ) <==> (!same || pa < pb)
            &&& preserves_period_ordering(
                seq![PeriodOp::Deposit { offering: oa, period_id: pa }, PeriodOp::Report { offering: ob, period_id: pb }],
            ) <==> (!same || pa < pb)
            &&& preserves_period_ordering(
                seq![PeriodOp::Deposit { offering: oa, period_id: pa }, PeriodOp::Deposit { offering: ob, period_id: pb }],
            ) <==> (!same || pa < pb)
            &&& preserves_period_ordering(
                seq![PeriodOp::Other, PeriodOp::Deposit { offering: ob, period_id: pb }],
            )
            &&& preserves_period_ordering(
                seq![PeriodOp::Report { offering: oa, period_id: pa }, PeriodOp::Other],
            )
        }),
{
    let ra = PeriodOp::Report { offering: oa, period_id: pa };
    let da = PeriodOp::Deposit { offering: oa, period_id: pa };
    let rb = PeriodOp::Report { offering: ob, period_id: pb };
    let db = PeriodOp::Deposit { offering: ob, period_id: pb };
    lemma_pair_sequence(ra, rb);
    lemma_pair_sequence(ra, db);
    lemma_pair_sequence(da, rb);
    lemma_pair_sequence(da, db);
    lemma_pair_sequence(PeriodOp::Other, db);
    lemma_pair_sequence(ra, PeriodOp::Other);
}

/// A two-element sequence is ordered exactly when its pair is.
proof fn lemma_pair_sequence(a: PeriodOp, b: PeriodOp)
    ensures
        preserves_period_ordering(seq![a, b]) <==> period_pair_ordered(a, b),
{
    let s = seq![a, b];
    if period_pair_ordered(a, b) {
        assert forall|i: int, j: int| 0 <= i < j < s.len() implies #[trigger] period_pair_ordered(
            s[i],
            s[j],
        ) by {
            assert(i == 0 && j == 1);
        }
    }
    if preserves_period_ordering(s) {
        assert(period_pair_ordered(s[0], s[1]));
    }
}

/// A sequence is ordered exactly when, for every earlier and later report or
/// deposit on the same offering, the earlier period is strictly smaller.
pub proof fn lemma_ordering_exact(ops: Seq<PeriodOp>)
    ensures
        preserves_period_ordering(ops) <==> (forall|i: int, j: int|
            #![trigger ops[i], ops[j]]
            0 <= i < j < ops.len() ==> match (ops[i], ops[j]) {
                (PeriodOp::Report { offering: oa, period_id: pa }, PeriodOp::Report {
                    offering: ob,
                    period_id: pb,
                })
                | (PeriodOp::Report { offering: oa, period_id: pa }, PeriodOp::Deposit {
                    offering: ob,
                    period_id: pb,
                })
                | (PeriodOp::Deposit { offering: oa, period_id: pa }, PeriodOp::Report {
                    offering: ob,
                    period_id: pb,
                })
                | (PeriodOp::Deposit { offering: oa, period_id: pa }, PeriodOp::Deposit {
                    offering: ob,
                    period_id: pb,
                }) => (oa.issuer == ob.issuer && oa.namespace == ob.namespace && oa.token
                    == ob.token) ==> pa < pb,
                _ => true,
            }),
{
    if preserves_period_ordering(ops) {
        assert forall|i: int, j: int|
            #![trigger ops[i], ops[j]]
            0 <= i < j < ops.len() implies match (ops[i], ops[j]) {
                (PeriodOp::Report { offering: oa, period_id: pa }, PeriodOp::Report {
                    offering: ob,
                    period_id: pb,
                })
                | (PeriodOp::Report { offering: oa, period_id: pa }, PeriodOp::Deposit {
                    offering: ob,
                    period_id: pb,
                })
                | (PeriodOp::Deposit { offering: oa, period_id: pa }, PeriodOp::Report {
                    offering: ob,
                    period_id: pb,
                })
                | (PeriodOp::Deposit { offering: oa, period_id: pa }, PeriodOp::Deposit {
                    offering: ob,
                    period_id: pb,
                }) => (oa.issuer == ob.issuer && oa.namespace == ob.namespace && oa.token
                    == ob.token) ==> pa < pb,
                _ => true,
            } by {
            assert(period_pair_ordered(ops[i], ops[j]));
        }
    }
    if forall|i: int, j: int|
        #![trigger ops[i], ops[j]]
        0 <= i < j < ops.len() ==> match (ops[i], ops[j]) {
                (PeriodOp::Report { offering: oa, period_id: pa }, PeriodOp::Report {
                    offering: ob,
                    period_id: pb,
                })
                | (PeriodOp::Report { offering: oa, period_id: pa }, PeriodOp::Deposit {
                    offering: ob,
                    period_id: pb,
                })
                | (PeriodOp::Deposit { offering: oa, period_id: pa }, PeriodOp::Report {
                    offering: ob,
                    period_id: pb,
                })
                | (PeriodOp::Deposit { offering: oa, period_id: pa }, PeriodOp::Deposit {
                    offering: ob,
                    period_id: pb,
                }) => (oa.issuer == ob.issuer && oa.namespace == ob.namespace && oa.token
                    == ob.token) ==> pa < pb,
                _ => true,
            } {
        assert forall|i: int, j: int| 0 <= i < j < ops.len() implies #[trigger] period_pair_ordered(
            ops[i],
            ops[j],
        ) by {
            assert(ops[i] == ops[i] && ops[j] == ops[j]);
        }
    }
}

/// The value rules of each kind of generated operation, stated on its
/// fields: rates at most 10 000 basis points; a report with amount at least
/// 0, period at least 1 and payout in the offering's token; a deposit with
/// amount at least 1, period at least 1 and payment in the offering's token;
/// the remaining kinds carry no rule.
pub proof fn lemma_operation_rules_exact(o: OfferingKey, x: u64, amount: i128, period_id: u64, bps: u32, flag: bool)
    ensures
        operation_in_range(TestOperation::RegisterOffering { offering: o, revenue_share_bps: bps, payout_asset: x })
            <==> bps <= 10_000,
        operation_in_range(TestOperation::ReportRevenue { offering: o, payout: x, amount, period_id, overwrite: flag })
            <==> (amount >= 0 && period_id >= 1 && x == o.token),
        operation_in_range(TestOperation::DepositRevenue { offering: o, payment_token: x, amount, period_id })
            <==> (amount >= 1 && period_id >= 1 && x == o.token),
        operation_in_range(TestOperation::SetHolderShare { offering: o, holder: x, share_bps: bps })
            <==> bps <= 10_000,
        operation_in_range(TestOperation::SetConcentrationLimit { offering: o, max_bps: bps, enforce: flag })
            <==> bps <= 10_000,
        operation_in_range(TestOperation::ReportConcentration { offering: o, concentration_bps: bps })
            <==> bps <= 10_000,
        operation_in_range(TestOperation::BlacklistAdd { offering: o, investor: x }),
        operation_in_range(TestOperation::BlacklistRemove { offering: o, investor: x }),
        operation_in_range(TestOperation::Pause),
        operation_in_range(TestOperation::Unpause),
        operation_in_range(TestOperation::MultisigApprove(bps)),
{
}

/// For period ordering a report counts as a report and a deposit as a
/// deposit, each with its own offering and period; every other kind of
/// operation counts as neither.
pub proof fn lemma_period_view_exact(o: OfferingKey, x: u64, amount: i128, period_id: u64, flag: bool)
    ensures
        period_view(TestOperation::ReportRevenue { offering: o, payout: x, amount, period_id, overwrite: flag })
            == (PeriodOp::Report { offering: o, period_id }),
        period_view(TestOperation::DepositRevenue { offering: o, payment_token: x, amount, period_id })
            == (PeriodOp::Deposit { offering: o, period_id }),
        period_view(TestOperation::BlacklistAdd { offering: o, investor: x }) == PeriodOp::Other,
        period_view(TestOperation::Pause) == PeriodOp::Other,
        period_view(TestOperation::MultisigApprove(0)) == PeriodOp::Other,
{
}

} // verus!
