//! Argument gates of the C entry points: which status an entry point
//! returns before it touches an engine, and in which order it checks.
//!
//! Pointer nullness and the floating-point predicates (`t.is_finite()`,
//! `t > 0.0`, ...) are evaluated by the caller and handed in as booleans;
//! lengths and counts are checked here.

use vstd::prelude::*;
use crate::status::SemiflowStatus;

verus! {

/// How a caller-supplied buffer length must relate to the expected one.
#[derive(Debug, Clone, Copy, PartialEq, Eq, Structural)]
pub enum LenRule {
    /// The length must equal the expected length.
    Exact,
    /// The length may exceed the expected length.
    AtLeast,
}

/// One buffer length to check against the length an entry point expects.
#[derive(Debug, Clone, Copy)]
pub struct LenCheck {
    pub len: usize,
    pub expected: usize,
    pub rule: LenRule,
}

/// `c` is met.
pub open spec fn spec_len_ok(c: LenCheck) -> bool {
    match c.rule {
        LenRule::Exact => c.len == c.expected,
        LenRule::AtLeast => c.len >= c.expected,
    }
}

/// Every check of `cs` is met.
pub open spec fn spec_lens_ok(cs: Seq<LenCheck>) -> bool {
    forall|i: int| 0 <= i < cs.len() ==> #[trigger] spec_len_ok(cs[i])
}

/// An exact length check accepts exactly the expected length; an
/// at-least check accepts exactly the lengths not below it, the expected
/// length itself included.
pub proof fn lemma_len_rules(len: usize, expected: usize)
    ensures
        spec_len_ok(LenCheck { len, expected, rule: LenRule::Exact }) <==> len == expected,
        spec_len_ok(LenCheck { len, expected, rule: LenRule::AtLeast }) <==> expected <= len,
        spec_len_ok(LenCheck { len: expected, expected, rule: LenRule::AtLeast }),
        spec_len_ok(LenCheck { len: expected, expected, rule: LenRule::Exact }),
{
}

/// A list of length checks is met exactly when every check meets its rule:
/// equal lengths for an exact check, a length not below the expected one
/// for an at-least check.
pub proof fn lemma_lens_ok_iff(cs: Seq<LenCheck>)
    ensures
        spec_lens_ok(cs) <==> forall|i: int|
            0 <= i < cs.len() ==> (#[trigger] cs[i]).len >= cs[i].expected && (cs[i].rule == LenRule::Exact
                ==> cs[i].len == cs[i].expected),
{
    if spec_lens_ok(cs) {
        assert forall|i: int| 0 <= i < cs.len() implies (#[trigger] cs[i]).len >= cs[i].expected && (cs[i].rule
            == LenRule::Exact ==> cs[i].len == cs[i].expected) by {
            assert(spec_len_ok(cs[i]));
        }
    }
}

/// A call with every pointer present, every length check met and its
/// scalar arguments in the domain is accepted by [`gate`], in either
/// order; one with a length check failed or the domain left is refused.
pub proof fn lemma_gate_admits_valid_calls(lens: Seq<LenCheck>, domain_ok: bool, order: GateOrder)
    ensures
        (forall|i: int|
            0 <= i < lens.len() ==> (#[trigger] lens[i]).len >= lens[i].expected && (lens[i].rule
                == LenRule::Exact ==> lens[i].len == lens[i].expected)) && domain_ok ==> spec_gate(
            true,
            lens,
            domain_ok,
            order,
        ) == Ok::<(), SemiflowStatus>(()),
        (exists|i: int|
            0 <= i < lens.len() && (#[trigger] lens[i]).len < lens[i].expected) ==> spec_gate(
            true,
            lens,
            domain_ok,
            order,
        ) is Err,
        !domain_ok ==> spec_gate(true, lens, domain_ok, order) is Err,
{
    lemma_lens_ok_iff(lens);
    if exists|i: int| 0 <= i < lens.len() && (#[trigger] lens[i]).len < lens[i].expected {
        let i = choose|i: int| 0 <= i < lens.len() && (#[trigger] lens[i]).len < lens[i].expected;
        assert(!spec_len_ok(lens[i]));
    }
}

/// Whether one length check is met.
pub fn len_ok(c: &LenCheck) -> (b: bool)
    ensures
        b == spec_len_ok(*c),
        c.rule == LenRule::Exact ==> (b <==> c.len == c.expected),
        c.rule == LenRule::AtLeast ==> (b <==> c.len >= c.expected),
{
    match c.rule {
        LenRule::Exact => c.len == c.expected,
        LenRule::AtLeast => c.len >= c.expected,
    }
}

/// Whether every length check of `cs` is met.
pub fn lens_ok(cs: &[LenCheck]) -> (b: bool)
    ensures
        b == spec_lens_ok(cs@),
{
    let mut i: usize = 0;
    while i < cs.len()
        invariant
            i <= cs@.len(),
            forall|j: int| 0 <= j < i ==> #[trigger] spec_len_ok(cs@[j]),
        decreases cs@.len() - i,
    {
        if !len_ok(&cs[i]) {
            return false;
        }
        i = i + 1;
    }
    true
}

/// Which of the two argument checks an entry point makes first.
#[derive(Debug, Clone, Copy, PartialEq, Eq, Structural)]
pub enum GateOrder {
    /// Buffer lengths (`GridMismatch`) before the domain (`OutOfDomain`).
    LengthsFirst,
    /// The domain (`OutOfDomain`) before buffer lengths (`GridMismatch`).
    DomainFirst,
}

/// The status an entry point returns before running its engine: a missing
/// pointer first, then lengths and domain in the entry point's order.
pub open spec fn spec_gate(present: bool, lens: Seq<LenCheck>, domain_ok: bool, order: GateOrder) -> Result<
    (),
    SemiflowStatus,
> {
    if !present {
        Err(SemiflowStatus::NullPtr)
    } else {
        match order {
            GateOrder::LengthsFirst => if !spec_lens_ok(lens) {
                Err(SemiflowStatus::GridMismatch)
            } else if !domain_ok {
                Err(SemiflowStatus::OutOfDomain)
            } else {
                Ok(())
            },
            GateOrder::DomainFirst => if !domain_ok {
                Err(SemiflowStatus::OutOfDomain)
            } else if !spec_lens_ok(lens) {
                Err(SemiflowStatus::GridMismatch)
            } else {
                Ok(())
            },
        }
    }
}

/// The argument gate of an entry point.
///
/// `present` is whether every required pointer is non-null; `domain_ok`
/// whether the time step, step count and other scalar arguments lie in the
/// entry point's domain.
pub fn gate(present: bool, lens: &[LenCheck], domain_ok: bool, order: GateOrder) -> (r: Result<
    (),
    SemiflowStatus,
>)
    ensures
        r == spec_gate(present, lens@, domain_ok, order),
{
    if !present {
        return Err(SemiflowStatus::NullPtr);
    }
    match order {
        GateOrder::LengthsFirst => {
            if !lens_ok(lens) {
                Err(SemiflowStatus::GridMismatch)
            } else if !domain_ok {
                Err(SemiflowStatus::OutOfDomain)
            } else {
                Ok(())
            }
        },
        GateOrder::DomainFirst => {
            if !domain_ok {
                Err(SemiflowStatus::OutOfDomain)
            } else if !lens_ok(lens) {
                Err(SemiflowStatus::GridMismatch)
            } else {
                Ok(())
            }
        },
    }
}

/// A missing pointer is reported first, whatever the lengths, the domain
/// and the order of the other two tests.
pub proof fn lemma_gate_null_first(lens: Seq<LenCheck>, domain_ok: bool, order: GateOrder)
    ensures
        spec_gate(false, lens, domain_ok, order) == Err::<(), SemiflowStatus>(SemiflowStatus::NullPtr),
{
}

/// The order of the length and domain checks matters only when both fail:
/// otherwise both orders give the same answer, and an admitted call is
/// admitted in either order.
pub proof fn lemma_gate_order_irrelevant_unless_both_fail(
    present: bool,
    lens: Seq<LenCheck>,
    domain_ok: bool,
)
    requires
        spec_lens_ok(lens) || domain_ok,
    ensures
        spec_gate(present, lens, domain_ok, GateOrder::LengthsFirst) == spec_gate(
            present,
            lens,
            domain_ok,
            GateOrder::DomainFirst,
        ),
        spec_gate(present, lens, domain_ok, GateOrder::LengthsFirst) is Ok <==> (present
            && spec_lens_ok(lens) && domain_ok),
{
}

/// The step count and time step of an evolution are admissible: at least
/// one step, and a time step the caller found admissible.
pub fn check_tau_steps(n_steps: usize, tau_ok: bool) -> (r: Result<(), SemiflowStatus>)
    ensures
        r == (if n_steps == 0 || !tau_ok {
            Err(SemiflowStatus::OutOfDomain)
        } else {
            Ok(())
        }),
{
    if n_steps == 0 || !tau_ok {
        Err(SemiflowStatus::OutOfDomain)
    } else {
        Ok(())
    }
}

/// Input data holds only finite values; otherwise `NanInf`.
pub fn check_finite(all_finite: bool) -> (r: Result<(), SemiflowStatus>)
    ensures
        r == (if all_finite {
            Ok(())
        } else {
            Err(SemiflowStatus::NanInf)
        }),
{
    if all_finite {
        Ok(())
    } else {
        Err(SemiflowStatus::NanInf)
    }
}

/// The product of `factor` and all of `dims`, as a mathematical integer.
pub open spec fn spec_product(factor: int, dims: Seq<usize>) -> int
    decreases dims.len(),
{
    if dims.len() == 0 {
        factor
    } else {
        spec_product(factor, dims.drop_last()) * dims.last()
    }
}

/// The product of `factor` and all of `dims`, or `None` when it does not
/// fit in `usize`.
pub fn checked_product(factor: usize, dims: &[usize]) -> (r: Option<usize>)
    ensures
        match r {
            Some(p) => p == spec_product(factor as int, dims@),
            None => spec_product(factor as int, dims@) > usize::MAX,
        },
{
    let mut z: usize = 0;
    while z < dims.len()
        invariant
            z <= dims@.len(),
            forall|j: int| 0 <= j < z ==> #[trigger] dims@[j] != 0,
        decreases dims@.len() - z,
    {
        if dims[z] == 0 {
            proof {
                lemma_product_zero_from(factor as int, dims@, z as int, dims@.len() as int);
                assert(dims@.subrange(0, dims@.len() as int) =~= dims@);
            }
            return Some(0);
        }
        z = z + 1;
    }
    if factor == 0 {
        proof {
            lemma_product_zero_factor(dims@);
        }
        return Some(0);
    }
    let mut acc: usize = factor;
    let mut i: usize = 0;
    while i < dims.len()
        invariant
            i <= dims@.len(),
            factor >= 1,
            forall|j: int| 0 <= j < dims@.len() ==> #[trigger] dims@[j] != 0,
            acc == spec_product(factor as int, dims@.subrange(0, i as int)),
        decreases dims@.len() - i,
    {
        proof {
            assert(dims@.subrange(0, i + 1).drop_last() =~= dims@.subrange(0, i as int));
        }
        match acc.checked_mul(dims[i]) {
            Some(p) => {
                acc = p;
            },
            None => {
                proof {
                    lemma_product_monotone(factor as int, dims@, i + 1);
                    assert(dims@.subrange(0, i + 1).last() == dims@[i as int]);
                }
                return None;
            },
        }
        i = i + 1;
    }
    assert(dims@.subrange(0, dims@.len() as int) =~= dims@);
    Some(acc)
}

/// With all factors positive, extending the list of factors never makes
/// the product smaller.
pub proof fn lemma_product_monotone(factor: int, dims: Seq<usize>, k: int)
    requires
        1 <= factor,
        0 <= k <= dims.len(),
        forall|j: int| 0 <= j < dims.len() ==> #[trigger] dims[j] != 0,
    ensures
        spec_product(factor, dims.subrange(0, k)) <= spec_product(factor, dims),
    decreases dims.len() - k,
{
    if k < dims.len() {
        lemma_product_monotone(factor, dims, k + 1);
        lemma_product_nonneg(factor, dims.subrange(0, k));
        let a = spec_product(factor, dims.subrange(0, k));
        assert(dims.subrange(0, k + 1).drop_last() =~= dims.subrange(0, k));
        let d = dims.subrange(0, k + 1).last();
        assert(d == dims[k]);
        assert(a * d >= a) by (nonlinear_arith)
            requires
                a >= 0,
                d >= 1,
        ;
    } else {
        assert(dims.subrange(0, k) =~= dims);
    }
}

/// A product of naturals is a natural.
pub proof fn lemma_product_nonneg(factor: int, dims: Seq<usize>)
    requires
        0 <= factor,
    ensures
        0 <= spec_product(factor, dims),
    decreases dims.len(),
{
    if dims.len() > 0 {
        lemma_product_nonneg(factor, dims.drop_last());
        let a = spec_product(factor, dims.drop_last());
        let d = dims.last();
        assert(a * d >= 0) by (nonlinear_arith)
            requires
                a >= 0,
                d >= 0,
        ;
    }
}

/// A product that starts from zero is zero.
proof fn lemma_product_zero_factor(dims: Seq<usize>)
    ensures
        spec_product(0, dims) == 0,
    decreases dims.len(),
{
    if dims.len() > 0 {
        lemma_product_zero_factor(dims.drop_last());
        let d = dims.last();
        assert(0 * d == 0) by (nonlinear_arith);
    }
}

/// A product with a zero factor at position `k` is zero from `k` on.
proof fn lemma_product_zero_from(factor: int, dims: Seq<usize>, k: int, m: int)
    requires
        0 <= k < m <= dims.len(),
        dims[k] == 0,
    ensures
        spec_product(factor, dims.subrange(0, m)) == 0,
    decreases m - k,
{
    assert(dims.subrange(0, m).drop_last() =~= dims.subrange(0, m - 1));
    if m - 1 > k {
        lemma_product_zero_from(factor, dims, k, m - 1);
        let d = dims.subrange(0, m).last();
        assert(0 * d == 0) by (nonlinear_arith);
    } else {
        assert(dims.subrange(0, m).last() == 0);
        let a = spec_product(factor, dims.subrange(0, m - 1));
        assert(a * 0 == 0) by (nonlinear_arith);
    }
}

/// `len` equals `factor` times the product of `dims`.
///
/// A product too large for `usize` matches no length, since no buffer can
/// be that long.
pub fn len_matches_product(len: usize, factor: usize, dims: &[usize]) -> (b: bool)
    ensures
        b == (len as int == spec_product(factor as int, dims@)),
{
    match checked_product(factor, dims) {
        Some(p) => len == p,
        None => false,
    }
}

/// An optional coefficient buffer of an engine constructor.
#[derive(Debug, Clone, Copy, PartialEq, Eq, Structural)]
pub enum OptionalInput {
    /// No buffer was passed: use `len` zeros.
    Zeros { len: usize },
    /// A buffer of the expected length was passed: use it.
    Given,
}

/// Reads an optional pointer-plus-length argument: a null pointer means
/// `expected` zeros; a non-null one must come with exactly `expected`
/// values, else `GridMismatch`.
pub fn parse_optional(present: bool, len: usize, expected: usize) -> (r: Result<
    OptionalInput,
    SemiflowStatus,
>)
    ensures
        r == (if !present {
            Ok(OptionalInput::Zeros { len: expected })
        } else if len != expected {
            Err(SemiflowStatus::GridMismatch)
        } else {
            Ok(OptionalInput::Given)
        }),
{
    if !present {
        Ok(OptionalInput::Zeros { len: expected })
    } else if len != expected {
        Err(SemiflowStatus::GridMismatch)
    } else {
        Ok(OptionalInput::Given)
    }
}

/// A `len`-element buffer of `zero`s.
pub fn zeros<T: Copy>(zero: T, len: usize) -> (v: Vec<T>)
    ensures
        v@ == Seq::new(len as nat, |i: int| zero),
{
    let mut v: Vec<T> = Vec::new();
    let mut i: usize = 0;
    while i < len
        invariant
            i <= len,
            v@.len() == i,
            forall|j: int| 0 <= j < i ==> v@[j] == zero,
        decreases len - i,
    {
        v.push(zero);
        i = i + 1;
    }
    assert(v@ =~= Seq::new(len as nat, |i: int| zero));
    v
}

/// The leading factor of a product can be pulled out.
pub proof fn lemma_product_factor(factor: int, dims: Seq<usize>)
    ensures
        spec_product(factor, dims) == factor * spec_product(1, dims),
    decreases dims.len(),
{
    if dims.len() > 0 {
        lemma_product_factor(factor, dims.drop_last());
        let a = spec_product(1, dims.drop_last());
        let d = dims.last();
        assert((factor * a) * d == factor * (a * d)) by (nonlinear_arith);
    }
}

/// The coefficient buffers of an anisotropic-shift constructor after its
/// argument checks: the drift and reaction buffers as passed or as zeros.
#[derive(Debug, Clone, Copy, PartialEq, Eq, Structural)]
pub struct AnisoInputs {
    pub drift: OptionalInput,
    pub reaction: OptionalInput,
}

/// The checks of an anisotropic-shift constructor on a grid with the given
/// node counts per axis, `d = dims.len()` axes: pointers, then the tensor
/// (`d * d` per node) and initial-condition lengths, then the optional
/// drift (`d` per node) and reaction (one per node) buffers, then finite
/// data.
pub open spec fn spec_aniso_new_plan(
    present: bool,
    dims: Seq<usize>,
    a_len: usize,
    u0_len: usize,
    b_present: bool,
    b_len: usize,
    c_present: bool,
    c_len: usize,
    a_finite: bool,
    u0_finite: bool,
) -> Result<AnisoInputs, SemiflowStatus> {
    let d = dims.len() as int;
    let n = spec_product(1, dims);
    if !present {
        Err(SemiflowStatus::NullPtr)
    } else if a_len != d * d * n || u0_len != n {
        Err(SemiflowStatus::GridMismatch)
    } else if b_present && b_len != d * n {
        Err(SemiflowStatus::GridMismatch)
    } else if c_present && c_len != n {
        Err(SemiflowStatus::GridMismatch)
    } else if !a_finite || !u0_finite {
        Err(SemiflowStatus::NanInf)
    } else {
        Ok(
            AnisoInputs {
                drift: if b_present {
                    OptionalInput::Given
                } else {
                    OptionalInput::Zeros { len: (d * n) as usize }
                },
                reaction: if c_present {
                    OptionalInput::Given
                } else {
                    OptionalInput::Zeros { len: n as usize }
                },
            },
        )
    }
}

/// The argument checks of an anisotropic-shift constructor.
pub fn aniso_new_plan(
    present: bool,
    dims: &[usize],
    a_len: usize,
    u0_len: usize,
    b_present: bool,
    b_len: usize,
    c_present: bool,
    c_len: usize,
    a_finite: bool,
    u0_finite: bool,
) -> (r: Result<AnisoInputs, SemiflowStatus>)
    requires
        1 <= dims@.len() <= 3,
    ensures
        r == spec_aniso_new_plan(
            present,
            dims@,
            a_len,
            u0_len,
            b_present,
            b_len,
            c_present,
            c_len,
            a_finite,
            u0_finite,
        ),
        r matches Ok(inputs) ==> (inputs.drift == OptionalInput::Given) == b_present && (inputs.reaction
            == OptionalInput::Given) == c_present,
{
    if !present {
        return Err(SemiflowStatus::NullPtr);
    }
    let d = dims.len();
    let ghost n = spec_product(1, dims@);
    proof {
        lemma_product_factor((d * d) as int, dims@);
        lemma_product_nonneg(1, dims@);
    }
    assert(d * d <= 9) by (nonlinear_arith)
        requires
            d <= 3,
    ;
    let a_ok = len_matches_product(a_len, d * d, dims);
    let u0_ok = len_matches_product(u0_len, 1, dims);
    if !a_ok || !u0_ok {
        return Err(SemiflowStatus::GridMismatch);
    }
    assert(u0_len == n);
    assert(a_len == d * d * n);
    assert(d * n <= a_len) by (nonlinear_arith)
        requires
            a_len == d * d * n,
            1 <= d,
            0 <= n,
    ;
    let b_expected = d * u0_len;
    let c_expected = u0_len;
    let drift = match parse_optional(b_present, b_len, b_expected) {
        Ok(x) => x,
        Err(s) => {
            return Err(s);
        },
    };
    let reaction = match parse_optional(c_present, c_len, c_expected) {
        Ok(x) => x,
        Err(s) => {
            return Err(s);
        },
    };
    if !a_finite || !u0_finite {
        return Err(SemiflowStatus::NanInf);
    }
    Ok(AnisoInputs { drift, reaction })
}

/// What an admitted anisotropic-shift plan says: every check passed, and
/// each optional buffer is used as given exactly when its pointer was
/// passed, zeros of the right count (`d` per node for the drift, one per
/// node for the reaction) standing in only for an absent one. Conversely
/// every call that passes the checks is admitted.
pub proof fn lemma_aniso_plan_uses_given_buffers(
    present: bool,
    dims: Seq<usize>,
    a_len: usize,
    u0_len: usize,
    b_present: bool,
    b_len: usize,
    c_present: bool,
    c_len: usize,
    a_finite: bool,
    u0_finite: bool,
)
    ensures
        ({
            let d = dims.len() as int;
            let n = spec_product(1, dims);
            match spec_aniso_new_plan(present, dims, a_len, u0_len, b_present, b_len, c_present, c_len, a_finite, u0_finite) {
                Ok(inputs) => {
                    &&& present && a_finite && u0_finite
                    &&& a_len == d * d * n && u0_len == n
                    &&& (inputs.drift == OptionalInput::Given) == b_present
                    &&& (inputs.reaction == OptionalInput::Given) == c_present
                    &&& b_present ==> b_len == d * n
                    &&& c_present ==> c_len == n
                    &&& !b_present ==> inputs.drift == OptionalInput::Zeros { len: (d * n) as usize }
                    &&& !c_present ==> inputs.reaction == OptionalInput::Zeros { len: n as usize }
                },
                Err(_) => !(present && a_finite && u0_finite && a_len == d * d * n && u0_len == n && (
                b_present ==> b_len == d * n) && (c_present ==> c_len == n)),
            }
        }),
{
}

} // verus!
