//! [`SemiflowStatus`]: the status codes every C entry point returns, and
//! the mapping from engine errors to status codes.

use vstd::prelude::*;
use vstd::string::StringSliceAdditionalSpecFns;

verus! {

/// Status codes returned by all `smf_*` C functions.
///
/// The integer values ([`SemiflowStatus::code`]) are stable ABI.
#[derive(Debug, Clone, Copy, PartialEq, Eq, Structural)]
pub enum SemiflowStatus {
    /// Operation completed successfully (ABI value 0, printed as "Ok").
    Success,
    /// Grid geometry mismatch (e.g. `n < 4`, `xmin >= xmax`, wrong length).
    GridMismatch,
    /// Non-finite value (NaN or Inf) encountered in input data.
    NanInf,
    /// Argument violates a domain precondition other than NaN/Inf or grid.
    OutOfDomain,
    /// Grid resolution too coarse for the requested Chernoff shift.
    BoundaryFailure,
    /// A required pointer argument was null.
    NullPtr,
    /// CFL bound violated for the truncated-exp K=4 power series.
    CflViolated,
    /// Iterative solver did not converge within the iteration cap.
    ConvergenceFailed,
    /// Requested feature is not supported in this build.
    Unsupported,
    /// A Rust panic was caught at the FFI boundary.
    Panic,
}

/// The stable C ABI integer of each status.
pub open spec fn spec_status_code(s: SemiflowStatus) -> u32 {
    match s {
        SemiflowStatus::Success => 0,
        SemiflowStatus::GridMismatch => 1,
        SemiflowStatus::NanInf => 2,
        SemiflowStatus::OutOfDomain => 3,
        SemiflowStatus::BoundaryFailure => 4,
        SemiflowStatus::NullPtr => 5,
        SemiflowStatus::CflViolated => 6,
        SemiflowStatus::ConvergenceFailed => 7,
        SemiflowStatus::Unsupported => 8,
        SemiflowStatus::Panic => 99,
    }
}

/// The status whose ABI integer is `c`, if there is one.
pub open spec fn spec_status_from_code(c: u32) -> Option<SemiflowStatus> {
    if c == 0 {
        Some(SemiflowStatus::Success)
    } else if c == 1 {
        Some(SemiflowStatus::GridMismatch)
    } else if c == 2 {
        Some(SemiflowStatus::NanInf)
    } else if c == 3 {
        Some(SemiflowStatus::OutOfDomain)
    } else if c == 4 {
        Some(SemiflowStatus::BoundaryFailure)
    } else if c == 5 {
        Some(SemiflowStatus::NullPtr)
    } else if c == 6 {
        Some(SemiflowStatus::CflViolated)
    } else if c == 7 {
        Some(SemiflowStatus::ConvergenceFailed)
    } else if c == 8 {
        Some(SemiflowStatus::Unsupported)
    } else if c == 99 {
        Some(SemiflowStatus::Panic)
    } else {
        None
    }
}

/// The variant name that `smf_status_str` prints for each status.
pub open spec fn spec_status_name(s: SemiflowStatus) -> Seq<char> {
    match s {
        SemiflowStatus::Success => "Ok"@,
        SemiflowStatus::GridMismatch => "GridMismatch"@,
        SemiflowStatus::NanInf => "NanInf"@,
        SemiflowStatus::OutOfDomain => "OutOfDomain"@,
        SemiflowStatus::BoundaryFailure => "BoundaryFailure"@,
        SemiflowStatus::NullPtr => "NullPtr"@,
        SemiflowStatus::CflViolated => "CflViolated"@,
        SemiflowStatus::ConvergenceFailed => "ConvergenceFailed"@,
        SemiflowStatus::Unsupported => "Unsupported"@,
        SemiflowStatus::Panic => "Panic"@,
    }
}

impl SemiflowStatus {
    /// The stable ABI integer of this status.
    pub fn code(&self) -> (c: u32)
        ensures
            c == spec_status_code(*self),
    {
        match self {
            SemiflowStatus::Success => 0,
            SemiflowStatus::GridMismatch => 1,
            SemiflowStatus::NanInf => 2,
            SemiflowStatus::OutOfDomain => 3,
            SemiflowStatus::BoundaryFailure => 4,
            SemiflowStatus::NullPtr => 5,
            SemiflowStatus::CflViolated => 6,
            SemiflowStatus::ConvergenceFailed => 7,
            SemiflowStatus::Unsupported => 8,
            SemiflowStatus::Panic => 99,
        }
    }

    /// The status with ABI integer `c`; `None` for an integer no status has.
    pub fn from_code(c: u32) -> (r: Option<SemiflowStatus>)
        ensures
            r == spec_status_from_code(c),
    {
        if c == 0 {
            Some(SemiflowStatus::Success)
        } else if c == 1 {
            Some(SemiflowStatus::GridMismatch)
        } else if c == 2 {
            Some(SemiflowStatus::NanInf)
        } else if c == 3 {
            Some(SemiflowStatus::OutOfDomain)
        } else if c == 4 {
            Some(SemiflowStatus::BoundaryFailure)
        } else if c == 5 {
            Some(SemiflowStatus::NullPtr)
        } else if c == 6 {
            Some(SemiflowStatus::CflViolated)
        } else if c == 7 {
            Some(SemiflowStatus::ConvergenceFailed)
        } else if c == 8 {
            Some(SemiflowStatus::Unsupported)
        } else if c == 99 {
            Some(SemiflowStatus::Panic)
        } else {
            None
        }
    }

    /// The static variant name of this status (the text of `smf_status_str`).
    pub fn name(&self) -> (r: &'static str)
        ensures
            r@ == spec_status_name(*self),
    {
        match self {
            SemiflowStatus::Success => "Ok",
            SemiflowStatus::GridMismatch => "GridMismatch",
            SemiflowStatus::NanInf => "NanInf",
            SemiflowStatus::OutOfDomain => "OutOfDomain",
            SemiflowStatus::BoundaryFailure => "BoundaryFailure",
            SemiflowStatus::NullPtr => "NullPtr",
            SemiflowStatus::CflViolated => "CflViolated",
            SemiflowStatus::ConvergenceFailed => "ConvergenceFailed",
            SemiflowStatus::Unsupported => "Unsupported",
            SemiflowStatus::Panic => "Panic",
        }
    }

    /// Whether this is the success status.
    pub fn is_ok(&self) -> (b: bool)
        ensures
            b <==> *self == SemiflowStatus::Success,
    {
        match self {
            SemiflowStatus::Success => true,
            _ => false,
        }
    }
}

/// Decoding the ABI integer of a status gives that status back, and no
/// other integer decodes to it: the code is a bijection onto its image.
pub proof fn lemma_status_code_roundtrip(s: SemiflowStatus, c: u32)
    ensures
        spec_status_from_code(spec_status_code(s)) == Some(s),
        spec_status_from_code(c) == Some(s) ==> spec_status_code(s) == c,
{
}

/// Two statuses with the same ABI integer are the same status.
pub proof fn lemma_status_code_injective(s: SemiflowStatus, t: SemiflowStatus)
    ensures
        spec_status_code(s) == spec_status_code(t) ==> s == t,
{
}

/// Two statuses with the same printed name are the same status.
pub proof fn lemma_status_name_injective(s: SemiflowStatus, t: SemiflowStatus)
    ensures
        spec_status_name(s) == spec_status_name(t) ==> s == t,
{
    reveal_strlit("Ok");
    reveal_strlit("GridMismatch");
    reveal_strlit("NanInf");
    reveal_strlit("OutOfDomain");
    reveal_strlit("BoundaryFailure");
    reveal_strlit("NullPtr");
    reveal_strlit("CflViolated");
    reveal_strlit("ConvergenceFailed");
    reveal_strlit("Unsupported");
    reveal_strlit("Panic");
    if spec_status_name(s) == spec_status_name(t) && s != t {
        let a = spec_status_name(s);
        let b = spec_status_name(t);
        assert(a.len() == b.len());
        assert(a[0] == b[0]);
        assert(a[1] == b[1]);
        assert(a[a.len() - 1] == b[b.len() - 1]);
    }
}

/// What the library needs to know of an error raised while building or
/// running an engine.
///
/// A domain violation carries its message and whether the offending value
/// was finite; the other variants carry nothing the status depends on.
#[derive(Debug, Clone, Copy)]
pub enum ErrorKind {
    /// An argument violated a documented domain precondition.
    DomainViolation { what: &'static str, value_is_finite: bool },
    /// The grid is too coarse for the requested shift.
    GridUnderresolved,
    /// An iterative solver did not converge.
    ConvergenceFailed,
    /// An adaptive step was rejected too many times.
    AdaptiveStepRejected,
    /// The requested feature is not supported.
    Unsupported,
    /// A CFL bound was violated.
    CflViolated,
    /// Any other error.
    Other,
}

/// `pat` occurs as a contiguous run of bytes inside `hay`.
pub open spec fn bytes_contain(hay: Seq<u8>, pat: Seq<u8>) -> bool {
    exists|i: int|
        0 <= i && i + pat.len() <= hay.len() && #[trigger] hay.subrange(i, i + pat.len()) == pat
}

/// The ASCII bytes of `"grid"`.
pub open spec fn pat_grid() -> Seq<u8> {
    seq!['g' as u8, 'r' as u8, 'i' as u8, 'd' as u8]
}

/// The ASCII bytes of `"n must"`.
pub open spec fn pat_n_must() -> Seq<u8> {
    seq!['n' as u8, ' ' as u8, 'm' as u8, 'u' as u8, 's' as u8, 't' as u8]
}

/// The ASCII bytes of `"values.len"`.
pub open spec fn pat_values_len() -> Seq<u8> {
    seq!['v' as u8, 'a' as u8, 'l' as u8, 'u' as u8, 'e' as u8, 's' as u8, '.' as u8, 'l' as u8, 'e' as u8, 'n' as u8]
}

/// The ASCII bytes of `"xmin"`.
pub open spec fn pat_xmin() -> Seq<u8> {
    seq!['x' as u8, 'm' as u8, 'i' as u8, 'n' as u8]
}

/// The ASCII bytes of `"xmax"`.
pub open spec fn pat_xmax() -> Seq<u8> {
    seq!['x' as u8, 'm' as u8, 'a' as u8, 'x' as u8]
}

/// A domain-violation message that speaks of the grid geometry.
pub open spec fn is_grid_message(what: Seq<u8>) -> bool {
    ||| bytes_contain(what, pat_grid())
    ||| bytes_contain(what, pat_n_must())
    ||| bytes_contain(what, pat_values_len())
    ||| bytes_contain(what, pat_xmin())
    ||| bytes_contain(what, pat_xmax())
}

/// The status of a domain violation with message bytes `what`.
pub open spec fn spec_domain_violation_status(what: Seq<u8>, value_is_finite: bool) -> SemiflowStatus {
    if !value_is_finite {
        SemiflowStatus::NanInf
    } else if is_grid_message(what) {
        SemiflowStatus::GridMismatch
    } else {
        SemiflowStatus::OutOfDomain
    }
}

/// The status an engine error is reported as.
pub open spec fn spec_status_of_error(e: ErrorKind) -> SemiflowStatus {
    match e {
        ErrorKind::DomainViolation { what, value_is_finite } =>
            spec_domain_violation_status(what.spec_bytes(), value_is_finite),
        ErrorKind::GridUnderresolved => SemiflowStatus::BoundaryFailure,
        ErrorKind::ConvergenceFailed => SemiflowStatus::ConvergenceFailed,
        ErrorKind::AdaptiveStepRejected => SemiflowStatus::ConvergenceFailed,
        ErrorKind::Unsupported => SemiflowStatus::Unsupported,
        ErrorKind::CflViolated => SemiflowStatus::CflViolated,
        ErrorKind::Other => SemiflowStatus::OutOfDomain,
    }
}

/// Whether `pat` occurs in `hay` starting at byte `start`.
fn matches_at(hay: &[u8], pat: &[u8], start: usize) -> (b: bool)
    requires
        start + pat@.len() <= hay@.len(),
        hay@.len() == hay.len(),
    ensures
        b <==> hay@.subrange(start as int, start + pat@.len()) == pat@,
{
    let mut k: usize = 0;
    while k < pat.len()
        invariant
            k <= pat@.len(),
            start + pat@.len() <= hay@.len(),
            hay@.len() == hay.len(),
            forall|j: int| 0 <= j < k ==> hay@[start + j] == pat@[j],
        decreases pat@.len() - k,
    {
        if hay[start + k] != pat[k] {
            assert(hay@.subrange(start as int, start + pat@.len())[k as int] != pat@[k as int]);
            return false;
        }
        k = k + 1;
    }
    assert(hay@.subrange(start as int, start + pat@.len()) =~= pat@);
    true
}

/// Whether `pat` occurs as a contiguous run inside `hay`.
pub fn contains_bytes(hay: &[u8], pat: &[u8]) -> (b: bool)
    ensures
        b == bytes_contain(hay@, pat@),
{
    if pat.len() > hay.len() {
        return false;
    }
    if pat.len() == 0 {
        assert(hay@.subrange(0int, 0int + pat@.len()) =~= pat@);
        return true;
    }
    let last = hay.len() - pat.len();
    let mut i: usize = 0;
    while i <= last
        invariant
            last == hay@.len() - pat@.len(),
            0 < pat@.len() <= hay@.len(),
            hay@.len() == hay.len(),
            forall|j: int|
                0 <= j < i ==> #[trigger] hay@.subrange(j, j + pat@.len()) != pat@,
        decreases last + 1 - i,
    {
        if matches_at(hay, pat, i) {
            return true;
        }
        i = i + 1;
    }
    assert forall|j: int| 0 <= j && j + pat@.len() <= hay@.len() implies
        #[trigger] hay@.subrange(j, j + pat@.len()) != pat@ by {
        assert(j < i);
    }
    false
}

/// Maps a domain violation to a finer status: a non-finite value gives
/// `NanInf`; a message naming the grid (`"grid"`, `"n must"`,
/// `"values.len"`, `"xmin"`, `"xmax"`) gives `GridMismatch`; anything else
/// gives `OutOfDomain`.
pub fn map_domain_violation(what: &str, value_is_finite: bool) -> (s: SemiflowStatus)
    ensures
        s == spec_domain_violation_status(what.spec_bytes(), value_is_finite),
        !value_is_finite ==> s == SemiflowStatus::NanInf,
        value_is_finite && occurs_in(
            what.spec_bytes(),
            seq!['g' as u8, 'r' as u8, 'i' as u8, 'd' as u8],
        ) ==> s == SemiflowStatus::GridMismatch,
{
    proof {
        lemma_domain_violation_status(what.spec_bytes(), value_is_finite);
    }
    if !value_is_finite {
        return SemiflowStatus::NanInf;
    }
    let bytes = what.as_bytes();
    let grid: [u8; 4] = ['g' as u8, 'r' as u8, 'i' as u8, 'd' as u8];
    let n_must: [u8; 6] = ['n' as u8, ' ' as u8, 'm' as u8, 'u' as u8, 's' as u8, 't' as u8];
    let values_len: [u8; 10] = ['v' as u8, 'a' as u8, 'l' as u8, 'u' as u8, 'e' as u8, 's' as u8, '.' as u8, 'l' as u8, 'e' as u8, 'n' as u8];
    let xmin: [u8; 4] = ['x' as u8, 'm' as u8, 'i' as u8, 'n' as u8];
    let xmax: [u8; 4] = ['x' as u8, 'm' as u8, 'a' as u8, 'x' as u8];
    assert(grid@ =~= pat_grid());
    assert(n_must@ =~= pat_n_must());
    assert(values_len@ =~= pat_values_len());
    assert(xmin@ =~= pat_xmin());
    assert(xmax@ =~= pat_xmax());
    if contains_bytes(bytes, grid.as_slice()) || contains_bytes(bytes, n_must.as_slice())
        || contains_bytes(bytes, values_len.as_slice()) || contains_bytes(bytes, xmin.as_slice())
        || contains_bytes(bytes, xmax.as_slice()) {
        SemiflowStatus::GridMismatch
    } else {
        SemiflowStatus::OutOfDomain
    }
}

impl SemiflowStatus {
    /// The status an engine error is reported as at the C boundary.
    ///
    /// Both convergence-related errors map to `ConvergenceFailed`; errors
    /// the library does not know map to `OutOfDomain`.
    pub fn from_error(err: &ErrorKind) -> (s: SemiflowStatus)
        ensures
            s == spec_status_of_error(*err),
    {
        match err {
            ErrorKind::DomainViolation { what, value_is_finite } =>
                map_domain_violation(what, *value_is_finite),
            ErrorKind::GridUnderresolved => SemiflowStatus::BoundaryFailure,
            ErrorKind::ConvergenceFailed => SemiflowStatus::ConvergenceFailed,
            ErrorKind::AdaptiveStepRejected => SemiflowStatus::ConvergenceFailed,
            ErrorKind::Unsupported => SemiflowStatus::Unsupported,
            ErrorKind::CflViolated => SemiflowStatus::CflViolated,
            ErrorKind::Other => SemiflowStatus::OutOfDomain,
        }
    }
}

/// The bytes of `word` occur in `what` starting at some index.
pub open spec fn occurs_in(what: Seq<u8>, word: Seq<u8>) -> bool {
    exists|i: int| 0 <= i && i + word.len() <= what.len() && #[trigger] what.subrange(i, i + word.len()) == word
}

/// How a domain violation is reported, for every message and value: a
/// non-finite value is `NanInf` whatever the message says; for a finite
/// value, a message that holds any of the words `grid`, `n must`,
/// `values.len`, `xmin` or `xmax` is `GridMismatch`, and a message that
/// holds none of them is `OutOfDomain`.
pub proof fn lemma_domain_violation_status(what: Seq<u8>, value_is_finite: bool)
    ensures
        !value_is_finite ==> spec_domain_violation_status(what, value_is_finite)
            == SemiflowStatus::NanInf,
        value_is_finite && occurs_in(what, seq!['g' as u8, 'r' as u8, 'i' as u8, 'd' as u8])
            ==> spec_domain_violation_status(what, value_is_finite) == SemiflowStatus::GridMismatch,
        value_is_finite && occurs_in(
            what,
            seq!['n' as u8, ' ' as u8, 'm' as u8, 'u' as u8, 's' as u8, 't' as u8],
        ) ==> spec_domain_violation_status(what, value_is_finite) == SemiflowStatus::GridMismatch,
        value_is_finite && occurs_in(
            what,
            seq![
                'v' as u8, 'a' as u8, 'l' as u8, 'u' as u8, 'e' as u8,
                's' as u8, '.' as u8, 'l' as u8, 'e' as u8, 'n' as u8,
            ],
        ) ==> spec_domain_violation_status(what, value_is_finite) == SemiflowStatus::GridMismatch,
        value_is_finite && occurs_in(what, seq!['x' as u8, 'm' as u8, 'i' as u8, 'n' as u8])
            ==> spec_domain_violation_status(what, value_is_finite) == SemiflowStatus::GridMismatch,
        value_is_finite && occurs_in(what, seq!['x' as u8, 'm' as u8, 'a' as u8, 'x' as u8])
            ==> spec_domain_violation_status(what, value_is_finite) == SemiflowStatus::GridMismatch,
        value_is_finite
            && !occurs_in(what, seq!['g' as u8, 'r' as u8, 'i' as u8, 'd' as u8])
            && !occurs_in(
                what,
                seq!['n' as u8, ' ' as u8, 'm' as u8, 'u' as u8, 's' as u8, 't' as u8],
            )
            && !occurs_in(
                what,
                seq![
                    'v' as u8, 'a' as u8, 'l' as u8, 'u' as u8, 'e' as u8,
                    's' as u8, '.' as u8, 'l' as u8, 'e' as u8, 'n' as u8,
                ],
            )
            && !occurs_in(what, seq!['x' as u8, 'm' as u8, 'i' as u8, 'n' as u8])
            && !occurs_in(what, seq!['x' as u8, 'm' as u8, 'a' as u8, 'x' as u8])
            ==> spec_domain_violation_status(what, value_is_finite) == SemiflowStatus::OutOfDomain,
{
    let g = seq!['g' as u8, 'r' as u8, 'i' as u8, 'd' as u8];
    let nm = seq!['n' as u8, ' ' as u8, 'm' as u8, 'u' as u8, 's' as u8, 't' as u8];
    let vl = seq![
        'v' as u8, 'a' as u8, 'l' as u8, 'u' as u8, 'e' as u8,
        's' as u8, '.' as u8, 'l' as u8, 'e' as u8, 'n' as u8,
    ];
    let xi = seq!['x' as u8, 'm' as u8, 'i' as u8, 'n' as u8];
    let xa = seq!['x' as u8, 'm' as u8, 'a' as u8, 'x' as u8];
    assert(g =~= pat_grid());
    assert(nm =~= pat_n_must());
    assert(vl =~= pat_values_len());
    assert(xi =~= pat_xmin());
    assert(xa =~= pat_xmax());
}

/// An engine's domain violation reaches the C caller as the status that
/// [`lemma_domain_violation_status`] describes for its message bytes: in
/// particular, with a finite value, any message that holds `grid` is a
/// `GridMismatch`.
pub proof fn lemma_domain_violation_error(what: &'static str, value_is_finite: bool)
    ensures
        spec_status_of_error(ErrorKind::DomainViolation { what, value_is_finite })
            == spec_domain_violation_status(what.spec_bytes(), value_is_finite),
        !value_is_finite ==> spec_status_of_error(
            ErrorKind::DomainViolation { what, value_is_finite },
        ) == SemiflowStatus::NanInf,
        value_is_finite && occurs_in(
            what.spec_bytes(),
            seq!['g' as u8, 'r' as u8, 'i' as u8, 'd' as u8],
        ) ==> spec_status_of_error(ErrorKind::DomainViolation { what, value_is_finite })
            == SemiflowStatus::GridMismatch,
{
    lemma_domain_violation_status(what.spec_bytes(), value_is_finite);
}

/// No engine error is ever reported as success, as a null pointer or as a
/// caught panic: those three statuses come only from the boundary itself.
pub proof fn lemma_error_status_is_failure(e: ErrorKind)
    ensures
        spec_status_of_error(e) != SemiflowStatus::Success,
        spec_status_of_error(e) != SemiflowStatus::NullPtr,
        spec_status_of_error(e) != SemiflowStatus::Panic,
{
}

} // verus!
