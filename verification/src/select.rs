//! Choosing an engine variant from the names and integer tags the C API
//! passes: kernel names, manifold, subordinator, Laplacian, particle
//! reduction and coupling-topology tags.

use vstd::prelude::*;
use vstd::string::StringSliceAdditionalSpecFns;
use crate::status::{ErrorKind, SemiflowStatus};

verus! {

/// Whether two byte strings are equal.
pub fn bytes_eq(a: &[u8], b: &[u8]) -> (r: bool)
    ensures
        r == (a@ == b@),
{
    if a.len() != b.len() {
        return false;
    }
    let mut i: usize = 0;
    while i < a.len()
        invariant
            a@.len() == b@.len(),
            i <= a@.len(),
            forall|j: int| 0 <= j < i ==> a@[j] == b@[j],
        decreases a@.len() - i,
    {
        if a[i] != b[i] {
            return false;
        }
        i = i + 1;
    }
    assert(a@ =~= b@);
    true
}

/// The one-dimensional kernels a kernel name can select.
#[derive(Debug, Clone, Copy, PartialEq, Eq, Structural)]
pub enum KernelChoice {
    /// Second-order unit diffusion, `"heat2"`.
    Heat2,
    /// Fourth-order unit diffusion, `"heat4"`.
    Heat4,
    /// Sixth-order unit diffusion, `"heat6"`.
    Heat6,
    /// Drift-reaction with `a = 1/2`, `"drift"`.
    Drift,
    /// Shift kernel with `a = 1/2`, `"shift"`.
    Shift,
}

/// The ASCII bytes of the kernel names.
pub open spec fn name_heat2() -> Seq<u8> {
    seq!['h' as u8, 'e' as u8, 'a' as u8, 't' as u8, '2' as u8]
}

pub open spec fn name_heat4() -> Seq<u8> {
    seq!['h' as u8, 'e' as u8, 'a' as u8, 't' as u8, '4' as u8]
}

pub open spec fn name_heat6() -> Seq<u8> {
    seq!['h' as u8, 'e' as u8, 'a' as u8, 't' as u8, '6' as u8]
}

pub open spec fn name_drift() -> Seq<u8> {
    seq!['d' as u8, 'r' as u8, 'i' as u8, 'f' as u8, 't' as u8]
}

pub open spec fn name_shift() -> Seq<u8> {
    seq!['s' as u8, 'h' as u8, 'i' as u8, 'f' as u8, 't' as u8]
}

/// The kernel a name selects: the exact names `heat2`, `heat4`, `heat6`,
/// `drift` and `shift`; a name that is not valid UTF-8 (`None`) selects
/// `heat2`.
pub open spec fn spec_kernel_from_name(name: Option<Seq<u8>>) -> Option<KernelChoice> {
    match name {
        None => Some(KernelChoice::Heat2),
        Some(b) => if b == name_heat2() {
            Some(KernelChoice::Heat2)
        } else if b == name_heat4() {
            Some(KernelChoice::Heat4)
        } else if b == name_heat6() {
            Some(KernelChoice::Heat6)
        } else if b == name_drift() {
            Some(KernelChoice::Drift)
        } else if b == name_shift() {
            Some(KernelChoice::Shift)
        } else {
            None
        },
    }
}

/// The bytes of an optional name.
pub open spec fn opt_bytes(name: Option<&str>) -> Option<Seq<u8>> {
    match name {
        Some(s) => Some(s.spec_bytes()),
        None => None,
    }
}

/// Selects a kernel by name; `None` (a name that is not UTF-8) selects
/// `heat2`, an unknown name selects nothing.
pub fn kernel_from_name(name: Option<&str>) -> (k: Option<KernelChoice>)
    ensures
        k == spec_kernel_from_name(opt_bytes(name)),
{
    match name {
        None => Some(KernelChoice::Heat2),
        Some(s) => {
            let b = s.as_bytes();
            let heat2: [u8; 5] = ['h' as u8, 'e' as u8, 'a' as u8, 't' as u8, '2' as u8];
            let heat4: [u8; 5] = ['h' as u8, 'e' as u8, 'a' as u8, 't' as u8, '4' as u8];
            let heat6: [u8; 5] = ['h' as u8, 'e' as u8, 'a' as u8, 't' as u8, '6' as u8];
            let drift: [u8; 5] = ['d' as u8, 'r' as u8, 'i' as u8, 'f' as u8, 't' as u8];
            let shift: [u8; 5] = ['s' as u8, 'h' as u8, 'i' as u8, 'f' as u8, 't' as u8];
            assert(heat2@ =~= name_heat2());
            assert(heat4@ =~= name_heat4());
            assert(heat6@ =~= name_heat6());
            assert(drift@ =~= name_drift());
            assert(shift@ =~= name_shift());
            if bytes_eq(b, heat2.as_slice()) {
                Some(KernelChoice::Heat2)
            } else if bytes_eq(b, heat4.as_slice()) {
                Some(KernelChoice::Heat4)
            } else if bytes_eq(b, heat6.as_slice()) {
                Some(KernelChoice::Heat6)
            } else if bytes_eq(b, drift.as_slice()) {
                Some(KernelChoice::Drift)
            } else if bytes_eq(b, shift.as_slice()) {
                Some(KernelChoice::Shift)
            } else {
                None
            }
        },
    }
}

/// The error an adjoint evolver reports for an unknown kernel name.
pub open spec fn adjoint_unknown_kernel() -> ErrorKind {
    ErrorKind::DomainViolation {
        what: "adjoint: unknown kernel; expected heat2|heat4|heat6|drift|shift",
        value_is_finite: true,
    }
}

/// The error an adaptive integrator reports for an unknown kernel name.
pub open spec fn adaptive_unknown_kernel() -> ErrorKind {
    ErrorKind::DomainViolation {
        what: "adaptive: unknown kernel; expected heat2|heat4|heat6|drift|shift",
        value_is_finite: true,
    }
}

/// The kernel of a 1-D adjoint evolver, or the unknown-kernel error.
pub fn adjoint_kernel(name: Option<&str>) -> (r: Result<KernelChoice, ErrorKind>)
    ensures
        match spec_kernel_from_name(opt_bytes(name)) {
            Some(k) => r == Ok::<KernelChoice, ErrorKind>(k),
            None => r == Err::<KernelChoice, ErrorKind>(adjoint_unknown_kernel()),
        },
{
    match kernel_from_name(name) {
        Some(k) => Ok(k),
        None => Err(
            ErrorKind::DomainViolation {
                what: "adjoint: unknown kernel; expected heat2|heat4|heat6|drift|shift",
                value_is_finite: true,
            },
        ),
    }
}

/// The kernel of a 1-D adaptive integrator, or the unknown-kernel error.
pub fn adaptive_kernel(name: Option<&str>) -> (r: Result<KernelChoice, ErrorKind>)
    ensures
        match spec_kernel_from_name(opt_bytes(name)) {
            Some(k) => r == Ok::<KernelChoice, ErrorKind>(k),
            None => r == Err::<KernelChoice, ErrorKind>(adaptive_unknown_kernel()),
        },
{
    match kernel_from_name(name) {
        Some(k) => Ok(k),
        None => Err(
            ErrorKind::DomainViolation {
                what: "adaptive: unknown kernel; expected heat2|heat4|heat6|drift|shift",
                value_is_finite: true,
            },
        ),
    }
}

/// Whether the adjoint of `kernel` is built in its self-adjoint form: the
/// drift kernel follows the caller's flag, every other kernel is always
/// self-adjoint.
pub fn adjoint_is_self_adjoint(kernel: KernelChoice, requested: bool) -> (b: bool)
    ensures
        b == (match kernel {
            KernelChoice::Drift => requested,
            _ => true,
        }),
{
    match kernel {
        KernelChoice::Drift => requested,
        _ => true,
    }
}

/// The manifolds a 2-D manifold evolver runs on.
#[derive(Debug, Clone, Copy, PartialEq, Eq, Structural)]
pub enum ManifoldKind {
    /// The flat unit torus (tag 0).
    Torus,
    /// The round sphere of a given radius (tag 1).
    Sphere,
    /// The hyperbolic plane of a given scale (tag 2).
    Hyperbolic,
}

/// The manifold a tag selects; an unknown tag is `Unsupported`.
pub fn manifold_from_tag(tag: u32) -> (r: Result<ManifoldKind, SemiflowStatus>)
    ensures
        r == (if tag == 0 {
            Ok::<ManifoldKind, SemiflowStatus>(ManifoldKind::Torus)
        } else if tag == 1 {
            Ok(ManifoldKind::Sphere)
        } else if tag == 2 {
            Ok(ManifoldKind::Hyperbolic)
        } else {
            Err(SemiflowStatus::Unsupported)
        }),
{
    if tag == 0 {
        Ok(ManifoldKind::Torus)
    } else if tag == 1 {
        Ok(ManifoldKind::Sphere)
    } else if tag == 2 {
        Ok(ManifoldKind::Hyperbolic)
    } else {
        Err(SemiflowStatus::Unsupported)
    }
}

/// Whether the manifold is built from the caller's radius (the torus is
/// always the unit torus).
pub fn manifold_uses_radius(kind: ManifoldKind) -> (b: bool)
    ensures
        b == (kind != ManifoldKind::Torus),
{
    match kind {
        ManifoldKind::Torus => false,
        _ => true,
    }
}

/// The Lévy subordinators of a subordinated heat evolver.
#[derive(Debug, Clone, Copy, PartialEq, Eq, Structural)]
pub enum SubordinatorKind {
    /// The alpha-stable subordinator (tag 0), built from `alpha`.
    Stable,
    /// The gamma subordinator (tag 1), built from `c`.
    Gamma,
    /// The inverse Gaussian subordinator (tag 2), built from `c`.
    InverseGaussian,
}

/// The subordinator a tag selects; an unknown tag is `Unsupported`.
pub fn subordinator_from_tag(tag: u32) -> (r: Result<SubordinatorKind, SemiflowStatus>)
    ensures
        r == (if tag == 0 {
            Ok::<SubordinatorKind, SemiflowStatus>(SubordinatorKind::Stable)
        } else if tag == 1 {
            Ok(SubordinatorKind::Gamma)
        } else if tag == 2 {
            Ok(SubordinatorKind::InverseGaussian)
        } else {
            Err(SemiflowStatus::Unsupported)
        }),
{
    if tag == 0 {
        Ok(SubordinatorKind::Stable)
    } else if tag == 1 {
        Ok(SubordinatorKind::Gamma)
    } else if tag == 2 {
        Ok(SubordinatorKind::InverseGaussian)
    } else {
        Err(SemiflowStatus::Unsupported)
    }
}

/// The two graph Laplacians.
#[derive(Debug, Clone, Copy, PartialEq, Eq, Structural)]
pub enum LaplacianKind {
    /// `L = D - A`.
    Combinatorial,
    /// `L = I - D^(-1/2) A D^(-1/2)`.
    SymNormalized,
}

/// The Laplacian a C integer selects: `1` is the normalized one, any other
/// value the combinatorial one.
pub fn laplacian_kind_from_i32(kind: i32) -> (k: LaplacianKind)
    ensures
        k == (if kind == 1 {
            LaplacianKind::SymNormalized
        } else {
            LaplacianKind::Combinatorial
        }),
{
    if kind == 1 {
        LaplacianKind::SymNormalized
    } else {
        LaplacianKind::Combinatorial
    }
}

/// How a gridless evolver reduces its particle cloud.
#[derive(Debug, Clone, Copy, PartialEq, Eq, Structural)]
pub enum ParticleReduction {
    /// Weighted Voronoi merging down to `cap` particles (tag 0).
    WeightedVoronoi { cap: usize },
    /// Gaussian background reduction (tag 1).
    GaussianBackground,
}

/// The particle reduction a tag selects: tag 0 needs a positive cap; any
/// other failure is `OutOfDomain`.
pub fn reduction_from_tag(tag: u32, voronoi_cap: usize) -> (r: Result<ParticleReduction, SemiflowStatus>)
    ensures
        r == (if tag == 0 {
            if voronoi_cap == 0 {
                Err(SemiflowStatus::OutOfDomain)
            } else {
                Ok(ParticleReduction::WeightedVoronoi { cap: voronoi_cap })
            }
        } else if tag == 1 {
            Ok(ParticleReduction::GaussianBackground)
        } else {
            Err(SemiflowStatus::OutOfDomain)
        }),
{
    if tag == 0 {
        if voronoi_cap == 0 {
            Err(SemiflowStatus::OutOfDomain)
        } else {
            Ok(ParticleReduction::WeightedVoronoi { cap: voronoi_cap })
        }
    } else if tag == 1 {
        Ok(ParticleReduction::GaussianBackground)
    } else {
        Err(SemiflowStatus::OutOfDomain)
    }
}

} // verus!
