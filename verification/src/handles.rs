//! Opaque handle types of the C API.
//!
//! C callers hold a pointer to one of these types and pass it back to the
//! entry points of the same engine family. The types have no fields a
//! caller can read or build; what a handle points to is the engine state
//! the C layer allocated for it.

use vstd::prelude::*;

verus! {

/// Opaque handle to a 1-D adaptive PI integrator.
pub struct SmfAdaptivePI {
    _private: [u8; 0],
}

/// Opaque handle to a 1-D adjoint Chernoff evolver.
pub struct SmfAdjoint1D {
    _private: [u8; 0],
}

/// Opaque FFI handle to `AdjointFokkerPlanckChernoff<DiffusionChernoff<f64>, f64, 1>`.
pub struct SmfAdjointFpV3 {
    _private: [u8; 0],
}

/// Opaque handle for a 2D anisotropic-shift evolver.
pub struct SmfAnisoND2 {
    _private: [u8; 0],
}

/// Opaque handle for a 3D anisotropic-shift evolver.
pub struct SmfAnisoND3 {
    _private: [u8; 0],
}

/// Opaque handle to `KillingChernoff<DiffusionChernoff, BoxRegion>`.
pub struct SmfKilling1D {
    _private: [u8; 0],
}

/// Opaque handle to `ReflectedHeatChernoff<DiffusionChernoff, HalfSpaceRegion>`.
pub struct SmfReflected1D {
    _private: [u8; 0],
}

/// Opaque handle to `RobinHeatChernoff<DiffusionChernoff, HalfSpaceRobin>`.
pub struct SmfRobin1D {
    _private: [u8; 0],
}

/// Opaque handle to `LaplaceChernoffResolvent<DiffusionChernoff, f64>`.
pub struct SmfResolvent1D {
    _private: [u8; 0],
}

/// Opaque handle to `KilledDirichletChernoff` (via `Evolver`).
pub struct SmfKilledDir1D {
    _private: [u8; 0],
}

/// Opaque handle to `DirichletHeat2ndChernoff<DiffusionChernoff, HalfSpaceRegion>`.
pub struct SmfDirichletHeat2nd1D {
    _private: [u8; 0],
}

/// Opaque handle to a `ComplexTripleJump` evolver (filiform-N5, D=5 fixed).
pub struct SmfCarnotCtj {
    _private: [u8; 0],
}

/// Opaque handle to a `DriftReactionChernoff` evolver.
pub struct SmfDriftReaction {
    _private: [u8; 0],
}

/// Opaque handle to a `ShiftChernoff1D` evolver.
pub struct SmfShift1D {
    _private: [u8; 0],
}

/// Opaque handle to a `TruncatedExpDiffusionChernoff` evolver.
pub struct SmfTruncExp {
    _private: [u8; 0],
}

/// Opaque handle to a `TruncatedExp4thDiffusionChernoff` evolver.
pub struct SmfTruncExp4 {
    _private: [u8; 0],
}

/// Opaque handle to a `Diffusion4thChernoff` evolver.
pub struct SmfHeat1D4th {
    _private: [u8; 0],
}

/// Opaque handle to a `Diffusion6thChernoff` evolver.
pub struct SmfHeat1D6th {
    _private: [u8; 0],
}

/// Opaque handle to a `Diffusion4thZeta4Chernoff` evolver.
pub struct SmfHeat1DZeta4 {
    _private: [u8; 0],
}

/// Opaque handle to a `Diffusion6thZeta6Chernoff` evolver.
pub struct SmfHeat1DZeta6 {
    _private: [u8; 0],
}

/// Opaque handle to a `Diffusion8thZeta8Chernoff` evolver.
pub struct SmfHeat1DZeta8 {
    _private: [u8; 0],
}

/// Opaque handle to a `DriftReactionZeta4Chernoff` evolver.
pub struct SmfDriftReactionZeta4 {
    _private: [u8; 0],
}

/// Opaque handle to a `DiffusionExpmvChernoff` evolver.
pub struct SmfExpmv1D {
    _private: [u8; 0],
}

/// Opaque handle to a pre-sampled graph state-adjoint.
pub struct SmfGraphAdjoint {
    _private: [u8; 0],
}

/// Opaque handle to a `Graph<f64>`.
pub struct SmfGraph {
    _private: [u8; 0],
}

/// Opaque handle to a `GraphHeatChernoff<f64>` semigroup state.
pub struct SmfGhc {
    _private: [u8; 0],
}

/// Opaque handle to a `MagnusGraphHeatChernoff<f64>` state.
pub struct SmfMghc {
    _private: [u8; 0],
}

/// Opaque handle to a `GraphSignal<f64>`.
pub struct SmfGraphSig {
    _private: [u8; 0],
}

/// Opaque handle to a `GraphHeat6thChernoff<f64>` semigroup state.
pub struct SmfGhc6 {
    _private: [u8; 0],
}

/// Opaque handle to a `VarCoefMagnusGraphHeatChernoff<f64>` state.
pub struct SmfVcMghc {
    _private: [u8; 0],
}

/// Opaque handle to a `GraphHeat4thChernoff<f64>` state.
pub struct SmfGhc4 {
    _private: [u8; 0],
}

/// Opaque handle to a `MagnusGraphHeat6thChernoff<f64>` state.
pub struct SmfMghc6 {
    _private: [u8; 0],
}

/// Opaque handle to a `VarCoefGraphHeatChernoff<f64>` state.
pub struct SmfVcGhc {
    _private: [u8; 0],
}

/// Opaque handle to a hyper-dual Greeks evolver (`Dual<Dual<f64>>` field).
pub struct SmfGreeksEvolverV3 {
    _private: [u8; 0],
}

/// Opaque C handle to `Box<MeasureState<f64, 1>>`.
pub struct SmfMeasureState {
    _private: [u8; 0],
}

/// Opaque C handle to `Box<GridlessChernoff<f64, 1>>`.
pub struct SmfGridlessEvolver {
    _private: [u8; 0],
}

/// Opaque handle to a semiflow semigroup state.
pub struct SemiflowState {
    _private: [u8; 0],
}

/// Opaque handle to a `HowlandLift<DiffusionChernoff<f64>>` evolver.
pub struct SmfHowland1D {
    _private: [u8; 0],
}

/// Opaque handle for Engel-group hypoelliptic Chernoff evolver.
pub struct SmfHypoEngel {
    _private: [u8; 0],
}

/// Opaque handle for the Heisenberg-group Chernoff kernel (no grid state).
pub struct SmfHypoHeisenberg {
    _private: [u8; 0],
}

/// Opaque handle for Kolmogorov-equation hypoelliptic Chernoff evolver.
pub struct SmfHypoKolmogorov {
    _private: [u8; 0],
}

/// Opaque handle to a `Killing2ndChernoff` evolver.
pub struct SmfKilling2nd {
    _private: [u8; 0],
}

/// Opaque handle to a `Laplacian<f64>`.
pub struct SmfLaplacian {
    _private: [u8; 0],
}

/// Opaque handle to a degenerate `GraphTraj<f64>` (fixed topology,
/// single segment, constant Laplacian).
pub struct SmfGraphTraj {
    _private: [u8; 0],
}

/// Opaque handle to a `ManifoldChernoff` 2D evolver.
pub struct SmfManifold2D {
    _private: [u8; 0],
}

/// Opaque handle to a `MatrixDiffusionChernoff2D` evolver.
pub struct SmfMatrix2D {
    _private: [u8; 0],
}

/// Opaque handle to a `MatrixDiffusionChernoff3D` evolver.
pub struct SmfMatrix3D {
    _private: [u8; 0],
}

/// Opaque handle to a 2-component matrix-diffusion evolver.
pub struct SmfMatrixDiffusion1D {
    _private: [u8; 0],
}

/// Opaque handle for `NonSep2D` (constant-beta coupling).
pub struct SmfNonSep2D {
    _private: [u8; 0],
}

/// Opaque handle for `NonSep2DAniso` (pre-sampled β array).
pub struct SmfNonSep2DAniso {
    _private: [u8; 0],
}

/// Opaque handle to a 1-D obstacle Chernoff evolver.
pub struct SmfObstacle1D {
    _private: [u8; 0],
}

/// Opaque handle to an `ObstacleGammaV8` (inactive-set Γ = V″).
pub struct SmfObstacleGamma {
    _private: [u8; 0],
}

/// Opaque handle for a D=2 obstacle ND evolver.
pub struct SmfObstacleND2 {
    _private: [u8; 0],
}

/// Opaque handle for 1-D unit-diffusion `PointEval`.
pub struct SmfPointEval {
    _private: [u8; 0],
}

/// Opaque handle to a `QuantumGraph<f64>`.
pub struct SmfQuantumGraph {
    _private: [u8; 0],
}

/// Opaque handle to a `QuantumGraphHeatChernoff` evolver state.
pub struct SmfQuantumGraphHeat {
    _private: [u8; 0],
}

/// Opaque FFI handle to a `ResolventJumpChernoff<DiffusionChernoff<f64>, f64>`.
pub struct SmfResolventJumpV3 {
    _private: [u8; 0],
}

/// Opaque FFI handle to a `ResolventJumpChernoff2D<f64>`.
pub struct SmfResolventJump2DV3 {
    _private: [u8; 0],
}

/// Opaque FFI handle to a `ResolventJumpChernoff3D<f64>`.
pub struct SmfResolventJump3DV3 {
    _private: [u8; 0],
}

/// Opaque handle to a native-complex Schrödinger evolver.
pub struct SmfSchrodingerComplex1D {
    _private: [u8; 0],
}

/// Opaque handle to a real-pair Schrödinger evolver.
pub struct SmfSchrodinger1D {
    _private: [u8; 0],
}

/// Opaque handle for the 6-D Smolyak sparse-grid evolver.
pub struct SmfSmolyakD6 {
    _private: [u8; 0],
}

/// Opaque handle to a `StrangSplit<DiffusionChernoff, DriftReactionChernoff>` evolver.
pub struct SmfStrang1D {
    _private: [u8; 0],
}

/// Opaque handle to a `StrangSplitGraph<GraphHeatChernoff, GraphHeatChernoff, f64>`.
pub struct SmfStrangGraph {
    _private: [u8; 0],
}

/// Opaque handle to a unit-coefficient `Strang2D` 2D heat evolver.
pub struct SmfHeat2D {
    _private: [u8; 0],
}

/// Opaque handle to a variable-coefficient `Strang2D` 2D heat evolver.
pub struct SmfHeat2DVarA {
    _private: [u8; 0],
}

/// Opaque handle to a unit-coefficient `Strang3D` 3D heat evolver.
pub struct SmfHeat3D {
    _private: [u8; 0],
}

/// Opaque handle to a variable-coefficient `Strang3D` 3D heat evolver.
pub struct SmfHeat3DVarA {
    _private: [u8; 0],
}

/// Opaque handle to a `SubordinatedChernoff` 1D evolver.
pub struct SmfSubordinated1D {
    _private: [u8; 0],
}

/// Opaque C handle to `Box<CoupledTtChernoff<f64>>`.
pub struct SmfTtCoupledEvolver {
    _private: [u8; 0],
}

} // verus!
