//! Density types and the dimensions that each of them needs.
use vstd::prelude::*;

verus! {

/// Which density components a calculation needs.
///
/// - `RHO`: the density alone (LDA);
/// - `SIGMA`: the density and its gradient (GGA);
/// - `TAU`: the above and the kinetic energy density (meta-GGA);
/// - `LAPL`: the above and the Laplacian of the density.
#[derive(Debug, Clone, Copy, PartialEq, Eq, Hash, Structural)]
pub enum NIDenType {
    RHO,
    SIGMA,
    TAU,
    LAPL,
}

/// Number of density components of a density type.
pub open spec fn rho_components(d: NIDenType) -> nat {
    match d {
        NIDenType::RHO => 1,
        NIDenType::SIGMA => 4,
        NIDenType::TAU => 5,
        NIDenType::LAPL => 6,
    }
}

/// Order of AO derivatives that a density type needs.
pub open spec fn ao_deriv_order(d: NIDenType) -> nat {
    match d {
        NIDenType::RHO => 0,
        NIDenType::SIGMA => 1,
        NIDenType::TAU => 1,
        NIDenType::LAPL => 2,
    }
}

/// Number of Cartesian AO derivative components up to order `k`, the value and
/// all derivatives of order 1 to `k`: the binomial coefficient C(k + 3, 3).
pub open spec fn deriv_dim(k: nat) -> nat {
    ((k + 1) * (k + 2) * (k + 3) / 6) as nat
}

/// Number of AO components (value and derivatives) that a density type reads.
pub open spec fn ao_components(d: NIDenType) -> nat {
    deriv_dim(ao_deriv_order(d))
}

/// Highest AO derivative order that the AO cache supports.
pub const MAX_AO_DERIV: usize = 4;

/// Number of AO components stored for AO derivatives up to order `deriv`
/// (`1, 4, 10, 20, 35` for orders `0` to `4`).
pub fn ao_deriv_dim(deriv: usize) -> (r: usize)
    requires
        deriv <= MAX_AO_DERIV,
    ensures
        r == deriv_dim(deriv as nat),
{
    assert(deriv_dim(0) == 1) by (nonlinear_arith);
    assert(deriv_dim(1) == 4) by (nonlinear_arith);
    assert(deriv_dim(2) == 10) by (nonlinear_arith);
    assert(deriv_dim(3) == 20) by (nonlinear_arith);
    assert(deriv_dim(4) == 35) by (nonlinear_arith);
    match deriv {
        0 => 1,
        1 => 4,
        2 => 10,
        3 => 20,
        _ => 35,
    }
}

impl NIDenType {
    /// Returns the number of components in the output density for this XC type.
    ///
    /// - RHO: 1 component (density)
    /// - SIGMA: 4 components (density + 3 gradient components)
    /// - TAU: 5 components (density + 3 gradient components + kinetic energy density)
    /// - LAPL: 6 components (density + 3 gradient components + kinetic energy density + laplacian)
    pub fn num_rho_components(&self) -> (r: usize)
        ensures
            r == rho_components(*self),
    {
        match self {
            NIDenType::RHO => 1,
            NIDenType::SIGMA => 4,
            NIDenType::TAU => 5,
            NIDenType::LAPL => 6,
        }
    }

    /// Returns the required AO derivative level for this XC type.
    ///
    /// - RHO: 0th order
    /// - SIGMA: 1st order (gradient)
    /// - TAU: 1st order (gradient)
    /// - LAPL: 2nd order (Laplacian)
    pub fn num_ao_deriv(&self) -> (r: usize)
        ensures
            r == ao_deriv_order(*self),
    {
        match self {
            NIDenType::RHO => 0,
            NIDenType::SIGMA => 1,
            NIDenType::TAU => 1,
            NIDenType::LAPL => 2,
        }
    }

    /// Number of density variables of this type, the second dimension of a
    /// density tensor: the same as [`NIDenType::num_rho_components`].
    pub fn num_nvar(&self) -> (r: usize)
        ensures
            r == rho_components(*self),
    {
        self.num_rho_components()
    }

    /// Number of AO components (value and derivatives) that this type reads:
    /// those of the AO derivatives up to [`NIDenType::num_ao_deriv`].
    pub fn num_ao_comp(&self) -> (r: usize)
        ensures
            r == ao_components(*self),
    {
        ao_deriv_dim(self.num_ao_deriv())
    }
}

/// Each density type has what the density evaluation writes and reads: the
/// gradient types have 4 density variables and AO value plus gradient; the
/// kinetic types a fifth variable; the Laplacian type a sixth variable and the
/// AO second derivatives up to component 9 (`xx`, `yy`, `zz` at 4, 7, 9).
pub proof fn law_den_type_components(d: NIDenType)
    ensures
        rho_components(d) >= 1,
        ao_components(d) >= 1,
        d != NIDenType::RHO ==> rho_components(d) >= 4 && ao_components(d) >= 4,
        (d == NIDenType::TAU || d == NIDenType::LAPL) ==> rho_components(d) >= 5,
        d == NIDenType::LAPL ==> rho_components(d) >= 6 && ao_components(d) >= 10,
        rho_components(d) <= 6,
        ao_components(d) <= 10,
{
    assert(deriv_dim(0) == 1) by (nonlinear_arith);
    assert(deriv_dim(1) == 4) by (nonlinear_arith);
    assert(deriv_dim(2) == 10) by (nonlinear_arith);
}

/// Each richer density type extends the previous one by the components named
/// in [`NIDenType::num_rho_components`]: one for the density, three for the
/// gradient, one for the kinetic energy density, one for the Laplacian.
pub proof fn law_den_type_nesting()
    ensures
        rho_components(NIDenType::RHO) == 1,
        rho_components(NIDenType::SIGMA) == rho_components(NIDenType::RHO) + 3,
        rho_components(NIDenType::TAU) == rho_components(NIDenType::SIGMA) + 1,
        rho_components(NIDenType::LAPL) == rho_components(NIDenType::TAU) + 1,
        ao_deriv_order(NIDenType::RHO) <= ao_deriv_order(NIDenType::SIGMA),
        ao_deriv_order(NIDenType::SIGMA) <= ao_deriv_order(NIDenType::TAU),
        ao_deriv_order(NIDenType::TAU) <= ao_deriv_order(NIDenType::LAPL),
{
}

} // verus!
