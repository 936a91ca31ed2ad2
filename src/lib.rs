//! Exact integer geometry for equirectangular panoramas: cube-map face selection and
//! sampling, Euler rotation by exact rational turns, panorama texel lookup, the splats of a
//! stochastic image transfer, icosphere sampling grids, and the viewer's navigation state.
use vstd::prelude::*;

pub mod cube;
pub mod equirect;
pub mod icosphere;
pub mod image;
pub mod rotation;
pub mod transfer;
pub mod view;
pub mod viewer;

verus! {

} // verus!
