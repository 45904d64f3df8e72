//! Decision and arithmetic core of a Uniswap-V2 sandwich bot: the EIP-1559
//! base fee forecast, the constant-product pool model, the checks that turn a
//! pending router call into a sandwich opportunity, the choice among
//! opportunities, and the step-by-step plan that builds and vets a bundle.

pub mod base_fee;
pub mod amm;
pub mod encoding;
pub mod sandwich;
pub mod swap_tx;
pub mod reader;
