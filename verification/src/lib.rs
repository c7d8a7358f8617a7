//! Register value types of the Bouffalo Lab hardware abstraction layer.
pub mod efuse;
