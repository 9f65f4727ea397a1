//! Live network-flow inspection: frame dissection, socket-to-process
//! correlation, flow attribution and subscriber fan-out, with every
//! function's behaviour stated as a contract and proved.

pub mod addr;
pub mod capture;
pub mod dissect;
pub mod dissect_laws;
pub mod flow;
pub mod processes;
pub mod registry;
pub mod scan;
pub mod scan_laws;
pub mod span;
pub mod table;
pub mod wire;
