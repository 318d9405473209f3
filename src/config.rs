//! The core configuration of a beacon node: which set of chain constants it
//! runs with.
use vstd::prelude::*;
use crate::state::ChainSpec;

verus! {

broadcast use vstd::string::group_string_axioms;

#[derive(Debug, Clone)]
pub struct Eth2Config {
    /// The name of the constants: "mainnet", "minimal" or "interop".
    pub spec_constants: String,
    pub spec: ChainSpec,
}

impl Eth2Config {
    pub fn mainnet() -> (r: Eth2Config)
        ensures
            r.spec_constants@ == "mainnet"@,
            r.spec == ChainSpec::mainnet_spec(),
            r.spec.wf(),
    {
        Eth2Config { spec_constants: "mainnet".to_string(), spec: ChainSpec::mainnet() }
    }

    pub fn minimal() -> (r: Eth2Config)
        ensures
            r.spec_constants@ == "minimal"@,
            r.spec == ChainSpec::minimal_spec(),
            r.spec.wf(),
    {
        Eth2Config { spec_constants: "minimal".to_string(), spec: ChainSpec::minimal() }
    }

    pub fn interop() -> (r: Eth2Config)
        ensures
            r.spec_constants@ == "interop"@,
            r.spec == ChainSpec::interop_spec(),
            r.spec.wf(),
    {
        Eth2Config { spec_constants: "interop".to_string(), spec: ChainSpec::interop() }
    }
}

impl Default for Eth2Config {
    /// The minimal constants.
    fn default() -> (r: Eth2Config)
        ensures
            r.spec_constants@ == "minimal"@,
            r.spec == ChainSpec::minimal_spec(),
    {
        Eth2Config::minimal()
    }
}

} // verus!
