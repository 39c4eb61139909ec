use crate::keystore::Keystore;
use vstd::prelude::*;

verus! {

/// The bit pattern of the `f32` value 1.0.
pub const ONE_F32_BITS: u32 = 0x3F80_0000;

/// The bit pattern of the `f64` value 0.001.
pub const MILLI_F64_BITS: u64 = 0x3F50_624D_D2F1_A9FC;

/// The orchestrator's settings: which keystore holds its keys, and how to
/// reach the chains and expose metrics. Every section has a default, so an
/// empty settings document is valid.
pub struct GorcConfig {
    pub keystore: Keystore,
    pub gravity: GravitySection,
    pub ethereum: EthereumSection,
    pub cosmos: CosmosSection,
    pub metrics: MetricsSection,
}

/// The bridge contract and the denomination in which fees are paid.
pub struct GravitySection {
    pub contract: String,
    pub fees_denom: String,
}

/// How to reach the EVM chain.
pub struct EthereumSection {
    pub key_derivation_path: String,
    pub rpc: String,
    /// The gas price multiplier, an `f32` held as its IEEE 754 bit pattern.
    pub gas_price_multiplier_bits: u32,
    pub blocks_to_search: u64,
}

/// How to reach the Cosmos chain.
pub struct CosmosSection {
    pub key_derivation_path: String,
    pub grpc: String,
    pub prefix: String,
    pub gas_price: GasPrice,
}

/// A gas price: an amount of a denomination.
pub struct GasPrice {
    /// The amount, an `f64` held as its IEEE 754 bit pattern.
    pub amount_bits: u64,
    pub denom: String,
}

/// Where the metrics listener binds.
pub struct MetricsSection {
    /// A socket address in `host:port` form.
    pub listen_addr: String,
}

/// The default gravity section.
pub open spec fn is_default_gravity(g: GravitySection) -> bool {
    &&& g.contract@ == "0x0000000000000000000000000000000000000000"@
    &&& g.fees_denom@ == "stake"@
}

/// The default EVM section.
pub open spec fn is_default_ethereum(e: EthereumSection) -> bool {
    &&& e.key_derivation_path@ == "m/44'/60'/0'/0/0"@
    &&& e.rpc@ == "http://localhost:8545"@
    &&& e.gas_price_multiplier_bits == ONE_F32_BITS
    &&& e.blocks_to_search == 5000
}

/// The default gas price.
pub open spec fn is_default_gas_price(g: GasPrice) -> bool {
    &&& g.amount_bits == MILLI_F64_BITS
    &&& g.denom@ == "stake"@
}

/// The default Cosmos section.
pub open spec fn is_default_cosmos(c: CosmosSection) -> bool {
    &&& c.key_derivation_path@ == "m/44'/118'/0'/0/0"@
    &&& c.grpc@ == "http://localhost:9090"@
    &&& c.prefix@ == "cosmos"@
    &&& is_default_gas_price(c.gas_price)
}

/// The default metrics section.
pub open spec fn is_default_metrics(m: MetricsSection) -> bool {
    m.listen_addr@ == "127.0.0.1:3000"@
}

/// The default keystore: the local store under `/tmp/keystore`.
pub open spec fn is_default_keystore(k: Keystore) -> bool {
    k matches Keystore::File(p) && p@ == "/tmp/keystore"@
}

/// The settings that an empty settings document stands for.
pub open spec fn is_default_config(c: GorcConfig) -> bool {
    &&& is_default_keystore(c.keystore)
    &&& is_default_gravity(c.gravity)
    &&& is_default_ethereum(c.ethereum)
    &&& is_default_cosmos(c.cosmos)
    &&& is_default_metrics(c.metrics)
}

impl Default for GorcConfig {
    fn default() -> (r: Self)
        ensures
            is_default_config(r),
    {
        GorcConfig {
            keystore: Keystore::default(),
            gravity: GravitySection::default(),
            ethereum: EthereumSection::default(),
            cosmos: CosmosSection::default(),
            metrics: MetricsSection::default(),
        }
    }
}

impl Default for GravitySection {
    fn default() -> (r: Self)
        ensures
            is_default_gravity(r),
    {
        GravitySection {
            contract: "0x0000000000000000000000000000000000000000".to_owned(),
            fees_denom: "stake".to_owned(),
        }
    }
}

impl Default for EthereumSection {
    fn default() -> (r: Self)
        ensures
            is_default_ethereum(r),
    {
        EthereumSection {
            key_derivation_path: "m/44'/60'/0'/0/0".to_owned(),
            rpc: "http://localhost:8545".to_owned(),
            gas_price_multiplier_bits: ONE_F32_BITS,
            blocks_to_search: 5000,
        }
    }
}

impl Default for CosmosSection {
    fn default() -> (r: Self)
        ensures
            is_default_cosmos(r),
    {
        CosmosSection {
            key_derivation_path: "m/44'/118'/0'/0/0".to_owned(),
            grpc: "http://localhost:9090".to_owned(),
            prefix: "cosmos".to_owned(),
            gas_price: GasPrice::default(),
        }
    }
}

impl Default for GasPrice {
    fn default() -> (r: Self)
        ensures
            is_default_gas_price(r),
    {
        GasPrice { amount_bits: MILLI_F64_BITS, denom: "stake".to_owned() }
    }
}

impl Default for MetricsSection {
    fn default() -> (r: Self)
        ensures
            is_default_metrics(r),
    {
        MetricsSection { listen_addr: "127.0.0.1:3000".to_owned() }
    }
}

impl GasPrice {
    /// The price as an (amount, denomination) pair, the amount as the bit
    /// pattern of its `f64`.
    pub fn as_tuple(&self) -> (r: (u64, String))
        ensures
            r.0 == self.amount_bits,
            r.1@ == self.denom@,
    {
        (self.amount_bits, self.denom.clone())
    }
}

} // verus!
