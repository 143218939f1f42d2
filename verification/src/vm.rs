//! Dynamic configuration of the contract runtime: which VM runs contracts,
//! which protocol features it enables, and the limits it enforces.
use near_primitives_core::config::AccountIdValidityRulesVersion;
use near_primitives_core::types::{Compute, Gas};
use vstd::prelude::*;

verus! {

#[verifier::external_type_specification]
#[verifier::external_body]
pub struct ExAccountIdValidityRulesVersion(AccountIdValidityRulesVersion);

/// `Clone::clone` of `AccountIdValidityRulesVersion`, which derives `Copy`
/// and `Clone`: the clone is the value itself.
pub assume_specification[ <AccountIdValidityRulesVersion as Clone>::clone ](
    v: &AccountIdValidityRulesVersion,
) -> (r: AccountIdValidityRulesVersion)
    ensures
        r == *v,
;

// VMKind is part of the serialization protocol, so no entry can be removed
// from this list once a VM has reached a publicly visible network.
/// The VM implementation that runs contracts.
#[derive(Clone, Copy, Debug, Hash, PartialEq, Eq, Structural)]
pub enum VMKind {
    /// Wasmer 0.17.x VM. Gone now.
    Wasmer0,
    /// Wasmtime VM.
    Wasmtime,
    /// Wasmer 2.x VM.
    Wasmer2,
    /// NearVM.
    NearVm,
    /// NearVM. Exists temporarily while bulk memory and reftypes are getting enabled.
    NearVm2,
}

/// The VM kind that runs on a target: `kind` itself on x86_64, Wasmtime on
/// any other architecture.
pub open spec fn kind_for_target(kind: VMKind, target_is_x86_64: bool) -> VMKind {
    if target_is_x86_64 {
        kind
    } else {
        VMKind::Wasmtime
    }
}

impl VMKind {
    /// Only Wasmtime runs on targets other than x86_64: there this returns
    /// Wasmtime, on x86_64 the kind itself. `target_is_x86_64` tells which
    /// target the code was built for.
    pub fn replace_with_wasmtime_if_unsupported(self, target_is_x86_64: bool) -> (kind: VMKind)
        ensures
            kind == kind_for_target(self, target_is_x86_64),
            target_is_x86_64 ==> kind == self,
            !target_is_x86_64 ==> kind == VMKind::Wasmtime,
    {
        if !target_is_x86_64 {
            VMKind::Wasmtime
        } else {
            self
        }
    }
}

/// On x86_64 every kind runs as it is; on any other target only Wasmtime
/// runs, whatever kind was asked for.
pub proof fn lemma_kind_for_target(kind: VMKind)
    ensures
        kind_for_target(kind, true) == kind,
        kind_for_target(kind, false) == VMKind::Wasmtime,
        kind_for_target(kind, true) == kind_for_target(kind, false) <==> kind
            == VMKind::Wasmtime,
{
}

/// Replacing the VM kind for a target a second time changes nothing, and the
/// replacement is either Wasmtime or the kind it started from.
pub proof fn lemma_replace_with_wasmtime_idempotent(kind: VMKind, target_is_x86_64: bool)
    ensures
        kind_for_target(kind_for_target(kind, target_is_x86_64), target_is_x86_64)
            == kind_for_target(kind, target_is_x86_64),
        kind_for_target(kind, target_is_x86_64) == VMKind::Wasmtime
            || kind_for_target(kind, target_is_x86_64) == kind,
{
}

/// Whether a storage_get call is performed through flat storage or the trie.
#[derive(Clone, Copy, Debug, Hash, PartialEq, Eq, Structural)]
pub enum StorageGetMode {
    FlatStorage,
    Trie,
}

/// Limits of the VM and the runtime.
#[derive(Clone, Debug, Hash, PartialEq, Eq)]
pub struct LimitConfig {
    /// Max amount of gas that can be used, excluding gas attached to promises.
    pub max_gas_burnt: Gas,
    /// How tall the stack is allowed to grow.
    pub max_stack_height: u32,
    /// The initial number of memory pages. Not a limiter itself: the value
    /// used for the initial memory pages.
    pub initial_memory_pages: u32,
    /// The largest number of memory pages a contract may have.
    pub max_memory_pages: u32,
    /// Limit of memory used by registers.
    pub registers_memory_limit: u64,
    /// Maximum number of bytes that can be stored in a single register.
    pub max_register_size: u64,
    /// Maximum number of registers that can be used simultaneously.
    ///
    /// With this number of registers in use, no further write to a register
    /// succeeds, even one that replaces an existing register.
    pub max_number_registers: u64,
    /// Maximum number of log entries.
    pub max_number_logs: u64,
    /// Maximum total length in bytes of all log messages.
    pub max_total_log_length: u64,
    /// Max total prepaid gas for all function call actions per receipt.
    pub max_total_prepaid_gas: Gas,
    /// Max number of actions per receipt.
    pub max_actions_per_receipt: u64,
    /// Max total length of all method names (including terminating character)
    /// for a function call permission access key.
    pub max_number_bytes_method_names: u64,
    /// Max length of any method name (without terminating character).
    pub max_length_method_name: u64,
    /// Max length of arguments in a function call action.
    pub max_arguments_length: u64,
    /// Max length of returned data.
    pub max_length_returned_data: u64,
    /// Max contract size.
    pub max_contract_size: u64,
    /// Max transaction size.
    pub max_transaction_size: u64,
    /// Max receipt size.
    pub max_receipt_size: u64,
    /// Max storage key size.
    pub max_length_storage_key: u64,
    /// Max storage value size.
    pub max_length_storage_value: u64,
    /// Max number of promises that a function call can create.
    pub max_promises_per_function_call_action: u64,
    /// Max number of input data dependencies.
    pub max_number_input_data_dependencies: u64,
    /// If present, the max number of functions in one contract.
    pub max_functions_number_per_contract: Option<u64>,
    /// If present, the max number of locals declared globally in one contract.
    pub max_locals_per_contract: Option<u64>,
    /// Whether to enforce account_id well-formedness where it was not
    /// enforced historically.
    pub account_id_validity_rules_version: AccountIdValidityRulesVersion,
    /// Number of blocks after which a yielded promise times out.
    pub yield_timeout_length_in_blocks: u64,
    /// Maximum number of bytes for payload passed over a yield resume.
    pub max_yield_payload_size: u64,
    /// Hard limit on the size of storage proof generated while executing a
    /// single receipt.
    pub per_receipt_storage_proof_size_limit: usize,
}

/// The cost of one runtime external: gas charged and compute used.
#[derive(Clone, Copy, Debug, Hash, PartialEq, Eq, Structural)]
pub struct ParameterCost {
    pub gas: Gas,
    pub compute: Compute,
}

/// The cost that charges nothing.
pub open spec fn free_cost() -> ParameterCost {
    ParameterCost { gas: 0, compute: 0 }
}

/// Costs of the runtime externals: one entry for each kind of external.
#[derive(Clone, Debug, Hash, PartialEq, Eq)]
pub struct ExtCostsConfig {
    pub costs: Vec<ParameterCost>,
}

/// Dynamic configuration parameters that the WASM runtime needs to execute
/// a smart contract.
#[derive(Clone, Debug, Hash, PartialEq, Eq)]
pub struct Config {
    /// Costs for runtime externals.
    pub ext_costs: ExtCostsConfig,
    /// Gas cost of growing memory by a single page.
    pub grow_mem_cost: u32,
    /// Gas cost of a regular operation.
    pub regular_op_cost: u32,
    /// The kind of the VM implementation to use.
    pub vm_kind: VMKind,
    /// `StorageGetMode::FlatStorage` enables the `FlatStorageReads` protocol feature.
    pub storage_get_mode: StorageGetMode,
    /// Enable the `FixContractLoadingCost` protocol feature.
    pub fix_contract_loading_cost: bool,
    /// Enable the `ImplicitAccountCreation` protocol feature.
    pub implicit_account_creation: bool,
    /// Enable the `EthImplicitAccounts` protocol feature.
    pub eth_implicit_accounts: bool,
    /// Whether to discard custom sections.
    pub discard_custom_sections: bool,
    /// Whether to enable saturating float-to-integer wasm operators.
    pub saturating_float_to_int: bool,
    /// Whether to enable global contract related host functions.
    pub global_contract_host_fns: bool,
    /// Whether to enable reference types and bulk memory wasm extensions.
    pub reftypes_bulk_memory: bool,
    /// Limits of the VM and the runtime.
    pub limit_config: LimitConfig,
}

/// `after` is `before` made free: every external costs nothing, growing
/// memory and regular operations cost no gas, the gas that may be burnt is
/// unbounded, and all else is as it was.
pub open spec fn made_free(before: Config, after: Config) -> bool {
    &&& after.ext_costs.costs@ == Seq::new(
        before.ext_costs.costs@.len(),
        |i: int| free_cost(),
    )
    &&& after == Config {
        ext_costs: after.ext_costs,
        grow_mem_cost: 0,
        regular_op_cost: 0,
        limit_config: LimitConfig { max_gas_burnt: u64::MAX, ..before.limit_config },
        ..before
    }
}

/// `after` is `before` with the implicit account creation, Ethereum implicit
/// accounts and global contract host function features enabled, and all else
/// as it was.
pub open spec fn features_enabled(before: Config, after: Config) -> bool {
    after == Config {
        eth_implicit_accounts: true,
        global_contract_host_fns: true,
        implicit_account_creation: true,
        ..before
    }
}

/// `a` and `b` hold the same configuration: equal fields, and cost tables
/// with the same entries.
pub open spec fn same_config(a: Config, b: Config) -> bool {
    &&& a.ext_costs.costs@ == b.ext_costs.costs@
    &&& a == Config { ext_costs: a.ext_costs, ..b }
}

impl Config {
    /// Makes every operation free: all external costs, the cost of growing
    /// memory and of regular operations become zero, and the gas limit
    /// becomes `u64::MAX`.
    pub fn make_free(&mut self)
        ensures
            made_free(*old(self), *final(self)),
            final(self).grow_mem_cost == 0,
            final(self).regular_op_cost == 0,
            final(self).limit_config.max_gas_burnt == u64::MAX,
            final(self).ext_costs.costs@.len() == old(self).ext_costs.costs@.len(),
            forall|i: int|
                0 <= i < final(self).ext_costs.costs@.len() ==> #[trigger] final(self).ext_costs.costs@[i]
                    == (ParameterCost { gas: 0, compute: 0 }),
    {
        let n = self.ext_costs.costs.len();
        let mut costs: Vec<ParameterCost> = Vec::new();
        for i in 0..n
            invariant
                costs@ == Seq::new(i as nat, |j: int| free_cost()),
        {
            costs.push(ParameterCost { gas: 0, compute: 0 });
        }
        self.ext_costs = ExtCostsConfig { costs };
        self.grow_mem_cost = 0;
        self.regular_op_cost = 0;
        self.limit_config.max_gas_burnt = u64::MAX;
    }

    /// Enables the implicit account creation, Ethereum implicit accounts and
    /// global contract host function features.
    pub fn enable_all_features(&mut self)
        ensures
            features_enabled(*old(self), *final(self)),
            final(self).eth_implicit_accounts,
            final(self).global_contract_host_fns,
            final(self).implicit_account_creation,
    {
        self.eth_implicit_accounts = true;
        self.global_contract_host_fns = true;
        self.implicit_account_creation = true;
    }
}

/// A configuration made free charges nothing, whatever it held before: every
/// external costs zero gas and zero compute, growing memory and regular
/// operations cost nothing, the gas that may be burnt is `u64::MAX`; the
/// cost table keeps its length, and the VM kind, the storage mode, the
/// features and every other limit are those of the configuration before.
pub proof fn lemma_made_free_charges_nothing(before: Config, after: Config)
    requires
        made_free(before, after),
    ensures
        after.grow_mem_cost == 0,
        after.regular_op_cost == 0,
        after.limit_config.max_gas_burnt == u64::MAX,
        after.ext_costs.costs@.len() == before.ext_costs.costs@.len(),
        forall|i: int|
            0 <= i < after.ext_costs.costs@.len() ==> (#[trigger] after.ext_costs.costs@[i]).gas
                == 0 && after.ext_costs.costs@[i].compute == 0,
        after.vm_kind == before.vm_kind,
        after.storage_get_mode == before.storage_get_mode,
        after.fix_contract_loading_cost == before.fix_contract_loading_cost,
        after.implicit_account_creation == before.implicit_account_creation,
        after.eth_implicit_accounts == before.eth_implicit_accounts,
        after.discard_custom_sections == before.discard_custom_sections,
        after.saturating_float_to_int == before.saturating_float_to_int,
        after.global_contract_host_fns == before.global_contract_host_fns,
        after.reftypes_bulk_memory == before.reftypes_bulk_memory,
        after.limit_config.max_stack_height == before.limit_config.max_stack_height,
        after.limit_config.max_total_prepaid_gas == before.limit_config.max_total_prepaid_gas,
        after.limit_config.max_contract_size == before.limit_config.max_contract_size,
{
}

/// Enabling all features turns on implicit account creation, Ethereum
/// implicit accounts and the global contract host functions, whatever the
/// configuration held before, and leaves every cost, limit and other setting
/// as it was.
pub proof fn lemma_features_enabled_turns_features_on(before: Config, after: Config)
    requires
        features_enabled(before, after),
    ensures
        after.eth_implicit_accounts,
        after.global_contract_host_fns,
        after.implicit_account_creation,
        after.ext_costs == before.ext_costs,
        after.grow_mem_cost == before.grow_mem_cost,
        after.regular_op_cost == before.regular_op_cost,
        after.vm_kind == before.vm_kind,
        after.storage_get_mode == before.storage_get_mode,
        after.fix_contract_loading_cost == before.fix_contract_loading_cost,
        after.discard_custom_sections == before.discard_custom_sections,
        after.saturating_float_to_int == before.saturating_float_to_int,
        after.reftypes_bulk_memory == before.reftypes_bulk_memory,
        after.limit_config == before.limit_config,
{
}

/// Making a configuration free a second time changes nothing.
pub proof fn lemma_make_free_idempotent(a: Config, b: Config, c: Config)
    requires
        made_free(a, b),
        made_free(b, c),
    ensures
        same_config(b, c),
        made_free(a, c),
{
}

/// Enabling all features a second time changes nothing.
pub proof fn lemma_enable_all_features_idempotent(a: Config, b: Config, c: Config)
    requires
        features_enabled(a, b),
        features_enabled(b, c),
    ensures
        b == c,
{
}

/// Making a configuration free and enabling all its features give the same
/// configuration in either order.
pub proof fn lemma_make_free_commutes_with_enable_all_features(
    a: Config,
    free: Config,
    free_then_enabled: Config,
    enabled: Config,
    enabled_then_free: Config,
)
    requires
        made_free(a, free),
        features_enabled(free, free_then_enabled),
        features_enabled(a, enabled),
        made_free(enabled, enabled_then_free),
    ensures
        same_config(free_then_enabled, enabled_then_free),
{
}

/// The version of the contract preparation code.
///
/// The first limiter of the WASM stack was buggy; it was fixed, but old
/// protocol versions still use the old (`V0`) limiter. The enum keeps the
/// value in the config to `0`, `1` or `2`.
#[derive(Debug, Clone, Copy, Hash, PartialEq, Eq, Structural)]
pub enum ContractPrepareVersion {
    /// Oldest, buggiest version. Don't use it unless specifically to support
    /// an old protocol version.
    V0,
    /// Old, slow and buggy version. Better than V0, but don't use it either.
    V1,
    /// Contract preparation based on finite-wasm 0.3.0.
    V2,
}

impl ContractPrepareVersion {
    /// The oldest version, `V0`.
    pub fn v0() -> (v: ContractPrepareVersion)
        ensures
            v == ContractPrepareVersion::V0,
    {
        ContractPrepareVersion::V0
    }
}

} // verus!
