use near_node_config::vm::{
    Config, ContractPrepareVersion, ExtCostsConfig, LimitConfig, ParameterCost, StorageGetMode,
    VMKind,
};
use near_primitives_core::config::AccountIdValidityRulesVersion;

fn sample_limits() -> LimitConfig {
    LimitConfig {
        max_gas_burnt: 300_000_000_000_000,
        max_stack_height: 262144,
        initial_memory_pages: 1024,
        max_memory_pages: 2048,
        registers_memory_limit: 1 << 30,
        max_register_size: 104857600,
        max_number_registers: 100,
        max_number_logs: 100,
        max_total_log_length: 16384,
        max_total_prepaid_gas: 300_000_000_000_000,
        max_actions_per_receipt: 100,
        max_number_bytes_method_names: 2000,
        max_length_method_name: 256,
        max_arguments_length: 4194304,
        max_length_returned_data: 4194304,
        max_contract_size: 4194304,
        max_transaction_size: 4194304,
        max_receipt_size: 4194304,
        max_length_storage_key: 2048,
        max_length_storage_value: 4194304,
        max_promises_per_function_call_action: 1024,
        max_number_input_data_dependencies: 128,
        max_functions_number_per_contract: Some(10000),
        max_locals_per_contract: None,
        account_id_validity_rules_version: AccountIdValidityRulesVersion::V1,
        yield_timeout_length_in_blocks: 200,
        max_yield_payload_size: 1024,
        per_receipt_storage_proof_size_limit: 4000000,
    }
}

fn sample_config() -> Config {
    Config {
        ext_costs: ExtCostsConfig {
            costs: vec![
                ParameterCost { gas: 2_000_000, compute: 3_000_000 },
                ParameterCost { gas: 5, compute: 7 },
                ParameterCost { gas: 0, compute: 11 },
            ],
        },
        grow_mem_cost: 1,
        regular_op_cost: 822756,
        vm_kind: VMKind::NearVm,
        storage_get_mode: StorageGetMode::FlatStorage,
        fix_contract_loading_cost: true,
        implicit_account_creation: false,
        eth_implicit_accounts: false,
        discard_custom_sections: true,
        saturating_float_to_int: true,
        global_contract_host_fns: false,
        reftypes_bulk_memory: false,
        limit_config: sample_limits(),
    }
}

#[test]
fn make_free_zeroes_costs() {
    let mut c = sample_config();
    c.make_free();
    assert_eq!(c.ext_costs.costs, vec![ParameterCost { gas: 0, compute: 0 }; 3]);
    assert_eq!(c.grow_mem_cost, 0);
    assert_eq!(c.regular_op_cost, 0);
    assert_eq!(c.limit_config.max_gas_burnt, u64::MAX);
    let mut expected_limits = sample_limits();
    expected_limits.max_gas_burnt = u64::MAX;
    assert_eq!(c.limit_config, expected_limits);
    assert_eq!(c.vm_kind, VMKind::NearVm);
    assert!(!c.implicit_account_creation);
}

#[test]
fn make_free_twice_is_make_free_once() {
    let mut once = sample_config();
    once.make_free();
    let mut twice = once.clone();
    twice.make_free();
    assert_eq!(once, twice);
}

#[test]
fn enable_all_features_sets_the_three_features() {
    let mut c = sample_config();
    c.enable_all_features();
    assert!(c.eth_implicit_accounts);
    assert!(c.global_contract_host_fns);
    assert!(c.implicit_account_creation);
    assert!(!c.reftypes_bulk_memory);
    assert_eq!(c.grow_mem_cost, 1);
    let mut again = c.clone();
    again.enable_all_features();
    assert_eq!(c, again);
}

#[test]
fn make_free_and_enable_all_features_commute() {
    let mut a = sample_config();
    a.make_free();
    a.enable_all_features();
    let mut b = sample_config();
    b.enable_all_features();
    b.make_free();
    assert_eq!(a, b);
}

#[test]
fn wasmtime_replaces_other_kinds_off_x86_64() {
    assert_eq!(VMKind::NearVm.replace_with_wasmtime_if_unsupported(false), VMKind::Wasmtime);
    assert_eq!(VMKind::Wasmer2.replace_with_wasmtime_if_unsupported(false), VMKind::Wasmtime);
    assert_eq!(VMKind::NearVm2.replace_with_wasmtime_if_unsupported(true), VMKind::NearVm2);
    assert_eq!(VMKind::Wasmtime.replace_with_wasmtime_if_unsupported(true), VMKind::Wasmtime);
    let once = VMKind::NearVm.replace_with_wasmtime_if_unsupported(false);
    assert_eq!(once.replace_with_wasmtime_if_unsupported(false), once);
}

#[test]
fn contract_prepare_version_v0() {
    assert_eq!(ContractPrepareVersion::v0(), ContractPrepareVersion::V0);
}
