use contract_vm::cache::{get_cache, instantiate_cache, read_cache, write_to_cache, InstanceCache};
use contract_vm::env::{BitcoinNetwork, CustomEnv};
use contract_vm::error::EngineError;
use contract_vm::host::{
    abort, begin_call, begin_request, complete_request, frame_result, load, request_load,
    split_result, store, CallRoute, Capability, ExternalRequest, CALL_COST, STORAGE_LOAD_COST,
    STORAGE_STORE_COST,
};
use contract_vm::instance::InstanceWrapper;

/// Stands in for the hosting application's cross-contract call capability.
struct CountingDispatch {
    calls: u32,
    cost: u64,
    payload: Vec<u8>,
}

impl CountingDispatch {
    fn execute(&mut self, request: &ExternalRequest) -> Vec<u8> {
        assert_eq!(request.capability, Capability::CallOtherContract);
        self.calls += 1;
        frame_result(self.cost, &self.payload)
    }
}

fn instance(max_gas: u64) -> InstanceWrapper {
    InstanceWrapper::new(vec![0, 97, 115, 109, 1, 0, 0, 0], max_gas, 16, 65_536).unwrap()
}

/// An environment whose instance holds an address buffer and a call data buffer.
fn env_with_call(address: &[u8], calldata: &[u8]) -> (CustomEnv, u32, u32) {
    let mut inst = instance(1_000_000);
    let a = inst.write_buffer(address, 0, 0).unwrap() as u32;
    let c = inst.write_buffer(calldata, 0, 0).unwrap() as u32;
    let mut env = CustomEnv::new(BitcoinNetwork::Regtest);
    env.set_instance(inst);
    (env, a, c)
}

/// Runs the whole call path, dispatching externally where the route says so.
fn run_call(
    env: &mut CustomEnv,
    cache: &InstanceCache,
    dispatch: &mut CountingDispatch,
    a: u32,
    c: u32,
) -> u32 {
    let result = match begin_call(env, cache, a, c).unwrap() {
        CallRoute::External { request } => dispatch.execute(&request),
        CallRoute::Cached { mut instance, calldata } => {
            let ptr = instance.write_buffer(&calldata, 0, 0).unwrap();
            let echoed = instance.read_arraybuffer(ptr).unwrap();
            frame_result(instance.get_used_gas(), &echoed)
        }
    };
    complete_request(env, &result).unwrap()
}

#[test]
fn call_without_cached_target_dispatches() {
    let (mut env, a, c) = env_with_call(b"contract-c", b"calldata");
    let cache = instantiate_cache();
    let mut dispatch = CountingDispatch { calls: 0, cost: 100, payload: vec![7, 8, 9] };
    let before = env.instance.as_ref().unwrap().get_remaining_gas();
    let ptr = run_call(&mut env, &cache, &mut dispatch, a, c);
    let inst = env.instance.as_ref().unwrap();
    assert_eq!(dispatch.calls, 1);
    assert!(before - inst.get_remaining_gas() >= 100 + CALL_COST);
    assert_eq!(before - inst.get_remaining_gas(), 100 + CALL_COST);
    assert_eq!(inst.read_arraybuffer(ptr as u64), Ok(vec![7, 8, 9]));
}

#[test]
fn call_with_cached_target_bypasses_dispatch() {
    let (mut env, a, c) = env_with_call(b"contract-c", b"calldata");
    let mut cache = instantiate_cache();
    let mut dispatch = CountingDispatch { calls: 0, cost: 100, payload: vec![1] };
    run_call(&mut env, &cache, &mut dispatch, a, c);
    assert_eq!(dispatch.calls, 1);
    write_to_cache(&mut cache, b"contract-c", &instance(500));
    for _ in 0..3 {
        let ptr = run_call(&mut env, &cache, &mut dispatch, a, c);
        let inst = env.instance.as_ref().unwrap();
        assert_eq!(inst.read_arraybuffer(ptr as u64), Ok(b"calldata".to_vec()));
    }
    assert_eq!(dispatch.calls, 1);
}

#[test]
fn begin_call_routes_by_cache_membership() {
    let (mut env, a, c) = env_with_call(b"addr", b"xy");
    let mut cache = InstanceCache::new();
    match begin_call(&mut env, &cache, a, c) {
        Ok(CallRoute::External { request }) => assert_eq!(request.data, b"xy".to_vec()),
        _ => panic!("expected an external route"),
    }
    write_to_cache(&mut cache, b"addr", &instance(10));
    match begin_call(&mut env, &cache, a, c) {
        Ok(CallRoute::Cached { instance, calldata }) => {
            assert_eq!(calldata, b"xy".to_vec());
            assert_eq!(instance.get_remaining_gas(), 10);
        }
        _ => panic!("expected a cached route"),
    }
    let remaining = env.instance.as_ref().unwrap().get_remaining_gas();
    assert_eq!(remaining, 1_000_000 - 2 * CALL_COST);
}

#[test]
fn begin_call_without_instance_fails() {
    let mut env = CustomEnv::new(BitcoinNetwork::Mainnet);
    let cache = InstanceCache::new();
    assert!(matches!(begin_call(&mut env, &cache, 4, 4), Err(EngineError::NotFound)));
    assert_eq!(complete_request(&mut env, &[0u8; 8]), Err(EngineError::NotFound));
}

#[test]
fn begin_call_with_bad_pointer_still_charges() {
    let (mut env, _a, c) = env_with_call(b"addr", b"xy");
    let cache = InstanceCache::new();
    assert!(matches!(begin_call(&mut env, &cache, 2, c), Err(EngineError::MemoryAccess)));
    let remaining = env.instance.as_ref().unwrap().get_remaining_gas();
    assert_eq!(remaining, 1_000_000 - CALL_COST);
}

#[test]
fn complete_request_rejects_short_result() {
    let (mut env, _a, _c) = env_with_call(b"addr", b"xy");
    let size_before = env.instance.as_ref().unwrap().memory.size();
    assert_eq!(complete_request(&mut env, &[1, 2, 3]), Err(EngineError::Dispatch));
    assert_eq!(env.instance.as_ref().unwrap().memory.size(), size_before);
    assert_eq!(env.instance.as_ref().unwrap().get_remaining_gas(), 1_000_000);
}

#[test]
fn complete_request_over_capacity_fails() {
    let mut inst = InstanceWrapper::new(vec![], 1_000, 0, 32).unwrap();
    inst.write_buffer(&[1], 0, 0).unwrap();
    let mut env = CustomEnv::new(BitcoinNetwork::Testnet);
    env.set_instance(inst);
    let result = frame_result(5, &[0u8; 20]);
    assert_eq!(complete_request(&mut env, &result), Err(EngineError::Capacity));
    assert_eq!(env.instance.as_ref().unwrap().get_remaining_gas(), 1_000);
}

#[test]
fn frame_and_split_result() {
    let framed = frame_result(0x0102_0304_0506_0708, &[42, 43]);
    assert_eq!(framed, vec![8, 7, 6, 5, 4, 3, 2, 1, 42, 43]);
    assert_eq!(split_result(&framed), Ok((0x0102_0304_0506_0708, vec![42, 43])));
    assert_eq!(split_result(&[1, 2, 3, 4, 5, 6, 7]), Err(EngineError::Dispatch));
    assert_eq!(split_result(&[100, 0, 0, 0, 0, 0, 0, 0]), Ok((100, vec![])));
}

#[test]
fn begin_request_charges_capability_cost() {
    let (mut env, a, _c) = env_with_call(b"log line", b"");
    let req = begin_request(&mut env, Capability::ConsoleLog, a).unwrap();
    assert_eq!(req.capability, Capability::ConsoleLog);
    assert_eq!(req.data, b"log line".to_vec());
    let remaining = env.instance.as_ref().unwrap().get_remaining_gas();
    assert_eq!(remaining, 1_000_000 - Capability::ConsoleLog.fixed_cost());
    assert_eq!(Capability::DeployFromAddress.fixed_cost(), 50_000);
}

#[test]
fn storage_request_then_load() {
    let (mut env, key_ptr, value_ptr) = env_with_call(b"key", b"value!");
    assert_eq!(store(&mut env, key_ptr, value_ptr), Ok(()));
    assert_eq!(request_load(&mut env, key_ptr), Ok(6));
    let dest = env.instance.as_mut().unwrap().grow_for(6).unwrap() as u32;
    assert_eq!(load(&mut env, key_ptr, dest), Ok(()));
    let inst = env.instance.as_ref().unwrap();
    assert_eq!(inst.read_memory(dest as u64, 6), Ok(b"value!".to_vec()));
    let spent = STORAGE_STORE_COST + 2 * STORAGE_LOAD_COST;
    assert_eq!(inst.get_remaining_gas(), 1_000_000 - spent);
}

#[test]
fn storage_missing_key_not_found() {
    let (mut env, key_ptr, _v) = env_with_call(b"absent", b"");
    assert_eq!(request_load(&mut env, key_ptr), Err(EngineError::NotFound));
    assert_eq!(load(&mut env, key_ptr, 0), Err(EngineError::NotFound));
    assert_eq!(request_load(&mut env, 1), Err(EngineError::MemoryAccess));
}

#[test]
fn storage_load_out_of_bounds_destination() {
    let (mut env, key_ptr, value_ptr) = env_with_call(b"k", b"abc");
    store(&mut env, key_ptr, value_ptr).unwrap();
    let size = env.instance.as_ref().unwrap().memory.size() as u32;
    assert_eq!(load(&mut env, key_ptr, size - 2), Err(EngineError::MemoryAccess));
}

#[test]
fn abort_records_first_reason() {
    let mut inst = instance(100);
    let msg: Vec<u8> = "boom".encode_utf16().flat_map(|u| u.to_le_bytes()).collect();
    let file: Vec<u8> = "a.ts".encode_utf16().flat_map(|u| u.to_le_bytes()).collect();
    let m = inst.write_buffer(&msg, 2, 0).unwrap() as u32;
    let f = inst.write_buffer(&file, 2, 0).unwrap() as u32;
    let mut env = CustomEnv::new(BitcoinNetwork::Mainnet);
    env.set_instance(inst);
    assert_eq!(abort(&mut env, m, f, 12, 5), EngineError::Trap);
    let data = env.get_abort_data().unwrap();
    assert_eq!(data.message, "boom");
    assert_eq!(data.file_name, "a.ts");
    assert_eq!((data.line, data.column), (12, 5));
    assert_eq!(abort(&mut env, 0, 0, 1, 1), EngineError::Trap);
    assert_eq!(env.get_abort_data().unwrap().message, "boom");
}

#[test]
fn abort_with_unreadable_message() {
    let mut env = CustomEnv::new(BitcoinNetwork::Mainnet);
    env.set_instance(instance(100));
    assert_eq!(abort(&mut env, 0, 1, 3, 4), EngineError::Trap);
    let data = env.get_abort_data().unwrap();
    assert_eq!(data.message, "");
    assert_eq!(data.file_name, "");
}

#[test]
fn cache_read_returns_reset_instance() {
    let mut cache = instantiate_cache();
    let mut inst = instance(1_000);
    inst.write_memory(0, &[9, 9, 9]).unwrap();
    inst.grow_for(100).unwrap();
    inst.set_storage(b"k", b"v");
    write_to_cache(&mut cache, b"addr", &inst);
    let back = read_cache(&cache, b"addr").unwrap();
    assert_eq!(back.memory.size(), 16);
    assert_eq!(back.read_memory(0, 16), Ok(vec![0u8; 16]));
    assert_eq!(back.get_storage(b"k"), Some(b"v".to_vec()));
    assert_eq!(back.code, inst.code);
    let fresh = instance(1_000);
    write_to_cache(&mut cache, b"other", &fresh);
    let other = read_cache(&cache, b"other").unwrap();
    assert_eq!(other.read_memory(0, 16), back.read_memory(0, 16));
    assert!(cache.contains(b"addr"));
}

#[test]
fn cache_read_missing_key_fails() {
    let cache = instantiate_cache();
    assert!(matches!(read_cache(&cache, b"nothing"), Err(EngineError::NotFound)));
}

#[test]
fn cache_write_overwrites_entry() {
    let mut cache = instantiate_cache();
    write_to_cache(&mut cache, b"addr", &instance(1));
    write_to_cache(&mut cache, b"addr", &instance(2));
    assert_eq!(read_cache(&cache, b"addr").unwrap().get_remaining_gas(), 2);
}

#[test]
fn cache_evict_removes_entry() {
    let mut cache = instantiate_cache();
    write_to_cache(&mut cache, b"a", &instance(1));
    write_to_cache(&mut cache, b"b", &instance(2));
    assert!(cache.evict(b"a"));
    assert!(!cache.evict(b"a"));
    assert!(!cache.contains(b"a"));
    assert_eq!(read_cache(&cache, b"b").unwrap().get_remaining_gas(), 2);
}

#[test]
fn cache_snapshot_is_independent() {
    let mut cache = instantiate_cache();
    write_to_cache(&mut cache, b"a", &instance(1));
    let snapshot = get_cache(&cache);
    write_to_cache(&mut cache, b"a", &instance(9));
    cache.evict(b"a");
    assert_eq!(read_cache(&snapshot, b"a").unwrap().get_remaining_gas(), 1);
    assert!(!cache.contains(b"a"));
}
