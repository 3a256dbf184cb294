use vstd::prelude::*;

use crate::buffer::{buffer_at, buffer_layout, buffer_ptr};
use crate::cache::{read_cache, InstanceCache};
use crate::codec::{decode_u64, encode_u64, le_u64, u64_bytes};
use crate::env::{AbortData, CustomEnv};
use crate::error::EngineError;
use crate::gas::{debit, GasMeter};
use crate::instance::{InstanceView, InstanceWrapper};
use crate::text::{decode_utf16_le, utf16_text, utf16_units};

verus! {

/// The gas charged for making a call into another contract.
pub const CALL_COST: u64 = 10_000;

/// The gas charged for a storage read.
pub const STORAGE_LOAD_COST: u64 = 1_000;

/// The gas charged for a storage write.
pub const STORAGE_STORE_COST: u64 = 2_000;

/// The gas charged for deploying a contract from an address.
pub const DEPLOY_COST: u64 = 50_000;

/// The gas charged for a console log.
pub const LOG_COST: u64 = 100;

/// The gas charged for encoding an address.
pub const ENCODE_ADDRESS_COST: u64 = 500;

/// The type id given to result buffers written into guest memory.
pub const RESULT_BUFFER_ID: i32 = 13;

/// The bytes of the cost that prefixes every external function result.
pub const COST_PREFIX_SIZE: usize = 8;

/// The services that guest code reaches through the host.
#[derive(Clone, Copy, Debug, PartialEq, Eq, Structural)]
pub enum Capability {
    StorageLoad,
    StorageStore,
    CallOtherContract,
    DeployFromAddress,
    ConsoleLog,
    EncodeAddress,
}

/// The fixed gas charged for invoking capability `c`.
pub open spec fn capability_cost(c: Capability) -> u64 {
    match c {
        Capability::StorageLoad => STORAGE_LOAD_COST,
        Capability::StorageStore => STORAGE_STORE_COST,
        Capability::CallOtherContract => CALL_COST,
        Capability::DeployFromAddress => DEPLOY_COST,
        Capability::ConsoleLog => LOG_COST,
        Capability::EncodeAddress => ENCODE_ADDRESS_COST,
    }
}

impl Capability {
    /// The fixed gas charged for invoking this capability.
    pub fn fixed_cost(&self) -> (r: u64)
        ensures
            r == capability_cost(*self),
    {
        match self {
            Capability::StorageLoad => STORAGE_LOAD_COST,
            Capability::StorageStore => STORAGE_STORE_COST,
            Capability::CallOtherContract => CALL_COST,
            Capability::DeployFromAddress => DEPLOY_COST,
            Capability::ConsoleLog => LOG_COST,
            Capability::EncodeAddress => ENCODE_ADDRESS_COST,
        }
    }
}

/// Work for the hosting application: the capability to invoke and the bytes to hand it.
pub struct ExternalRequest {
    pub capability: Capability,
    pub data: Vec<u8>,
}

/// Where a call into another contract goes.
pub enum CallRoute {
    /// To a copy of the instance cached under the target address, invoked with the call data.
    Cached { instance: InstanceWrapper, calldata: Vec<u8> },
    /// To the hosting application's cross-contract call capability.
    External { request: ExternalRequest },
}

/// The instance `v` after a debit of `cost` gas.
pub open spec fn debited(v: InstanceView, cost: u64) -> InstanceView {
    InstanceView { gas: GasMeter { remaining: debit(v.gas.remaining, cost), ..v.gas }, ..v }
}

/// The cost with which an external result is prefixed.
pub open spec fn result_cost(result: Seq<u8>) -> u64 {
    le_u64(result.subrange(0, COST_PREFIX_SIZE as int)) as u64
}

/// The payload behind the cost prefix of an external result.
pub open spec fn result_payload(result: Seq<u8>) -> Seq<u8> {
    result.subrange(COST_PREFIX_SIZE as int, result.len() as int)
}

/// The instance `v` after the payload of `result` was written into its memory and its cost
/// debited.
pub open spec fn completed(v: InstanceView, result: Seq<u8>) -> InstanceView {
    debited(
        InstanceView {
            memory: buffer_layout(v.memory, result_payload(result), RESULT_BUFFER_ID, 0),
            ..v
        },
        result_cost(result),
    )
}

/// Frames `payload` as an external result whose execution cost is `cost`.
pub fn frame_result(cost: u64, payload: &[u8]) -> (r: Vec<u8>)
    ensures
        r@ == u64_bytes(cost as int) + payload@,
        r@.len() == COST_PREFIX_SIZE + payload@.len(),
        result_cost(r@) == cost,
        result_payload(r@) == payload@,
{
    let mut r = encode_u64(cost);
    crate::codec::append_bytes(&mut r, payload);
    proof {
        crate::codec::lemma_u64_round_trip(cost as int);
        assert(r@.subrange(0, 8) =~= u64_bytes(cost as int));
        assert(r@.subrange(8, r@.len() as int) =~= payload@);
    }
    r
}

/// Splits an external result into its cost and its payload; fails if it is too short to hold
/// a cost.
pub fn split_result(result: &[u8]) -> (r: Result<(u64, Vec<u8>), EngineError>)
    ensures
        r is Ok <==> result@.len() >= COST_PREFIX_SIZE,
        r is Err ==> r == Err::<(u64, Vec<u8>), EngineError>(EngineError::Dispatch),
        r matches Ok((cost, payload)) ==> cost == result_cost(result@) && payload@
            == result_payload(result@),
{
    if result.len() < COST_PREFIX_SIZE {
        return Err(EngineError::Dispatch);
    }
    let (head, tail) = result.split_at(COST_PREFIX_SIZE);
    let cost = decode_u64(head);
    Ok((cost, crate::codec::copy_bytes(tail)))
}

/// Begins a call from the active instance into another contract. Charges the fixed call cost,
/// reads the target address and the call data from the buffers at `address_ptr` and
/// `calldata_ptr`, and routes the call to the cached instance of that address if there is one,
/// to the hosting application if there is none.
pub fn begin_call(
    env: &mut CustomEnv,
    cache: &InstanceCache,
    address_ptr: u32,
    calldata_ptr: u32,
) -> (r: Result<CallRoute, EngineError>)
    ensures
        final(env).network == old(env).network,
        final(env).abort_data == old(env).abort_data,
        old(env).instance is None ==> r == Err::<CallRoute, EngineError>(EngineError::NotFound)
            && final(env).instance is None,
        old(env).instance matches Some(i) ==> {
            let address = buffer_at(i@.memory, address_ptr as int);
            let calldata = buffer_at(i@.memory, calldata_ptr as int);
            &&& final(env).instance matches Some(j) && j@ == debited(i@, CALL_COST)
            &&& r is Err <==> address is None || calldata is None
            &&& r is Err ==> r == Err::<CallRoute, EngineError>(EngineError::MemoryAccess)
            &&& r matches Ok(route) ==> {
                &&& route is Cached <==> cache@.contains_key(address->0)
                &&& route matches CallRoute::Cached { instance, calldata: data } ==> instance@
                    == cache@[address->0] && data@ == calldata->0
                &&& route matches CallRoute::External { request } ==> request.capability
                    == Capability::CallOtherContract && request.data@ == calldata->0
            }
        },
{
    let instance = match &mut env.instance {
        Some(i) => i,
        None => {
            return Err(EngineError::NotFound);
        },
    };
    instance.use_gas(CALL_COST);
    let address = instance.read_arraybuffer(address_ptr as u64)?;
    let calldata = instance.read_arraybuffer(calldata_ptr as u64)?;
    match read_cache(cache, address.as_slice()) {
        Ok(target) => Ok(CallRoute::Cached { instance: target, calldata }),
        Err(_) => Ok(
            CallRoute::External {
                request: ExternalRequest { capability: Capability::CallOtherContract, data: calldata },
            },
        ),
    }
}

/// Begins a request of the active instance to `capability`: charges its fixed cost and reads
/// the bytes to hand it from the buffer at `data_ptr`.
pub fn begin_request(env: &mut CustomEnv, capability: Capability, data_ptr: u32) -> (r: Result<
    ExternalRequest,
    EngineError,
>)
    ensures
        final(env).network == old(env).network,
        final(env).abort_data == old(env).abort_data,
        old(env).instance is None ==> r == Err::<ExternalRequest, EngineError>(
            EngineError::NotFound,
        ) && final(env).instance is None,
        old(env).instance matches Some(i) ==> {
            let data = buffer_at(i@.memory, data_ptr as int);
            &&& final(env).instance matches Some(j) && j@ == debited(
                i@,
                capability_cost(capability),
            )
            &&& r is Err <==> data is None
            &&& r is Err ==> r == Err::<ExternalRequest, EngineError>(EngineError::MemoryAccess)
            &&& r matches Ok(req) ==> req.capability == capability && req.data@ == data->0
        },
{
    let instance = match &mut env.instance {
        Some(i) => i,
        None => {
            return Err(EngineError::NotFound);
        },
    };
    instance.use_gas(capability.fixed_cost());
    let data = instance.read_arraybuffer(data_ptr as u64)?;
    Ok(ExternalRequest { capability, data })
}

/// Completes a call or a request with its cost-prefixed `result`: writes the payload into the
/// active instance's memory as a new buffer, then charges the reported cost, and returns the
/// buffer's pointer. A result too short to hold a cost, or a payload that does not fit in
/// memory, fails and changes nothing.
pub fn complete_request(env: &mut CustomEnv, result: &[u8]) -> (r: Result<u32, EngineError>)
    ensures
        final(env).network == old(env).network,
        final(env).abort_data == old(env).abort_data,
        old(env).instance is None ==> r == Err::<u32, EngineError>(EngineError::NotFound)
            && final(env).instance is None,
        old(env).instance matches Some(i) ==> {
            &&& final(env).instance is Some
            &&& if result@.len() < COST_PREFIX_SIZE {
                &&& r == Err::<u32, EngineError>(EngineError::Dispatch)
                &&& final(env).instance->0@ == i@
            } else if buffer_ptr(i@.memory.len() as int, 0) + result_payload(result@).len()
                <= i@.memory_max {
                &&& r matches Ok(p) && p == buffer_ptr(i@.memory.len() as int, 0)
                &&& final(env).instance->0@ == completed(i@, result@)
            } else {
                &&& r == Err::<u32, EngineError>(EngineError::Capacity)
                &&& final(env).instance->0@ == i@
            }
        },
{
    let instance = match &mut env.instance {
        Some(i) => i,
        None => {
            return Err(EngineError::NotFound);
        },
    };
    let (cost, payload) = split_result(result)?;
    let ptr = instance.write_buffer(payload.as_slice(), RESULT_BUFFER_ID, 0)?;
    instance.use_gas(cost);
    Ok(ptr as u32)
}

/// Answers the guest's request for the size of the value stored under the key in the buffer at
/// `key_ptr`, after charging the fixed storage read cost, so that the guest can make room for
/// the value before loading it.
pub fn request_load(env: &mut CustomEnv, key_ptr: u32) -> (r: Result<u32, EngineError>)
    ensures
        final(env).network == old(env).network,
        final(env).abort_data == old(env).abort_data,
        old(env).instance is None ==> r == Err::<u32, EngineError>(EngineError::NotFound)
            && final(env).instance is None,
        old(env).instance matches Some(i) ==> {
            let key = buffer_at(i@.memory, key_ptr as int);
            &&& final(env).instance matches Some(j) && j@ == debited(i@, STORAGE_LOAD_COST)
            &&& key is None ==> r == Err::<u32, EngineError>(EngineError::MemoryAccess)
            &&& key matches Some(k) ==> {
                if !i@.storage.contains_key(k) {
                    r == Err::<u32, EngineError>(EngineError::NotFound)
                } else if i@.storage[k].len() <= u32::MAX {
                    r == Ok::<u32, EngineError>(i@.storage[k].len() as u32)
                } else {
                    r == Err::<u32, EngineError>(EngineError::Capacity)
                }
            }
        },
{
    let instance = match &mut env.instance {
        Some(i) => i,
        None => {
            return Err(EngineError::NotFound);
        },
    };
    instance.use_gas(STORAGE_LOAD_COST);
    let size = instance.request_storage(key_ptr as u64)?;
    if size > u32::MAX as u64 {
        return Err(EngineError::Capacity);
    }
    Ok(size as u32)
}

/// Copies the value stored under the key in the buffer at `key_ptr` into guest memory at
/// `dest_ptr`, after charging the fixed storage read cost.
pub fn load(env: &mut CustomEnv, key_ptr: u32, dest_ptr: u32) -> (r: Result<(), EngineError>)
    ensures
        final(env).network == old(env).network,
        final(env).abort_data == old(env).abort_data,
        old(env).instance is None ==> r == Err::<(), EngineError>(EngineError::NotFound)
            && final(env).instance is None,
        old(env).instance matches Some(i) ==> {
            let v = debited(i@, STORAGE_LOAD_COST);
            let key = buffer_at(i@.memory, key_ptr as int);
            &&& final(env).instance is Some
            &&& r is Err ==> final(env).instance->0@ == v
            &&& key is None ==> r == Err::<(), EngineError>(EngineError::MemoryAccess)
            &&& key matches Some(k) ==> {
                if !i@.storage.contains_key(k) {
                    r == Err::<(), EngineError>(EngineError::NotFound)
                } else if dest_ptr + i@.storage[k].len() <= i@.memory.len() {
                    &&& r is Ok
                    &&& final(env).instance->0@ == (InstanceView {
                        memory: crate::memory::overwrite(
                            i@.memory,
                            dest_ptr as int,
                            i@.storage[k],
                        ),
                        ..v
                    })
                } else {
                    r == Err::<(), EngineError>(EngineError::MemoryAccess)
                }
            }
        },
{
    let instance = match &mut env.instance {
        Some(i) => i,
        None => {
            return Err(EngineError::NotFound);
        },
    };
    instance.use_gas(STORAGE_LOAD_COST);
    instance.load_from_storage(key_ptr as u64, dest_ptr as u64)
}

/// Stores the buffer at `value_ptr` under the key in the buffer at `key_ptr`, after charging
/// the fixed storage write cost.
pub fn store(env: &mut CustomEnv, key_ptr: u32, value_ptr: u32) -> (r: Result<(), EngineError>)
    ensures
        final(env).network == old(env).network,
        final(env).abort_data == old(env).abort_data,
        old(env).instance is None ==> r == Err::<(), EngineError>(EngineError::NotFound)
            && final(env).instance is None,
        old(env).instance matches Some(i) ==> {
            let v = debited(i@, STORAGE_STORE_COST);
            let key = buffer_at(i@.memory, key_ptr as int);
            let value = buffer_at(i@.memory, value_ptr as int);
            &&& final(env).instance is Some
            &&& r is Ok <==> key is Some && value is Some
            &&& r is Err ==> r == Err::<(), EngineError>(EngineError::MemoryAccess)
                && final(env).instance->0@ == v
            &&& r is Ok ==> final(env).instance->0@ == (InstanceView {
                storage: i@.storage.insert(key->0, value->0),
                ..v
            })
        },
{
    let instance = match &mut env.instance {
        Some(i) => i,
        None => {
            return Err(EngineError::NotFound);
        },
    };
    instance.use_gas(STORAGE_STORE_COST);
    instance.store_to_storage(key_ptr as u64, value_ptr as u64)
}

/// The text of the UTF-16 string buffer at `ptr`; no text where no buffer can be read.
pub open spec fn text_at(mem: Seq<u8>, ptr: int) -> Seq<char> {
    match buffer_at(mem, ptr) {
        Some(b) => utf16_text(utf16_units(b)),
        None => Seq::empty(),
    }
}

/// The text of the UTF-16 string buffer at `ptr` in the instance's memory.
fn read_text(instance: &InstanceWrapper, ptr: u32) -> (r: String)
    ensures
        r@ == text_at(instance@.memory, ptr as int),
{
    match instance.read_arraybuffer(ptr as u64) {
        Ok(bytes) => decode_utf16_le(bytes.as_slice()),
        Err(_) => String::new(),
    }
}

/// Handles an abort raised by guest code: records the message, the file and the position as
/// the reason of the abort unless a reason is recorded already, and returns the trap that ends
/// the invocation.
pub fn abort(env: &mut CustomEnv, message_ptr: u32, file_ptr: u32, line: u32, column: u32) -> (r:
    EngineError)
    ensures
        r == EngineError::Trap,
        final(env).instance == old(env).instance,
        final(env).network == old(env).network,
        old(env).abort_data is Some ==> final(env).abort_data == old(env).abort_data,
        old(env).abort_data is None ==> (final(env).abort_data matches Some(d) && {
            &&& d.line == line
            &&& d.column == column
            &&& old(env).instance matches Some(i) ==> d.message@ == text_at(
                i@.memory,
                message_ptr as int,
            ) && d.file_name@ == text_at(i@.memory, file_ptr as int)
            &&& old(env).instance is None ==> d.message@.len() == 0 && d.file_name@.len() == 0
        }),
{
    let (message, file_name) = match &env.instance {
        Some(i) => (read_text(i, message_ptr), read_text(i, file_ptr)),
        None => (String::new(), String::new()),
    };
    env.record_abort(AbortData { message, file_name, line, column });
    EngineError::Trap
}

} // verus!
