//! The protocol service: a stateless translator between decoded Modbus
//! requests and register-store operations. Given a request against one of
//! the supported function codes it performs the corresponding store
//! operation and produces the matching response; any other request fails
//! with `IllegalFunction` and leaves the store untouched.
//!
//! The service holds no per-connection state: every call is one atomic store
//! operation, so instances may be shared or created per connection as long
//! as they reference the same store. Responses echo the committed address
//! and values as the store reports them, not the caller's raw request.

use crate::store::RegisterStore;
use crate::store::bits_from;
use crate::store::upsert_run;
use crate::store::words_from;
use vstd::prelude::*;

verus! {

/// A decoded Modbus request, as the transport hands it over after framing.
/// `Unsupported` stands for any function code outside the supported set.
#[derive(Debug)]
pub enum Request {
    ReadHoldingRegisters(u16, u16),
    ReadInputRegisters(u16, u16),
    WriteSingleRegister(u16, u16),
    WriteMultipleRegisters(u16, Vec<u16>),
    ReadCoils(u16, u16),
    WriteSingleCoil(u16, bool),
    Unsupported,
}

/// The response returned to the transport for a supported request.
#[derive(Debug, PartialEq)]
pub enum Response {
    ReadHoldingRegisters(Vec<u16>),
    ReadInputRegisters(Vec<u16>),
    WriteSingleRegister(u16, u16),
    WriteMultipleRegisters(u16, u16),
    ReadCoils(Vec<bool>),
    WriteSingleCoil(u16, bool),
}

/// The protocol exception a request can fail with. It is local to one
/// request: the connection stays open and the store is left untouched.
#[derive(Clone, Copy, Debug, PartialEq, Eq, Structural)]
pub enum ModbusException {
    IllegalFunction,
}

/// The one bound the transport's framing already enforces that the machine
/// needs restated: a multiple-register write carries at most a 16-bit count
/// of words.
pub open spec fn request_wf(req: Request) -> bool {
    match req {
        Request::WriteMultipleRegisters(_, vals) => vals@.len() <= 0xFFFF,
        _ => true,
    }
}

/// Both stores describe the same registers and coils.
pub open spec fn store_unchanged(pre: RegisterStore, post: RegisterStore) -> bool {
    &&& post.holding_map() == pre.holding_map()
    &&& post.input_map() == pre.input_map()
    &&& post.coil_map() == pre.coil_map()
}

/// What servicing `req` against a store in state `pre` must produce: the
/// store state `post` left behind, and the exact response or exception `r`.
pub open spec fn request_handled(
    pre: RegisterStore,
    post: RegisterStore,
    req: Request,
    r: Result<Response, ModbusException>,
) -> bool {
    match req {
        Request::ReadHoldingRegisters(addr, count) => {
            &&& store_unchanged(pre, post)
            &&& match r {
                Ok(Response::ReadHoldingRegisters(values)) => values@ == words_from(
                    pre.holding_map(),
                    addr,
                    count,
                ),
                _ => false,
            }
        },
        Request::ReadInputRegisters(addr, count) => {
            &&& store_unchanged(pre, post)
            &&& match r {
                Ok(Response::ReadInputRegisters(values)) => values@ == words_from(
                    pre.input_map(),
                    addr,
                    count,
                ),
                _ => false,
            }
        },
        Request::WriteSingleRegister(addr, value) => {
            &&& post.holding_map() == pre.holding_map().insert(addr, value)
            &&& post.input_map() == pre.input_map()
            &&& post.coil_map() == pre.coil_map()
            &&& r == Ok::<Response, ModbusException>(Response::WriteSingleRegister(addr, value))
        },
        Request::WriteMultipleRegisters(addr, values) => {
            &&& post.holding_map() == upsert_run(pre.holding_map(), addr, values@)
            &&& post.input_map() == pre.input_map()
            &&& post.coil_map() == pre.coil_map()
            &&& match r {
                Ok(Response::WriteMultipleRegisters(echoed_addr, count)) => echoed_addr == addr
                    && count as int == values@.len(),
                _ => false,
            }
        },
        Request::ReadCoils(addr, count) => {
            &&& store_unchanged(pre, post)
            &&& match r {
                Ok(Response::ReadCoils(values)) => values@ == bits_from(
                    pre.coil_map(),
                    addr,
                    count,
                ),
                _ => false,
            }
        },
        Request::WriteSingleCoil(addr, value) => {
            &&& post.holding_map() == pre.holding_map()
            &&& post.input_map() == pre.input_map()
            &&& post.coil_map() == pre.coil_map().insert(addr, value)
            &&& r == Ok::<Response, ModbusException>(Response::WriteSingleCoil(addr, value))
        },
        Request::Unsupported => {
            &&& store_unchanged(pre, post)
            &&& r == Err::<Response, ModbusException>(ModbusException::IllegalFunction)
        },
    }
}

/// Service one decoded request against the shared store: perform the store
/// operation and produce the matching response, or `IllegalFunction` for a
/// request outside the supported set, which alters nothing. Never panics, so
/// an unsupported function code cannot crash a connection.
pub fn handle_request(store: &mut RegisterStore, req: Request) -> (r: Result<
    Response,
    ModbusException,
>)
    requires
        request_wf(req),
    ensures
        request_handled(*old(store), *final(store), req, r),
{
    match req {
        Request::ReadHoldingRegisters(addr, count) => Ok(
            Response::ReadHoldingRegisters(store.read_holding(addr, count)),
        ),
        Request::ReadInputRegisters(addr, count) => Ok(
            Response::ReadInputRegisters(store.read_input(addr, count)),
        ),
        Request::WriteSingleRegister(addr, value) => {
            let committed = store.write_holding_one(addr, value);
            Ok(Response::WriteSingleRegister(addr, committed))
        },
        Request::WriteMultipleRegisters(addr, values) => {
            let count = store.write_holding_many(addr, &values);
            Ok(Response::WriteMultipleRegisters(addr, count))
        },
        Request::ReadCoils(addr, count) => Ok(Response::ReadCoils(store.read_coils(addr, count))),
        Request::WriteSingleCoil(addr, value) => {
            let committed = store.write_coil_one(addr, value);
            Ok(Response::WriteSingleCoil(addr, committed))
        },
        Request::Unsupported => Err(ModbusException::IllegalFunction),
    }
}

} // verus!
