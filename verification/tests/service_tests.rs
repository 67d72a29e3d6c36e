use modbus_bridge::config::ModbusConfig;
use modbus_bridge::driver::initial_store;
use modbus_bridge::service::handle_request;
use modbus_bridge::service::ModbusException;
use modbus_bridge::service::Request;
use modbus_bridge::service::Response;
use modbus_bridge::store::RegisterStore;

#[test]
fn read_holding_registers_returns_count_values_in_address_order() {
    // Request ReadHoldingRegisters(40001, 2) against the seeded store returns
    // exactly the temperature and heater-state words, in address order.
    let config = ModbusConfig::default();
    let mut store = initial_store(&config.registers);
    let response = handle_request(&mut store, Request::ReadHoldingRegisters(40001, 2));
    assert_eq!(response, Ok(Response::ReadHoldingRegisters(vec![25000, 0])));
}

#[test]
fn read_holding_registers_tracks_current_contents() {
    let config = ModbusConfig::default();
    let mut store = initial_store(&config.registers);
    handle_request(&mut store, Request::WriteSingleRegister(40001, 29999)).unwrap();
    handle_request(&mut store, Request::WriteSingleRegister(40002, 100)).unwrap();
    let response = handle_request(&mut store, Request::ReadHoldingRegisters(40001, 2));
    assert_eq!(response, Ok(Response::ReadHoldingRegisters(vec![29999, 100])));
}

#[test]
fn read_input_registers_default_to_zero() {
    let mut store = RegisterStore::new();
    let response = handle_request(&mut store, Request::ReadInputRegisters(7, 3));
    assert_eq!(response, Ok(Response::ReadInputRegisters(vec![0, 0, 0])));
}

#[test]
fn write_single_register_echoes_committed_value() {
    let mut store = RegisterStore::new();
    let response = handle_request(&mut store, Request::WriteSingleRegister(123, 456));
    assert_eq!(response, Ok(Response::WriteSingleRegister(123, 456)));
    let read_back = handle_request(&mut store, Request::ReadHoldingRegisters(123, 1));
    assert_eq!(read_back, Ok(Response::ReadHoldingRegisters(vec![456])));
}

#[test]
fn write_multiple_registers_echoes_address_and_count() {
    let mut store = RegisterStore::new();
    let response = handle_request(
        &mut store,
        Request::WriteMultipleRegisters(200, vec![1, 2, 3, 4]),
    );
    assert_eq!(response, Ok(Response::WriteMultipleRegisters(200, 4)));
    let read_back = handle_request(&mut store, Request::ReadHoldingRegisters(200, 4));
    assert_eq!(read_back, Ok(Response::ReadHoldingRegisters(vec![1, 2, 3, 4])));
}

#[test]
fn read_coils_default_to_false() {
    let mut store = RegisterStore::new();
    let response = handle_request(&mut store, Request::ReadCoils(0, 2));
    assert_eq!(response, Ok(Response::ReadCoils(vec![false, false])));
}

#[test]
fn write_single_coil_echoes_committed_state() {
    let mut store = RegisterStore::new();
    let response = handle_request(&mut store, Request::WriteSingleCoil(0, true));
    assert_eq!(response, Ok(Response::WriteSingleCoil(0, true)));
    let read_back = handle_request(&mut store, Request::ReadCoils(0, 1));
    assert_eq!(read_back, Ok(Response::ReadCoils(vec![true])));
}

#[test]
fn unsupported_function_code_yields_illegal_function() {
    let config = ModbusConfig::default();
    let mut store = initial_store(&config.registers);
    let response = handle_request(&mut store, Request::Unsupported);
    assert_eq!(response, Err(ModbusException::IllegalFunction));
}

#[test]
fn unsupported_function_code_leaves_the_store_unchanged() {
    let config = ModbusConfig::default();
    let mut store = initial_store(&config.registers);
    handle_request(&mut store, Request::WriteSingleCoil(0, true)).unwrap();
    let before_regs = store.read_holding(40001, 2);
    let before_coils = store.read_coils(0, 1);

    let response = handle_request(&mut store, Request::Unsupported);
    assert_eq!(response, Err(ModbusException::IllegalFunction));

    assert_eq!(store.read_holding(40001, 2), before_regs);
    assert_eq!(store.read_coils(0, 1), before_coils);
    // The handler returned normally, so the connection's service survives an
    // unsupported code; it can keep serving requests.
    let after = handle_request(&mut store, Request::ReadHoldingRegisters(40001, 1));
    assert_eq!(after, Ok(Response::ReadHoldingRegisters(vec![25000])));
}
