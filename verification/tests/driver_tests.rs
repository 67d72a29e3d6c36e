use modbus_bridge::config::ModbusConfig;
use modbus_bridge::driver::apply_tick;
use modbus_bridge::driver::initial_store;
use modbus_bridge::driver::read_heater_command;
use modbus_bridge::driver::ModelTick;
use modbus_bridge::driver::TickOutcome;
use modbus_bridge::driver::HEATER_COIL_ADDRESS;
use modbus_bridge::service::handle_request;
use modbus_bridge::service::Request;

#[test]
fn default_configuration() {
    let config = ModbusConfig::default();
    assert_eq!(config.port, 5502);
    assert_eq!(config.update_interval_ms, 100);
    assert_eq!(config.registers.temperature_address, 40001);
    assert_eq!(config.registers.heater_state_address, 40002);
}

#[test]
fn store_is_seeded_before_any_tick() {
    let config = ModbusConfig::default();
    let store = initial_store(&config.registers);
    assert_eq!(store.read_holding(40001, 1), vec![25000]);
    assert_eq!(store.read_holding(40002, 1), vec![0]);
    assert_eq!(store.read_coils(HEATER_COIL_ADDRESS, 1), vec![false]);
}

#[test]
fn tick_with_heater_off_keeps_heater_state_zero() {
    // Seeded temperature 25000, heater coil false: one tick whose model ran
    // with the heater off publishes heater state 0 and a temperature no
    // higher than before.
    let config = ModbusConfig::default();
    let mut store = initial_store(&config.registers);
    assert!(!read_heater_command(&store));

    let outcome = apply_tick(
        &mut store,
        &config.registers,
        &ModelTick::Outputs { temperature_hundredths: 25000, heater_status_hundredths: 0 },
    );
    assert_eq!(outcome, TickOutcome::Continue);
    assert_eq!(store.read_holding(40001, 1), vec![25000]);
    assert_eq!(store.read_holding(40002, 1), vec![0]);
}

#[test]
fn heater_command_reaches_heater_state_within_one_tick() {
    // Write coil 0 = true; the next tick reads the command, and publishing
    // the model's full-on status makes the heater-state register 100.
    let config = ModbusConfig::default();
    let mut store = initial_store(&config.registers);
    handle_request(&mut store, Request::WriteSingleCoil(HEATER_COIL_ADDRESS, true)).unwrap();

    assert!(read_heater_command(&store));
    let outcome = apply_tick(
        &mut store,
        &config.registers,
        &ModelTick::Outputs { temperature_hundredths: 25013, heater_status_hundredths: 100 },
    );
    assert_eq!(outcome, TickOutcome::Continue);
    assert_eq!(store.read_holding(40002, 1), vec![100]);
    assert_eq!(store.read_holding(40001, 1), vec![25013]);
}

#[test]
fn model_failure_stops_the_driver_and_publishes_nothing() {
    let config = ModbusConfig::default();
    let mut store = initial_store(&config.registers);
    let before_temp = store.read_holding(40001, 1);
    let before_heater = store.read_holding(40002, 1);

    let outcome = apply_tick(&mut store, &config.registers, &ModelTick::Failed);
    assert_eq!(outcome, TickOutcome::FatalStop);
    assert_eq!(store.read_holding(40001, 1), before_temp);
    assert_eq!(store.read_holding(40002, 1), before_heater);
}

#[test]
fn oversized_model_outputs_saturate_at_the_register_limit() {
    let config = ModbusConfig::default();
    let mut store = initial_store(&config.registers);
    let outcome = apply_tick(
        &mut store,
        &config.registers,
        &ModelTick::Outputs { temperature_hundredths: 1_000_000, heater_status_hundredths: 100 },
    );
    assert_eq!(outcome, TickOutcome::Continue);
    assert_eq!(store.read_holding(40001, 1), vec![65535]);
}
