//! Decision logic of the simulation driver. The driver couples the register
//! store to the process model on a fixed-period clock: each tick it reads the
//! heater-command coil, hands that boolean to the model, steps the model,
//! and republishes the model's named outputs as scaled holding-register
//! words. The periodic timer and the model calls themselves live outside the
//! verified core; they hand this module plain values, and every decision
//! taken on those values is verified here.
//!
//! A model failure is fatal by design: the driver stops rather than publish
//! stale or undefined sensor values, and never retries within a tick.

use crate::config::RegisterMapping;
use crate::scale::encode_hundredths;
use crate::scale::encode_hundredths_spec;
use crate::store::offset_addr;
use crate::store::words_from;
use crate::store::RegisterStore;
use vstd::prelude::*;

verus! {

/// The well-known coil address that commands the heater.
pub const HEATER_COIL_ADDRESS: u16 = 0;

/// The register word the placeholder starting temperature of 250.00 K is
/// seeded as.
pub const INITIAL_TEMPERATURE_WORD: u16 = 25000;

/// The store as seeded at startup, before any connection or simulation tick:
/// placeholder temperature, heater state 0, heater-control coil off.
pub fn initial_store(mapping: &RegisterMapping) -> (s: RegisterStore)
    ensures
        s.holding_map() == Map::<u16, u16>::empty().insert(
            mapping.temperature_address,
            INITIAL_TEMPERATURE_WORD,
        ).insert(mapping.heater_state_address, 0),
        s.input_map() == Map::<u16, u16>::empty(),
        s.coil_map() == Map::<u16, bool>::empty().insert(HEATER_COIL_ADDRESS, false),
{
    let mut s = RegisterStore::new();
    s.write_holding_one(mapping.temperature_address, INITIAL_TEMPERATURE_WORD);
    s.write_holding_one(mapping.heater_state_address, 0);
    s.write_coil_one(HEATER_COIL_ADDRESS, false);
    s
}

/// What the process model reported for one tick: its two named outputs,
/// already converted to integer hundredths outside the verified core, or a
/// failure anywhere in setting its input, stepping it, or reading an output.
pub enum ModelTick {
    Outputs { temperature_hundredths: u64, heater_status_hundredths: u64 },
    Failed,
}

/// Whether the periodic loop goes on after a tick.
#[derive(Clone, Copy, Debug, PartialEq, Eq, Structural)]
pub enum TickOutcome {
    Continue,
    FatalStop,
}

/// Read the heater-command coil, the sole actuator input sourced from the
/// protocol side.
pub fn read_heater_command(store: &RegisterStore) -> (on: bool)
    ensures
        on == store.coil_at(HEATER_COIL_ADDRESS),
{
    let values = store.read_coils(HEATER_COIL_ADDRESS, 1);
    values[0]
}

/// Apply one tick's model report to the store. On outputs, publish both
/// scaled sensor words to the configured holding registers — temperature
/// first, heater state second, each an atomic single-register upsert — and
/// continue. On a model failure, leave the store untouched and stop the
/// driver for good.
pub fn apply_tick(store: &mut RegisterStore, mapping: &RegisterMapping, tick: &ModelTick) -> (outcome:
    TickOutcome)
    ensures
        match *tick {
            ModelTick::Outputs { temperature_hundredths, heater_status_hundredths } => {
                &&& outcome == TickOutcome::Continue
                &&& final(store).holding_map() == old(store).holding_map().insert(
                    mapping.temperature_address,
                    encode_hundredths_spec(temperature_hundredths),
                ).insert(
                    mapping.heater_state_address,
                    encode_hundredths_spec(heater_status_hundredths),
                )
                &&& final(store).input_map() == old(store).input_map()
                &&& final(store).coil_map() == old(store).coil_map()
            },
            ModelTick::Failed => {
                &&& outcome == TickOutcome::FatalStop
                &&& *final(store) == *old(store)
            },
        },
{
    match tick {
        ModelTick::Outputs { temperature_hundredths, heater_status_hundredths } => {
            let temperature_word = encode_hundredths(*temperature_hundredths);
            let heater_word = encode_hundredths(*heater_status_hundredths);
            store.write_holding_one(mapping.temperature_address, temperature_word);
            store.write_holding_one(mapping.heater_state_address, heater_word);
            TickOutcome::Continue
        },
        ModelTick::Failed => TickOutcome::FatalStop,
    }
}

/// After a tick publishes its outputs, a two-word holding-register read at
/// the temperature address returns the published temperature and
/// heater-state words, in address order, whenever the two registers are
/// mapped to consecutive addresses (as the default mapping 40001/40002 is).
pub proof fn lemma_published_pair_reads_in_order(
    m: Map<u16, u16>,
    mapping: RegisterMapping,
    temperature_word: u16,
    heater_word: u16,
)
    requires
        mapping.heater_state_address == offset_addr(mapping.temperature_address, 1),
    ensures
        words_from(
            m.insert(mapping.temperature_address, temperature_word).insert(
                mapping.heater_state_address,
                heater_word,
            ),
            mapping.temperature_address,
            2,
        ) =~= seq![temperature_word, heater_word],
{
}

} // verus!
