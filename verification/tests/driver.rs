use std::collections::HashMap;
use tmc2209_uart::config::{
    TMC2209_BaseConfig, TMC2209_Config, TMC2209_DebugConfig, TMC2209_SavedConfig,
};
use tmc2209_uart::config_read_write_methods::{
    debug_read_config_from_driver, debug_read_requests, get_registers_changed_in_config,
    read_sg_result, registers_to_read, set_vactual, test_connection,
    write_registers_changed_in_config,
};
use tmc2209_uart::driver::{SyncAction, SyncEvent, TMC2209UART};
use tmc2209_uart::registers::{Chopconf, FactoryConf, Gconf, IholdIrun, Pwmconf, Register, Sgthrs};
use tmc2209_uart::registers_collection::TMC2209_ConfigRegisters;
use tmc2209_uart::tmc_read_write::{BusOp, TransportError};

/// A chip on a bus, as far as a synchronization can tell.
struct Chip {
    words: HashMap<Register, u32>,
    transfers: Vec<BusOp>,
    acquisitions: usize,
    /// The acquisition, counted from 1, at which the UART is not to be had.
    unavailable_at: Option<usize>,
    /// The transfer, counted from 1, that fails.
    fails_at: Option<(usize, TransportError)>,
}

fn chip() -> Chip {
    let mut words = HashMap::new();
    words.insert(Register::Gconf, 0x0000_0041);
    words.insert(Register::Chopconf, 0x1000_0053);
    words.insert(Register::Pwmconf, 0xC10D_0024);
    words.insert(Register::FactoryConf, 0x0000_0000);
    Chip { words, transfers: Vec::new(), acquisitions: 0, unavailable_at: None, fails_at: None }
}

fn word(chip: &Chip, register: Register) -> Option<u32> {
    chip.words.get(&register).copied()
}

fn perform(chip: &mut Chip, action: SyncAction) -> SyncEvent {
    match action {
        SyncAction::Acquire => {
            chip.acquisitions += 1;
            if chip.unavailable_at == Some(chip.acquisitions) {
                SyncEvent::Failed(TransportError::Unavailable)
            } else {
                SyncEvent::Acquired
            }
        }
        SyncAction::Release => SyncEvent::Released,
        SyncAction::Transfer(op) => {
            chip.transfers.push(op);
            if let Some((at, error)) = chip.fails_at {
                if at == chip.transfers.len() {
                    return SyncEvent::Failed(error);
                }
            }
            match op {
                BusOp::Read { register, .. } => {
                    SyncEvent::Value(chip.words.get(&register).copied().unwrap_or(0))
                }
                BusOp::Write { register, value, .. } => {
                    chip.words.insert(register, value);
                    SyncEvent::Written
                }
            }
        }
        SyncAction::Idle | SyncAction::Done(_) => unreachable!(),
    }
}

fn run(driver: &mut TMC2209UART, first: SyncAction, chip: &mut Chip) -> Result<(), TransportError> {
    let mut action = first;
    loop {
        if let SyncAction::Done(result) = action {
            return result;
        }
        let event = perform(chip, action);
        action = driver.advance(event);
    }
}

fn apply(
    driver: &mut TMC2209UART,
    config: &TMC2209_Config,
    chip: &mut Chip,
) -> Result<(), TransportError> {
    let first = driver.apply_config(config);
    run(driver, first, chip)
}

fn read(register: Register, uart_address: u8) -> BusOp {
    BusOp::Read { register, uart_address }
}

fn write(register: Register, uart_address: u8, value: u32) -> BusOp {
    BusOp::Write { register, uart_address, value }
}

#[test]
fn a_new_driver_holds_the_reset_configuration() {
    let driver = TMC2209UART::new(TMC2209_BaseConfig::default());
    assert_eq!(*driver.get_saved_config(), TMC2209_SavedConfig::new());
    assert_eq!(*driver.base_config(), TMC2209_BaseConfig::default());
    assert_eq!(driver.action(), SyncAction::Idle);
    let saved = driver.get_saved_config();
    assert_eq!(saved.microsteps, 256);
    assert!(saved.interpolation);
    assert_eq!(saved.toff, 3);
    assert_eq!(saved.hysteresis_start, 5);
    assert_eq!(saved.pwm_ofs, 36);
    assert_eq!(saved.pwm_lim, 12);
    assert_eq!(saved.tpowerdown, 20);
    assert_eq!(saved.rms_current, 1767);
    assert!(saved.i_scale_analog);
    assert!(saved.pdn_disable);
    assert!(!saved.shaft);
}

#[test]
fn the_reset_configuration_is_what_a_chip_fresh_from_reset_reads_as() {
    let debug_config = debug_read_config_from_driver(
        &Gconf::reset(),
        &Chopconf::reset(),
        &FactoryConf::reset(),
        &Pwmconf::reset(),
    );
    assert_eq!(
        TMC2209_SavedConfig::new_from_debug_config(&debug_config),
        TMC2209_SavedConfig::new()
    );
}

#[test]
fn a_synchronization_reads_merges_writes_and_saves() {
    let mut driver = TMC2209UART::new(TMC2209_BaseConfig::default());
    let mut chip = chip();
    let config = TMC2209_Config {
        rms_current: Some(700),
        microsteps: Some(16),
        en_spreadcycle: Some(false),
        pwm_autoscale: Some(true),
        sgthrs: Some(120),
        ..Default::default()
    };
    assert_eq!(apply(&mut driver, &config, &mut chip), Ok(()));
    assert_eq!(
        chip.transfers,
        vec![
            read(Register::Gconf, 0),
            read(Register::Chopconf, 0),
            read(Register::Pwmconf, 0),
            write(Register::Gconf, 0, 0x0000_0041),
            write(Register::Chopconf, 0, 0x1402_0053),
            write(Register::IholdIrun, 0, 0x0000_150A),
            write(Register::Pwmconf, 0, 0xC10D_0024),
            write(Register::Sgthrs, 0, 120),
        ]
    );
    assert_eq!(chip.acquisitions, 2);
    assert_eq!(
        *driver.get_saved_config(),
        TMC2209_SavedConfig {
            rms_current: 673,
            microsteps: 16,
            sgthrs: 120,
            ..TMC2209_SavedConfig::new()
        }
    );
    assert_eq!(driver.action(), SyncAction::Idle);
}

#[test]
fn writes_go_out_in_the_order_of_the_groups() {
    let mut driver = TMC2209UART::new(TMC2209_BaseConfig::default());
    let mut chip = chip();
    let config = TMC2209_Config {
        tcoolthrs: Some(1),
        sgthrs: Some(2),
        tpwmthrs: Some(3),
        tpowerdown: Some(4),
        pwm_ofs: Some(5),
        semin: Some(6),
        fclktrim: Some(7),
        senddelay: Some(8),
        ihold_delay: Some(9),
        toff: Some(10),
        shaft: Some(true),
        ..Default::default()
    };
    assert_eq!(apply(&mut driver, &config, &mut chip), Ok(()));
    let registers: Vec<Register> = chip
        .transfers
        .iter()
        .map(|op| match op {
            BusOp::Read { register, .. } => *register,
            BusOp::Write { register, .. } => *register,
        })
        .collect();
    assert_eq!(
        registers,
        vec![
            Register::Gconf,
            Register::Chopconf,
            Register::FactoryConf,
            Register::Pwmconf,
            Register::Gconf,
            Register::Chopconf,
            Register::IholdIrun,
            Register::Slaveconf,
            Register::FactoryConf,
            Register::Coolconf,
            Register::Pwmconf,
            Register::Tpowerdown,
            Register::Tpwmthrs,
            Register::Sgthrs,
            Register::Tcoolthrs,
        ]
    );
    assert!(matches!(chip.transfers[3], BusOp::Read { .. }));
    assert!(matches!(chip.transfers[4], BusOp::Write { .. }));
}

#[test]
fn groups_that_are_written_whole_start_from_their_reset_value() {
    let mut driver = TMC2209UART::new(TMC2209_BaseConfig::default());
    let mut chip = chip();
    chip.words.insert(Register::IholdIrun, 0x000F_0000);
    let config = TMC2209_Config { ihold_delay: Some(2), ..Default::default() };
    assert_eq!(apply(&mut driver, &config, &mut chip), Ok(()));
    assert_eq!(chip.transfers, vec![write(Register::IholdIrun, 0, 0x0002_1F00)]);
}

#[test]
fn an_empty_change_takes_the_uart_twice_and_transfers_nothing() {
    let mut driver = TMC2209UART::new(TMC2209_BaseConfig::default());
    let mut chip = chip();
    assert_eq!(apply(&mut driver, &TMC2209_Config::default(), &mut chip), Ok(()));
    assert_eq!(chip.transfers, vec![]);
    assert_eq!(chip.acquisitions, 2);
    assert_eq!(*driver.get_saved_config(), TMC2209_SavedConfig::new());
}

#[test]
fn reversing_the_direction_writes_gconf_once_and_flips_the_saved_direction() {
    let mut driver = TMC2209UART::new(TMC2209_BaseConfig::default());
    let mut chip = chip();
    let first = driver.shaft();
    assert_eq!(run(&mut driver, first, &mut chip), Ok(()));
    assert_eq!(
        chip.transfers,
        vec![read(Register::Gconf, 0), write(Register::Gconf, 0, 0x0000_0049)]
    );
    assert_eq!(
        *driver.get_saved_config(),
        TMC2209_SavedConfig { shaft: true, ..TMC2209_SavedConfig::new() }
    );

    chip.transfers.clear();
    let first = driver.shaft();
    assert_eq!(run(&mut driver, first, &mut chip), Ok(()));
    assert_eq!(
        chip.transfers,
        vec![read(Register::Gconf, 0), write(Register::Gconf, 0, 0x0000_0041)]
    );
    assert_eq!(*driver.get_saved_config(), TMC2209_SavedConfig::new());
}

#[test]
fn reversing_goes_by_the_saved_direction_not_by_the_chip() {
    let mut driver = TMC2209UART::new(TMC2209_BaseConfig::default());
    let mut chip = chip();
    chip.words.insert(Register::Gconf, 0x0000_0049);
    let first = driver.shaft();
    assert_eq!(run(&mut driver, first, &mut chip), Ok(()));
    assert_eq!(word(&chip, Register::Gconf), Some(0x0000_0049));
    assert!(driver.get_saved_config().shaft);
}

#[test]
fn setting_the_direction_writes_gconf_once() {
    let mut driver = TMC2209UART::new(TMC2209_BaseConfig::default());
    let mut chip = chip();
    let first = driver.set_shaft(true);
    assert_eq!(first, SyncAction::Acquire);
    assert_eq!(run(&mut driver, first, &mut chip), Ok(()));
    assert_eq!(
        chip.transfers,
        vec![read(Register::Gconf, 0), write(Register::Gconf, 0, 0x0000_0049)]
    );
    assert!(driver.get_saved_config().shaft);
    let first = driver.set_shaft(true);
    assert_eq!(run(&mut driver, first, &mut chip), Ok(()));
    assert_eq!(word(&chip, Register::Gconf), Some(0x0000_0049));
    assert!(driver.get_saved_config().shaft);
}

#[test]
fn a_failed_write_leaves_the_saved_config_and_a_half_written_chip() {
    let mut driver = TMC2209UART::new(TMC2209_BaseConfig::default());
    let mut chip = chip();
    let config = TMC2209_Config {
        shaft: Some(true),
        microsteps: Some(32),
        sgthrs: Some(50),
        ..Default::default()
    };
    // Two reads, then the writes: the second write fails.
    chip.fails_at = Some((4, TransportError::Closed));
    assert_eq!(apply(&mut driver, &config, &mut chip), Err(TransportError::Closed));
    assert_eq!(*driver.get_saved_config(), TMC2209_SavedConfig::new());
    assert_eq!(driver.action(), SyncAction::Idle);
    assert_eq!(word(&chip, Register::Gconf), Some(0x0000_0049));
    assert_eq!(word(&chip, Register::Chopconf), Some(0x1000_0053));
    assert_eq!(word(&chip, Register::Sgthrs), None);
    assert_eq!(chip.transfers.len(), 4);
}

#[test]
fn a_failed_read_ends_the_synchronization_before_any_write() {
    let mut driver = TMC2209UART::new(TMC2209_BaseConfig::default());
    let mut chip = chip();
    let config = TMC2209_Config {
        shaft: Some(true),
        microsteps: Some(32),
        ..Default::default()
    };
    chip.fails_at = Some((2, TransportError::Corrupt));
    assert_eq!(apply(&mut driver, &config, &mut chip), Err(TransportError::Corrupt));
    assert_eq!(chip.transfers, vec![read(Register::Gconf, 0), read(Register::Chopconf, 0)]);
    assert_eq!(chip.acquisitions, 1);
    assert_eq!(*driver.get_saved_config(), TMC2209_SavedConfig::new());
    assert_eq!(word(&chip, Register::Gconf), Some(0x0000_0041));
}

#[test]
fn a_uart_that_is_taken_fails_the_synchronization_before_it_reads() {
    let mut driver = TMC2209UART::new(TMC2209_BaseConfig::default());
    let mut chip = chip();
    chip.unavailable_at = Some(1);
    let config = TMC2209_Config { shaft: Some(true), ..Default::default() };
    assert_eq!(apply(&mut driver, &config, &mut chip), Err(TransportError::Unavailable));
    assert_eq!(chip.transfers, vec![]);
    assert_eq!(*driver.get_saved_config(), TMC2209_SavedConfig::new());
}

#[test]
fn a_uart_that_is_taken_fails_the_synchronization_before_it_writes() {
    let mut driver = TMC2209UART::new(TMC2209_BaseConfig::default());
    let mut chip = chip();
    chip.unavailable_at = Some(2);
    let config = TMC2209_Config { shaft: Some(true), ..Default::default() };
    assert_eq!(apply(&mut driver, &config, &mut chip), Err(TransportError::Unavailable));
    assert_eq!(chip.transfers, vec![read(Register::Gconf, 0)]);
    assert_eq!(*driver.get_saved_config(), TMC2209_SavedConfig::new());
    assert_eq!(word(&chip, Register::Gconf), Some(0x0000_0041));
}

#[test]
fn a_uart_that_is_taken_fails_even_an_empty_change() {
    let mut driver = TMC2209UART::new(TMC2209_BaseConfig::default());
    let mut chip = chip();
    chip.unavailable_at = Some(2);
    assert_eq!(
        apply(&mut driver, &TMC2209_Config::default(), &mut chip),
        Err(TransportError::Unavailable)
    );
}

#[test]
fn the_base_configuration_keeps_the_change_even_when_a_write_fails() {
    let mut driver = TMC2209UART::new(TMC2209_BaseConfig::default());
    let mut chip = chip();
    chip.fails_at = Some((1, TransportError::Closed));
    let config = TMC2209_Config { r_sense: Some(75), sgthrs: Some(1), ..Default::default() };
    assert_eq!(apply(&mut driver, &config, &mut chip), Err(TransportError::Closed));
    assert_eq!(driver.base_config().r_sense, 75);
    assert_eq!(driver.get_saved_config().sgthrs, 0);
}

#[test]
fn a_new_address_is_read_at_the_old_and_written_at_the_new() {
    let mut driver = TMC2209UART::new(TMC2209_BaseConfig::default());
    let mut chip = chip();
    let config = TMC2209_Config {
        uart_address: Some(2),
        shaft: Some(true),
        ..Default::default()
    };
    assert_eq!(apply(&mut driver, &config, &mut chip), Ok(()));
    assert_eq!(
        chip.transfers,
        vec![read(Register::Gconf, 0), write(Register::Gconf, 2, 0x0000_0049)]
    );
    assert_eq!(driver.base_config().uart_address, 2);
}

#[test]
fn factory_conf_is_read_and_written_at_address_zero() {
    let base = TMC2209_BaseConfig { uart_address: 3, r_sense: 110, ihold_multiplier: 500 };
    let mut driver = TMC2209UART::new(base);
    let mut chip = chip();
    chip.words.insert(Register::FactoryConf, 0x0000_0300);
    let config = TMC2209_Config { fclktrim: Some(9), shaft: Some(true), ..Default::default() };
    assert_eq!(apply(&mut driver, &config, &mut chip), Ok(()));
    assert_eq!(
        chip.transfers,
        vec![
            read(Register::Gconf, 3),
            read(Register::FactoryConf, 0),
            write(Register::Gconf, 3, 0x0000_0049),
            write(Register::FactoryConf, 0, 0x0000_0309),
        ]
    );
}

#[test]
fn the_same_change_twice_sends_the_same_images_twice() {
    let mut driver = TMC2209UART::new(TMC2209_BaseConfig::default());
    let mut chip = chip();
    chip.words.insert(Register::Gconf, 0xA5A5_A5A5);
    chip.words.insert(Register::Chopconf, 0x5A5A_5A5A);
    let config = TMC2209_Config {
        shaft: Some(true),
        index_step: Some(false),
        microsteps: Some(8),
        toff: Some(0x27),
        vsense: Some(false),
        rms_current: Some(500),
        r_sense: Some(150),
        pwm_lim: Some(3),
        semax: Some(2),
        ..Default::default()
    };
    assert_eq!(apply(&mut driver, &config, &mut chip), Ok(()));
    let first: Vec<BusOp> =
        chip.transfers.iter().copied().filter(|op| matches!(op, BusOp::Write { .. })).collect();
    let saved = *driver.get_saved_config();
    chip.transfers.clear();
    assert_eq!(apply(&mut driver, &config, &mut chip), Ok(()));
    let second: Vec<BusOp> =
        chip.transfers.iter().copied().filter(|op| matches!(op, BusOp::Write { .. })).collect();
    assert_eq!(first.len(), 5);
    assert_eq!(second, first);
    assert_eq!(*driver.get_saved_config(), saved);
}

#[test]
fn events_that_the_driver_does_not_wait_for_change_nothing() {
    let mut driver = TMC2209UART::new(TMC2209_BaseConfig::default());
    assert_eq!(driver.advance(SyncEvent::Acquired), SyncAction::Idle);
    assert_eq!(driver.advance(SyncEvent::Failed(TransportError::Closed)), SyncAction::Idle);
    let config = TMC2209_Config { shaft: Some(true), ..Default::default() };
    assert_eq!(driver.apply_config(&config), SyncAction::Acquire);
    assert_eq!(driver.advance(SyncEvent::Written), SyncAction::Acquire);
    assert_eq!(driver.advance(SyncEvent::Value(7)), SyncAction::Acquire);
    let reading = SyncAction::Transfer(read(Register::Gconf, 0));
    assert_eq!(driver.advance(SyncEvent::Acquired), reading);
    assert_eq!(driver.action(), reading);
    assert_eq!(driver.advance(SyncEvent::Acquired), reading);
    assert_eq!(driver.advance(SyncEvent::Written), reading);
    assert_eq!(driver.advance(SyncEvent::Released), reading);
    assert_eq!(driver.advance(SyncEvent::Value(0x41)), SyncAction::Release);
    assert_eq!(driver.advance(SyncEvent::Value(0x55)), SyncAction::Release);
    assert_eq!(driver.advance(SyncEvent::Acquired), SyncAction::Release);
    assert_eq!(driver.advance(SyncEvent::Released), SyncAction::Acquire);
    assert_eq!(driver.advance(SyncEvent::Released), SyncAction::Acquire);
    assert_eq!(driver.advance(SyncEvent::Value(0x41)), SyncAction::Acquire);
    let writing = SyncAction::Transfer(write(Register::Gconf, 0, 0x49));
    assert_eq!(driver.advance(SyncEvent::Acquired), writing);
    assert_eq!(driver.advance(SyncEvent::Value(1)), writing);
    assert!(!driver.get_saved_config().shaft);
    assert_eq!(driver.advance(SyncEvent::Written), SyncAction::Done(Ok(())));
    assert!(driver.get_saved_config().shaft);
    assert_eq!(driver.advance(SyncEvent::Written), SyncAction::Idle);
}

#[test]
fn the_steps_of_a_synchronization_come_in_their_order() {
    let mut driver = TMC2209UART::new(TMC2209_BaseConfig::default());
    let config = TMC2209_Config {
        shaft: Some(true),
        toff: Some(4),
        sgthrs: Some(3),
        ..Default::default()
    };
    assert_eq!(driver.apply_config(&config), SyncAction::Acquire);
    assert_eq!(
        driver.advance(SyncEvent::Acquired),
        SyncAction::Transfer(read(Register::Gconf, 0))
    );
    assert_eq!(
        driver.advance(SyncEvent::Value(0x41)),
        SyncAction::Transfer(read(Register::Chopconf, 0))
    );
    assert_eq!(driver.advance(SyncEvent::Value(0x1000_0053)), SyncAction::Release);
    assert_eq!(driver.advance(SyncEvent::Released), SyncAction::Acquire);
    assert_eq!(
        driver.advance(SyncEvent::Acquired),
        SyncAction::Transfer(write(Register::Gconf, 0, 0x49))
    );
    assert_eq!(
        driver.advance(SyncEvent::Written),
        SyncAction::Transfer(write(Register::Chopconf, 0, 0x1000_0054))
    );
    assert_eq!(
        driver.advance(SyncEvent::Written),
        SyncAction::Transfer(write(Register::Sgthrs, 0, 3))
    );
    assert_eq!(*driver.get_saved_config(), TMC2209_SavedConfig::new());
    assert_eq!(driver.advance(SyncEvent::Written), SyncAction::Done(Ok(())));
    assert_eq!(
        *driver.get_saved_config(),
        TMC2209_SavedConfig { shaft: true, toff: 4, sgthrs: 3, ..TMC2209_SavedConfig::new() }
    );
    assert_eq!(driver.action(), SyncAction::Idle);
}

#[test]
fn what_another_owner_writes_between_fetch_and_write_is_overwritten() {
    let mut driver = TMC2209UART::new(TMC2209_BaseConfig::default());
    let mut chip = chip();
    let config = TMC2209_Config { shaft: Some(true), ..Default::default() };
    let mut action = driver.apply_config(&config);
    while action != SyncAction::Release {
        let event = perform(&mut chip, action);
        action = driver.advance(event);
    }
    // The UART is let go: another owner sets the spread-cycle bit.
    chip.words.insert(Register::Gconf, 0x0000_0045);
    assert_eq!(run(&mut driver, action, &mut chip), Ok(()));
    assert_eq!(word(&chip, Register::Gconf), Some(0x0000_0049));
}

#[test]
fn a_failure_while_the_uart_is_let_go_ends_the_synchronization() {
    let mut driver = TMC2209UART::new(TMC2209_BaseConfig::default());
    let config = TMC2209_Config { shaft: Some(true), ..Default::default() };
    driver.apply_config(&config);
    driver.advance(SyncEvent::Acquired);
    assert_eq!(driver.advance(SyncEvent::Value(0x41)), SyncAction::Release);
    assert_eq!(
        driver.advance(SyncEvent::Failed(TransportError::Closed)),
        SyncAction::Done(Err(TransportError::Closed))
    );
    assert_eq!(driver.action(), SyncAction::Idle);
    assert!(!driver.get_saved_config().shaft);
}

#[test]
fn a_new_synchronization_gives_up_the_one_under_way() {
    let mut driver = TMC2209UART::new(TMC2209_BaseConfig::default());
    let mut chip = chip();
    let config = TMC2209_Config { shaft: Some(true), ..Default::default() };
    driver.apply_config(&config);
    driver.advance(SyncEvent::Acquired);
    let other = TMC2209_Config { sgthrs: Some(9), ..Default::default() };
    assert_eq!(apply(&mut driver, &other, &mut chip), Ok(()));
    assert_eq!(chip.transfers, vec![write(Register::Sgthrs, 0, 9)]);
    assert!(!driver.get_saved_config().shaft);
    assert_eq!(driver.get_saved_config().sgthrs, 9);
}

#[test]
fn the_reads_of_a_change_are_those_of_its_read_groups() {
    let config = TMC2209_Config {
        pwm_reg: Some(1),
        ottrim: Some(1),
        tpowerdown: Some(1),
        ..Default::default()
    };
    assert_eq!(
        registers_to_read(&config, 1),
        vec![read(Register::FactoryConf, 0), read(Register::Pwmconf, 1)]
    );
    assert_eq!(registers_to_read(&TMC2209_Config::default(), 1), vec![]);
}

#[test]
fn the_words_read_become_the_images_of_their_groups() {
    let config = TMC2209_Config {
        shaft: Some(true),
        pwm_reg: Some(1),
        ihold_delay: Some(1),
        sgthrs: Some(1),
        ..Default::default()
    };
    let mut expected = TMC2209_ConfigRegisters::new();
    expected.gconf = Some(Gconf { bits: 11 });
    expected.pwmconf = Some(Pwmconf { bits: 22 });
    expected.ihold_irun = Some(IholdIrun { bits: 0x0000_1F00 });
    expected.sgthrs = Some(Sgthrs { bits: 0 });
    assert_eq!(get_registers_changed_in_config(&config, &vec![11, 22]), Some(expected));
}

#[test]
fn words_that_do_not_match_the_reads_give_no_images() {
    let config = TMC2209_Config { shaft: Some(true), pwm_reg: Some(1), ..Default::default() };
    assert_eq!(get_registers_changed_in_config(&config, &vec![11]), None);
    assert_eq!(get_registers_changed_in_config(&config, &vec![11, 22, 33]), None);
    assert_eq!(get_registers_changed_in_config(&config, &vec![]), None);
    assert_eq!(
        get_registers_changed_in_config(&TMC2209_Config::default(), &vec![]),
        Some(TMC2209_ConfigRegisters::new())
    );
}

#[test]
fn only_the_images_that_are_present_are_written() {
    let mut registers = TMC2209_ConfigRegisters::new();
    assert_eq!(write_registers_changed_in_config(1, &registers), vec![]);
    registers.sgthrs = Some(Sgthrs { bits: 5 });
    registers.factory_conf = Some(FactoryConf { bits: 6 });
    registers.gconf = Some(Gconf { bits: 7 });
    assert_eq!(
        write_registers_changed_in_config(1, &registers),
        vec![
            write(Register::Gconf, 1, 7),
            write(Register::FactoryConf, 0, 6),
            write(Register::Sgthrs, 1, 5),
        ]
    );
}

#[test]
fn a_debug_read_asks_for_the_four_readable_registers() {
    let expected = vec![
        read(Register::Gconf, 2),
        read(Register::Chopconf, 2),
        read(Register::FactoryConf, 0),
        read(Register::Pwmconf, 2),
    ];
    assert_eq!(debug_read_requests(2), expected);
    let base = TMC2209_BaseConfig { uart_address: 2, r_sense: 110, ihold_multiplier: 500 };
    assert_eq!(TMC2209UART::new(base).debug_read_config_from_driver(), expected);
}

#[test]
fn a_debug_read_decodes_every_field() {
    let debug_config = debug_read_config_from_driver(
        &Gconf { bits: 0x0000_010D },
        &Chopconf { bits: 0xE403_01C5 },
        &FactoryConf { bits: 0x0000_02F1 },
        &Pwmconf { bits: 0x5832_3412 },
    );
    assert_eq!(
        debug_config,
        TMC2209_DebugConfig {
            microsteps: 16,
            interpolation: false,
            blank_time: 2,
            hysteresis_end: 3,
            hysteresis_start: 4,
            en_spreadcycle: true,
            pdn_disable: false,
            pwm_ofs: 0x12,
            pwm_grad: 0x34,
            pwm_freq: 2,
            pwm_autoscale: false,
            pwm_autograd: false,
            pwm_reg: 8,
            pwm_lim: 5,
            freewheel: 3,
            internal_rsense: false,
            i_scale_analog: true,
            mstep_reg_select: false,
            multistep_filt: true,
            index_otpw: false,
            index_step: false,
            toff: 5,
            vsense: true,
            dedge: true,
            diss2g: true,
            diss2vs: true,
            fclktrim: 17,
            ottrim: 2,
            shaft: true,
        }
    );
}

#[test]
fn the_saved_config_can_be_taken_from_the_chip() {
    let mut driver = TMC2209UART::new(TMC2209_BaseConfig::default());
    let debug_config = debug_read_config_from_driver(
        &Gconf { bits: 0x0000_0049 },
        &Chopconf { bits: 0x1302_0053 },
        &FactoryConf { bits: 0x0000_0105 },
        &Pwmconf { bits: 0xC10D_0024 },
    );
    driver.init_saved_config(&debug_config);
    assert_eq!(
        *driver.get_saved_config(),
        TMC2209_SavedConfig {
            shaft: true,
            microsteps: 32,
            vsense: true,
            fclktrim: 5,
            ottrim: 1,
            ..TMC2209_SavedConfig::new()
        }
    );
    // Reversing now goes by the direction that was read.
    let mut chip = chip();
    chip.words.insert(Register::Gconf, 0x0000_0049);
    let first = driver.shaft();
    assert_eq!(run(&mut driver, first, &mut chip), Ok(()));
    assert_eq!(word(&chip, Register::Gconf), Some(0x0000_0041));
    assert!(!driver.get_saved_config().shaft);
}

#[test]
fn velocity_is_written_to_vactual_in_24_bits() {
    assert_eq!(set_vactual(1, 1000), write(Register::Vactual, 1, 1000));
    assert_eq!(set_vactual(1, -1000), write(Register::Vactual, 1, 0x00FF_FC18));
    assert_eq!(set_vactual(0, 0), write(Register::Vactual, 0, 0));
    let base = TMC2209_BaseConfig { uart_address: 3, r_sense: 110, ihold_multiplier: 500 };
    assert_eq!(TMC2209UART::new(base).vactual(-1), write(Register::Vactual, 3, 0x00FF_FFFF));
}

#[test]
fn the_stallguard_result_is_the_low_ten_bits() {
    assert_eq!(read_sg_result(0x0000_01FE), 0x1FE);
    assert_eq!(read_sg_result(0xFFFF_FFFF), 0x3FF);
    assert_eq!(read_sg_result(0xFFFF_FC00), 0);
    let base = TMC2209_BaseConfig { uart_address: 1, r_sense: 110, ihold_multiplier: 500 };
    assert_eq!(TMC2209UART::new(base).read_sg_result(), read(Register::SgResult, 1));
}

#[test]
fn the_connection_is_tested_by_reading_drv_status() {
    assert_eq!(test_connection(2), read(Register::DrvStatus, 2));
    let base = TMC2209_BaseConfig { uart_address: 1, r_sense: 110, ihold_multiplier: 500 };
    assert_eq!(TMC2209UART::new(base).test_connection(), read(Register::DrvStatus, 1));
}
