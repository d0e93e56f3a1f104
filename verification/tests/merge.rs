use tmc2209_uart::config::{TMC2209_BaseConfig, TMC2209_Config, TMC2209_SavedConfig};
use tmc2209_uart::reg_processor::{
    process_chopconf, process_coolconf, process_driver_base_config, process_factoryconf,
    process_gconf, process_ihold_irun, process_pwmconf, process_reg_config, process_sgthrs,
    process_slaveconf, process_tcoolthrs, process_tpowerdown, process_tpwmthrs,
};
use tmc2209_uart::registers::{
    Chopconf, Coolconf, FactoryConf, Gconf, IholdIrun, Pwmconf, Sgthrs, Slaveconf, Tcoolthrs,
    Tpowerdown, Tpwmthrs,
};
use tmc2209_uart::registers_collection::TMC2209_ConfigRegisters;

#[test]
fn base_config_defaults() {
    let base = TMC2209_BaseConfig::default();
    assert_eq!(base.uart_address, 0);
    assert_eq!(base.r_sense, 110);
    assert_eq!(base.ihold_multiplier, 500);
}

#[test]
fn base_config_takes_what_the_change_sets() {
    let mut base = TMC2209_BaseConfig::default();
    let config = TMC2209_Config { r_sense: Some(75), ..Default::default() };
    process_driver_base_config(&mut base, &config);
    assert_eq!(base, TMC2209_BaseConfig { uart_address: 0, r_sense: 75, ihold_multiplier: 500 });
    let config = TMC2209_Config {
        uart_address: Some(3),
        ihold_multiplier: Some(250),
        ..Default::default()
    };
    process_driver_base_config(&mut base, &config);
    assert_eq!(base, TMC2209_BaseConfig { uart_address: 3, r_sense: 75, ihold_multiplier: 250 });
}

#[test]
fn empty_change_leaves_every_image_and_the_saved_config() {
    let config = TMC2209_Config::default();
    let before = TMC2209_SavedConfig::new();
    let mut saved = before;
    let mut gconf = Gconf { bits: 0xDEAD_BEEF };
    process_gconf(&mut gconf, &config, &mut saved);
    assert_eq!(gconf.bits, 0xDEAD_BEEF);
    let mut chopconf = Chopconf { bits: 0xDEAD_BEEF };
    process_chopconf(&mut chopconf, &config, &mut saved);
    assert_eq!(chopconf.bits, 0xDEAD_BEEF);
    let mut pwmconf = Pwmconf { bits: 0xDEAD_BEEF };
    process_pwmconf(&mut pwmconf, &config, &mut saved);
    assert_eq!(pwmconf.bits, 0xDEAD_BEEF);
    let mut coolconf = Coolconf { bits: 0xDEAD_BEEF };
    process_coolconf(&mut coolconf, &config, &mut saved);
    assert_eq!(coolconf.bits, 0xDEAD_BEEF);
    let mut factory_conf = FactoryConf { bits: 0xDEAD_BEEF };
    process_factoryconf(&mut factory_conf, &config, &mut saved);
    assert_eq!(factory_conf.bits, 0xDEAD_BEEF);
    let mut ihold_irun = IholdIrun { bits: 0xDEAD_BEEF };
    let mut sensed = Some(Chopconf { bits: 0xDEAD_BEEF });
    process_ihold_irun(
        &mut ihold_irun,
        &mut sensed,
        &TMC2209_BaseConfig::default(),
        &config,
        &mut saved,
    );
    assert_eq!(ihold_irun.bits, 0xDEAD_BEEF);
    assert_eq!(sensed, Some(Chopconf { bits: 0xDEAD_BEEF }));
    assert_eq!(saved, before);
}

#[test]
fn gconf_takes_its_fields() {
    let mut gconf = Gconf::reset();
    let mut saved = TMC2209_SavedConfig::new();
    let config = TMC2209_Config {
        en_spreadcycle: Some(true),
        pdn_disable: Some(false),
        shaft: Some(true),
        multistep_filt: Some(true),
        ..Default::default()
    };
    process_gconf(&mut gconf, &config, &mut saved);
    assert_eq!(gconf.bits, 0x0000_010D);
    assert!(saved.en_spreadcycle);
    assert!(!saved.pdn_disable);
    assert!(saved.shaft);
    assert!(saved.multistep_filt);
    assert!(saved.i_scale_analog);
    assert_eq!(
        saved,
        TMC2209_SavedConfig {
            en_spreadcycle: true,
            pdn_disable: false,
            shaft: true,
            multistep_filt: true,
            ..TMC2209_SavedConfig::new()
        }
    );
}

#[test]
fn gconf_keeps_bits_that_are_no_field() {
    let mut gconf = Gconf { bits: 0xFFFF_FE00 };
    let mut saved = TMC2209_SavedConfig::new();
    let config = TMC2209_Config {
        i_scale_analog: Some(true),
        internal_rsense: Some(true),
        en_spreadcycle: Some(true),
        index_otpw: Some(true),
        index_step: Some(true),
        pdn_disable: Some(true),
        mstep_reg_select: Some(true),
        multistep_filt: Some(true),
        shaft: Some(true),
        ..Default::default()
    };
    process_gconf(&mut gconf, &config, &mut saved);
    assert_eq!(gconf.bits, 0xFFFF_FFFF);
}

#[test]
fn chopconf_takes_its_fields() {
    let mut chopconf = Chopconf::reset();
    let mut saved = TMC2209_SavedConfig::new();
    let config = TMC2209_Config {
        microsteps: Some(16),
        interpolation: Some(false),
        blank_time: Some(2),
        hysteresis_end: Some(3),
        hysteresis_start: Some(4),
        toff: Some(5),
        vsense: Some(true),
        dedge: Some(true),
        diss2g: Some(true),
        diss2vs: Some(true),
        ..Default::default()
    };
    process_chopconf(&mut chopconf, &config, &mut saved);
    // toff 5, hstrt 4 << 4, hend 3 << 7, tbl 2 << 15, vsense bit 17,
    // mres 4 << 24, dedge, diss2g, diss2vs bits 29 to 31.
    assert_eq!(chopconf.bits, 0xE403_01C5);
    assert_eq!(
        saved,
        TMC2209_SavedConfig {
            microsteps: 16,
            interpolation: false,
            blank_time: 2,
            hysteresis_end: 3,
            hysteresis_start: 4,
            toff: 5,
            vsense: true,
            dedge: true,
            diss2g: true,
            diss2vs: true,
            ..TMC2209_SavedConfig::new()
        }
    );
}

#[test]
fn unknown_microsteps_are_saved_as_sixteen() {
    let mut chopconf = Chopconf { bits: 0 };
    let mut saved = TMC2209_SavedConfig::new();
    let config = TMC2209_Config { microsteps: Some(100), ..Default::default() };
    process_chopconf(&mut chopconf, &config, &mut saved);
    assert_eq!(chopconf.bits, 0x0400_0000);
    assert_eq!(chopconf.mres(), 4);
    assert_eq!(saved.microsteps, 16);
}

#[test]
fn full_stepping_is_code_eight() {
    let mut chopconf = Chopconf { bits: 0 };
    let mut saved = TMC2209_SavedConfig::new();
    let config = TMC2209_Config { microsteps: Some(0), ..Default::default() };
    process_chopconf(&mut chopconf, &config, &mut saved);
    assert_eq!(chopconf.mres(), 8);
    assert_eq!(saved.microsteps, 0);
}

#[test]
fn a_value_too_wide_for_its_field_loses_its_high_bits() {
    let mut chopconf = Chopconf { bits: 0 };
    let mut saved = TMC2209_SavedConfig::new();
    let config = TMC2209_Config { toff: Some(0x13), ..Default::default() };
    process_chopconf(&mut chopconf, &config, &mut saved);
    assert_eq!(chopconf.bits, 3);
    assert_eq!(saved.toff, 0x13);
}

#[test]
fn current_sets_run_code_hold_code_and_sensitivity() {
    let mut ihold_irun = IholdIrun::reset();
    let mut chopconf = Some(Chopconf::reset());
    let mut saved = TMC2209_SavedConfig::new();
    let base = TMC2209_BaseConfig::default();
    let config = TMC2209_Config {
        rms_current: Some(700),
        ihold_delay: Some(6),
        ..Default::default()
    };
    process_ihold_irun(&mut ihold_irun, &mut chopconf, &base, &config, &mut saved);
    // ihold 10, irun 21 << 8, delay 6 << 16.
    assert_eq!(ihold_irun.bits, 0x0006_150A);
    // The sensitivity bit goes into the image; the change does not set the
    // range by name, so the saved range stays.
    assert_eq!(chopconf, Some(Chopconf { bits: 0x1002_0053 }));
    assert_eq!(
        saved,
        TMC2209_SavedConfig { rms_current: 673, ihold_delay: 6, ..TMC2209_SavedConfig::new() }
    );
}

#[test]
fn current_clears_the_sensitivity_bit_when_the_low_range_suffices() {
    let mut ihold_irun = IholdIrun::reset();
    let mut chopconf = Some(Chopconf { bits: 0xFFFF_FFFF });
    let mut saved = TMC2209_SavedConfig { vsense: true, ..TMC2209_SavedConfig::new() };
    let base = TMC2209_BaseConfig::default();
    let config = TMC2209_Config { rms_current: Some(1000), ..Default::default() };
    process_ihold_irun(&mut ihold_irun, &mut chopconf, &base, &config, &mut saved);
    assert_eq!(ihold_irun.bits, 0x0000_1108);
    assert_eq!(chopconf, Some(Chopconf { bits: 0xFFFD_FFFF }));
    assert!(saved.vsense);
    assert_eq!(saved.rms_current, 994);
    assert_eq!(
        saved,
        TMC2209_SavedConfig { vsense: true, rms_current: 994, ..TMC2209_SavedConfig::new() }
    );
}

#[test]
fn current_without_a_chopconf_image_leaves_the_saved_sensitivity() {
    let mut ihold_irun = IholdIrun::reset();
    let mut chopconf = None;
    let mut saved = TMC2209_SavedConfig::new();
    let base = TMC2209_BaseConfig::default();
    let config = TMC2209_Config { rms_current: Some(700), ..Default::default() };
    process_ihold_irun(&mut ihold_irun, &mut chopconf, &base, &config, &mut saved);
    assert_eq!(ihold_irun.bits, 0x0000_150A);
    assert_eq!(chopconf, None);
    assert!(!saved.vsense);
    assert_eq!(saved.rms_current, 673);
}

#[test]
fn a_hold_code_above_31_loses_its_high_bits_in_the_register() {
    let mut ihold_irun = IholdIrun { bits: 0 };
    let mut chopconf = None;
    let mut saved = TMC2209_SavedConfig::new();
    let base = TMC2209_BaseConfig { uart_address: 0, r_sense: 220, ihold_multiplier: 2000 };
    let config = TMC2209_Config { rms_current: Some(300), ..Default::default() };
    process_ihold_irun(&mut ihold_irun, &mut chopconf, &base, &config, &mut saved);
    // hold code 34 keeps its low five bits: 2.
    assert_eq!(ihold_irun.bits, 0x0000_1102);
}

#[test]
fn slaveconf_factory_conf_and_coolconf_take_their_fields() {
    let mut saved = TMC2209_SavedConfig::new();
    let config = TMC2209_Config {
        senddelay: Some(5),
        fclktrim: Some(17),
        ottrim: Some(2),
        semin: Some(5),
        seup: Some(2),
        semax: Some(9),
        sedn: Some(1),
        seimin: Some(true),
        ..Default::default()
    };
    let mut slaveconf = Slaveconf::reset();
    process_slaveconf(&mut slaveconf, &config, &mut saved);
    assert_eq!(slaveconf.bits, 0x0000_0500);
    let mut factory_conf = FactoryConf { bits: 0x0000_00E0 };
    process_factoryconf(&mut factory_conf, &config, &mut saved);
    assert_eq!(factory_conf.bits, 0x0000_02F1);
    let mut coolconf = Coolconf::reset();
    process_coolconf(&mut coolconf, &config, &mut saved);
    assert_eq!(coolconf.bits, 0x0000_A945);
    assert_eq!(
        saved,
        TMC2209_SavedConfig {
            senddelay: 5,
            fclktrim: 17,
            ottrim: 2,
            semin: 5,
            seup: 2,
            semax: 9,
            sedn: 1,
            seimin: true,
            ..TMC2209_SavedConfig::new()
        }
    );
}

#[test]
fn pwmconf_takes_its_fields() {
    let mut pwmconf = Pwmconf::reset();
    let mut saved = TMC2209_SavedConfig::new();
    let config = TMC2209_Config {
        pwm_ofs: Some(0x12),
        pwm_grad: Some(0x34),
        pwm_freq: Some(2),
        pwm_autoscale: Some(false),
        pwm_autograd: Some(false),
        freewheel: Some(3),
        pwm_reg: Some(8),
        pwm_lim: Some(5),
        ..Default::default()
    };
    process_pwmconf(&mut pwmconf, &config, &mut saved);
    assert_eq!(pwmconf.bits, 0x5832_3412);
    assert_eq!(
        saved,
        TMC2209_SavedConfig {
            pwm_ofs: 0x12,
            pwm_grad: 0x34,
            pwm_freq: 2,
            pwm_autoscale: false,
            pwm_autograd: false,
            freewheel: 3,
            pwm_reg: 8,
            pwm_lim: 5,
            ..TMC2209_SavedConfig::new()
        }
    );
}

#[test]
fn thresholds_take_their_values() {
    let mut saved = TMC2209_SavedConfig::new();
    let config = TMC2209_Config {
        tpowerdown: Some(40),
        tpwmthrs: Some(0x0012_3456),
        sgthrs: Some(120),
        tcoolthrs: Some(0x000F_FFFF),
        ..Default::default()
    };
    let mut tpowerdown = Tpowerdown::reset();
    process_tpowerdown(&mut tpowerdown, &config, &mut saved);
    assert_eq!(tpowerdown.bits, 40);
    let mut tpwmthrs = Tpwmthrs::reset();
    process_tpwmthrs(&mut tpwmthrs, &config, &mut saved);
    assert_eq!(tpwmthrs.bits, 0x0002_3456);
    let mut sgthrs = Sgthrs::reset();
    process_sgthrs(&mut sgthrs, &config, &mut saved);
    assert_eq!(sgthrs.bits, 120);
    let mut tcoolthrs = Tcoolthrs::reset();
    process_tcoolthrs(&mut tcoolthrs, &config, &mut saved);
    assert_eq!(tcoolthrs.bits, 0x000F_FFFF);
    assert_eq!(
        saved,
        TMC2209_SavedConfig {
            tpowerdown: 40,
            tpwmthrs: 0x0012_3456,
            sgthrs: 120,
            tcoolthrs: 0x000F_FFFF,
            ..TMC2209_SavedConfig::new()
        }
    );
}

#[test]
fn merge_changes_the_images_in_place() {
    let mut registers = TMC2209_ConfigRegisters::new();
    registers.gconf = Some(Gconf::reset());
    let mut base = TMC2209_BaseConfig::default();
    let mut saved = TMC2209_SavedConfig::new();
    let config = TMC2209_Config { shaft: Some(true), ..Default::default() };
    process_reg_config(&mut registers, &config, &mut base, &mut saved);
    assert_eq!(registers.gconf, Some(Gconf { bits: 0x0000_0049 }));
    assert!(saved.shaft);
}

#[test]
fn merge_converts_the_current_with_the_sense_resistor_of_the_same_change() {
    let mut registers = TMC2209_ConfigRegisters::new();
    registers.ihold_irun = Some(IholdIrun::reset());
    let mut base = TMC2209_BaseConfig::default();
    let mut saved = TMC2209_SavedConfig::new();
    let config = TMC2209_Config {
        rms_current: Some(500),
        r_sense: Some(75),
        ihold_multiplier: Some(250),
        ..Default::default()
    };
    process_reg_config(&mut registers, &config, &mut base, &mut saved);
    assert_eq!(base, TMC2209_BaseConfig { uart_address: 0, r_sense: 75, ihold_multiplier: 250 });
    // run code 10, hold code 2, as for 75 milliohms and a quarter.
    assert_eq!(registers.ihold_irun, Some(IholdIrun { bits: 0x0000_0A02 }));
    assert_eq!(saved.rms_current, 460);
}

#[test]
fn merge_lets_the_current_decide_the_image_and_saves_the_requested_sensitivity() {
    let mut registers = TMC2209_ConfigRegisters::new();
    registers.chopconf = Some(Chopconf::reset());
    registers.ihold_irun = Some(IholdIrun::reset());
    let mut base = TMC2209_BaseConfig::default();
    let mut saved = TMC2209_SavedConfig::new();
    let config = TMC2209_Config {
        vsense: Some(false),
        toff: Some(4),
        rms_current: Some(700),
        ..Default::default()
    };
    process_reg_config(&mut registers, &config, &mut base, &mut saved);
    assert_eq!(registers.chopconf, Some(Chopconf { bits: 0x1002_0054 }));
    assert_eq!(registers.ihold_irun, Some(IholdIrun { bits: 0x0000_150A }));
    assert!(!saved.vsense);
    assert_eq!(saved.toff, 4);
    assert_eq!(saved.rms_current, 673);
}

#[test]
fn a_current_leaves_a_sensitivity_that_the_change_does_not_set_as_it_was_saved() {
    let mut registers = TMC2209_ConfigRegisters::new();
    registers.chopconf = Some(Chopconf::reset());
    registers.ihold_irun = Some(IholdIrun::reset());
    let mut base = TMC2209_BaseConfig::default();
    let mut saved = TMC2209_SavedConfig::new();
    let config = TMC2209_Config { rms_current: Some(700), toff: Some(5), ..Default::default() };
    process_reg_config(&mut registers, &config, &mut base, &mut saved);
    // The image takes the range that the current needs.
    assert_eq!(registers.chopconf, Some(Chopconf { bits: 0x1002_0055 }));
    assert_eq!(registers.ihold_irun, Some(IholdIrun { bits: 0x0000_150A }));
    assert_eq!(
        saved,
        TMC2209_SavedConfig { rms_current: 673, toff: 5, ..TMC2209_SavedConfig::new() }
    );

    let mut registers = TMC2209_ConfigRegisters::new();
    registers.chopconf = Some(Chopconf { bits: 0x1002_0055 });
    registers.ihold_irun = Some(IholdIrun::reset());
    let mut saved = TMC2209_SavedConfig { vsense: true, ..TMC2209_SavedConfig::new() };
    let config = TMC2209_Config { rms_current: Some(1000), toff: Some(5), ..Default::default() };
    process_reg_config(&mut registers, &config, &mut base, &mut saved);
    assert_eq!(registers.chopconf, Some(Chopconf { bits: 0x1000_0055 }));
    assert!(saved.vsense);
}

#[test]
fn settings_that_a_change_leaves_out_stay_saved() {
    let before = TMC2209_SavedConfig {
        shaft: true,
        vsense: true,
        microsteps: 8,
        pwm_lim: 3,
        semax: 7,
        sgthrs: 99,
        rms_current: 500,
        ..TMC2209_SavedConfig::new()
    };
    let mut registers = TMC2209_ConfigRegisters::new();
    registers.gconf = Some(Gconf::reset());
    registers.chopconf = Some(Chopconf::reset());
    registers.ihold_irun = Some(IholdIrun::reset());
    registers.pwmconf = Some(Pwmconf::reset());
    registers.coolconf = Some(Coolconf::reset());
    registers.sgthrs = Some(Sgthrs::reset());
    let mut base = TMC2209_BaseConfig::default();
    let mut saved = before;
    let config = TMC2209_Config {
        en_spreadcycle: Some(true),
        toff: Some(2),
        ihold_delay: Some(1),
        rms_current: Some(700),
        pwm_ofs: Some(9),
        semin: Some(1),
        ..Default::default()
    };
    process_reg_config(&mut registers, &config, &mut base, &mut saved);
    assert_eq!(
        saved,
        TMC2209_SavedConfig {
            en_spreadcycle: true,
            toff: 2,
            ihold_delay: 1,
            rms_current: 673,
            pwm_ofs: 9,
            semin: 1,
            ..before
        }
    );
}

#[test]
fn merge_passes_over_groups_without_an_image() {
    let mut registers = TMC2209_ConfigRegisters::new();
    registers.sgthrs = Some(Sgthrs::reset());
    let mut base = TMC2209_BaseConfig::default();
    let mut saved = TMC2209_SavedConfig::new();
    let config = TMC2209_Config {
        shaft: Some(true),
        sgthrs: Some(77),
        ..Default::default()
    };
    process_reg_config(&mut registers, &config, &mut base, &mut saved);
    assert_eq!(registers.gconf, None);
    assert_eq!(registers.sgthrs, Some(Sgthrs { bits: 77 }));
    assert!(!saved.shaft);
    assert_eq!(saved.sgthrs, 77);
}

#[test]
fn merging_twice_gives_the_same_images() {
    let config = TMC2209_Config {
        shaft: Some(true),
        microsteps: Some(32),
        toff: Some(0x35),
        vsense: Some(false),
        rms_current: Some(700),
        pwm_grad: Some(9),
        fclktrim: Some(40),
        ..Default::default()
    };
    let mut registers = TMC2209_ConfigRegisters::new();
    registers.gconf = Some(Gconf { bits: 0xA5A5_A5A5 });
    registers.chopconf = Some(Chopconf { bits: 0x5A5A_5A5A });
    registers.ihold_irun = Some(IholdIrun::reset());
    registers.pwmconf = Some(Pwmconf { bits: 0x0F0F_0F0F });
    registers.factory_conf = Some(FactoryConf { bits: 0xF0F0_F0F0 });
    let mut base = TMC2209_BaseConfig::default();
    let mut saved = TMC2209_SavedConfig::new();
    process_reg_config(&mut registers, &config, &mut base, &mut saved);
    let first = registers;
    registers.ihold_irun = Some(IholdIrun::reset());
    process_reg_config(&mut registers, &config, &mut base, &mut saved);
    assert_eq!(registers, first);
}

#[test]
fn values_that_fit_their_fields_are_told_from_those_that_do_not() {
    assert!(TMC2209_Config::default().fits_fields());
    let fitting = TMC2209_Config {
        toff: Some(15),
        hysteresis_start: Some(7),
        hysteresis_end: Some(15),
        blank_time: Some(3),
        ihold_delay: Some(15),
        senddelay: Some(15),
        fclktrim: Some(31),
        ottrim: Some(3),
        semin: Some(15),
        seup: Some(3),
        semax: Some(15),
        sedn: Some(3),
        pwm_freq: Some(3),
        freewheel: Some(3),
        pwm_reg: Some(15),
        pwm_lim: Some(15),
        tpwmthrs: Some(0x000F_FFFF),
        tcoolthrs: Some(0x000F_FFFF),
        microsteps: Some(77),
        sgthrs: Some(u32::MAX),
        tpowerdown: Some(u32::MAX),
        pwm_ofs: Some(255),
        pwm_grad: Some(255),
        rms_current: Some(u16::MAX),
        ..Default::default()
    };
    assert!(fitting.fits_fields());
    assert!(!TMC2209_Config { toff: Some(16), ..fitting }.fits_fields());
    assert!(!TMC2209_Config { hysteresis_start: Some(8), ..fitting }.fits_fields());
    assert!(!TMC2209_Config { hysteresis_end: Some(16), ..fitting }.fits_fields());
    assert!(!TMC2209_Config { blank_time: Some(4), ..fitting }.fits_fields());
    assert!(!TMC2209_Config { ihold_delay: Some(16), ..fitting }.fits_fields());
    assert!(!TMC2209_Config { senddelay: Some(16), ..fitting }.fits_fields());
    assert!(!TMC2209_Config { fclktrim: Some(32), ..fitting }.fits_fields());
    assert!(!TMC2209_Config { ottrim: Some(4), ..fitting }.fits_fields());
    assert!(!TMC2209_Config { semin: Some(16), ..fitting }.fits_fields());
    assert!(!TMC2209_Config { seup: Some(4), ..fitting }.fits_fields());
    assert!(!TMC2209_Config { semax: Some(16), ..fitting }.fits_fields());
    assert!(!TMC2209_Config { sedn: Some(4), ..fitting }.fits_fields());
    assert!(!TMC2209_Config { pwm_freq: Some(4), ..fitting }.fits_fields());
    assert!(!TMC2209_Config { freewheel: Some(4), ..fitting }.fits_fields());
    assert!(!TMC2209_Config { pwm_reg: Some(16), ..fitting }.fits_fields());
    assert!(!TMC2209_Config { pwm_lim: Some(16), ..fitting }.fits_fields());
    assert!(!TMC2209_Config { tpwmthrs: Some(0x0010_0000), ..fitting }.fits_fields());
    assert!(!TMC2209_Config { tcoolthrs: Some(0x0010_0000), ..fitting }.fits_fields());
}

#[test]
fn a_change_that_fits_is_saved_as_the_chip_reads_it_back() {
    let config = TMC2209_Config {
        shaft: Some(true),
        toff: Some(9),
        microsteps: Some(64),
        pwm_lim: Some(7),
        fclktrim: Some(30),
        ..Default::default()
    };
    assert!(config.fits_fields());
    let mut registers = TMC2209_ConfigRegisters::new();
    registers.gconf = Some(Gconf { bits: 0x1234_5678 });
    registers.chopconf = Some(Chopconf { bits: 0x9ABC_DEF0 });
    registers.factory_conf = Some(FactoryConf { bits: 0x0F0F_0F0F });
    registers.pwmconf = Some(Pwmconf { bits: 0xF0F0_F0F0 });
    let mut base = TMC2209_BaseConfig::default();
    let mut saved = TMC2209_SavedConfig::new();
    process_reg_config(&mut registers, &config, &mut base, &mut saved);
    assert_eq!(registers.gconf.unwrap().shaft(), saved.shaft);
    assert_eq!(registers.chopconf.unwrap().toff(), saved.toff);
    assert_eq!(registers.chopconf.unwrap().mres(), 2);
    assert_eq!(saved.microsteps, 64);
    assert_eq!(registers.pwmconf.unwrap().pwm_lim(), saved.pwm_lim);
    assert_eq!(registers.factory_conf.unwrap().fclktrim(), saved.fclktrim);
    // What the change leaves out reads as before.
    assert_eq!(registers.chopconf.unwrap().hend(), Chopconf { bits: 0x9ABC_DEF0 }.hend());
    assert_eq!(registers.pwmconf.unwrap().pwm_ofs(), 0xF0);
}
