use tmc2209_uart::config::TMC2209_Config;
use tmc2209_uart::registers_collection::{
    TMC2209_ConfigRegisters, TMC2209_ConfigRegistersChangesDetected,
};

fn only(group: &str) -> TMC2209_ConfigRegistersChangesDetected {
    let mut changes = TMC2209_ConfigRegistersChangesDetected::new();
    match group {
        "gconf" => changes.gconf = true,
        "chopconf" => changes.chopconf = true,
        "slaveconf" => changes.slaveconf = true,
        "factory_conf" => changes.factory_conf = true,
        "ihold_irun" => changes.ihold_irun = true,
        "coolconf" => changes.coolconf = true,
        "pwmconf" => changes.pwmconf = true,
        "tpowerdown" => changes.tpowerdown = true,
        "tpwmthrs" => changes.tpwmthrs = true,
        "sgthrs" => changes.sgthrs = true,
        "tcoolthrs" => changes.tcoolthrs = true,
        _ => unreachable!(),
    }
    changes
}

#[test]
fn new_changes_mark_no_group() {
    let changes = TMC2209_ConfigRegistersChangesDetected::new();
    assert!(!changes.gconf);
    assert!(!changes.chopconf);
    assert!(!changes.slaveconf);
    assert!(!changes.factory_conf);
    assert!(!changes.ihold_irun);
    assert!(!changes.coolconf);
    assert!(!changes.pwmconf);
    assert!(!changes.tpowerdown);
    assert!(!changes.tpwmthrs);
    assert!(!changes.sgthrs);
    assert!(!changes.tcoolthrs);
}

#[test]
fn new_registers_hold_no_image() {
    let registers = TMC2209_ConfigRegisters::new();
    assert_eq!(registers.gconf, None);
    assert_eq!(registers.chopconf, None);
    assert_eq!(registers.slaveconf, None);
    assert_eq!(registers.factory_conf, None);
    assert_eq!(registers.ihold_irun, None);
    assert_eq!(registers.coolconf, None);
    assert_eq!(registers.pwmconf, None);
    assert_eq!(registers.tpowerdown, None);
    assert_eq!(registers.tpwmthrs, None);
    assert_eq!(registers.sgthrs, None);
    assert_eq!(registers.tcoolthrs, None);
}

#[test]
fn empty_change_touches_no_group() {
    let config = TMC2209_Config::default();
    assert_eq!(config.which_registers_changed(), TMC2209_ConfigRegistersChangesDetected::new());
}

#[test]
fn base_fields_touch_no_group() {
    let config = TMC2209_Config {
        uart_address: Some(2),
        r_sense: Some(75),
        ihold_multiplier: Some(300),
        ..Default::default()
    };
    assert_eq!(config.which_registers_changed(), TMC2209_ConfigRegistersChangesDetected::new());
}

#[test]
fn i_scale_analog_touches_gconf_only() {
    let config = TMC2209_Config { i_scale_analog: Some(true), ..Default::default() };
    assert_eq!(config.which_registers_changed(), only("gconf"));
}

#[test]
fn internal_rsense_touches_gconf_only() {
    let config = TMC2209_Config { internal_rsense: Some(true), ..Default::default() };
    assert_eq!(config.which_registers_changed(), only("gconf"));
}

#[test]
fn en_spreadcycle_touches_gconf_only() {
    let config = TMC2209_Config { en_spreadcycle: Some(false), ..Default::default() };
    assert_eq!(config.which_registers_changed(), only("gconf"));
}

#[test]
fn index_otpw_touches_gconf_only() {
    let config = TMC2209_Config { index_otpw: Some(true), ..Default::default() };
    assert_eq!(config.which_registers_changed(), only("gconf"));
}

#[test]
fn index_step_touches_gconf_only() {
    let config = TMC2209_Config { index_step: Some(false), ..Default::default() };
    assert_eq!(config.which_registers_changed(), only("gconf"));
}

#[test]
fn pdn_disable_touches_gconf_only() {
    let config = TMC2209_Config { pdn_disable: Some(true), ..Default::default() };
    assert_eq!(config.which_registers_changed(), only("gconf"));
}

#[test]
fn mstep_reg_select_touches_gconf_only() {
    let config = TMC2209_Config { mstep_reg_select: Some(true), ..Default::default() };
    assert_eq!(config.which_registers_changed(), only("gconf"));
}

#[test]
fn multistep_filt_touches_gconf_only() {
    let config = TMC2209_Config { multistep_filt: Some(false), ..Default::default() };
    assert_eq!(config.which_registers_changed(), only("gconf"));
}

#[test]
fn shaft_touches_gconf_only() {
    let config = TMC2209_Config { shaft: Some(true), ..Default::default() };
    assert_eq!(config.which_registers_changed(), only("gconf"));
}

#[test]
fn dedge_touches_chopconf_only() {
    let config = TMC2209_Config { dedge: Some(true), ..Default::default() };
    assert_eq!(config.which_registers_changed(), only("chopconf"));
}

#[test]
fn diss2g_touches_chopconf_only() {
    let config = TMC2209_Config { diss2g: Some(false), ..Default::default() };
    assert_eq!(config.which_registers_changed(), only("chopconf"));
}

#[test]
fn diss2vs_touches_chopconf_only() {
    let config = TMC2209_Config { diss2vs: Some(true), ..Default::default() };
    assert_eq!(config.which_registers_changed(), only("chopconf"));
}

#[test]
fn hysteresis_end_touches_chopconf_only() {
    let config = TMC2209_Config { hysteresis_end: Some(3), ..Default::default() };
    assert_eq!(config.which_registers_changed(), only("chopconf"));
}

#[test]
fn hysteresis_start_touches_chopconf_only() {
    let config = TMC2209_Config { hysteresis_start: Some(4), ..Default::default() };
    assert_eq!(config.which_registers_changed(), only("chopconf"));
}

#[test]
fn interpolation_touches_chopconf_only() {
    let config = TMC2209_Config { interpolation: Some(true), ..Default::default() };
    assert_eq!(config.which_registers_changed(), only("chopconf"));
}

#[test]
fn microsteps_touches_chopconf_only() {
    let config = TMC2209_Config { microsteps: Some(16), ..Default::default() };
    assert_eq!(config.which_registers_changed(), only("chopconf"));
}

#[test]
fn blank_time_touches_chopconf_only() {
    let config = TMC2209_Config { blank_time: Some(2), ..Default::default() };
    assert_eq!(config.which_registers_changed(), only("chopconf"));
}

#[test]
fn toff_touches_chopconf_only() {
    let config = TMC2209_Config { toff: Some(3), ..Default::default() };
    assert_eq!(config.which_registers_changed(), only("chopconf"));
}

#[test]
fn vsense_touches_chopconf_only() {
    let config = TMC2209_Config { vsense: Some(false), ..Default::default() };
    assert_eq!(config.which_registers_changed(), only("chopconf"));
}

#[test]
fn senddelay_touches_slaveconf_only() {
    let config = TMC2209_Config { senddelay: Some(2), ..Default::default() };
    assert_eq!(config.which_registers_changed(), only("slaveconf"));
}

#[test]
fn fclktrim_touches_factory_conf_only() {
    let config = TMC2209_Config { fclktrim: Some(7), ..Default::default() };
    assert_eq!(config.which_registers_changed(), only("factory_conf"));
}

#[test]
fn ottrim_touches_factory_conf_only() {
    let config = TMC2209_Config { ottrim: Some(1), ..Default::default() };
    assert_eq!(config.which_registers_changed(), only("factory_conf"));
}

#[test]
fn ihold_delay_touches_ihold_irun_only() {
    let config = TMC2209_Config { ihold_delay: Some(5), ..Default::default() };
    assert_eq!(config.which_registers_changed(), only("ihold_irun"));
}

#[test]
fn rms_current_touches_ihold_irun_only() {
    let config = TMC2209_Config { rms_current: Some(700), ..Default::default() };
    assert_eq!(config.which_registers_changed(), only("ihold_irun"));
}

#[test]
fn sedn_touches_coolconf_only() {
    let config = TMC2209_Config { sedn: Some(1), ..Default::default() };
    assert_eq!(config.which_registers_changed(), only("coolconf"));
}

#[test]
fn semin_touches_coolconf_only() {
    let config = TMC2209_Config { semin: Some(2), ..Default::default() };
    assert_eq!(config.which_registers_changed(), only("coolconf"));
}

#[test]
fn seup_touches_coolconf_only() {
    let config = TMC2209_Config { seup: Some(3), ..Default::default() };
    assert_eq!(config.which_registers_changed(), only("coolconf"));
}

#[test]
fn semax_touches_coolconf_only() {
    let config = TMC2209_Config { semax: Some(4), ..Default::default() };
    assert_eq!(config.which_registers_changed(), only("coolconf"));
}

#[test]
fn seimin_touches_coolconf_only() {
    let config = TMC2209_Config { seimin: Some(true), ..Default::default() };
    assert_eq!(config.which_registers_changed(), only("coolconf"));
}

#[test]
fn freewheel_touches_pwmconf_only() {
    let config = TMC2209_Config { freewheel: Some(1), ..Default::default() };
    assert_eq!(config.which_registers_changed(), only("pwmconf"));
}

#[test]
fn pwm_autograd_touches_pwmconf_only() {
    let config = TMC2209_Config { pwm_autograd: Some(true), ..Default::default() };
    assert_eq!(config.which_registers_changed(), only("pwmconf"));
}

#[test]
fn pwm_autoscale_touches_pwmconf_only() {
    let config = TMC2209_Config { pwm_autoscale: Some(true), ..Default::default() };
    assert_eq!(config.which_registers_changed(), only("pwmconf"));
}

#[test]
fn pwm_freq_touches_pwmconf_only() {
    let config = TMC2209_Config { pwm_freq: Some(1), ..Default::default() };
    assert_eq!(config.which_registers_changed(), only("pwmconf"));
}

#[test]
fn pwm_grad_touches_pwmconf_only() {
    let config = TMC2209_Config { pwm_grad: Some(14), ..Default::default() };
    assert_eq!(config.which_registers_changed(), only("pwmconf"));
}

#[test]
fn pwm_lim_touches_pwmconf_only() {
    let config = TMC2209_Config { pwm_lim: Some(12), ..Default::default() };
    assert_eq!(config.which_registers_changed(), only("pwmconf"));
}

#[test]
fn pwm_ofs_touches_pwmconf_only() {
    let config = TMC2209_Config { pwm_ofs: Some(36), ..Default::default() };
    assert_eq!(config.which_registers_changed(), only("pwmconf"));
}

#[test]
fn pwm_reg_touches_pwmconf_only() {
    let config = TMC2209_Config { pwm_reg: Some(4), ..Default::default() };
    assert_eq!(config.which_registers_changed(), only("pwmconf"));
}

#[test]
fn tpowerdown_touches_tpowerdown_only() {
    let config = TMC2209_Config { tpowerdown: Some(20), ..Default::default() };
    assert_eq!(config.which_registers_changed(), only("tpowerdown"));
}

#[test]
fn tpwmthrs_touches_tpwmthrs_only() {
    let config = TMC2209_Config { tpwmthrs: Some(100), ..Default::default() };
    assert_eq!(config.which_registers_changed(), only("tpwmthrs"));
}

#[test]
fn sgthrs_touches_sgthrs_only() {
    let config = TMC2209_Config { sgthrs: Some(120), ..Default::default() };
    assert_eq!(config.which_registers_changed(), only("sgthrs"));
}

#[test]
fn tcoolthrs_touches_tcoolthrs_only() {
    let config = TMC2209_Config { tcoolthrs: Some(200), ..Default::default() };
    assert_eq!(config.which_registers_changed(), only("tcoolthrs"));
}

#[test]
fn current_and_hold_delay_touch_the_same_group() {
    let config = TMC2209_Config {
        rms_current: Some(700),
        ihold_delay: Some(3),
        ..Default::default()
    };
    assert_eq!(config.which_registers_changed(), only("ihold_irun"));
}

#[test]
fn fields_of_several_groups_touch_each_of_them() {
    let config = TMC2209_Config {
        shaft: Some(false),
        microsteps: Some(32),
        sgthrs: Some(10),
        ..Default::default()
    };
    let mut expected = TMC2209_ConfigRegistersChangesDetected::new();
    expected.gconf = true;
    expected.chopconf = true;
    expected.sgthrs = true;
    assert_eq!(config.which_registers_changed(), expected);
}
