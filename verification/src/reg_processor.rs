//! Merging a change into register images and into the saved configuration.
//!
//! Every function here copies the fields that a change sets into a register
//! image and writes the same value into the saved configuration. A field
//! that the change leaves out keeps the bits the image had.
use vstd::prelude::*;
use crate::bits::{with_field, with_flag};
use crate::calc::{
    current_codes, irun_to_rms_current, microsteps_of_code, microsteps_to_mres, mres_code,
    mres_to_microsteps, read_back_current, rms_current_to_ihold_irun_vsense,
    RmsCurrentToIholdIrunVsenseOutput,
};
use crate::config::{TMC2209_BaseConfig, TMC2209_Config, TMC2209_SavedConfig};
use crate::registers::{
    Chopconf, Coolconf, FactoryConf, Gconf, IholdIrun, Pwmconf, Sgthrs, Slaveconf, Tcoolthrs,
    Tpowerdown, Tpwmthrs, CHOPCONF_DEDGE, CHOPCONF_DISS2G, CHOPCONF_DISS2VS, CHOPCONF_HEND_LSB,
    CHOPCONF_HEND_WIDTH, CHOPCONF_HSTRT_LSB, CHOPCONF_HSTRT_WIDTH, CHOPCONF_INTPOL,
    CHOPCONF_MRES_LSB, CHOPCONF_MRES_WIDTH, CHOPCONF_TBL_LSB, CHOPCONF_TBL_WIDTH,
    CHOPCONF_TOFF_LSB, CHOPCONF_TOFF_WIDTH, CHOPCONF_VSENSE, COOLCONF_SEDN_LSB,
    COOLCONF_SEDN_WIDTH, COOLCONF_SEIMIN, COOLCONF_SEMAX_LSB, COOLCONF_SEMAX_WIDTH,
    COOLCONF_SEMIN_LSB, COOLCONF_SEMIN_WIDTH, COOLCONF_SEUP_LSB, COOLCONF_SEUP_WIDTH,
    FACTORY_CONF_FCLKTRIM_LSB, FACTORY_CONF_FCLKTRIM_WIDTH, FACTORY_CONF_OTTRIM_LSB,
    FACTORY_CONF_OTTRIM_WIDTH, GCONF_EN_SPREAD_CYCLE, GCONF_INDEX_OTPW, GCONF_INDEX_STEP,
    GCONF_INTERNAL_RSENSE, GCONF_I_SCALE_ANALOG, GCONF_MSTEP_REG_SELECT, GCONF_MULTISTEP_FILT,
    GCONF_PDN_DISABLE, GCONF_SHAFT, IHOLD_IRUN_IHOLD_DELAY_LSB, IHOLD_IRUN_IHOLD_DELAY_WIDTH,
    IHOLD_IRUN_IHOLD_LSB, IHOLD_IRUN_IHOLD_WIDTH, IHOLD_IRUN_IRUN_LSB, IHOLD_IRUN_IRUN_WIDTH,
    PWMCONF_FREEWHEEL_LSB, PWMCONF_FREEWHEEL_WIDTH, PWMCONF_PWM_AUTOGRAD, PWMCONF_PWM_AUTOSCALE,
    PWMCONF_PWM_FREQ_LSB, PWMCONF_PWM_FREQ_WIDTH, PWMCONF_PWM_GRAD_LSB, PWMCONF_PWM_GRAD_WIDTH,
    PWMCONF_PWM_LIM_LSB, PWMCONF_PWM_LIM_WIDTH, PWMCONF_PWM_OFS_LSB, PWMCONF_PWM_OFS_WIDTH,
    PWMCONF_PWM_REG_LSB, PWMCONF_PWM_REG_WIDTH, SLAVECONF_SENDDELAY_LSB,
    SLAVECONF_SENDDELAY_WIDTH, TCOOLTHRS_VALUE_LSB, TCOOLTHRS_VALUE_WIDTH, TPWMTHRS_VALUE_LSB,
    TPWMTHRS_VALUE_WIDTH,
};
use crate::registers_collection::TMC2209_ConfigRegisters;

verus! {

/// The requested value where there is one, the current value otherwise.
pub open spec fn keep<T>(requested: Option<T>, current: T) -> T {
    match requested {
        Some(value) => value,
        None => current,
    }
}

/// `bits` with one flag set to the requested value, if one is requested.
pub open spec fn put_flag(bits: u32, bit: u32, requested: Option<bool>) -> u32 {
    match requested {
        Some(value) => with_flag(bits, bit, value),
        None => bits,
    }
}

/// `bits` with one field set to the requested value, if one is requested.
pub open spec fn put_u32(bits: u32, lsb: u32, width: u32, requested: Option<u32>) -> u32 {
    match requested {
        Some(value) => with_field(bits, lsb, width, value),
        None => bits,
    }
}

/// As [`put_u32`], for a 16-bit value.
pub open spec fn put_u16(bits: u32, lsb: u32, width: u32, requested: Option<u16>) -> u32 {
    match requested {
        Some(value) => with_field(bits, lsb, width, value as u32),
        None => bits,
    }
}

/// As [`put_u32`], for an 8-bit value.
pub open spec fn put_u8(bits: u32, lsb: u32, width: u32, requested: Option<u8>) -> u32 {
    match requested {
        Some(value) => with_field(bits, lsb, width, value as u32),
        None => bits,
    }
}

/// The base configuration after a change.
pub open spec fn base_config_merged(base: TMC2209_BaseConfig, config: TMC2209_Config)
    -> TMC2209_BaseConfig {
    TMC2209_BaseConfig {
        uart_address: keep(config.uart_address, base.uart_address),
        r_sense: keep(config.r_sense, base.r_sense),
        ihold_multiplier: keep(config.ihold_multiplier, base.ihold_multiplier),
    }
}

/// The GCONF word after a change.
pub open spec fn gconf_merged(bits: u32, config: TMC2209_Config) -> u32 {
    let bits = put_flag(bits, GCONF_I_SCALE_ANALOG, config.i_scale_analog);
    let bits = put_flag(bits, GCONF_INTERNAL_RSENSE, config.internal_rsense);
    let bits = put_flag(bits, GCONF_EN_SPREAD_CYCLE, config.en_spreadcycle);
    let bits = put_flag(bits, GCONF_INDEX_OTPW, config.index_otpw);
    let bits = put_flag(bits, GCONF_INDEX_STEP, config.index_step);
    let bits = put_flag(bits, GCONF_PDN_DISABLE, config.pdn_disable);
    let bits = put_flag(bits, GCONF_MSTEP_REG_SELECT, config.mstep_reg_select);
    let bits = put_flag(bits, GCONF_MULTISTEP_FILT, config.multistep_filt);
    put_flag(bits, GCONF_SHAFT, config.shaft)
}

/// The saved configuration after the GCONF fields of a change.
pub open spec fn gconf_saved(saved: TMC2209_SavedConfig, config: TMC2209_Config)
    -> TMC2209_SavedConfig {
    TMC2209_SavedConfig {
        i_scale_analog: keep(config.i_scale_analog, saved.i_scale_analog),
        internal_rsense: keep(config.internal_rsense, saved.internal_rsense),
        en_spreadcycle: keep(config.en_spreadcycle, saved.en_spreadcycle),
        index_otpw: keep(config.index_otpw, saved.index_otpw),
        index_step: keep(config.index_step, saved.index_step),
        pdn_disable: keep(config.pdn_disable, saved.pdn_disable),
        mstep_reg_select: keep(config.mstep_reg_select, saved.mstep_reg_select),
        multistep_filt: keep(config.multistep_filt, saved.multistep_filt),
        shaft: keep(config.shaft, saved.shaft),
        ..saved
    }
}

/// The MRES code that a change requests, if it requests a resolution.
pub open spec fn requested_mres(config: TMC2209_Config) -> Option<u32> {
    match config.microsteps {
        Some(microsteps) => Some(mres_code(microsteps)),
        None => None,
    }
}

/// The resolution that a change requests, as the chip will run it: a count
/// that is no resolution of the chip as 16.
pub open spec fn requested_microsteps(config: TMC2209_Config) -> Option<u32> {
    match config.microsteps {
        Some(microsteps) => Some(microsteps_of_code(mres_code(microsteps))),
        None => None,
    }
}

/// The CHOPCONF word after the chopper fields of a change.
pub open spec fn chopconf_merged(bits: u32, config: TMC2209_Config) -> u32 {
    let bits = put_flag(bits, CHOPCONF_DEDGE, config.dedge);
    let bits = put_flag(bits, CHOPCONF_DISS2G, config.diss2g);
    let bits = put_flag(bits, CHOPCONF_DISS2VS, config.diss2vs);
    let bits = put_u32(bits, CHOPCONF_HEND_LSB, CHOPCONF_HEND_WIDTH, config.hysteresis_end);
    let bits = put_u32(bits, CHOPCONF_HSTRT_LSB, CHOPCONF_HSTRT_WIDTH, config.hysteresis_start);
    let bits = put_flag(bits, CHOPCONF_INTPOL, config.interpolation);
    let bits = put_u32(bits, CHOPCONF_MRES_LSB, CHOPCONF_MRES_WIDTH, requested_mres(config));
    let bits = put_u32(bits, CHOPCONF_TBL_LSB, CHOPCONF_TBL_WIDTH, config.blank_time);
    let bits = put_u32(bits, CHOPCONF_TOFF_LSB, CHOPCONF_TOFF_WIDTH, config.toff);
    put_flag(bits, CHOPCONF_VSENSE, config.vsense)
}

/// The saved configuration after the chopper fields of a change.
pub open spec fn chopconf_saved(saved: TMC2209_SavedConfig, config: TMC2209_Config)
    -> TMC2209_SavedConfig {
    TMC2209_SavedConfig {
        dedge: keep(config.dedge, saved.dedge),
        diss2g: keep(config.diss2g, saved.diss2g),
        diss2vs: keep(config.diss2vs, saved.diss2vs),
        hysteresis_end: keep(config.hysteresis_end, saved.hysteresis_end),
        hysteresis_start: keep(config.hysteresis_start, saved.hysteresis_start),
        interpolation: keep(config.interpolation, saved.interpolation),
        microsteps: keep(requested_microsteps(config), saved.microsteps),
        blank_time: keep(config.blank_time, saved.blank_time),
        toff: keep(config.toff, saved.toff),
        vsense: keep(config.vsense, saved.vsense),
        ..saved
    }
}

/// Run code, hold code and sensitivity range for the current that a change
/// requests, with the sense resistor and hold multiplier of `base`.
pub open spec fn requested_codes(base: TMC2209_BaseConfig, config: TMC2209_Config)
    -> Option<RmsCurrentToIholdIrunVsenseOutput> {
    match config.rms_current {
        Some(rms_current) => Some(
            current_codes(rms_current, base.r_sense, base.ihold_multiplier),
        ),
        None => None,
    }
}

/// The hold code among the requested codes.
pub open spec fn requested_ihold(base: TMC2209_BaseConfig, config: TMC2209_Config) -> Option<u8> {
    match requested_codes(base, config) {
        Some(codes) => Some(codes.ihold),
        None => None,
    }
}

/// The run code among the requested codes.
pub open spec fn requested_irun(base: TMC2209_BaseConfig, config: TMC2209_Config) -> Option<u8> {
    match requested_codes(base, config) {
        Some(codes) => Some(codes.irun),
        None => None,
    }
}

/// The sensitivity range among the requested codes.
pub open spec fn requested_sensitivity(base: TMC2209_BaseConfig, config: TMC2209_Config)
    -> Option<bool> {
    match requested_codes(base, config) {
        Some(codes) => Some(codes.vsense),
        None => None,
    }
}

/// The requested current as its run code reads back.
pub open spec fn requested_current(base: TMC2209_BaseConfig, config: TMC2209_Config)
    -> Option<u16> {
    match requested_codes(base, config) {
        Some(codes) => Some(read_back_current(codes.irun, codes.vsense, base.r_sense)),
        None => None,
    }
}

/// The IHOLD_IRUN word after a change.
pub open spec fn ihold_irun_merged(bits: u32, base: TMC2209_BaseConfig, config: TMC2209_Config)
    -> u32 {
    let bits = put_u8(
        bits,
        IHOLD_IRUN_IHOLD_LSB,
        IHOLD_IRUN_IHOLD_WIDTH,
        requested_ihold(base, config),
    );
    let bits = put_u8(
        bits,
        IHOLD_IRUN_IRUN_LSB,
        IHOLD_IRUN_IRUN_WIDTH,
        requested_irun(base, config),
    );
    put_u8(bits, IHOLD_IRUN_IHOLD_DELAY_LSB, IHOLD_IRUN_IHOLD_DELAY_WIDTH, config.ihold_delay)
}

/// The CHOPCONF word after the current of a change: the requested current
/// decides the sensitivity range.
pub open spec fn chopconf_sensed(bits: u32, base: TMC2209_BaseConfig, config: TMC2209_Config)
    -> u32 {
    put_flag(bits, CHOPCONF_VSENSE, requested_sensitivity(base, config))
}

/// The CHOPCONF image, if there is one, after the current of a change.
pub open spec fn chopconf_image_sensed(
    chopconf: Option<Chopconf>,
    base: TMC2209_BaseConfig,
    config: TMC2209_Config,
) -> Option<Chopconf> {
    match chopconf {
        Some(image) => Some(Chopconf { bits: chopconf_sensed(image.bits, base, config) }),
        None => None,
    }
}

/// The saved configuration after the current fields of a change. The current
/// is saved as the written run code reads back. The sensitivity range that
/// the current decides goes into the CHOPCONF image and is not saved: the
/// saved range is the one that a change has set by name.
pub open spec fn ihold_irun_saved(
    saved: TMC2209_SavedConfig,
    base: TMC2209_BaseConfig,
    config: TMC2209_Config,
) -> TMC2209_SavedConfig {
    TMC2209_SavedConfig {
        rms_current: keep(requested_current(base, config), saved.rms_current),
        ihold_delay: keep(config.ihold_delay, saved.ihold_delay),
        ..saved
    }
}

/// The SLAVECONF word after a change.
pub open spec fn slaveconf_merged(bits: u32, config: TMC2209_Config) -> u32 {
    put_u8(bits, SLAVECONF_SENDDELAY_LSB, SLAVECONF_SENDDELAY_WIDTH, config.senddelay)
}

/// The saved configuration after the SLAVECONF field of a change.
pub open spec fn slaveconf_saved(saved: TMC2209_SavedConfig, config: TMC2209_Config)
    -> TMC2209_SavedConfig {
    TMC2209_SavedConfig { senddelay: keep(config.senddelay, saved.senddelay), ..saved }
}

/// The FACTORY_CONF word after a change.
pub open spec fn factory_conf_merged(bits: u32, config: TMC2209_Config) -> u32 {
    let bits = put_u8(
        bits,
        FACTORY_CONF_FCLKTRIM_LSB,
        FACTORY_CONF_FCLKTRIM_WIDTH,
        config.fclktrim,
    );
    put_u8(bits, FACTORY_CONF_OTTRIM_LSB, FACTORY_CONF_OTTRIM_WIDTH, config.ottrim)
}

/// The saved configuration after the FACTORY_CONF fields of a change.
pub open spec fn factory_conf_saved(saved: TMC2209_SavedConfig, config: TMC2209_Config)
    -> TMC2209_SavedConfig {
    TMC2209_SavedConfig {
        fclktrim: keep(config.fclktrim, saved.fclktrim),
        ottrim: keep(config.ottrim, saved.ottrim),
        ..saved
    }
}

/// The COOLCONF word after a change.
pub open spec fn coolconf_merged(bits: u32, config: TMC2209_Config) -> u32 {
    let bits = put_u16(bits, COOLCONF_SEDN_LSB, COOLCONF_SEDN_WIDTH, config.sedn);
    let bits = put_u16(bits, COOLCONF_SEMIN_LSB, COOLCONF_SEMIN_WIDTH, config.semin);
    let bits = put_u16(bits, COOLCONF_SEUP_LSB, COOLCONF_SEUP_WIDTH, config.seup);
    let bits = put_flag(bits, COOLCONF_SEIMIN, config.seimin);
    put_u16(bits, COOLCONF_SEMAX_LSB, COOLCONF_SEMAX_WIDTH, config.semax)
}

/// The saved configuration after the COOLCONF fields of a change.
pub open spec fn coolconf_saved(saved: TMC2209_SavedConfig, config: TMC2209_Config)
    -> TMC2209_SavedConfig {
    TMC2209_SavedConfig {
        sedn: keep(config.sedn, saved.sedn),
        semin: keep(config.semin, saved.semin),
        seup: keep(config.seup, saved.seup),
        seimin: keep(config.seimin, saved.seimin),
        semax: keep(config.semax, saved.semax),
        ..saved
    }
}

/// The PWMCONF word after a change.
pub open spec fn pwmconf_merged(bits: u32, config: TMC2209_Config) -> u32 {
    let bits = put_u8(bits, PWMCONF_FREEWHEEL_LSB, PWMCONF_FREEWHEEL_WIDTH, config.freewheel);
    let bits = put_flag(bits, PWMCONF_PWM_AUTOSCALE, config.pwm_autoscale);
    let bits = put_flag(bits, PWMCONF_PWM_AUTOGRAD, config.pwm_autograd);
    let bits = put_u8(bits, PWMCONF_PWM_FREQ_LSB, PWMCONF_PWM_FREQ_WIDTH, config.pwm_freq);
    let bits = put_u8(bits, PWMCONF_PWM_GRAD_LSB, PWMCONF_PWM_GRAD_WIDTH, config.pwm_grad);
    let bits = put_u8(bits, PWMCONF_PWM_LIM_LSB, PWMCONF_PWM_LIM_WIDTH, config.pwm_lim);
    let bits = put_u8(bits, PWMCONF_PWM_OFS_LSB, PWMCONF_PWM_OFS_WIDTH, config.pwm_ofs);
    put_u8(bits, PWMCONF_PWM_REG_LSB, PWMCONF_PWM_REG_WIDTH, config.pwm_reg)
}

/// The saved configuration after the PWMCONF fields of a change.
pub open spec fn pwmconf_saved(saved: TMC2209_SavedConfig, config: TMC2209_Config)
    -> TMC2209_SavedConfig {
    TMC2209_SavedConfig {
        freewheel: keep(config.freewheel, saved.freewheel),
        pwm_autoscale: keep(config.pwm_autoscale, saved.pwm_autoscale),
        pwm_autograd: keep(config.pwm_autograd, saved.pwm_autograd),
        pwm_freq: keep(config.pwm_freq, saved.pwm_freq),
        pwm_grad: keep(config.pwm_grad, saved.pwm_grad),
        pwm_lim: keep(config.pwm_lim, saved.pwm_lim),
        pwm_ofs: keep(config.pwm_ofs, saved.pwm_ofs),
        pwm_reg: keep(config.pwm_reg, saved.pwm_reg),
        ..saved
    }
}

/// The TPOWERDOWN word after a change: the whole word is the delay.
pub open spec fn tpowerdown_merged(bits: u32, config: TMC2209_Config) -> u32 {
    keep(config.tpowerdown, bits)
}

/// The saved configuration after the TPOWERDOWN value of a change.
pub open spec fn tpowerdown_saved(saved: TMC2209_SavedConfig, config: TMC2209_Config)
    -> TMC2209_SavedConfig {
    TMC2209_SavedConfig { tpowerdown: keep(config.tpowerdown, saved.tpowerdown), ..saved }
}

/// The TPWMTHRS word after a change.
pub open spec fn tpwmthrs_merged(bits: u32, config: TMC2209_Config) -> u32 {
    put_u32(bits, TPWMTHRS_VALUE_LSB, TPWMTHRS_VALUE_WIDTH, config.tpwmthrs)
}

/// The saved configuration after the TPWMTHRS value of a change.
pub open spec fn tpwmthrs_saved(saved: TMC2209_SavedConfig, config: TMC2209_Config)
    -> TMC2209_SavedConfig {
    TMC2209_SavedConfig { tpwmthrs: keep(config.tpwmthrs, saved.tpwmthrs), ..saved }
}

/// The SGTHRS word after a change: the whole word is the threshold.
pub open spec fn sgthrs_merged(bits: u32, config: TMC2209_Config) -> u32 {
    keep(config.sgthrs, bits)
}

/// The saved configuration after the SGTHRS value of a change.
pub open spec fn sgthrs_saved(saved: TMC2209_SavedConfig, config: TMC2209_Config)
    -> TMC2209_SavedConfig {
    TMC2209_SavedConfig { sgthrs: keep(config.sgthrs, saved.sgthrs), ..saved }
}

/// The TCOOLTHRS word after a change.
pub open spec fn tcoolthrs_merged(bits: u32, config: TMC2209_Config) -> u32 {
    put_u32(bits, TCOOLTHRS_VALUE_LSB, TCOOLTHRS_VALUE_WIDTH, config.tcoolthrs)
}

/// The saved configuration after the TCOOLTHRS value of a change.
pub open spec fn tcoolthrs_saved(saved: TMC2209_SavedConfig, config: TMC2209_Config)
    -> TMC2209_SavedConfig {
    TMC2209_SavedConfig { tcoolthrs: keep(config.tcoolthrs, saved.tcoolthrs), ..saved }
}

/// The images after a change, with `base` the base configuration that the
/// change has already gone into. A group that is absent stays absent. The
/// requested current reaches CHOPCONF only where both images are present.
pub open spec fn registers_merged(
    registers: TMC2209_ConfigRegisters,
    base: TMC2209_BaseConfig,
    config: TMC2209_Config,
) -> TMC2209_ConfigRegisters {
    TMC2209_ConfigRegisters {
        gconf: match registers.gconf {
            Some(image) => Some(Gconf { bits: gconf_merged(image.bits, config) }),
            None => None,
        },
        chopconf: match registers.chopconf {
            Some(image) => {
                let merged = Some(Chopconf { bits: chopconf_merged(image.bits, config) });
                if registers.ihold_irun is Some {
                    chopconf_image_sensed(merged, base, config)
                } else {
                    merged
                }
            },
            None => None,
        },
        slaveconf: match registers.slaveconf {
            Some(image) => Some(Slaveconf { bits: slaveconf_merged(image.bits, config) }),
            None => None,
        },
        factory_conf: match registers.factory_conf {
            Some(image) => Some(FactoryConf { bits: factory_conf_merged(image.bits, config) }),
            None => None,
        },
        ihold_irun: match registers.ihold_irun {
            Some(image) => Some(IholdIrun { bits: ihold_irun_merged(image.bits, base, config) }),
            None => None,
        },
        coolconf: match registers.coolconf {
            Some(image) => Some(Coolconf { bits: coolconf_merged(image.bits, config) }),
            None => None,
        },
        pwmconf: match registers.pwmconf {
            Some(image) => Some(Pwmconf { bits: pwmconf_merged(image.bits, config) }),
            None => None,
        },
        tpowerdown: match registers.tpowerdown {
            Some(image) => Some(Tpowerdown { bits: tpowerdown_merged(image.bits, config) }),
            None => None,
        },
        tpwmthrs: match registers.tpwmthrs {
            Some(image) => Some(Tpwmthrs { bits: tpwmthrs_merged(image.bits, config) }),
            None => None,
        },
        sgthrs: match registers.sgthrs {
            Some(image) => Some(Sgthrs { bits: sgthrs_merged(image.bits, config) }),
            None => None,
        },
        tcoolthrs: match registers.tcoolthrs {
            Some(image) => Some(Tcoolthrs { bits: tcoolthrs_merged(image.bits, config) }),
            None => None,
        },
    }
}

/// The saved configuration after a change: the fields of every group whose
/// image is present, and of no other group.
pub open spec fn config_saved(
    registers: TMC2209_ConfigRegisters,
    saved: TMC2209_SavedConfig,
    base: TMC2209_BaseConfig,
    config: TMC2209_Config,
) -> TMC2209_SavedConfig {
    let saved = if registers.gconf is Some { gconf_saved(saved, config) } else { saved };
    let saved = if registers.chopconf is Some { chopconf_saved(saved, config) } else { saved };
    let saved = if registers.ihold_irun is Some {
        ihold_irun_saved(saved, base, config)
    } else {
        saved
    };
    let saved = if registers.slaveconf is Some { slaveconf_saved(saved, config) } else { saved };
    let saved = if registers.factory_conf is Some {
        factory_conf_saved(saved, config)
    } else {
        saved
    };
    let saved = if registers.coolconf is Some { coolconf_saved(saved, config) } else { saved };
    let saved = if registers.pwmconf is Some { pwmconf_saved(saved, config) } else { saved };
    let saved = if registers.tpowerdown is Some { tpowerdown_saved(saved, config) } else { saved };
    let saved = if registers.tpwmthrs is Some { tpwmthrs_saved(saved, config) } else { saved };
    let saved = if registers.sgthrs is Some { sgthrs_saved(saved, config) } else { saved };
    if registers.tcoolthrs is Some {
        tcoolthrs_saved(saved, config)
    } else {
        saved
    }
}

/// Whether every value that a change sets fits the field it goes into. A
/// value that does not fit loses its high bits on the way into the register
/// and is saved as it was given.
pub open spec fn fits_fields(config: TMC2209_Config) -> bool {
    &&& config.toff matches Some(value) ==> value < 16
    &&& config.hysteresis_start matches Some(value) ==> value < 8
    &&& config.hysteresis_end matches Some(value) ==> value < 16
    &&& config.blank_time matches Some(value) ==> value < 4
    &&& config.ihold_delay matches Some(value) ==> value < 16
    &&& config.senddelay matches Some(value) ==> value < 16
    &&& config.fclktrim matches Some(value) ==> value < 32
    &&& config.ottrim matches Some(value) ==> value < 4
    &&& config.semin matches Some(value) ==> value < 16
    &&& config.seup matches Some(value) ==> value < 4
    &&& config.semax matches Some(value) ==> value < 16
    &&& config.sedn matches Some(value) ==> value < 4
    &&& config.pwm_freq matches Some(value) ==> value < 4
    &&& config.freewheel matches Some(value) ==> value < 4
    &&& config.pwm_reg matches Some(value) ==> value < 16
    &&& config.pwm_lim matches Some(value) ==> value < 16
    &&& config.tpwmthrs matches Some(value) ==> value < 0x10_0000
    &&& config.tcoolthrs matches Some(value) ==> value < 0x10_0000
}

impl TMC2209_Config {
    /// Whether every value that this change sets fits the field it goes
    /// into.
    pub fn fits_fields(&self) -> (fits: bool)
        ensures
            fits == fits_fields(*self),
    {
        let chopconf = fits_u32(self.toff, 16) && fits_u32(self.hysteresis_start, 8)
            && fits_u32(self.hysteresis_end, 16) && fits_u32(self.blank_time, 4);
        let coolconf = fits_u16(self.semin, 16) && fits_u16(self.seup, 4)
            && fits_u16(self.semax, 16) && fits_u16(self.sedn, 4);
        let pwmconf = fits_u8(self.pwm_freq, 4) && fits_u8(self.freewheel, 4)
            && fits_u8(self.pwm_reg, 16) && fits_u8(self.pwm_lim, 16);
        let others = fits_u8(self.ihold_delay, 16) && fits_u8(self.senddelay, 16)
            && fits_u8(self.fclktrim, 32) && fits_u8(self.ottrim, 4)
            && fits_u32(self.tpwmthrs, 0x10_0000) && fits_u32(self.tcoolthrs, 0x10_0000);
        chopconf && coolconf && pwmconf && others
    }
}

/// Whether the requested value, if there is one, is below `limit`.
fn fits_u32(requested: Option<u32>, limit: u32) -> (fits: bool)
    ensures
        fits == (requested matches Some(value) ==> value < limit),
{
    match requested {
        Some(value) => value < limit,
        None => true,
    }
}

/// As [`fits_u32`], for a 16-bit value.
fn fits_u16(requested: Option<u16>, limit: u16) -> (fits: bool)
    ensures
        fits == (requested matches Some(value) ==> value < limit),
{
    match requested {
        Some(value) => value < limit,
        None => true,
    }
}

/// As [`fits_u32`], for an 8-bit value.
fn fits_u8(requested: Option<u8>, limit: u8) -> (fits: bool)
    ensures
        fits == (requested matches Some(value) ==> value < limit),
{
    match requested {
        Some(value) => value < limit,
        None => true,
    }
}

/// The requested value where there is one, the current value otherwise.
fn pick<T: Copy>(requested: Option<T>, current: T) -> (value: T)
    ensures
        value == keep(requested, current),
{
    match requested {
        Some(value) => value,
        None => current,
    }
}

/// Merges a change into the images of one synchronization, into the base
/// configuration and into `save_config_to`.
///
/// The base configuration takes its fields first, so that the current is
/// converted with the sense resistor and hold multiplier of this change.
/// CHOPCONF takes its own fields before the requested current decides its
/// sensitivity range, in the same image.
#[verifier::rlimit(30)]
pub fn process_reg_config(
    mutable_previous_regs: &mut TMC2209_ConfigRegisters,
    config: &TMC2209_Config,
    driver_base_config: &mut TMC2209_BaseConfig,
    save_config_to: &mut TMC2209_SavedConfig,
)
    ensures
        *final(driver_base_config) == base_config_merged(*old(driver_base_config), *config),
        *final(mutable_previous_regs) == registers_merged(
            *old(mutable_previous_regs),
            *final(driver_base_config),
            *config,
        ),
        *final(save_config_to) == config_saved(
            *old(mutable_previous_regs),
            *old(save_config_to),
            *final(driver_base_config),
            *config,
        ),
{
    process_driver_base_config(driver_base_config, config);
    let base = *driver_base_config;
    let previous = *mutable_previous_regs;
    let mut saved = *save_config_to;

    let mut gconf = previous.gconf;
    if let Some(mut image) = gconf {
        process_gconf(&mut image, config, &mut saved);
        gconf = Some(image);
    }
    let mut chopconf = previous.chopconf;
    if let Some(mut image) = chopconf {
        process_chopconf(&mut image, config, &mut saved);
        chopconf = Some(image);
    }
    let mut ihold_irun = previous.ihold_irun;
    if let Some(mut image) = ihold_irun {
        process_ihold_irun(&mut image, &mut chopconf, &base, config, &mut saved);
        ihold_irun = Some(image);
    }
    let mut slaveconf = previous.slaveconf;
    if let Some(mut image) = slaveconf {
        process_slaveconf(&mut image, config, &mut saved);
        slaveconf = Some(image);
    }
    let mut factory_conf = previous.factory_conf;
    if let Some(mut image) = factory_conf {
        process_factoryconf(&mut image, config, &mut saved);
        factory_conf = Some(image);
    }
    let mut coolconf = previous.coolconf;
    if let Some(mut image) = coolconf {
        process_coolconf(&mut image, config, &mut saved);
        coolconf = Some(image);
    }
    let mut pwmconf = previous.pwmconf;
    if let Some(mut image) = pwmconf {
        process_pwmconf(&mut image, config, &mut saved);
        pwmconf = Some(image);
    }
    let mut tpowerdown = previous.tpowerdown;
    if let Some(mut image) = tpowerdown {
        process_tpowerdown(&mut image, config, &mut saved);
        tpowerdown = Some(image);
    }
    let mut tpwmthrs = previous.tpwmthrs;
    if let Some(mut image) = tpwmthrs {
        process_tpwmthrs(&mut image, config, &mut saved);
        tpwmthrs = Some(image);
    }
    let mut sgthrs = previous.sgthrs;
    if let Some(mut image) = sgthrs {
        process_sgthrs(&mut image, config, &mut saved);
        sgthrs = Some(image);
    }
    let mut tcoolthrs = previous.tcoolthrs;
    if let Some(mut image) = tcoolthrs {
        process_tcoolthrs(&mut image, config, &mut saved);
        tcoolthrs = Some(image);
    }

    *mutable_previous_regs = TMC2209_ConfigRegisters {
        gconf,
        chopconf,
        slaveconf,
        factory_conf,
        ihold_irun,
        coolconf,
        pwmconf,
        tpowerdown,
        tpwmthrs,
        sgthrs,
        tcoolthrs,
    };
    *save_config_to = saved;
}

/// Takes the address, hold multiplier and sense resistor of a change.
pub fn process_driver_base_config(
    driver_base_config: &mut TMC2209_BaseConfig,
    config: &TMC2209_Config,
)
    ensures
        *final(driver_base_config) == base_config_merged(*old(driver_base_config), *config),
{
    *driver_base_config = TMC2209_BaseConfig {
        uart_address: pick(config.uart_address, driver_base_config.uart_address),
        r_sense: pick(config.r_sense, driver_base_config.r_sense),
        ihold_multiplier: pick(config.ihold_multiplier, driver_base_config.ihold_multiplier),
    };
}

/// `image` with the GCONF fields of `config`.
fn merge_gconf(image: Gconf, config: &TMC2209_Config) -> (merged: Gconf)
    ensures
        merged.bits == gconf_merged(image.bits, *config),
{
    let mut image = image;
    if let Some(i_scale_analog) = config.i_scale_analog {
        image.set_i_scale_analog(i_scale_analog);
    }
    if let Some(internal_rsense) = config.internal_rsense {
        image.set_internal_rsense(internal_rsense);
    }
    if let Some(en_spreadcycle) = config.en_spreadcycle {
        image.set_en_spread_cycle(en_spreadcycle);
    }
    if let Some(index_otpw) = config.index_otpw {
        image.set_index_otpw(index_otpw);
    }
    if let Some(index_step) = config.index_step {
        image.set_index_step(index_step);
    }
    if let Some(pdn_disable) = config.pdn_disable {
        image.set_pdn_disable(pdn_disable);
    }
    if let Some(mstep_reg_select) = config.mstep_reg_select {
        image.set_mstep_reg_select(mstep_reg_select);
    }
    if let Some(multistep_filt) = config.multistep_filt {
        image.set_multistep_filt(multistep_filt);
    }
    if let Some(shaft) = config.shaft {
        image.set_shaft(shaft);
    }
    image
}

/// The saved configuration with the GCONF fields of `config`.
fn save_gconf(saved: &TMC2209_SavedConfig, config: &TMC2209_Config) -> (out: TMC2209_SavedConfig)
    ensures
        out == gconf_saved(*saved, *config),
{
    TMC2209_SavedConfig {
        i_scale_analog: pick(config.i_scale_analog, saved.i_scale_analog),
        internal_rsense: pick(config.internal_rsense, saved.internal_rsense),
        en_spreadcycle: pick(config.en_spreadcycle, saved.en_spreadcycle),
        index_otpw: pick(config.index_otpw, saved.index_otpw),
        index_step: pick(config.index_step, saved.index_step),
        pdn_disable: pick(config.pdn_disable, saved.pdn_disable),
        mstep_reg_select: pick(config.mstep_reg_select, saved.mstep_reg_select),
        multistep_filt: pick(config.multistep_filt, saved.multistep_filt),
        shaft: pick(config.shaft, saved.shaft),
        ..*saved
    }
}

pub fn process_gconf(
    gconf: &mut Gconf,
    config: &TMC2209_Config,
    save_config_to: &mut TMC2209_SavedConfig,
)
    ensures
        final(gconf).bits == gconf_merged(old(gconf).bits, *config),
        *final(save_config_to) == gconf_saved(*old(save_config_to), *config),
{
    *gconf = merge_gconf(*gconf, config);
    *save_config_to = save_gconf(save_config_to, config);
}

/// `image` with the CHOPCONF fields of `config`.
fn merge_chopconf(image: Chopconf, config: &TMC2209_Config) -> (merged: Chopconf)
    ensures
        merged.bits == chopconf_merged(image.bits, *config),
{
    let mut image = image;
    if let Some(dedge) = config.dedge {
        image.set_dedge(dedge);
    }
    if let Some(diss2g) = config.diss2g {
        image.set_diss2g(diss2g);
    }
    if let Some(diss2vs) = config.diss2vs {
        image.set_diss2vs(diss2vs);
    }
    if let Some(hysteresis_end) = config.hysteresis_end {
        image.set_hend(hysteresis_end);
    }
    if let Some(hysteresis_start) = config.hysteresis_start {
        image.set_hstrt(hysteresis_start);
    }
    if let Some(interpolation) = config.interpolation {
        image.set_intpol(interpolation);
    }
    if let Some(microsteps) = config.microsteps {
        image.set_mres(microsteps_to_mres(microsteps));
    }
    if let Some(blank_time) = config.blank_time {
        image.set_tbl(blank_time);
    }
    if let Some(toff) = config.toff {
        image.set_toff(toff);
    }
    if let Some(vsense) = config.vsense {
        image.set_vsense(vsense);
    }
    image
}

/// The saved configuration with the CHOPCONF fields of `config`.
fn save_chopconf(saved: &TMC2209_SavedConfig, config: &TMC2209_Config) -> (out: TMC2209_SavedConfig)
    ensures
        out == chopconf_saved(*saved, *config),
{
    let microsteps = match config.microsteps {
        Some(microsteps) => Some(mres_to_microsteps(microsteps_to_mres(microsteps))),
        None => None,
    };
    TMC2209_SavedConfig {
        dedge: pick(config.dedge, saved.dedge),
        diss2g: pick(config.diss2g, saved.diss2g),
        diss2vs: pick(config.diss2vs, saved.diss2vs),
        hysteresis_end: pick(config.hysteresis_end, saved.hysteresis_end),
        hysteresis_start: pick(config.hysteresis_start, saved.hysteresis_start),
        interpolation: pick(config.interpolation, saved.interpolation),
        microsteps: pick(microsteps, saved.microsteps),
        blank_time: pick(config.blank_time, saved.blank_time),
        toff: pick(config.toff, saved.toff),
        vsense: pick(config.vsense, saved.vsense),
        ..*saved
    }
}

pub fn process_chopconf(
    chopconf: &mut Chopconf,
    config: &TMC2209_Config,
    save_config_to: &mut TMC2209_SavedConfig,
)
    ensures
        final(chopconf).bits == chopconf_merged(old(chopconf).bits, *config),
        *final(save_config_to) == chopconf_saved(*old(save_config_to), *config),
{
    *chopconf = merge_chopconf(*chopconf, config);
    *save_config_to = save_chopconf(save_config_to, config);
}

/// Sets run and hold current and the hold delay. `driver_base_config` must
/// already hold the sense resistor and hold multiplier of this change.
///
/// The requested current also decides the sensitivity range, a bit of
/// CHOPCONF: it goes into `chopconf` where that image is present, the very
/// image that is written back later. It is not saved: `save_config_to`
/// keeps the range that a change has set by name.
pub fn process_ihold_irun(
    ihold_irun: &mut IholdIrun,
    chopconf: &mut Option<Chopconf>,
    driver_base_config: &TMC2209_BaseConfig,
    config: &TMC2209_Config,
    save_config_to: &mut TMC2209_SavedConfig,
)
    ensures
        final(ihold_irun).bits == ihold_irun_merged(
            old(ihold_irun).bits,
            *driver_base_config,
            *config,
        ),
        *final(chopconf) == chopconf_image_sensed(*old(chopconf), *driver_base_config, *config),
        *final(save_config_to) == ihold_irun_saved(
            *old(save_config_to),
            *driver_base_config,
            *config,
        ),
{
    let codes = match config.rms_current {
        Some(rms_current) => Some(
            rms_current_to_ihold_irun_vsense(
                rms_current,
                driver_base_config.r_sense,
                driver_base_config.ihold_multiplier,
            ),
        ),
        None => None,
    };
    let mut image = *ihold_irun;
    let mut rms_current = save_config_to.rms_current;
    if let Some(codes) = codes {
        image.set_ihold(codes.ihold);
        image.set_irun(codes.irun);
        if let Some(mut sensed) = *chopconf {
            sensed.set_vsense(codes.vsense);
            *chopconf = Some(sensed);
        }
        rms_current = irun_to_rms_current(codes.irun, codes.vsense, driver_base_config.r_sense);
    }
    if let Some(ihold_delay) = config.ihold_delay {
        image.set_ihold_delay(ihold_delay);
    }
    *ihold_irun = image;
    *save_config_to = TMC2209_SavedConfig {
        rms_current,
        ihold_delay: pick(config.ihold_delay, save_config_to.ihold_delay),
        ..*save_config_to
    };
}

pub fn process_slaveconf(
    slaveconf: &mut Slaveconf,
    config: &TMC2209_Config,
    save_config_to: &mut TMC2209_SavedConfig,
)
    ensures
        final(slaveconf).bits == slaveconf_merged(old(slaveconf).bits, *config),
        *final(save_config_to) == slaveconf_saved(*old(save_config_to), *config),
{
    let mut image = *slaveconf;
    if let Some(senddelay) = config.senddelay {
        image.set(senddelay);
    }
    *slaveconf = image;
    *save_config_to = TMC2209_SavedConfig {
        senddelay: pick(config.senddelay, save_config_to.senddelay),
        ..*save_config_to
    };
}

pub fn process_factoryconf(
    factoryconf: &mut FactoryConf,
    config: &TMC2209_Config,
    save_config_to: &mut TMC2209_SavedConfig,
)
    ensures
        final(factoryconf).bits == factory_conf_merged(old(factoryconf).bits, *config),
        *final(save_config_to) == factory_conf_saved(*old(save_config_to), *config),
{
    let mut image = *factoryconf;
    if let Some(fclktrim) = config.fclktrim {
        image.set_fclktrim(fclktrim);
    }
    if let Some(ottrim) = config.ottrim {
        image.set_ottrim(ottrim);
    }
    *factoryconf = image;
    *save_config_to = TMC2209_SavedConfig {
        fclktrim: pick(config.fclktrim, save_config_to.fclktrim),
        ottrim: pick(config.ottrim, save_config_to.ottrim),
        ..*save_config_to
    };
}

/// `image` with the COOLCONF fields of `config`.
fn merge_coolconf(image: Coolconf, config: &TMC2209_Config) -> (merged: Coolconf)
    ensures
        merged.bits == coolconf_merged(image.bits, *config),
{
    let mut image = image;
    if let Some(sedn) = config.sedn {
        image.set_sedn(sedn);
    }
    if let Some(semin) = config.semin {
        image.set_semin(semin);
    }
    if let Some(seup) = config.seup {
        image.set_seup(seup);
    }
    if let Some(seimin) = config.seimin {
        image.set_seimin(seimin);
    }
    if let Some(semax) = config.semax {
        image.set_semax(semax);
    }
    image
}

/// The saved configuration with the COOLCONF fields of `config`.
fn save_coolconf(saved: &TMC2209_SavedConfig, config: &TMC2209_Config) -> (out: TMC2209_SavedConfig)
    ensures
        out == coolconf_saved(*saved, *config),
{
    TMC2209_SavedConfig {
        sedn: pick(config.sedn, saved.sedn),
        semin: pick(config.semin, saved.semin),
        seup: pick(config.seup, saved.seup),
        seimin: pick(config.seimin, saved.seimin),
        semax: pick(config.semax, saved.semax),
        ..*saved
    }
}

pub fn process_coolconf(
    coolconf: &mut Coolconf,
    config: &TMC2209_Config,
    save_config_to: &mut TMC2209_SavedConfig,
)
    ensures
        final(coolconf).bits == coolconf_merged(old(coolconf).bits, *config),
        *final(save_config_to) == coolconf_saved(*old(save_config_to), *config),
{
    *coolconf = merge_coolconf(*coolconf, config);
    *save_config_to = save_coolconf(save_config_to, config);
}

/// `image` with the PWMCONF fields of `config`.
fn merge_pwmconf(image: Pwmconf, config: &TMC2209_Config) -> (merged: Pwmconf)
    ensures
        merged.bits == pwmconf_merged(image.bits, *config),
{
    let mut image = image;
    if let Some(freewheel) = config.freewheel {
        image.set_freewheel(freewheel);
    }
    if let Some(pwm_autoscale) = config.pwm_autoscale {
        image.set_pwm_autoscale(pwm_autoscale);
    }
    if let Some(pwm_autograd) = config.pwm_autograd {
        image.set_pwm_autograd(pwm_autograd);
    }
    if let Some(pwm_freq) = config.pwm_freq {
        image.set_pwm_freq(pwm_freq);
    }
    if let Some(pwm_grad) = config.pwm_grad {
        image.set_pwm_grad(pwm_grad);
    }
    if let Some(pwm_lim) = config.pwm_lim {
        image.set_pwm_lim(pwm_lim);
    }
    if let Some(pwm_ofs) = config.pwm_ofs {
        image.set_pwm_ofs(pwm_ofs);
    }
    if let Some(pwm_reg) = config.pwm_reg {
        image.set_pwm_reg(pwm_reg);
    }
    image
}

/// The saved configuration with the PWMCONF fields of `config`.
fn save_pwmconf(saved: &TMC2209_SavedConfig, config: &TMC2209_Config) -> (out: TMC2209_SavedConfig)
    ensures
        out == pwmconf_saved(*saved, *config),
{
    TMC2209_SavedConfig {
        freewheel: pick(config.freewheel, saved.freewheel),
        pwm_autoscale: pick(config.pwm_autoscale, saved.pwm_autoscale),
        pwm_autograd: pick(config.pwm_autograd, saved.pwm_autograd),
        pwm_freq: pick(config.pwm_freq, saved.pwm_freq),
        pwm_grad: pick(config.pwm_grad, saved.pwm_grad),
        pwm_lim: pick(config.pwm_lim, saved.pwm_lim),
        pwm_ofs: pick(config.pwm_ofs, saved.pwm_ofs),
        pwm_reg: pick(config.pwm_reg, saved.pwm_reg),
        ..*saved
    }
}

pub fn process_pwmconf(
    pwmconf: &mut Pwmconf,
    config: &TMC2209_Config,
    save_config_to: &mut TMC2209_SavedConfig,
)
    ensures
        final(pwmconf).bits == pwmconf_merged(old(pwmconf).bits, *config),
        *final(save_config_to) == pwmconf_saved(*old(save_config_to), *config),
{
    *pwmconf = merge_pwmconf(*pwmconf, config);
    *save_config_to = save_pwmconf(save_config_to, config);
}

pub fn process_tpowerdown(
    tpowerdown: &mut Tpowerdown,
    config: &TMC2209_Config,
    save_config_to: &mut TMC2209_SavedConfig,
)
    ensures
        final(tpowerdown).bits == tpowerdown_merged(old(tpowerdown).bits, *config),
        *final(save_config_to) == tpowerdown_saved(*old(save_config_to), *config),
{
    let mut image = *tpowerdown;
    if let Some(tpowerdown_val) = config.tpowerdown {
        image.set(tpowerdown_val);
    }
    *tpowerdown = image;
    *save_config_to = TMC2209_SavedConfig {
        tpowerdown: pick(config.tpowerdown, save_config_to.tpowerdown),
        ..*save_config_to
    };
}

pub fn process_tpwmthrs(
    tpwmthrs: &mut Tpwmthrs,
    config: &TMC2209_Config,
    save_config_to: &mut TMC2209_SavedConfig,
)
    ensures
        final(tpwmthrs).bits == tpwmthrs_merged(old(tpwmthrs).bits, *config),
        *final(save_config_to) == tpwmthrs_saved(*old(save_config_to), *config),
{
    let mut image = *tpwmthrs;
    if let Some(tpwmthrs_val) = config.tpwmthrs {
        image.set(tpwmthrs_val);
    }
    *tpwmthrs = image;
    *save_config_to = TMC2209_SavedConfig {
        tpwmthrs: pick(config.tpwmthrs, save_config_to.tpwmthrs),
        ..*save_config_to
    };
}

pub fn process_sgthrs(
    sgthrs: &mut Sgthrs,
    config: &TMC2209_Config,
    save_config_to: &mut TMC2209_SavedConfig,
)
    ensures
        final(sgthrs).bits == sgthrs_merged(old(sgthrs).bits, *config),
        *final(save_config_to) == sgthrs_saved(*old(save_config_to), *config),
{
    let mut image = *sgthrs;
    if let Some(sgthrs_val) = config.sgthrs {
        image.set(sgthrs_val);
    }
    *sgthrs = image;
    *save_config_to = TMC2209_SavedConfig {
        sgthrs: pick(config.sgthrs, save_config_to.sgthrs),
        ..*save_config_to
    };
}

pub fn process_tcoolthrs(
    tcoolthrs: &mut Tcoolthrs,
    config: &TMC2209_Config,
    save_config_to: &mut TMC2209_SavedConfig,
)
    ensures
        final(tcoolthrs).bits == tcoolthrs_merged(old(tcoolthrs).bits, *config),
        *final(save_config_to) == tcoolthrs_saved(*old(save_config_to), *config),
{
    let mut image = *tcoolthrs;
    if let Some(tcoolthrs_val) = config.tcoolthrs {
        image.set(tcoolthrs_val);
    }
    *tcoolthrs = image;
    *save_config_to = TMC2209_SavedConfig {
        tcoolthrs: pick(config.tcoolthrs, save_config_to.tcoolthrs),
        ..*save_config_to
    };
}

} // verus!
