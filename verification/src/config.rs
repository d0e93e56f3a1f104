//! The values a caller hands to the driver and the values the driver keeps.
use vstd::prelude::*;

verus! {

/// Values that never travel to the chip but take part in the calculations.
#[derive(Clone, Copy, Debug, PartialEq, Eq)]
pub struct TMC2209_BaseConfig {
    /// Several drivers can share one UART; this one answers to this address (0 to 3).
    pub uart_address: u8,
    /// Sense resistor, in milliohms.
    pub r_sense: u32,
    /// Hold current as a share of the run current, in thousandths.
    pub ihold_multiplier: u16,
}

impl Default for TMC2209_BaseConfig {
    /// Address 0, a 110 milliohm sense resistor, hold current at half the run current.
    fn default() -> (base: Self)
        ensures
            base == (TMC2209_BaseConfig { uart_address: 0, r_sense: 110, ihold_multiplier: 500 }),
    {
        TMC2209_BaseConfig { uart_address: 0, r_sense: 110, ihold_multiplier: 500 }
    }
}

/// A sparse set of requested changes: `None` leaves a setting as it is.
#[derive(Clone, Copy, Debug, PartialEq, Eq)]
pub struct TMC2209_Config {
    pub uart_address: Option<u8>,
    /// Sense resistor, in milliohms.
    pub r_sense: Option<u32>,
    /// Target RMS run current, in milliamperes.
    pub rms_current: Option<u16>,
    /// Hold current as a share of the run current, in thousandths.
    pub ihold_multiplier: Option<u16>,
    pub ihold_delay: Option<u8>,
    pub microsteps: Option<u32>,
    pub interpolation: Option<bool>,
    pub blank_time: Option<u32>,
    pub hysteresis_end: Option<u32>,
    pub hysteresis_start: Option<u32>,
    pub tpowerdown: Option<u32>,
    pub tpwmthrs: Option<u32>,
    pub sgthrs: Option<u32>,
    pub tcoolthrs: Option<u32>,
    pub en_spreadcycle: Option<bool>,
    pub pdn_disable: Option<bool>,
    pub pwm_ofs: Option<u8>,
    pub pwm_grad: Option<u8>,
    pub pwm_freq: Option<u8>,
    pub pwm_autoscale: Option<bool>,
    pub pwm_autograd: Option<bool>,
    pub pwm_reg: Option<u8>,
    pub pwm_lim: Option<u8>,
    pub freewheel: Option<u8>,
    pub internal_rsense: Option<bool>,
    pub i_scale_analog: Option<bool>,
    pub mstep_reg_select: Option<bool>,
    pub multistep_filt: Option<bool>,
    pub index_otpw: Option<bool>,
    pub index_step: Option<bool>,
    pub senddelay: Option<u8>,
    pub semin: Option<u16>,
    pub seup: Option<u16>,
    pub semax: Option<u16>,
    pub sedn: Option<u16>,
    pub seimin: Option<bool>,
    pub toff: Option<u32>,
    pub vsense: Option<bool>,
    pub dedge: Option<bool>,
    pub diss2g: Option<bool>,
    pub diss2vs: Option<bool>,
    pub fclktrim: Option<u8>,
    pub ottrim: Option<u8>,
    pub shaft: Option<bool>,
}

impl TMC2209_Config {
    /// The change that changes nothing.
    pub open spec fn empty() -> Self {
        TMC2209_Config {
            uart_address: None,
            r_sense: None,
            rms_current: None,
            ihold_multiplier: None,
            ihold_delay: None,
            microsteps: None,
            interpolation: None,
            blank_time: None,
            hysteresis_end: None,
            hysteresis_start: None,
            tpowerdown: None,
            tpwmthrs: None,
            sgthrs: None,
            tcoolthrs: None,
            en_spreadcycle: None,
            pdn_disable: None,
            pwm_ofs: None,
            pwm_grad: None,
            pwm_freq: None,
            pwm_autoscale: None,
            pwm_autograd: None,
            pwm_reg: None,
            pwm_lim: None,
            freewheel: None,
            internal_rsense: None,
            i_scale_analog: None,
            mstep_reg_select: None,
            multistep_filt: None,
            index_otpw: None,
            index_step: None,
            senddelay: None,
            semin: None,
            seup: None,
            semax: None,
            sedn: None,
            seimin: None,
            toff: None,
            vsense: None,
            dedge: None,
            diss2g: None,
            diss2vs: None,
            fclktrim: None,
            ottrim: None,
            shaft: None,
        }
    }
}

impl Default for TMC2209_Config {
    fn default() -> (config: Self)
        ensures
            config == TMC2209_Config::empty(),
    {
        TMC2209_Config {
            uart_address: None,
            r_sense: None,
            rms_current: None,
            ihold_multiplier: None,
            ihold_delay: None,
            microsteps: None,
            interpolation: None,
            blank_time: None,
            hysteresis_end: None,
            hysteresis_start: None,
            tpowerdown: None,
            tpwmthrs: None,
            sgthrs: None,
            tcoolthrs: None,
            en_spreadcycle: None,
            pdn_disable: None,
            pwm_ofs: None,
            pwm_grad: None,
            pwm_freq: None,
            pwm_autoscale: None,
            pwm_autograd: None,
            pwm_reg: None,
            pwm_lim: None,
            freewheel: None,
            internal_rsense: None,
            i_scale_analog: None,
            mstep_reg_select: None,
            multistep_filt: None,
            index_otpw: None,
            index_step: None,
            senddelay: None,
            semin: None,
            seup: None,
            semax: None,
            sedn: None,
            seimin: None,
            toff: None,
            vsense: None,
            dedge: None,
            diss2g: None,
            diss2vs: None,
            fclktrim: None,
            ottrim: None,
            shaft: None,
        }
    }
}

/// What the chip answers when its readable configuration registers are read.
#[derive(Clone, Copy, Debug, PartialEq, Eq)]
pub struct TMC2209_DebugConfig {
    pub microsteps: u32,
    pub interpolation: bool,
    pub blank_time: u32,
    pub hysteresis_end: u32,
    pub hysteresis_start: u32,
    pub en_spreadcycle: bool,
    pub pdn_disable: bool,
    pub pwm_ofs: u8,
    pub pwm_grad: u8,
    pub pwm_freq: u8,
    pub pwm_autoscale: bool,
    pub pwm_autograd: bool,
    pub pwm_reg: u8,
    pub pwm_lim: u8,
    pub freewheel: u8,
    pub internal_rsense: bool,
    pub i_scale_analog: bool,
    pub mstep_reg_select: bool,
    pub multistep_filt: bool,
    pub index_otpw: bool,
    pub index_step: bool,
    pub toff: u32,
    pub vsense: bool,
    pub dedge: bool,
    pub diss2g: bool,
    pub diss2vs: bool,
    pub fclktrim: u8,
    pub ottrim: u8,
    pub shaft: bool,
}

/// The driver's record of every setting it has sent to the chip.
///
/// The three values of [`TMC2209_BaseConfig`] are kept there, not here.
#[derive(Clone, Copy, Debug, PartialEq, Eq)]
pub struct TMC2209_SavedConfig {
    /// RMS run current, in milliamperes, as the written run code reads back.
    pub rms_current: u16,
    pub ihold_delay: u8,
    pub microsteps: u32,
    pub interpolation: bool,
    pub blank_time: u32,
    pub hysteresis_end: u32,
    pub hysteresis_start: u32,
    pub tpowerdown: u32,
    pub tpwmthrs: u32,
    pub sgthrs: u32,
    pub tcoolthrs: u32,
    pub en_spreadcycle: bool,
    pub pdn_disable: bool,
    pub pwm_ofs: u8,
    pub pwm_grad: u8,
    pub pwm_freq: u8,
    pub pwm_autoscale: bool,
    pub pwm_autograd: bool,
    pub pwm_reg: u8,
    pub pwm_lim: u8,
    pub freewheel: u8,
    pub internal_rsense: bool,
    pub i_scale_analog: bool,
    pub mstep_reg_select: bool,
    pub multistep_filt: bool,
    pub index_otpw: bool,
    pub index_step: bool,
    pub senddelay: u8,
    pub semin: u16,
    pub seup: u16,
    pub semax: u16,
    pub sedn: u16,
    pub seimin: bool,
    pub toff: u32,
    pub vsense: bool,
    pub dedge: bool,
    pub diss2g: bool,
    pub diss2vs: bool,
    pub fclktrim: u8,
    pub ottrim: u8,
    pub shaft: bool,
}

impl TMC2209_SavedConfig {
    /// The settings of a chip fresh from power-on reset, with the current
    /// that run code 31 stands for at a 110 milliohm sense resistor.
    pub open spec fn reset() -> Self {
        TMC2209_SavedConfig {
            rms_current: 1767,
            ihold_delay: 0,
            microsteps: 256,
            interpolation: true,
            blank_time: 0,
            hysteresis_end: 0,
            hysteresis_start: 5,
            tpowerdown: 20,
            tpwmthrs: 0,
            sgthrs: 0,
            tcoolthrs: 0,
            en_spreadcycle: false,
            pdn_disable: true,
            pwm_ofs: 36,
            pwm_grad: 0,
            pwm_freq: 1,
            pwm_autoscale: true,
            pwm_autograd: true,
            pwm_reg: 1,
            pwm_lim: 12,
            freewheel: 0,
            internal_rsense: false,
            i_scale_analog: true,
            mstep_reg_select: false,
            multistep_filt: false,
            index_otpw: false,
            index_step: false,
            senddelay: 0,
            semin: 0,
            seup: 0,
            semax: 0,
            sedn: 0,
            seimin: false,
            toff: 3,
            vsense: false,
            dedge: false,
            diss2g: false,
            diss2vs: false,
            fclktrim: 0,
            ottrim: 0,
            shaft: false,
        }
    }

    /// The saved configuration of a driver that has sent nothing yet: it
    /// takes the chip to be fresh from reset.
    pub fn new() -> (saved: Self)
        ensures
            saved == Self::reset(),
    {
        TMC2209_SavedConfig {
            rms_current: 1767,
            ihold_delay: 0,
            microsteps: 256,
            interpolation: true,
            blank_time: 0,
            hysteresis_end: 0,
            hysteresis_start: 5,
            tpowerdown: 20,
            tpwmthrs: 0,
            sgthrs: 0,
            tcoolthrs: 0,
            en_spreadcycle: false,
            pdn_disable: true,
            pwm_ofs: 36,
            pwm_grad: 0,
            pwm_freq: 1,
            pwm_autoscale: true,
            pwm_autograd: true,
            pwm_reg: 1,
            pwm_lim: 12,
            freewheel: 0,
            internal_rsense: false,
            i_scale_analog: true,
            mstep_reg_select: false,
            multistep_filt: false,
            index_otpw: false,
            index_step: false,
            senddelay: 0,
            semin: 0,
            seup: 0,
            semax: 0,
            sedn: 0,
            seimin: false,
            toff: 3,
            vsense: false,
            dedge: false,
            diss2g: false,
            diss2vs: false,
            fclktrim: 0,
            ottrim: 0,
            shaft: false,
        }
    }

    /// The saved configuration that holds what was read from the chip, and
    /// the reset value of every setting that cannot be read.
    pub open spec fn from_debug_config(debug_config: TMC2209_DebugConfig) -> Self {
        TMC2209_SavedConfig {
            microsteps: debug_config.microsteps,
            interpolation: debug_config.interpolation,
            blank_time: debug_config.blank_time,
            hysteresis_end: debug_config.hysteresis_end,
            hysteresis_start: debug_config.hysteresis_start,
            en_spreadcycle: debug_config.en_spreadcycle,
            pdn_disable: debug_config.pdn_disable,
            pwm_ofs: debug_config.pwm_ofs,
            pwm_grad: debug_config.pwm_grad,
            pwm_freq: debug_config.pwm_freq,
            pwm_autoscale: debug_config.pwm_autoscale,
            pwm_autograd: debug_config.pwm_autograd,
            pwm_reg: debug_config.pwm_reg,
            pwm_lim: debug_config.pwm_lim,
            freewheel: debug_config.freewheel,
            internal_rsense: debug_config.internal_rsense,
            i_scale_analog: debug_config.i_scale_analog,
            mstep_reg_select: debug_config.mstep_reg_select,
            multistep_filt: debug_config.multistep_filt,
            index_otpw: debug_config.index_otpw,
            index_step: debug_config.index_step,
            toff: debug_config.toff,
            vsense: debug_config.vsense,
            dedge: debug_config.dedge,
            diss2g: debug_config.diss2g,
            diss2vs: debug_config.diss2vs,
            fclktrim: debug_config.fclktrim,
            ottrim: debug_config.ottrim,
            shaft: debug_config.shaft,
            ..Self::reset()
        }
    }

    pub fn new_from_debug_config(debug_config: &TMC2209_DebugConfig) -> (saved: Self)
        ensures
            saved == Self::from_debug_config(*debug_config),
    {
        TMC2209_SavedConfig {
            microsteps: debug_config.microsteps,
            interpolation: debug_config.interpolation,
            blank_time: debug_config.blank_time,
            hysteresis_end: debug_config.hysteresis_end,
            hysteresis_start: debug_config.hysteresis_start,
            en_spreadcycle: debug_config.en_spreadcycle,
            pdn_disable: debug_config.pdn_disable,
            pwm_ofs: debug_config.pwm_ofs,
            pwm_grad: debug_config.pwm_grad,
            pwm_freq: debug_config.pwm_freq,
            pwm_autoscale: debug_config.pwm_autoscale,
            pwm_autograd: debug_config.pwm_autograd,
            pwm_reg: debug_config.pwm_reg,
            pwm_lim: debug_config.pwm_lim,
            freewheel: debug_config.freewheel,
            internal_rsense: debug_config.internal_rsense,
            i_scale_analog: debug_config.i_scale_analog,
            mstep_reg_select: debug_config.mstep_reg_select,
            multistep_filt: debug_config.multistep_filt,
            index_otpw: debug_config.index_otpw,
            index_step: debug_config.index_step,
            toff: debug_config.toff,
            vsense: debug_config.vsense,
            dedge: debug_config.dedge,
            diss2g: debug_config.diss2g,
            diss2vs: debug_config.diss2vs,
            fclktrim: debug_config.fclktrim,
            ottrim: debug_config.ottrim,
            shaft: debug_config.shaft,
            ..TMC2209_SavedConfig::new()
        }
    }
}

} // verus!
