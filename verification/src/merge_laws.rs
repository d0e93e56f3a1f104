//! What a merge does to each field of a register, and what merging twice
//! comes to.
use vstd::prelude::*;
use crate::bits::{
    field_mask, flag, get_field, lemma_field_rules, lemma_set_again_rules, with_flag,
};
use crate::config::{TMC2209_BaseConfig, TMC2209_Config, TMC2209_DebugConfig, TMC2209_SavedConfig};
use crate::config_read_write_methods::debug_config_of;
use crate::reg_processor::{
    chopconf_merged, chopconf_saved, chopconf_sensed, config_saved, coolconf_merged,
    coolconf_saved, factory_conf_merged, factory_conf_saved, fits_fields, gconf_merged,
    gconf_saved, ihold_irun_merged, ihold_irun_saved, keep, pwmconf_merged, pwmconf_saved,
    requested_current, requested_ihold, requested_irun, requested_microsteps, requested_mres,
    requested_sensitivity, sgthrs_saved, slaveconf_merged, slaveconf_saved, tcoolthrs_merged,
    tcoolthrs_saved, tpowerdown_saved, tpwmthrs_merged, tpwmthrs_saved,
};
use crate::registers_collection::TMC2209_ConfigRegisters;
use crate::registers::{
    CHOPCONF_DEDGE, CHOPCONF_DISS2G, CHOPCONF_DISS2VS, CHOPCONF_HEND_LSB, CHOPCONF_HEND_WIDTH,
    CHOPCONF_HSTRT_LSB, CHOPCONF_HSTRT_WIDTH, CHOPCONF_INTPOL, CHOPCONF_MRES_LSB,
    CHOPCONF_MRES_WIDTH, CHOPCONF_TBL_LSB, CHOPCONF_TBL_WIDTH, CHOPCONF_TOFF_LSB,
    CHOPCONF_TOFF_WIDTH, CHOPCONF_VSENSE, COOLCONF_SEDN_LSB, COOLCONF_SEDN_WIDTH,
    COOLCONF_SEIMIN, COOLCONF_SEMAX_LSB, COOLCONF_SEMAX_WIDTH, COOLCONF_SEMIN_LSB,
    COOLCONF_SEMIN_WIDTH, COOLCONF_SEUP_LSB, COOLCONF_SEUP_WIDTH, FACTORY_CONF_FCLKTRIM_LSB,
    FACTORY_CONF_FCLKTRIM_WIDTH, FACTORY_CONF_OTTRIM_LSB, FACTORY_CONF_OTTRIM_WIDTH,
    GCONF_EN_SPREAD_CYCLE, GCONF_INDEX_OTPW, GCONF_INDEX_STEP, GCONF_INTERNAL_RSENSE,
    GCONF_I_SCALE_ANALOG, GCONF_MSTEP_REG_SELECT, GCONF_MULTISTEP_FILT, GCONF_PDN_DISABLE,
    GCONF_SHAFT, IHOLD_IRUN_IHOLD_DELAY_LSB, IHOLD_IRUN_IHOLD_DELAY_WIDTH, IHOLD_IRUN_IHOLD_LSB,
    IHOLD_IRUN_IHOLD_WIDTH, IHOLD_IRUN_IRUN_LSB, IHOLD_IRUN_IRUN_WIDTH, PWMCONF_FREEWHEEL_LSB,
    PWMCONF_FREEWHEEL_WIDTH, PWMCONF_PWM_AUTOGRAD, PWMCONF_PWM_AUTOSCALE, PWMCONF_PWM_FREQ_LSB,
    PWMCONF_PWM_FREQ_WIDTH, PWMCONF_PWM_GRAD_LSB, PWMCONF_PWM_GRAD_WIDTH, PWMCONF_PWM_LIM_LSB,
    PWMCONF_PWM_LIM_WIDTH, PWMCONF_PWM_OFS_LSB, PWMCONF_PWM_OFS_WIDTH, PWMCONF_PWM_REG_LSB,
    PWMCONF_PWM_REG_WIDTH, SLAVECONF_SENDDELAY_LSB, SLAVECONF_SENDDELAY_WIDTH,
    TCOOLTHRS_VALUE_LSB, TCOOLTHRS_VALUE_WIDTH, TPWMTHRS_VALUE_LSB, TPWMTHRS_VALUE_WIDTH,
};

verus! {

/// What a field of `width` bits reads as after a change: the low `width`
/// bits of the requested value, or what it read before.
pub open spec fn field_after(requested: Option<u32>, width: u32, current: u32) -> u32 {
    match requested {
        Some(value) => value & field_mask(width),
        None => current,
    }
}

/// A requested 8-bit value as a word.
pub open spec fn widen_u8(requested: Option<u8>) -> Option<u32> {
    match requested {
        Some(value) => Some(value as u32),
        None => None,
    }
}

/// A requested 16-bit value as a word.
pub open spec fn widen_u16(requested: Option<u16>) -> Option<u32> {
    match requested {
        Some(value) => Some(value as u32),
        None => None,
    }
}

/// What every field of GCONF reads as after a change: the low bits of
/// the value that the change sets, or what the field read before; bits that
/// belong to none of the fields stay.
pub proof fn lemma_gconf_fields(bits: u32, config: TMC2209_Config)
    ensures
        flag(gconf_merged(bits, config), GCONF_I_SCALE_ANALOG)
            == keep(config.i_scale_analog, flag(bits, GCONF_I_SCALE_ANALOG)),
        flag(gconf_merged(bits, config), GCONF_INTERNAL_RSENSE)
            == keep(config.internal_rsense, flag(bits, GCONF_INTERNAL_RSENSE)),
        flag(gconf_merged(bits, config), GCONF_EN_SPREAD_CYCLE)
            == keep(config.en_spreadcycle, flag(bits, GCONF_EN_SPREAD_CYCLE)),
        flag(gconf_merged(bits, config), GCONF_SHAFT)
            == keep(config.shaft, flag(bits, GCONF_SHAFT)),
        flag(gconf_merged(bits, config), GCONF_INDEX_OTPW)
            == keep(config.index_otpw, flag(bits, GCONF_INDEX_OTPW)),
        flag(gconf_merged(bits, config), GCONF_INDEX_STEP)
            == keep(config.index_step, flag(bits, GCONF_INDEX_STEP)),
        flag(gconf_merged(bits, config), GCONF_PDN_DISABLE)
            == keep(config.pdn_disable, flag(bits, GCONF_PDN_DISABLE)),
        flag(gconf_merged(bits, config), GCONF_MSTEP_REG_SELECT)
            == keep(config.mstep_reg_select, flag(bits, GCONF_MSTEP_REG_SELECT)),
        flag(gconf_merged(bits, config), GCONF_MULTISTEP_FILT)
            == keep(config.multistep_filt, flag(bits, GCONF_MULTISTEP_FILT)),
        get_field(gconf_merged(bits, config), 9, 23) == get_field(bits, 9, 23),
{
    lemma_field_rules();
}

/// Merging the same change into GCONF a second time changes nothing.
pub proof fn lemma_gconf_merge_twice(bits: u32, config: TMC2209_Config)
    ensures
        gconf_merged(gconf_merged(bits, config), config) == gconf_merged(bits, config),
{
    lemma_gconf_fields(bits, config);
    lemma_set_again_rules();
}

/// What every field of CHOPCONF reads as after a change: the low bits of
/// the value that the change sets, or what the field read before; bits that
/// belong to none of the fields stay.
#[verifier::rlimit(30)]
pub proof fn lemma_chopconf_fields(bits: u32, config: TMC2209_Config)
    ensures
        get_field(chopconf_merged(bits, config), CHOPCONF_TOFF_LSB, CHOPCONF_TOFF_WIDTH)
            == field_after(
                config.toff,
                CHOPCONF_TOFF_WIDTH,
                get_field(bits, CHOPCONF_TOFF_LSB, CHOPCONF_TOFF_WIDTH),
            ),
        get_field(chopconf_merged(bits, config), CHOPCONF_HSTRT_LSB, CHOPCONF_HSTRT_WIDTH)
            == field_after(
                config.hysteresis_start,
                CHOPCONF_HSTRT_WIDTH,
                get_field(bits, CHOPCONF_HSTRT_LSB, CHOPCONF_HSTRT_WIDTH),
            ),
        get_field(chopconf_merged(bits, config), CHOPCONF_HEND_LSB, CHOPCONF_HEND_WIDTH)
            == field_after(
                config.hysteresis_end,
                CHOPCONF_HEND_WIDTH,
                get_field(bits, CHOPCONF_HEND_LSB, CHOPCONF_HEND_WIDTH),
            ),
        get_field(chopconf_merged(bits, config), 11, 4) == get_field(bits, 11, 4),
        get_field(chopconf_merged(bits, config), CHOPCONF_TBL_LSB, CHOPCONF_TBL_WIDTH)
            == field_after(
                config.blank_time,
                CHOPCONF_TBL_WIDTH,
                get_field(bits, CHOPCONF_TBL_LSB, CHOPCONF_TBL_WIDTH),
            ),
        flag(chopconf_merged(bits, config), CHOPCONF_VSENSE)
            == keep(config.vsense, flag(bits, CHOPCONF_VSENSE)),
        get_field(chopconf_merged(bits, config), 18, 6) == get_field(bits, 18, 6),
        get_field(chopconf_merged(bits, config), CHOPCONF_MRES_LSB, CHOPCONF_MRES_WIDTH)
            == field_after(
                requested_mres(config),
                CHOPCONF_MRES_WIDTH,
                get_field(bits, CHOPCONF_MRES_LSB, CHOPCONF_MRES_WIDTH),
            ),
        flag(chopconf_merged(bits, config), CHOPCONF_INTPOL)
            == keep(config.interpolation, flag(bits, CHOPCONF_INTPOL)),
        flag(chopconf_merged(bits, config), CHOPCONF_DEDGE)
            == keep(config.dedge, flag(bits, CHOPCONF_DEDGE)),
        flag(chopconf_merged(bits, config), CHOPCONF_DISS2G)
            == keep(config.diss2g, flag(bits, CHOPCONF_DISS2G)),
        flag(chopconf_merged(bits, config), CHOPCONF_DISS2VS)
            == keep(config.diss2vs, flag(bits, CHOPCONF_DISS2VS)),
{
    lemma_field_rules();
}

/// Merging the same change into CHOPCONF a second time changes nothing.
pub proof fn lemma_chopconf_merge_twice(bits: u32, config: TMC2209_Config)
    ensures
        chopconf_merged(chopconf_merged(bits, config), config) == chopconf_merged(bits, config),
{
    lemma_chopconf_fields(bits, config);
    lemma_set_again_rules();
}

/// What every field of FACTORY_CONF reads as after a change: the low bits of
/// the value that the change sets, or what the field read before; bits that
/// belong to none of the fields stay.
pub proof fn lemma_factory_conf_fields(bits: u32, config: TMC2209_Config)
    ensures
        get_field(
            factory_conf_merged(bits, config),
            FACTORY_CONF_FCLKTRIM_LSB,
            FACTORY_CONF_FCLKTRIM_WIDTH,
        )
            == field_after(
                widen_u8(config.fclktrim),
                FACTORY_CONF_FCLKTRIM_WIDTH,
                get_field(bits, FACTORY_CONF_FCLKTRIM_LSB, FACTORY_CONF_FCLKTRIM_WIDTH),
            ),
        get_field(factory_conf_merged(bits, config), 5, 3) == get_field(bits, 5, 3),
        get_field(
            factory_conf_merged(bits, config),
            FACTORY_CONF_OTTRIM_LSB,
            FACTORY_CONF_OTTRIM_WIDTH,
        )
            == field_after(
                widen_u8(config.ottrim),
                FACTORY_CONF_OTTRIM_WIDTH,
                get_field(bits, FACTORY_CONF_OTTRIM_LSB, FACTORY_CONF_OTTRIM_WIDTH),
            ),
        get_field(factory_conf_merged(bits, config), 10, 22) == get_field(bits, 10, 22),
{
    lemma_field_rules();
}

/// Merging the same change into FACTORY_CONF a second time changes nothing.
pub proof fn lemma_factory_conf_merge_twice(bits: u32, config: TMC2209_Config)
    ensures
        factory_conf_merged(factory_conf_merged(bits, config), config)
            == factory_conf_merged(bits, config),
{
    lemma_factory_conf_fields(bits, config);
    lemma_set_again_rules();
}

/// What every field of COOLCONF reads as after a change: the low bits of
/// the value that the change sets, or what the field read before; bits that
/// belong to none of the fields stay.
pub proof fn lemma_coolconf_fields(bits: u32, config: TMC2209_Config)
    ensures
        get_field(coolconf_merged(bits, config), COOLCONF_SEMIN_LSB, COOLCONF_SEMIN_WIDTH)
            == field_after(
                widen_u16(config.semin),
                COOLCONF_SEMIN_WIDTH,
                get_field(bits, COOLCONF_SEMIN_LSB, COOLCONF_SEMIN_WIDTH),
            ),
        get_field(coolconf_merged(bits, config), 4, 1) == get_field(bits, 4, 1),
        get_field(coolconf_merged(bits, config), COOLCONF_SEUP_LSB, COOLCONF_SEUP_WIDTH)
            == field_after(
                widen_u16(config.seup),
                COOLCONF_SEUP_WIDTH,
                get_field(bits, COOLCONF_SEUP_LSB, COOLCONF_SEUP_WIDTH),
            ),
        get_field(coolconf_merged(bits, config), 7, 1) == get_field(bits, 7, 1),
        get_field(coolconf_merged(bits, config), COOLCONF_SEMAX_LSB, COOLCONF_SEMAX_WIDTH)
            == field_after(
                widen_u16(config.semax),
                COOLCONF_SEMAX_WIDTH,
                get_field(bits, COOLCONF_SEMAX_LSB, COOLCONF_SEMAX_WIDTH),
            ),
        get_field(coolconf_merged(bits, config), 12, 1) == get_field(bits, 12, 1),
        get_field(coolconf_merged(bits, config), COOLCONF_SEDN_LSB, COOLCONF_SEDN_WIDTH)
            == field_after(
                widen_u16(config.sedn),
                COOLCONF_SEDN_WIDTH,
                get_field(bits, COOLCONF_SEDN_LSB, COOLCONF_SEDN_WIDTH),
            ),
        flag(coolconf_merged(bits, config), COOLCONF_SEIMIN)
            == keep(config.seimin, flag(bits, COOLCONF_SEIMIN)),
        get_field(coolconf_merged(bits, config), 16, 16) == get_field(bits, 16, 16),
{
    lemma_field_rules();
}

/// Merging the same change into COOLCONF a second time changes nothing.
pub proof fn lemma_coolconf_merge_twice(bits: u32, config: TMC2209_Config)
    ensures
        coolconf_merged(coolconf_merged(bits, config), config) == coolconf_merged(bits, config),
{
    lemma_coolconf_fields(bits, config);
    lemma_set_again_rules();
}

/// What every field of PWMCONF reads as after a change: the low bits of
/// the value that the change sets, or what the field read before; bits that
/// belong to none of the fields stay.
pub proof fn lemma_pwmconf_fields(bits: u32, config: TMC2209_Config)
    ensures
        get_field(pwmconf_merged(bits, config), PWMCONF_PWM_OFS_LSB, PWMCONF_PWM_OFS_WIDTH)
            == field_after(
                widen_u8(config.pwm_ofs),
                PWMCONF_PWM_OFS_WIDTH,
                get_field(bits, PWMCONF_PWM_OFS_LSB, PWMCONF_PWM_OFS_WIDTH),
            ),
        get_field(pwmconf_merged(bits, config), PWMCONF_PWM_GRAD_LSB, PWMCONF_PWM_GRAD_WIDTH)
            == field_after(
                widen_u8(config.pwm_grad),
                PWMCONF_PWM_GRAD_WIDTH,
                get_field(bits, PWMCONF_PWM_GRAD_LSB, PWMCONF_PWM_GRAD_WIDTH),
            ),
        get_field(pwmconf_merged(bits, config), PWMCONF_PWM_FREQ_LSB, PWMCONF_PWM_FREQ_WIDTH)
            == field_after(
                widen_u8(config.pwm_freq),
                PWMCONF_PWM_FREQ_WIDTH,
                get_field(bits, PWMCONF_PWM_FREQ_LSB, PWMCONF_PWM_FREQ_WIDTH),
            ),
        flag(pwmconf_merged(bits, config), PWMCONF_PWM_AUTOSCALE)
            == keep(config.pwm_autoscale, flag(bits, PWMCONF_PWM_AUTOSCALE)),
        flag(pwmconf_merged(bits, config), PWMCONF_PWM_AUTOGRAD)
            == keep(config.pwm_autograd, flag(bits, PWMCONF_PWM_AUTOGRAD)),
        get_field(pwmconf_merged(bits, config), PWMCONF_FREEWHEEL_LSB, PWMCONF_FREEWHEEL_WIDTH)
            == field_after(
                widen_u8(config.freewheel),
                PWMCONF_FREEWHEEL_WIDTH,
                get_field(bits, PWMCONF_FREEWHEEL_LSB, PWMCONF_FREEWHEEL_WIDTH),
            ),
        get_field(pwmconf_merged(bits, config), 22, 2) == get_field(bits, 22, 2),
        get_field(pwmconf_merged(bits, config), PWMCONF_PWM_REG_LSB, PWMCONF_PWM_REG_WIDTH)
            == field_after(
                widen_u8(config.pwm_reg),
                PWMCONF_PWM_REG_WIDTH,
                get_field(bits, PWMCONF_PWM_REG_LSB, PWMCONF_PWM_REG_WIDTH),
            ),
        get_field(pwmconf_merged(bits, config), PWMCONF_PWM_LIM_LSB, PWMCONF_PWM_LIM_WIDTH)
            == field_after(
                widen_u8(config.pwm_lim),
                PWMCONF_PWM_LIM_WIDTH,
                get_field(bits, PWMCONF_PWM_LIM_LSB, PWMCONF_PWM_LIM_WIDTH),
            ),
{
    lemma_field_rules();
}

/// Merging the same change into PWMCONF a second time changes nothing.
pub proof fn lemma_pwmconf_merge_twice(bits: u32, config: TMC2209_Config)
    ensures
        pwmconf_merged(pwmconf_merged(bits, config), config) == pwmconf_merged(bits, config),
{
    lemma_pwmconf_fields(bits, config);
    lemma_set_again_rules();
}

/// What every field of SLAVECONF reads as after a change: the low bits of
/// the value that the change sets, or what the field read before; bits that
/// belong to none of the fields stay.
pub proof fn lemma_slaveconf_fields(bits: u32, config: TMC2209_Config)
    ensures
        get_field(slaveconf_merged(bits, config), 0, 8) == get_field(bits, 0, 8),
        get_field(
            slaveconf_merged(bits, config),
            SLAVECONF_SENDDELAY_LSB,
            SLAVECONF_SENDDELAY_WIDTH,
        )
            == field_after(
                widen_u8(config.senddelay),
                SLAVECONF_SENDDELAY_WIDTH,
                get_field(bits, SLAVECONF_SENDDELAY_LSB, SLAVECONF_SENDDELAY_WIDTH),
            ),
        get_field(slaveconf_merged(bits, config), 12, 20) == get_field(bits, 12, 20),
{
    lemma_field_rules();
}

/// Merging the same change into SLAVECONF a second time changes nothing.
pub proof fn lemma_slaveconf_merge_twice(bits: u32, config: TMC2209_Config)
    ensures
        slaveconf_merged(slaveconf_merged(bits, config), config) == slaveconf_merged(bits, config),
{
    lemma_slaveconf_fields(bits, config);
    lemma_set_again_rules();
}

/// What every field of TPWMTHRS reads as after a change: the low bits of
/// the value that the change sets, or what the field read before; bits that
/// belong to none of the fields stay.
pub proof fn lemma_tpwmthrs_fields(bits: u32, config: TMC2209_Config)
    ensures
        get_field(tpwmthrs_merged(bits, config), TPWMTHRS_VALUE_LSB, TPWMTHRS_VALUE_WIDTH)
            == field_after(
                config.tpwmthrs,
                TPWMTHRS_VALUE_WIDTH,
                get_field(bits, TPWMTHRS_VALUE_LSB, TPWMTHRS_VALUE_WIDTH),
            ),
        get_field(tpwmthrs_merged(bits, config), 20, 12) == get_field(bits, 20, 12),
{
    lemma_field_rules();
}

/// Merging the same change into TPWMTHRS a second time changes nothing.
pub proof fn lemma_tpwmthrs_merge_twice(bits: u32, config: TMC2209_Config)
    ensures
        tpwmthrs_merged(tpwmthrs_merged(bits, config), config) == tpwmthrs_merged(bits, config),
{
    lemma_tpwmthrs_fields(bits, config);
    lemma_set_again_rules();
}

/// What every field of TCOOLTHRS reads as after a change: the low bits of
/// the value that the change sets, or what the field read before; bits that
/// belong to none of the fields stay.
pub proof fn lemma_tcoolthrs_fields(bits: u32, config: TMC2209_Config)
    ensures
        get_field(tcoolthrs_merged(bits, config), TCOOLTHRS_VALUE_LSB, TCOOLTHRS_VALUE_WIDTH)
            == field_after(
                config.tcoolthrs,
                TCOOLTHRS_VALUE_WIDTH,
                get_field(bits, TCOOLTHRS_VALUE_LSB, TCOOLTHRS_VALUE_WIDTH),
            ),
        get_field(tcoolthrs_merged(bits, config), 20, 12) == get_field(bits, 20, 12),
{
    lemma_field_rules();
}

/// Merging the same change into TCOOLTHRS a second time changes nothing.
pub proof fn lemma_tcoolthrs_merge_twice(bits: u32, config: TMC2209_Config)
    ensures
        tcoolthrs_merged(tcoolthrs_merged(bits, config), config) == tcoolthrs_merged(bits, config),
{
    lemma_tcoolthrs_fields(bits, config);
    lemma_set_again_rules();
}

/// What every field of IHOLD_IRUN reads as after a change: run and hold
/// code come from the requested current.
pub proof fn lemma_ihold_irun_fields(bits: u32, base: TMC2209_BaseConfig, config: TMC2209_Config)
    ensures
        get_field(
            ihold_irun_merged(bits, base, config),
            IHOLD_IRUN_IHOLD_LSB,
            IHOLD_IRUN_IHOLD_WIDTH,
        ) == field_after(
            widen_u8(requested_ihold(base, config)),
            IHOLD_IRUN_IHOLD_WIDTH,
            get_field(bits, IHOLD_IRUN_IHOLD_LSB, IHOLD_IRUN_IHOLD_WIDTH),
        ),
        get_field(ihold_irun_merged(bits, base, config), 5, 3) == get_field(bits, 5, 3),
        get_field(
            ihold_irun_merged(bits, base, config),
            IHOLD_IRUN_IRUN_LSB,
            IHOLD_IRUN_IRUN_WIDTH,
        ) == field_after(
            widen_u8(requested_irun(base, config)),
            IHOLD_IRUN_IRUN_WIDTH,
            get_field(bits, IHOLD_IRUN_IRUN_LSB, IHOLD_IRUN_IRUN_WIDTH),
        ),
        get_field(ihold_irun_merged(bits, base, config), 13, 3) == get_field(bits, 13, 3),
        get_field(
            ihold_irun_merged(bits, base, config),
            IHOLD_IRUN_IHOLD_DELAY_LSB,
            IHOLD_IRUN_IHOLD_DELAY_WIDTH,
        ) == field_after(
            widen_u8(config.ihold_delay),
            IHOLD_IRUN_IHOLD_DELAY_WIDTH,
            get_field(bits, IHOLD_IRUN_IHOLD_DELAY_LSB, IHOLD_IRUN_IHOLD_DELAY_WIDTH),
        ),
        get_field(ihold_irun_merged(bits, base, config), 20, 12) == get_field(bits, 20, 12),
{
    lemma_field_rules();
}

/// What the requested current does to CHOPCONF: it decides the sensitivity
/// range and touches no other bit.
pub proof fn lemma_chopconf_sensed_fields(
    bits: u32,
    base: TMC2209_BaseConfig,
    config: TMC2209_Config,
)
    ensures
        flag(chopconf_sensed(bits, base, config), CHOPCONF_VSENSE) == keep(
            requested_sensitivity(base, config),
            flag(bits, CHOPCONF_VSENSE),
        ),
        get_field(chopconf_sensed(bits, base, config), 0, 17) == get_field(bits, 0, 17),
        get_field(chopconf_sensed(bits, base, config), 18, 14) == get_field(bits, 18, 14),
{
    lemma_field_rules();
}

/// Merging the same change and the same current into CHOPCONF a second time
/// changes nothing, even where the change sets a sensitivity range that the
/// current overrules.
pub proof fn lemma_chopconf_sensed_merge_twice(
    bits: u32,
    base: TMC2209_BaseConfig,
    config: TMC2209_Config,
)
    ensures
        chopconf_sensed(
            chopconf_merged(chopconf_sensed(chopconf_merged(bits, config), base, config), config),
            base,
            config,
        ) == chopconf_sensed(chopconf_merged(bits, config), base, config),
{
    let once = chopconf_sensed(chopconf_merged(bits, config), base, config);
    lemma_chopconf_fields(bits, config);
    lemma_field_rules();
    lemma_set_again_rules();
    let without_range = TMC2209_Config { vsense: None, ..config };
    assert(chopconf_merged(once, without_range) == once);
    assert(chopconf_merged(once, config) == match config.vsense {
        Some(value) => with_flag(once, CHOPCONF_VSENSE, value),
        None => once,
    });
}

/// A value below two to the `width` is its own low `width` bits, for the
/// widths of the chip's fields.
pub proof fn lemma_fitting_values()
    by (bit_vector)
    ensures
        forall|value: u32| value < 2 ==> #[trigger] (value & field_mask(1)) == value,
        forall|value: u32| value < 4 ==> #[trigger] (value & field_mask(2)) == value,
        forall|value: u32| value < 8 ==> #[trigger] (value & field_mask(3)) == value,
        forall|value: u32| value < 16 ==> #[trigger] (value & field_mask(4)) == value,
        forall|value: u32| value < 32 ==> #[trigger] (value & field_mask(5)) == value,
        forall|value: u32| value < 256 ==> #[trigger] (value & field_mask(8)) == value,
        forall|value: u32| value < 0x10_0000 ==> #[trigger] (value & field_mask(20)) == value,
{
}

/// The saved configuration after the fields of the four readable registers.
pub open spec fn readable_saved(saved: TMC2209_SavedConfig, config: TMC2209_Config)
    -> TMC2209_SavedConfig {
    pwmconf_saved(
        factory_conf_saved(chopconf_saved(gconf_saved(saved, config), config), config),
        config,
    )
}

/// What a debug read finds after a change is merged into four words and the
/// words are written.
pub open spec fn readable_merged(
    gconf: u32,
    chopconf: u32,
    factory_conf: u32,
    pwmconf: u32,
    config: TMC2209_Config,
) -> TMC2209_DebugConfig {
    debug_config_of(
        gconf_merged(gconf, config),
        chopconf_merged(chopconf, config),
        factory_conf_merged(factory_conf, config),
        pwmconf_merged(pwmconf, config),
    )
}

/// Every readable setting that a change sets is saved as the chip will read
/// it back, provided its value fits its field. (Where the change also sets
/// a current, the current decides the sensitivity range of the image after
/// this; the saved range stays the one that the change sets.)
pub proof fn lemma_saved_as_read_back(
    gconf: u32,
    chopconf: u32,
    factory_conf: u32,
    pwmconf: u32,
    saved: TMC2209_SavedConfig,
    config: TMC2209_Config,
)
    requires
        fits_fields(config),
    ensures
        config.i_scale_analog is Some ==> readable_saved(saved, config).i_scale_analog
            == readable_merged(
            gconf,
            chopconf,
            factory_conf,
            pwmconf,
            config,
        ).i_scale_analog,
        config.internal_rsense is Some ==> readable_saved(saved, config).internal_rsense
            == readable_merged(
            gconf,
            chopconf,
            factory_conf,
            pwmconf,
            config,
        ).internal_rsense,
        config.en_spreadcycle is Some ==> readable_saved(saved, config).en_spreadcycle
            == readable_merged(
            gconf,
            chopconf,
            factory_conf,
            pwmconf,
            config,
        ).en_spreadcycle,
        config.index_otpw is Some ==> readable_saved(saved, config).index_otpw == readable_merged(
            gconf,
            chopconf,
            factory_conf,
            pwmconf,
            config,
        ).index_otpw,
        config.index_step is Some ==> readable_saved(saved, config).index_step == readable_merged(
            gconf,
            chopconf,
            factory_conf,
            pwmconf,
            config,
        ).index_step,
        config.pdn_disable is Some ==> readable_saved(saved, config).pdn_disable == readable_merged(
            gconf,
            chopconf,
            factory_conf,
            pwmconf,
            config,
        ).pdn_disable,
        config.mstep_reg_select is Some ==> readable_saved(saved, config).mstep_reg_select
            == readable_merged(
            gconf,
            chopconf,
            factory_conf,
            pwmconf,
            config,
        ).mstep_reg_select,
        config.multistep_filt is Some ==> readable_saved(saved, config).multistep_filt
            == readable_merged(
            gconf,
            chopconf,
            factory_conf,
            pwmconf,
            config,
        ).multistep_filt,
        config.shaft is Some ==> readable_saved(saved, config).shaft == readable_merged(
            gconf,
            chopconf,
            factory_conf,
            pwmconf,
            config,
        ).shaft,
        config.dedge is Some ==> readable_saved(saved, config).dedge == readable_merged(
            gconf,
            chopconf,
            factory_conf,
            pwmconf,
            config,
        ).dedge,
        config.diss2g is Some ==> readable_saved(saved, config).diss2g == readable_merged(
            gconf,
            chopconf,
            factory_conf,
            pwmconf,
            config,
        ).diss2g,
        config.diss2vs is Some ==> readable_saved(saved, config).diss2vs == readable_merged(
            gconf,
            chopconf,
            factory_conf,
            pwmconf,
            config,
        ).diss2vs,
        config.hysteresis_end is Some ==> readable_saved(saved, config).hysteresis_end
            == readable_merged(
            gconf,
            chopconf,
            factory_conf,
            pwmconf,
            config,
        ).hysteresis_end,
        config.hysteresis_start is Some ==> readable_saved(saved, config).hysteresis_start
            == readable_merged(
            gconf,
            chopconf,
            factory_conf,
            pwmconf,
            config,
        ).hysteresis_start,
        config.interpolation is Some ==> readable_saved(saved, config).interpolation
            == readable_merged(
            gconf,
            chopconf,
            factory_conf,
            pwmconf,
            config,
        ).interpolation,
        config.microsteps is Some ==> readable_saved(saved, config).microsteps == readable_merged(
            gconf,
            chopconf,
            factory_conf,
            pwmconf,
            config,
        ).microsteps,
        config.blank_time is Some ==> readable_saved(saved, config).blank_time == readable_merged(
            gconf,
            chopconf,
            factory_conf,
            pwmconf,
            config,
        ).blank_time,
        config.toff is Some ==> readable_saved(saved, config).toff == readable_merged(
            gconf,
            chopconf,
            factory_conf,
            pwmconf,
            config,
        ).toff,
        config.vsense is Some ==> readable_saved(saved, config).vsense == readable_merged(
            gconf,
            chopconf,
            factory_conf,
            pwmconf,
            config,
        ).vsense,
        config.fclktrim is Some ==> readable_saved(saved, config).fclktrim == readable_merged(
            gconf,
            chopconf,
            factory_conf,
            pwmconf,
            config,
        ).fclktrim,
        config.ottrim is Some ==> readable_saved(saved, config).ottrim == readable_merged(
            gconf,
            chopconf,
            factory_conf,
            pwmconf,
            config,
        ).ottrim,
        config.freewheel is Some ==> readable_saved(saved, config).freewheel == readable_merged(
            gconf,
            chopconf,
            factory_conf,
            pwmconf,
            config,
        ).freewheel,
        config.pwm_autoscale is Some ==> readable_saved(saved, config).pwm_autoscale
            == readable_merged(
            gconf,
            chopconf,
            factory_conf,
            pwmconf,
            config,
        ).pwm_autoscale,
        config.pwm_autograd is Some ==> readable_saved(saved, config).pwm_autograd
            == readable_merged(
            gconf,
            chopconf,
            factory_conf,
            pwmconf,
            config,
        ).pwm_autograd,
        config.pwm_freq is Some ==> readable_saved(saved, config).pwm_freq == readable_merged(
            gconf,
            chopconf,
            factory_conf,
            pwmconf,
            config,
        ).pwm_freq,
        config.pwm_grad is Some ==> readable_saved(saved, config).pwm_grad == readable_merged(
            gconf,
            chopconf,
            factory_conf,
            pwmconf,
            config,
        ).pwm_grad,
        config.pwm_lim is Some ==> readable_saved(saved, config).pwm_lim == readable_merged(
            gconf,
            chopconf,
            factory_conf,
            pwmconf,
            config,
        ).pwm_lim,
        config.pwm_ofs is Some ==> readable_saved(saved, config).pwm_ofs == readable_merged(
            gconf,
            chopconf,
            factory_conf,
            pwmconf,
            config,
        ).pwm_ofs,
        config.pwm_reg is Some ==> readable_saved(saved, config).pwm_reg == readable_merged(
            gconf,
            chopconf,
            factory_conf,
            pwmconf,
            config,
        ).pwm_reg,
{
    lemma_gconf_fields(gconf, config);
    lemma_chopconf_fields(chopconf, config);
    lemma_factory_conf_fields(factory_conf, config);
    lemma_pwmconf_fields(pwmconf, config);
    lemma_fitting_values();
}

/// A readable setting that a change leaves out reads back as before.
pub proof fn lemma_unset_reads_back_unchanged(
    gconf: u32,
    chopconf: u32,
    factory_conf: u32,
    pwmconf: u32,
    config: TMC2209_Config,
)
    ensures
        config.i_scale_analog is None ==>
            readable_merged(gconf, chopconf, factory_conf, pwmconf, config).i_scale_analog
            == debug_config_of(gconf, chopconf, factory_conf, pwmconf).i_scale_analog,
        config.internal_rsense is None ==>
            readable_merged(gconf, chopconf, factory_conf, pwmconf, config).internal_rsense
            == debug_config_of(gconf, chopconf, factory_conf, pwmconf).internal_rsense,
        config.en_spreadcycle is None ==>
            readable_merged(gconf, chopconf, factory_conf, pwmconf, config).en_spreadcycle
            == debug_config_of(gconf, chopconf, factory_conf, pwmconf).en_spreadcycle,
        config.index_otpw is None ==>
            readable_merged(gconf, chopconf, factory_conf, pwmconf, config).index_otpw
            == debug_config_of(gconf, chopconf, factory_conf, pwmconf).index_otpw,
        config.index_step is None ==>
            readable_merged(gconf, chopconf, factory_conf, pwmconf, config).index_step
            == debug_config_of(gconf, chopconf, factory_conf, pwmconf).index_step,
        config.pdn_disable is None ==>
            readable_merged(gconf, chopconf, factory_conf, pwmconf, config).pdn_disable
            == debug_config_of(gconf, chopconf, factory_conf, pwmconf).pdn_disable,
        config.mstep_reg_select is None ==>
            readable_merged(gconf, chopconf, factory_conf, pwmconf, config).mstep_reg_select
            == debug_config_of(gconf, chopconf, factory_conf, pwmconf).mstep_reg_select,
        config.multistep_filt is None ==>
            readable_merged(gconf, chopconf, factory_conf, pwmconf, config).multistep_filt
            == debug_config_of(gconf, chopconf, factory_conf, pwmconf).multistep_filt,
        config.shaft is None ==>
            readable_merged(gconf, chopconf, factory_conf, pwmconf, config).shaft
            == debug_config_of(gconf, chopconf, factory_conf, pwmconf).shaft,
        config.dedge is None ==>
            readable_merged(gconf, chopconf, factory_conf, pwmconf, config).dedge
            == debug_config_of(gconf, chopconf, factory_conf, pwmconf).dedge,
        config.diss2g is None ==>
            readable_merged(gconf, chopconf, factory_conf, pwmconf, config).diss2g
            == debug_config_of(gconf, chopconf, factory_conf, pwmconf).diss2g,
        config.diss2vs is None ==>
            readable_merged(gconf, chopconf, factory_conf, pwmconf, config).diss2vs
            == debug_config_of(gconf, chopconf, factory_conf, pwmconf).diss2vs,
        config.hysteresis_end is None ==>
            readable_merged(gconf, chopconf, factory_conf, pwmconf, config).hysteresis_end
            == debug_config_of(gconf, chopconf, factory_conf, pwmconf).hysteresis_end,
        config.hysteresis_start is None ==>
            readable_merged(gconf, chopconf, factory_conf, pwmconf, config).hysteresis_start
            == debug_config_of(gconf, chopconf, factory_conf, pwmconf).hysteresis_start,
        config.interpolation is None ==>
            readable_merged(gconf, chopconf, factory_conf, pwmconf, config).interpolation
            == debug_config_of(gconf, chopconf, factory_conf, pwmconf).interpolation,
        config.microsteps is None ==>
            readable_merged(gconf, chopconf, factory_conf, pwmconf, config).microsteps
            == debug_config_of(gconf, chopconf, factory_conf, pwmconf).microsteps,
        config.blank_time is None ==>
            readable_merged(gconf, chopconf, factory_conf, pwmconf, config).blank_time
            == debug_config_of(gconf, chopconf, factory_conf, pwmconf).blank_time,
        config.toff is None ==> readable_merged(gconf, chopconf, factory_conf, pwmconf, config).toff
            == debug_config_of(gconf, chopconf, factory_conf, pwmconf).toff,
        config.vsense is None ==>
            readable_merged(gconf, chopconf, factory_conf, pwmconf, config).vsense
            == debug_config_of(gconf, chopconf, factory_conf, pwmconf).vsense,
        config.fclktrim is None ==>
            readable_merged(gconf, chopconf, factory_conf, pwmconf, config).fclktrim
            == debug_config_of(gconf, chopconf, factory_conf, pwmconf).fclktrim,
        config.ottrim is None ==>
            readable_merged(gconf, chopconf, factory_conf, pwmconf, config).ottrim
            == debug_config_of(gconf, chopconf, factory_conf, pwmconf).ottrim,
        config.freewheel is None ==>
            readable_merged(gconf, chopconf, factory_conf, pwmconf, config).freewheel
            == debug_config_of(gconf, chopconf, factory_conf, pwmconf).freewheel,
        config.pwm_autoscale is None ==>
            readable_merged(gconf, chopconf, factory_conf, pwmconf, config).pwm_autoscale
            == debug_config_of(gconf, chopconf, factory_conf, pwmconf).pwm_autoscale,
        config.pwm_autograd is None ==>
            readable_merged(gconf, chopconf, factory_conf, pwmconf, config).pwm_autograd
            == debug_config_of(gconf, chopconf, factory_conf, pwmconf).pwm_autograd,
        config.pwm_freq is None ==>
            readable_merged(gconf, chopconf, factory_conf, pwmconf, config).pwm_freq
            == debug_config_of(gconf, chopconf, factory_conf, pwmconf).pwm_freq,
        config.pwm_grad is None ==>
            readable_merged(gconf, chopconf, factory_conf, pwmconf, config).pwm_grad
            == debug_config_of(gconf, chopconf, factory_conf, pwmconf).pwm_grad,
        config.pwm_lim is None ==>
            readable_merged(gconf, chopconf, factory_conf, pwmconf, config).pwm_lim
            == debug_config_of(gconf, chopconf, factory_conf, pwmconf).pwm_lim,
        config.pwm_ofs is None ==>
            readable_merged(gconf, chopconf, factory_conf, pwmconf, config).pwm_ofs
            == debug_config_of(gconf, chopconf, factory_conf, pwmconf).pwm_ofs,
        config.pwm_reg is None ==>
            readable_merged(gconf, chopconf, factory_conf, pwmconf, config).pwm_reg
            == debug_config_of(gconf, chopconf, factory_conf, pwmconf).pwm_reg,
{
    lemma_gconf_fields(gconf, config);
    lemma_chopconf_fields(chopconf, config);
    lemma_factory_conf_fields(factory_conf, config);
    lemma_pwmconf_fields(pwmconf, config);
}

/// Whether every setting that a change leaves out is in `after` what it was
/// in `before`.
#[verifier::opaque]
pub open spec fn unset_fields_kept(
    before: TMC2209_SavedConfig,
    after: TMC2209_SavedConfig,
    config: TMC2209_Config,
) -> bool {
    &&& config.i_scale_analog is None ==> after.i_scale_analog == before.i_scale_analog
    &&& config.internal_rsense is None ==> after.internal_rsense == before.internal_rsense
    &&& config.en_spreadcycle is None ==> after.en_spreadcycle == before.en_spreadcycle
    &&& config.index_otpw is None ==> after.index_otpw == before.index_otpw
    &&& config.index_step is None ==> after.index_step == before.index_step
    &&& config.pdn_disable is None ==> after.pdn_disable == before.pdn_disable
    &&& config.mstep_reg_select is None ==> after.mstep_reg_select == before.mstep_reg_select
    &&& config.multistep_filt is None ==> after.multistep_filt == before.multistep_filt
    &&& config.shaft is None ==> after.shaft == before.shaft
    &&& config.dedge is None ==> after.dedge == before.dedge
    &&& config.diss2g is None ==> after.diss2g == before.diss2g
    &&& config.diss2vs is None ==> after.diss2vs == before.diss2vs
    &&& config.hysteresis_end is None ==> after.hysteresis_end == before.hysteresis_end
    &&& config.hysteresis_start is None ==> after.hysteresis_start == before.hysteresis_start
    &&& config.interpolation is None ==> after.interpolation == before.interpolation
    &&& config.microsteps is None ==> after.microsteps == before.microsteps
    &&& config.blank_time is None ==> after.blank_time == before.blank_time
    &&& config.toff is None ==> after.toff == before.toff
    &&& config.vsense is None ==> after.vsense == before.vsense
    &&& config.rms_current is None ==> after.rms_current == before.rms_current
    &&& config.ihold_delay is None ==> after.ihold_delay == before.ihold_delay
    &&& config.senddelay is None ==> after.senddelay == before.senddelay
    &&& config.fclktrim is None ==> after.fclktrim == before.fclktrim
    &&& config.ottrim is None ==> after.ottrim == before.ottrim
    &&& config.sedn is None ==> after.sedn == before.sedn
    &&& config.semin is None ==> after.semin == before.semin
    &&& config.seup is None ==> after.seup == before.seup
    &&& config.seimin is None ==> after.seimin == before.seimin
    &&& config.semax is None ==> after.semax == before.semax
    &&& config.freewheel is None ==> after.freewheel == before.freewheel
    &&& config.pwm_autoscale is None ==> after.pwm_autoscale == before.pwm_autoscale
    &&& config.pwm_autograd is None ==> after.pwm_autograd == before.pwm_autograd
    &&& config.pwm_freq is None ==> after.pwm_freq == before.pwm_freq
    &&& config.pwm_grad is None ==> after.pwm_grad == before.pwm_grad
    &&& config.pwm_lim is None ==> after.pwm_lim == before.pwm_lim
    &&& config.pwm_ofs is None ==> after.pwm_ofs == before.pwm_ofs
    &&& config.pwm_reg is None ==> after.pwm_reg == before.pwm_reg
    &&& config.tpowerdown is None ==> after.tpowerdown == before.tpowerdown
    &&& config.tpwmthrs is None ==> after.tpwmthrs == before.tpwmthrs
    &&& config.sgthrs is None ==> after.sgthrs == before.sgthrs
    &&& config.tcoolthrs is None ==> after.tcoolthrs == before.tcoolthrs
}

/// Each group saves only what the change sets of its own fields.
proof fn lemma_each_group_keeps_unset_fields(
    saved: TMC2209_SavedConfig,
    base: TMC2209_BaseConfig,
    config: TMC2209_Config,
)
    ensures
        unset_fields_kept(saved, saved, config),
        unset_fields_kept(saved, gconf_saved(saved, config), config),
        unset_fields_kept(saved, chopconf_saved(saved, config), config),
        unset_fields_kept(saved, ihold_irun_saved(saved, base, config), config),
        unset_fields_kept(saved, slaveconf_saved(saved, config), config),
        unset_fields_kept(saved, factory_conf_saved(saved, config), config),
        unset_fields_kept(saved, coolconf_saved(saved, config), config),
        unset_fields_kept(saved, pwmconf_saved(saved, config), config),
        unset_fields_kept(saved, tpowerdown_saved(saved, config), config),
        unset_fields_kept(saved, tpwmthrs_saved(saved, config), config),
        unset_fields_kept(saved, sgthrs_saved(saved, config), config),
        unset_fields_kept(saved, tcoolthrs_saved(saved, config), config),
{
    reveal(unset_fields_kept);
}

/// What is kept from one saved configuration to a second and from the
/// second to a third is kept from the first to the third.
proof fn lemma_kept_twice(
    first: TMC2209_SavedConfig,
    second: TMC2209_SavedConfig,
    third: TMC2209_SavedConfig,
    config: TMC2209_Config,
)
    requires
        unset_fields_kept(first, second, config),
        unset_fields_kept(second, third, config),
    ensures
        unset_fields_kept(first, third, config),
{
    reveal(unset_fields_kept);
}

/// The saved configuration after a change keeps every setting that the
/// change leaves out.
#[verifier::rlimit(30)]
proof fn lemma_config_saved_keeps_unset_fields(
    registers: TMC2209_ConfigRegisters,
    saved: TMC2209_SavedConfig,
    base: TMC2209_BaseConfig,
    config: TMC2209_Config,
)
    ensures
        unset_fields_kept(saved, config_saved(registers, saved, base, config), config),
{
    let s0 = saved;
    let s1 = if registers.gconf is Some { gconf_saved(s0, config) } else { s0 };
    let s2 = if registers.chopconf is Some { chopconf_saved(s1, config) } else { s1 };
    let s3 = if registers.ihold_irun is Some { ihold_irun_saved(s2, base, config) } else { s2 };
    let s4 = if registers.slaveconf is Some { slaveconf_saved(s3, config) } else { s3 };
    let s5 = if registers.factory_conf is Some { factory_conf_saved(s4, config) } else { s4 };
    let s6 = if registers.coolconf is Some { coolconf_saved(s5, config) } else { s5 };
    let s7 = if registers.pwmconf is Some { pwmconf_saved(s6, config) } else { s6 };
    let s8 = if registers.tpowerdown is Some { tpowerdown_saved(s7, config) } else { s7 };
    let s9 = if registers.tpwmthrs is Some { tpwmthrs_saved(s8, config) } else { s8 };
    let s10 = if registers.sgthrs is Some { sgthrs_saved(s9, config) } else { s9 };
    let s11 = if registers.tcoolthrs is Some { tcoolthrs_saved(s10, config) } else { s10 };
    lemma_each_group_keeps_unset_fields(s0, base, config);
    lemma_each_group_keeps_unset_fields(s1, base, config);
    lemma_kept_twice(s0, s1, s2, config);
    lemma_each_group_keeps_unset_fields(s2, base, config);
    lemma_kept_twice(s0, s2, s3, config);
    lemma_each_group_keeps_unset_fields(s3, base, config);
    lemma_kept_twice(s0, s3, s4, config);
    lemma_each_group_keeps_unset_fields(s4, base, config);
    lemma_kept_twice(s0, s4, s5, config);
    lemma_each_group_keeps_unset_fields(s5, base, config);
    lemma_kept_twice(s0, s5, s6, config);
    lemma_each_group_keeps_unset_fields(s6, base, config);
    lemma_kept_twice(s0, s6, s7, config);
    lemma_each_group_keeps_unset_fields(s7, base, config);
    lemma_kept_twice(s0, s7, s8, config);
    lemma_each_group_keeps_unset_fields(s8, base, config);
    lemma_kept_twice(s0, s8, s9, config);
    lemma_each_group_keeps_unset_fields(s9, base, config);
    lemma_kept_twice(s0, s9, s10, config);
    lemma_each_group_keeps_unset_fields(s10, base, config);
    lemma_kept_twice(s0, s10, s11, config);
    assert(s11 == config_saved(registers, saved, base, config));
}

/// A setting that a change leaves out is saved as it was, whatever else the
/// change sets and whichever images are present.
#[verifier::rlimit(30)]
pub proof fn lemma_unset_fields_stay_saved(
    registers: TMC2209_ConfigRegisters,
    saved: TMC2209_SavedConfig,
    base: TMC2209_BaseConfig,
    config: TMC2209_Config,
)
    ensures
        unset_fields_kept(saved, config_saved(registers, saved, base, config), config),
        config.i_scale_analog is None ==> config_saved(registers, saved, base, config).i_scale_analog
            == saved.i_scale_analog,
        config.internal_rsense is None ==> config_saved(registers, saved, base, config).internal_rsense
            == saved.internal_rsense,
        config.en_spreadcycle is None ==> config_saved(registers, saved, base, config).en_spreadcycle
            == saved.en_spreadcycle,
        config.index_otpw is None ==> config_saved(registers, saved, base, config).index_otpw
            == saved.index_otpw,
        config.index_step is None ==> config_saved(registers, saved, base, config).index_step
            == saved.index_step,
        config.pdn_disable is None ==> config_saved(registers, saved, base, config).pdn_disable
            == saved.pdn_disable,
        config.mstep_reg_select is None ==> config_saved(registers, saved, base, config).mstep_reg_select
            == saved.mstep_reg_select,
        config.multistep_filt is None ==> config_saved(registers, saved, base, config).multistep_filt
            == saved.multistep_filt,
        config.shaft is None ==> config_saved(registers, saved, base, config).shaft
            == saved.shaft,
        config.dedge is None ==> config_saved(registers, saved, base, config).dedge
            == saved.dedge,
        config.diss2g is None ==> config_saved(registers, saved, base, config).diss2g
            == saved.diss2g,
        config.diss2vs is None ==> config_saved(registers, saved, base, config).diss2vs
            == saved.diss2vs,
        config.hysteresis_end is None ==> config_saved(registers, saved, base, config).hysteresis_end
            == saved.hysteresis_end,
        config.hysteresis_start is None ==> config_saved(registers, saved, base, config).hysteresis_start
            == saved.hysteresis_start,
        config.interpolation is None ==> config_saved(registers, saved, base, config).interpolation
            == saved.interpolation,
        config.microsteps is None ==> config_saved(registers, saved, base, config).microsteps
            == saved.microsteps,
        config.blank_time is None ==> config_saved(registers, saved, base, config).blank_time
            == saved.blank_time,
        config.toff is None ==> config_saved(registers, saved, base, config).toff
            == saved.toff,
        config.vsense is None ==> config_saved(registers, saved, base, config).vsense
            == saved.vsense,
        config.rms_current is None ==> config_saved(registers, saved, base, config).rms_current
            == saved.rms_current,
        config.ihold_delay is None ==> config_saved(registers, saved, base, config).ihold_delay
            == saved.ihold_delay,
        config.senddelay is None ==> config_saved(registers, saved, base, config).senddelay
            == saved.senddelay,
        config.fclktrim is None ==> config_saved(registers, saved, base, config).fclktrim
            == saved.fclktrim,
        config.ottrim is None ==> config_saved(registers, saved, base, config).ottrim
            == saved.ottrim,
        config.sedn is None ==> config_saved(registers, saved, base, config).sedn
            == saved.sedn,
        config.semin is None ==> config_saved(registers, saved, base, config).semin
            == saved.semin,
        config.seup is None ==> config_saved(registers, saved, base, config).seup
            == saved.seup,
        config.seimin is None ==> config_saved(registers, saved, base, config).seimin
            == saved.seimin,
        config.semax is None ==> config_saved(registers, saved, base, config).semax
            == saved.semax,
        config.freewheel is None ==> config_saved(registers, saved, base, config).freewheel
            == saved.freewheel,
        config.pwm_autoscale is None ==> config_saved(registers, saved, base, config).pwm_autoscale
            == saved.pwm_autoscale,
        config.pwm_autograd is None ==> config_saved(registers, saved, base, config).pwm_autograd
            == saved.pwm_autograd,
        config.pwm_freq is None ==> config_saved(registers, saved, base, config).pwm_freq
            == saved.pwm_freq,
        config.pwm_grad is None ==> config_saved(registers, saved, base, config).pwm_grad
            == saved.pwm_grad,
        config.pwm_lim is None ==> config_saved(registers, saved, base, config).pwm_lim
            == saved.pwm_lim,
        config.pwm_ofs is None ==> config_saved(registers, saved, base, config).pwm_ofs
            == saved.pwm_ofs,
        config.pwm_reg is None ==> config_saved(registers, saved, base, config).pwm_reg
            == saved.pwm_reg,
        config.tpowerdown is None ==> config_saved(registers, saved, base, config).tpowerdown
            == saved.tpowerdown,
        config.tpwmthrs is None ==> config_saved(registers, saved, base, config).tpwmthrs
            == saved.tpwmthrs,
        config.sgthrs is None ==> config_saved(registers, saved, base, config).sgthrs
            == saved.sgthrs,
        config.tcoolthrs is None ==> config_saved(registers, saved, base, config).tcoolthrs
            == saved.tcoolthrs,
{
    lemma_config_saved_keeps_unset_fields(registers, saved, base, config);
    reveal(unset_fields_kept);
}

/// A setting that a change sets is saved as the change gives it, where the
/// image of its group is present: the resolution as the chip will run it,
/// the current as the written run code reads back, every other setting as
/// it stands in the change.
#[verifier::rlimit(30)]
pub proof fn lemma_set_fields_are_saved(
    registers: TMC2209_ConfigRegisters,
    saved: TMC2209_SavedConfig,
    base: TMC2209_BaseConfig,
    config: TMC2209_Config,
)
    ensures
        registers.gconf is Some && config.i_scale_analog is Some ==> ({
            let saved_after = config_saved(registers, saved, base, config);
            Some(saved_after.i_scale_analog) == config.i_scale_analog
        }),
        registers.gconf is Some && config.internal_rsense is Some ==> ({
            let saved_after = config_saved(registers, saved, base, config);
            Some(saved_after.internal_rsense) == config.internal_rsense
        }),
        registers.gconf is Some && config.en_spreadcycle is Some ==> ({
            let saved_after = config_saved(registers, saved, base, config);
            Some(saved_after.en_spreadcycle) == config.en_spreadcycle
        }),
        registers.gconf is Some && config.index_otpw is Some ==> ({
            let saved_after = config_saved(registers, saved, base, config);
            Some(saved_after.index_otpw) == config.index_otpw
        }),
        registers.gconf is Some && config.index_step is Some ==> ({
            let saved_after = config_saved(registers, saved, base, config);
            Some(saved_after.index_step) == config.index_step
        }),
        registers.gconf is Some && config.pdn_disable is Some ==> ({
            let saved_after = config_saved(registers, saved, base, config);
            Some(saved_after.pdn_disable) == config.pdn_disable
        }),
        registers.gconf is Some && config.mstep_reg_select is Some ==> ({
            let saved_after = config_saved(registers, saved, base, config);
            Some(saved_after.mstep_reg_select) == config.mstep_reg_select
        }),
        registers.gconf is Some && config.multistep_filt is Some ==> ({
            let saved_after = config_saved(registers, saved, base, config);
            Some(saved_after.multistep_filt) == config.multistep_filt
        }),
        registers.gconf is Some && config.shaft is Some ==> ({
            let saved_after = config_saved(registers, saved, base, config);
            Some(saved_after.shaft) == config.shaft
        }),
        registers.chopconf is Some && config.dedge is Some ==> ({
            let saved_after = config_saved(registers, saved, base, config);
            Some(saved_after.dedge) == config.dedge
        }),
        registers.chopconf is Some && config.diss2g is Some ==> ({
            let saved_after = config_saved(registers, saved, base, config);
            Some(saved_after.diss2g) == config.diss2g
        }),
        registers.chopconf is Some && config.diss2vs is Some ==> ({
            let saved_after = config_saved(registers, saved, base, config);
            Some(saved_after.diss2vs) == config.diss2vs
        }),
        registers.chopconf is Some && config.hysteresis_end is Some ==> ({
            let saved_after = config_saved(registers, saved, base, config);
            Some(saved_after.hysteresis_end) == config.hysteresis_end
        }),
        registers.chopconf is Some && config.hysteresis_start is Some ==> ({
            let saved_after = config_saved(registers, saved, base, config);
            Some(saved_after.hysteresis_start) == config.hysteresis_start
        }),
        registers.chopconf is Some && config.interpolation is Some ==> ({
            let saved_after = config_saved(registers, saved, base, config);
            Some(saved_after.interpolation) == config.interpolation
        }),
        registers.chopconf is Some && config.microsteps is Some ==> ({
            let saved_after = config_saved(registers, saved, base, config);
            Some(saved_after.microsteps) == requested_microsteps(config)
        }),
        registers.chopconf is Some && config.blank_time is Some ==> ({
            let saved_after = config_saved(registers, saved, base, config);
            Some(saved_after.blank_time) == config.blank_time
        }),
        registers.chopconf is Some && config.toff is Some ==> ({
            let saved_after = config_saved(registers, saved, base, config);
            Some(saved_after.toff) == config.toff
        }),
        registers.chopconf is Some && config.vsense is Some ==> ({
            let saved_after = config_saved(registers, saved, base, config);
            Some(saved_after.vsense) == config.vsense
        }),
        registers.ihold_irun is Some && config.rms_current is Some ==> ({
            let saved_after = config_saved(registers, saved, base, config);
            Some(saved_after.rms_current) == requested_current(base, config)
        }),
        registers.ihold_irun is Some && config.ihold_delay is Some ==> ({
            let saved_after = config_saved(registers, saved, base, config);
            Some(saved_after.ihold_delay) == config.ihold_delay
        }),
        registers.slaveconf is Some && config.senddelay is Some ==> ({
            let saved_after = config_saved(registers, saved, base, config);
            Some(saved_after.senddelay) == config.senddelay
        }),
        registers.factory_conf is Some && config.fclktrim is Some ==> ({
            let saved_after = config_saved(registers, saved, base, config);
            Some(saved_after.fclktrim) == config.fclktrim
        }),
        registers.factory_conf is Some && config.ottrim is Some ==> ({
            let saved_after = config_saved(registers, saved, base, config);
            Some(saved_after.ottrim) == config.ottrim
        }),
        registers.coolconf is Some && config.sedn is Some ==> ({
            let saved_after = config_saved(registers, saved, base, config);
            Some(saved_after.sedn) == config.sedn
        }),
        registers.coolconf is Some && config.semin is Some ==> ({
            let saved_after = config_saved(registers, saved, base, config);
            Some(saved_after.semin) == config.semin
        }),
        registers.coolconf is Some && config.seup is Some ==> ({
            let saved_after = config_saved(registers, saved, base, config);
            Some(saved_after.seup) == config.seup
        }),
        registers.coolconf is Some && config.seimin is Some ==> ({
            let saved_after = config_saved(registers, saved, base, config);
            Some(saved_after.seimin) == config.seimin
        }),
        registers.coolconf is Some && config.semax is Some ==> ({
            let saved_after = config_saved(registers, saved, base, config);
            Some(saved_after.semax) == config.semax
        }),
        registers.pwmconf is Some && config.freewheel is Some ==> ({
            let saved_after = config_saved(registers, saved, base, config);
            Some(saved_after.freewheel) == config.freewheel
        }),
        registers.pwmconf is Some && config.pwm_autoscale is Some ==> ({
            let saved_after = config_saved(registers, saved, base, config);
            Some(saved_after.pwm_autoscale) == config.pwm_autoscale
        }),
        registers.pwmconf is Some && config.pwm_autograd is Some ==> ({
            let saved_after = config_saved(registers, saved, base, config);
            Some(saved_after.pwm_autograd) == config.pwm_autograd
        }),
        registers.pwmconf is Some && config.pwm_freq is Some ==> ({
            let saved_after = config_saved(registers, saved, base, config);
            Some(saved_after.pwm_freq) == config.pwm_freq
        }),
        registers.pwmconf is Some && config.pwm_grad is Some ==> ({
            let saved_after = config_saved(registers, saved, base, config);
            Some(saved_after.pwm_grad) == config.pwm_grad
        }),
        registers.pwmconf is Some && config.pwm_lim is Some ==> ({
            let saved_after = config_saved(registers, saved, base, config);
            Some(saved_after.pwm_lim) == config.pwm_lim
        }),
        registers.pwmconf is Some && config.pwm_ofs is Some ==> ({
            let saved_after = config_saved(registers, saved, base, config);
            Some(saved_after.pwm_ofs) == config.pwm_ofs
        }),
        registers.pwmconf is Some && config.pwm_reg is Some ==> ({
            let saved_after = config_saved(registers, saved, base, config);
            Some(saved_after.pwm_reg) == config.pwm_reg
        }),
        registers.tpowerdown is Some && config.tpowerdown is Some ==> ({
            let saved_after = config_saved(registers, saved, base, config);
            Some(saved_after.tpowerdown) == config.tpowerdown
        }),
        registers.tpwmthrs is Some && config.tpwmthrs is Some ==> ({
            let saved_after = config_saved(registers, saved, base, config);
            Some(saved_after.tpwmthrs) == config.tpwmthrs
        }),
        registers.sgthrs is Some && config.sgthrs is Some ==> ({
            let saved_after = config_saved(registers, saved, base, config);
            Some(saved_after.sgthrs) == config.sgthrs
        }),
        registers.tcoolthrs is Some && config.tcoolthrs is Some ==> ({
            let saved_after = config_saved(registers, saved, base, config);
            Some(saved_after.tcoolthrs) == config.tcoolthrs
        }),
{
}

} // verus!
