//! The register groups of one synchronization: which of them a change
//! touches, and the images that go back to the chip.
use vstd::prelude::*;
use crate::config::TMC2209_Config;
use crate::registers::{
    Chopconf, Coolconf, FactoryConf, Gconf, IholdIrun, Pwmconf, Sgthrs, Slaveconf, Tcoolthrs,
    Tpowerdown, Tpwmthrs,
};

verus! {

/// Which register groups a change touches.
#[derive(Clone, Copy, Debug, PartialEq, Eq)]
pub struct TMC2209_ConfigRegistersChangesDetected {
    pub gconf: bool,
    pub chopconf: bool,
    pub slaveconf: bool,
    pub factory_conf: bool,
    pub ihold_irun: bool,
    pub coolconf: bool,
    pub pwmconf: bool,
    pub tpowerdown: bool,
    pub tpwmthrs: bool,
    pub sgthrs: bool,
    pub tcoolthrs: bool,
}

impl TMC2209_ConfigRegistersChangesDetected {
    /// No group touched.
    pub open spec fn none() -> Self {
        TMC2209_ConfigRegistersChangesDetected {
            gconf: false,
            chopconf: false,
            slaveconf: false,
            factory_conf: false,
            ihold_irun: false,
            coolconf: false,
            pwmconf: false,
            tpowerdown: false,
            tpwmthrs: false,
            sgthrs: false,
            tcoolthrs: false,
        }
    }

    pub fn new() -> (changes: TMC2209_ConfigRegistersChangesDetected)
        ensures
            changes == Self::none(),
    {
        TMC2209_ConfigRegistersChangesDetected {
            gconf: false,
            chopconf: false,
            slaveconf: false,
            factory_conf: false,
            ihold_irun: false,
            coolconf: false,
            pwmconf: false,
            tpowerdown: false,
            tpwmthrs: false,
            sgthrs: false,
            tcoolthrs: false,
        }
    }
}

/// One image for each register group that takes part in a synchronization;
/// `None` for a group that is left alone and must not be sent.
#[derive(Clone, Copy, Debug, PartialEq, Eq)]
pub struct TMC2209_ConfigRegisters {
    pub gconf: Option<Gconf>,
    pub chopconf: Option<Chopconf>,
    pub slaveconf: Option<Slaveconf>,
    pub factory_conf: Option<FactoryConf>,
    pub ihold_irun: Option<IholdIrun>,
    pub coolconf: Option<Coolconf>,
    pub pwmconf: Option<Pwmconf>,
    pub tpowerdown: Option<Tpowerdown>,
    pub tpwmthrs: Option<Tpwmthrs>,
    pub sgthrs: Option<Sgthrs>,
    pub tcoolthrs: Option<Tcoolthrs>,
}

impl TMC2209_ConfigRegisters {
    /// No group present.
    pub open spec fn none() -> Self {
        TMC2209_ConfigRegisters {
            gconf: None,
            chopconf: None,
            slaveconf: None,
            factory_conf: None,
            ihold_irun: None,
            coolconf: None,
            pwmconf: None,
            tpowerdown: None,
            tpwmthrs: None,
            sgthrs: None,
            tcoolthrs: None,
        }
    }

    pub fn new() -> (registers: TMC2209_ConfigRegisters)
        ensures
            registers == Self::none(),
    {
        TMC2209_ConfigRegisters {
            gconf: None,
            chopconf: None,
            slaveconf: None,
            factory_conf: None,
            ihold_irun: None,
            coolconf: None,
            pwmconf: None,
            tpowerdown: None,
            tpwmthrs: None,
            sgthrs: None,
            tcoolthrs: None,
        }
    }
}

/// A change touches GCONF when it sets one of these.
pub open spec fn touches_gconf(config: TMC2209_Config) -> bool {
    ||| config.i_scale_analog is Some
    ||| config.internal_rsense is Some
    ||| config.en_spreadcycle is Some
    ||| config.index_otpw is Some
    ||| config.index_step is Some
    ||| config.pdn_disable is Some
    ||| config.mstep_reg_select is Some
    ||| config.multistep_filt is Some
    ||| config.shaft is Some
}

/// A change touches CHOPCONF when it sets one of these.
pub open spec fn touches_chopconf(config: TMC2209_Config) -> bool {
    ||| config.dedge is Some
    ||| config.diss2g is Some
    ||| config.diss2vs is Some
    ||| config.hysteresis_end is Some
    ||| config.hysteresis_start is Some
    ||| config.interpolation is Some
    ||| config.microsteps is Some
    ||| config.blank_time is Some
    ||| config.toff is Some
    ||| config.vsense is Some
}

/// A change touches IHOLD_IRUN when it sets one of these.
pub open spec fn touches_ihold_irun(config: TMC2209_Config) -> bool {
    config.ihold_delay is Some || config.rms_current is Some
}

/// A change touches SLAVECONF when it sets the reply delay.
pub open spec fn touches_slaveconf(config: TMC2209_Config) -> bool {
    config.senddelay is Some
}

/// A change touches FACTORY_CONF when it sets one of these.
pub open spec fn touches_factory_conf(config: TMC2209_Config) -> bool {
    config.fclktrim is Some || config.ottrim is Some
}

/// A change touches COOLCONF when it sets one of these.
pub open spec fn touches_coolconf(config: TMC2209_Config) -> bool {
    ||| config.sedn is Some
    ||| config.semin is Some
    ||| config.seup is Some
    ||| config.semax is Some
    ||| config.seimin is Some
}

/// A change touches PWMCONF when it sets one of these.
pub open spec fn touches_pwmconf(config: TMC2209_Config) -> bool {
    ||| config.freewheel is Some
    ||| config.pwm_autograd is Some
    ||| config.pwm_autoscale is Some
    ||| config.pwm_freq is Some
    ||| config.pwm_grad is Some
    ||| config.pwm_lim is Some
    ||| config.pwm_ofs is Some
    ||| config.pwm_reg is Some
}

/// The groups a change touches: each group exactly when the change sets one
/// of the group's own fields.
pub open spec fn touched_groups(config: TMC2209_Config) -> TMC2209_ConfigRegistersChangesDetected {
    TMC2209_ConfigRegistersChangesDetected {
        gconf: touches_gconf(config),
        chopconf: touches_chopconf(config),
        slaveconf: touches_slaveconf(config),
        factory_conf: touches_factory_conf(config),
        ihold_irun: touches_ihold_irun(config),
        coolconf: touches_coolconf(config),
        pwmconf: touches_pwmconf(config),
        tpowerdown: config.tpowerdown is Some,
        tpwmthrs: config.tpwmthrs is Some,
        sgthrs: config.sgthrs is Some,
        tcoolthrs: config.tcoolthrs is Some,
    }
}

impl TMC2209_Config {
    /// The register groups that this change touches.
    pub fn which_registers_changed(&self) -> (changes: TMC2209_ConfigRegistersChangesDetected)
        ensures
            changes == touched_groups(*self),
    {
        let mut changes = TMC2209_ConfigRegistersChangesDetected::new();

        changes.gconf = is_gconf_changed(self);
        changes.chopconf = is_chopconf_changed(self);
        changes.ihold_irun = is_ihold_irun_changed(self);
        changes.slaveconf = is_slaveconf_changed(self);
        changes.factory_conf = is_factoryconf_changed(self);
        changes.coolconf = is_coolconf_changed(self);
        changes.pwmconf = is_pwmconf_changed(self);
        changes.tpowerdown = is_tpowerdown_changed(self);
        changes.tpwmthrs = is_tpwmthrs_changed(self);
        changes.sgthrs = is_sgthrs_changed(self);
        changes.tcoolthrs = is_tcoolthrs_changed(self);

        changes
    }
}

fn is_gconf_changed(config: &TMC2209_Config) -> (changed: bool)
    ensures
        changed == touches_gconf(*config),
{
    config.i_scale_analog.is_some() || config.internal_rsense.is_some()
        || config.en_spreadcycle.is_some() || config.index_otpw.is_some()
        || config.index_step.is_some() || config.pdn_disable.is_some()
        || config.mstep_reg_select.is_some() || config.multistep_filt.is_some()
        || config.shaft.is_some()
}

fn is_chopconf_changed(config: &TMC2209_Config) -> (changed: bool)
    ensures
        changed == touches_chopconf(*config),
{
    config.dedge.is_some() || config.diss2g.is_some() || config.diss2vs.is_some()
        || config.hysteresis_end.is_some() || config.hysteresis_start.is_some()
        || config.interpolation.is_some() || config.microsteps.is_some()
        || config.blank_time.is_some() || config.toff.is_some() || config.vsense.is_some()
}

fn is_ihold_irun_changed(config: &TMC2209_Config) -> (changed: bool)
    ensures
        changed == touches_ihold_irun(*config),
{
    config.ihold_delay.is_some() || config.rms_current.is_some()
}

fn is_slaveconf_changed(config: &TMC2209_Config) -> (changed: bool)
    ensures
        changed == touches_slaveconf(*config),
{
    config.senddelay.is_some()
}

fn is_factoryconf_changed(config: &TMC2209_Config) -> (changed: bool)
    ensures
        changed == touches_factory_conf(*config),
{
    config.fclktrim.is_some() || config.ottrim.is_some()
}

fn is_coolconf_changed(config: &TMC2209_Config) -> (changed: bool)
    ensures
        changed == touches_coolconf(*config),
{
    config.sedn.is_some() || config.semin.is_some() || config.seup.is_some()
        || config.semax.is_some() || config.seimin.is_some()
}

fn is_pwmconf_changed(config: &TMC2209_Config) -> (changed: bool)
    ensures
        changed == touches_pwmconf(*config),
{
    config.freewheel.is_some() || config.pwm_autograd.is_some() || config.pwm_autoscale.is_some()
        || config.pwm_freq.is_some() || config.pwm_grad.is_some() || config.pwm_lim.is_some()
        || config.pwm_ofs.is_some() || config.pwm_reg.is_some()
}

fn is_tpowerdown_changed(config: &TMC2209_Config) -> (changed: bool)
    ensures
        changed == (config.tpowerdown is Some),
{
    config.tpowerdown.is_some()
}

fn is_tpwmthrs_changed(config: &TMC2209_Config) -> (changed: bool)
    ensures
        changed == (config.tpwmthrs is Some),
{
    config.tpwmthrs.is_some()
}

fn is_sgthrs_changed(config: &TMC2209_Config) -> (changed: bool)
    ensures
        changed == (config.sgthrs is Some),
{
    config.sgthrs.is_some()
}

fn is_tcoolthrs_changed(config: &TMC2209_Config) -> (changed: bool)
    ensures
        changed == (config.tcoolthrs is Some),
{
    config.tcoolthrs.is_some()
}

/// A change that sets nothing touches no group.
pub proof fn lemma_empty_change_touches_nothing()
    ensures
        touched_groups(TMC2209_Config::empty()) == TMC2209_ConfigRegistersChangesDetected::none(),
{
}

} // verus!
