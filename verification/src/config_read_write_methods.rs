//! What to read before a change is merged, what to write after, and how
//! the words that come back are read.
use vstd::prelude::*;
use crate::bits::{flag, get_field, with_field};
use crate::calc::{
    current_of_run_code, microsteps_of_code, mres_to_microsteps, read_back_current,
};
use crate::config::{TMC2209_Config, TMC2209_DebugConfig, TMC2209_SavedConfig};
use crate::registers::{
    reset_word, Chopconf, Coolconf, FactoryConf, Gconf, IholdIrun, Pwmconf, Register, SgResult,
    Sgthrs, Slaveconf, Tcoolthrs, Tpowerdown, Tpwmthrs, Vactual, CHOPCONF_DEDGE, CHOPCONF_DISS2G,
    CHOPCONF_DISS2VS, CHOPCONF_HEND_LSB, CHOPCONF_HEND_WIDTH, CHOPCONF_HSTRT_LSB,
    CHOPCONF_HSTRT_WIDTH, CHOPCONF_INTPOL, CHOPCONF_MRES_LSB, CHOPCONF_MRES_WIDTH,
    CHOPCONF_TBL_LSB, CHOPCONF_TBL_WIDTH, CHOPCONF_TOFF_LSB, CHOPCONF_TOFF_WIDTH,
    CHOPCONF_VSENSE, FACTORY_CONF_FCLKTRIM_LSB, FACTORY_CONF_FCLKTRIM_WIDTH,
    FACTORY_CONF_OTTRIM_LSB, FACTORY_CONF_OTTRIM_WIDTH, GCONF_EN_SPREAD_CYCLE, GCONF_INDEX_OTPW,
    IHOLD_IRUN_IHOLD_DELAY_LSB, IHOLD_IRUN_IHOLD_DELAY_WIDTH, IHOLD_IRUN_IRUN_LSB,
    IHOLD_IRUN_IRUN_WIDTH,
    GCONF_INDEX_STEP, GCONF_INTERNAL_RSENSE, GCONF_I_SCALE_ANALOG, GCONF_MSTEP_REG_SELECT,
    GCONF_MULTISTEP_FILT, GCONF_PDN_DISABLE, GCONF_SHAFT, PWMCONF_FREEWHEEL_LSB,
    PWMCONF_FREEWHEEL_WIDTH, PWMCONF_PWM_AUTOGRAD, PWMCONF_PWM_AUTOSCALE, PWMCONF_PWM_FREQ_LSB,
    PWMCONF_PWM_FREQ_WIDTH, PWMCONF_PWM_GRAD_LSB, PWMCONF_PWM_GRAD_WIDTH, PWMCONF_PWM_LIM_LSB,
    PWMCONF_PWM_LIM_WIDTH, PWMCONF_PWM_OFS_LSB, PWMCONF_PWM_OFS_WIDTH, PWMCONF_PWM_REG_LSB,
    PWMCONF_PWM_REG_WIDTH, SG_RESULT_WIDTH, VACTUAL_WIDTH,
};
use crate::registers_collection::{
    touched_groups, TMC2209_ConfigRegisters, TMC2209_ConfigRegistersChangesDetected,
};
use crate::tmc_read_write::BusOp;

verus! {

/// FACTORY_CONF is read and written at this address whatever the driver's
/// own address is.
pub const FACTORY_CONF_UART_ADDRESS: u8 = 0;

/// The reads that come before a change is merged: one for every touched
/// group whose image must keep bits that the change does not set (GCONF,
/// CHOPCONF, FACTORY_CONF, PWMCONF), in this order. The other groups are
/// written whole and start from their reset value.
pub open spec fn reads_before(changes: TMC2209_ConfigRegistersChangesDetected, uart_address: u8)
    -> Seq<BusOp> {
    let gconf = if changes.gconf {
        seq![BusOp::Read { register: Register::Gconf, uart_address }]
    } else {
        Seq::<BusOp>::empty()
    };
    let chopconf = if changes.chopconf {
        seq![BusOp::Read { register: Register::Chopconf, uart_address }]
    } else {
        Seq::<BusOp>::empty()
    };
    let factory_conf = if changes.factory_conf {
        seq![
            BusOp::Read {
                register: Register::FactoryConf,
                uart_address: FACTORY_CONF_UART_ADDRESS,
            },
        ]
    } else {
        Seq::<BusOp>::empty()
    };
    let pwmconf = if changes.pwmconf {
        seq![BusOp::Read { register: Register::Pwmconf, uart_address }]
    } else {
        Seq::<BusOp>::empty()
    };
    gconf + chopconf + factory_conf + pwmconf
}

/// The reads that come before `config` is merged.
pub fn registers_to_read(config: &TMC2209_Config, uart_address: u8) -> (reads: Vec<BusOp>)
    ensures
        reads@ == reads_before(touched_groups(*config), uart_address),
{
    let changes = config.which_registers_changed();
    let mut reads: Vec<BusOp> = Vec::new();
    if changes.gconf {
        reads.push(BusOp::Read { register: Register::Gconf, uart_address });
    }
    if changes.chopconf {
        reads.push(BusOp::Read { register: Register::Chopconf, uart_address });
    }
    if changes.factory_conf {
        reads.push(
            BusOp::Read {
                register: Register::FactoryConf,
                uart_address: FACTORY_CONF_UART_ADDRESS,
            },
        );
    }
    if changes.pwmconf {
        reads.push(BusOp::Read { register: Register::Pwmconf, uart_address });
    }
    reads
}

/// Where the word of a read group stands among the words read: after the
/// words of the read groups before it that are touched.
pub open spec fn chopconf_index(changes: TMC2209_ConfigRegistersChangesDetected) -> int {
    if changes.gconf {
        1
    } else {
        0
    }
}

pub open spec fn factory_conf_index(changes: TMC2209_ConfigRegistersChangesDetected) -> int {
    chopconf_index(changes) + if changes.chopconf {
        1int
    } else {
        0int
    }
}

pub open spec fn pwmconf_index(changes: TMC2209_ConfigRegistersChangesDetected) -> int {
    factory_conf_index(changes) + if changes.factory_conf {
        1int
    } else {
        0int
    }
}

/// The images a synchronization starts from: for a touched group that is
/// read, the word read; for a touched group that is written whole, its reset
/// value; nothing for a group that is not touched.
pub open spec fn registers_fetched(
    changes: TMC2209_ConfigRegistersChangesDetected,
    words: Seq<u32>,
) -> TMC2209_ConfigRegisters {
    TMC2209_ConfigRegisters {
        gconf: if changes.gconf {
            Some(Gconf { bits: words[0] })
        } else {
            None
        },
        chopconf: if changes.chopconf {
            Some(Chopconf { bits: words[chopconf_index(changes)] })
        } else {
            None
        },
        slaveconf: if changes.slaveconf {
            Some(Slaveconf { bits: reset_word(Register::Slaveconf.spec_address()) })
        } else {
            None
        },
        factory_conf: if changes.factory_conf {
            Some(FactoryConf { bits: words[factory_conf_index(changes)] })
        } else {
            None
        },
        ihold_irun: if changes.ihold_irun {
            Some(IholdIrun { bits: reset_word(Register::IholdIrun.spec_address()) })
        } else {
            None
        },
        coolconf: if changes.coolconf {
            Some(Coolconf { bits: reset_word(Register::Coolconf.spec_address()) })
        } else {
            None
        },
        pwmconf: if changes.pwmconf {
            Some(Pwmconf { bits: words[pwmconf_index(changes)] })
        } else {
            None
        },
        tpowerdown: if changes.tpowerdown {
            Some(Tpowerdown { bits: reset_word(Register::Tpowerdown.spec_address()) })
        } else {
            None
        },
        tpwmthrs: if changes.tpwmthrs {
            Some(Tpwmthrs { bits: reset_word(Register::Tpwmthrs.spec_address()) })
        } else {
            None
        },
        sgthrs: if changes.sgthrs {
            Some(Sgthrs { bits: reset_word(Register::Sgthrs.spec_address()) })
        } else {
            None
        },
        tcoolthrs: if changes.tcoolthrs {
            Some(Tcoolthrs { bits: reset_word(Register::Tcoolthrs.spec_address()) })
        } else {
            None
        },
    }
}

/// How many reads come before a change that touches `changes` is merged.
pub open spec fn reads_count(changes: TMC2209_ConfigRegistersChangesDetected) -> nat {
    reads_before(changes, 0).len()
}

/// The number of reads does not depend on the driver's address.
pub proof fn lemma_reads_count(changes: TMC2209_ConfigRegistersChangesDetected, uart_address: u8)
    ensures
        reads_before(changes, uart_address).len() == reads_count(changes),
        reads_count(changes) == pwmconf_index(changes) + if changes.pwmconf {
            1int
        } else {
            0int
        },
        reads_count(changes) <= 4,
{
}

/// The images that the merge of `config` starts from, given the words that
/// the reads of [`registers_to_read`] brought, in that order; `None` if
/// there are more or fewer words than reads.
pub fn get_registers_changed_in_config(config: &TMC2209_Config, words: &Vec<u32>) -> (output:
    Option<TMC2209_ConfigRegisters>)
    ensures
        words@.len() == reads_count(touched_groups(*config)) ==> output == Some(
            registers_fetched(touched_groups(*config), words@),
        ),
        words@.len() != reads_count(touched_groups(*config)) ==> output is None,
{
    let changes = config.which_registers_changed();
    proof {
        lemma_reads_count(changes, 0);
    }
    let chopconf_at: usize = if changes.gconf { 1 } else { 0 };
    let factory_conf_at: usize = chopconf_at + if changes.chopconf { 1 } else { 0 };
    let pwmconf_at: usize = factory_conf_at + if changes.factory_conf { 1 } else { 0 };
    let expected: usize = pwmconf_at + if changes.pwmconf { 1 } else { 0 };
    if words.len() != expected {
        return None;
    }
    Some(
        TMC2209_ConfigRegisters {
            gconf: if changes.gconf {
                Some(Gconf { bits: words[0] })
            } else {
                None
            },
            chopconf: if changes.chopconf {
                Some(Chopconf { bits: words[chopconf_at] })
            } else {
                None
            },
            slaveconf: if changes.slaveconf {
                Some(Slaveconf::reset())
            } else {
                None
            },
            factory_conf: if changes.factory_conf {
                Some(FactoryConf { bits: words[factory_conf_at] })
            } else {
                None
            },
            ihold_irun: if changes.ihold_irun {
                Some(IholdIrun::reset())
            } else {
                None
            },
            coolconf: if changes.coolconf {
                Some(Coolconf::reset())
            } else {
                None
            },
            pwmconf: if changes.pwmconf {
                Some(Pwmconf { bits: words[pwmconf_at] })
            } else {
                None
            },
            tpowerdown: if changes.tpowerdown {
                Some(Tpowerdown::reset())
            } else {
                None
            },
            tpwmthrs: if changes.tpwmthrs {
                Some(Tpwmthrs::reset())
            } else {
                None
            },
            sgthrs: if changes.sgthrs {
                Some(Sgthrs::reset())
            } else {
                None
            },
            tcoolthrs: if changes.tcoolthrs {
                Some(Tcoolthrs::reset())
            } else {
                None
            },
        },
    )
}

/// The write of one image, if there is one.
pub open spec fn write_of(register: Register, uart_address: u8, bits: Option<u32>) -> Seq<BusOp> {
    match bits {
        Some(value) => seq![BusOp::Write { register, uart_address, value }],
        None => Seq::<BusOp>::empty(),
    }
}

/// The word of an image, if there is one.
pub open spec fn gconf_word(image: Option<Gconf>) -> Option<u32> {
    match image {
        Some(image) => Some(image.bits),
        None => None,
    }
}

pub open spec fn chopconf_word(image: Option<Chopconf>) -> Option<u32> {
    match image {
        Some(image) => Some(image.bits),
        None => None,
    }
}

pub open spec fn ihold_irun_word(image: Option<IholdIrun>) -> Option<u32> {
    match image {
        Some(image) => Some(image.bits),
        None => None,
    }
}

pub open spec fn slaveconf_word(image: Option<Slaveconf>) -> Option<u32> {
    match image {
        Some(image) => Some(image.bits),
        None => None,
    }
}

pub open spec fn factory_conf_word(image: Option<FactoryConf>) -> Option<u32> {
    match image {
        Some(image) => Some(image.bits),
        None => None,
    }
}

pub open spec fn coolconf_word(image: Option<Coolconf>) -> Option<u32> {
    match image {
        Some(image) => Some(image.bits),
        None => None,
    }
}

pub open spec fn pwmconf_word(image: Option<Pwmconf>) -> Option<u32> {
    match image {
        Some(image) => Some(image.bits),
        None => None,
    }
}

pub open spec fn tpowerdown_word(image: Option<Tpowerdown>) -> Option<u32> {
    match image {
        Some(image) => Some(image.bits),
        None => None,
    }
}

pub open spec fn tpwmthrs_word(image: Option<Tpwmthrs>) -> Option<u32> {
    match image {
        Some(image) => Some(image.bits),
        None => None,
    }
}

pub open spec fn sgthrs_word(image: Option<Sgthrs>) -> Option<u32> {
    match image {
        Some(image) => Some(image.bits),
        None => None,
    }
}

pub open spec fn tcoolthrs_word(image: Option<Tcoolthrs>) -> Option<u32> {
    match image {
        Some(image) => Some(image.bits),
        None => None,
    }
}

/// The writes that send the images to the chip: one for every image that is
/// present, in this order.
pub open spec fn writes_of(uart_address: u8, registers: TMC2209_ConfigRegisters) -> Seq<BusOp> {
    write_of(Register::Gconf, uart_address, gconf_word(registers.gconf)) + write_of(
        Register::Chopconf,
        uart_address,
        chopconf_word(registers.chopconf),
    ) + write_of(Register::IholdIrun, uart_address, ihold_irun_word(registers.ihold_irun))
        + write_of(Register::Slaveconf, uart_address, slaveconf_word(registers.slaveconf))
        + write_of(
        Register::FactoryConf,
        FACTORY_CONF_UART_ADDRESS,
        factory_conf_word(registers.factory_conf),
    ) + write_of(Register::Coolconf, uart_address, coolconf_word(registers.coolconf)) + write_of(
        Register::Pwmconf,
        uart_address,
        pwmconf_word(registers.pwmconf),
    ) + write_of(Register::Tpowerdown, uart_address, tpowerdown_word(registers.tpowerdown))
        + write_of(Register::Tpwmthrs, uart_address, tpwmthrs_word(registers.tpwmthrs))
        + write_of(Register::Sgthrs, uart_address, sgthrs_word(registers.sgthrs)) + write_of(
        Register::Tcoolthrs,
        uart_address,
        tcoolthrs_word(registers.tcoolthrs),
    )
}

/// Appends the write of one image, if there is one.
fn push_write(writes: &mut Vec<BusOp>, register: Register, uart_address: u8, bits: Option<u32>)
    ensures
        final(writes)@ == old(writes)@ + write_of(register, uart_address, bits),
{
    if let Some(value) = bits {
        writes.push(BusOp::Write { register, uart_address, value });
    }
}

/// The writes that send the images of one synchronization to the chip at
/// `uart_address`, in the order in which they are to be made.
pub fn write_registers_changed_in_config(uart_address: u8, registers: &TMC2209_ConfigRegisters)
    -> (writes: Vec<BusOp>)
    ensures
        writes@ == writes_of(uart_address, *registers),
{
    let mut writes: Vec<BusOp> = Vec::new();
    push_write(&mut writes, Register::Gconf, uart_address, match registers.gconf {
        Some(image) => Some(image.bits),
        None => None,
    });
    push_write(&mut writes, Register::Chopconf, uart_address, match registers.chopconf {
        Some(image) => Some(image.bits),
        None => None,
    });
    push_write(&mut writes, Register::IholdIrun, uart_address, match registers.ihold_irun {
        Some(image) => Some(image.bits),
        None => None,
    });
    push_write(&mut writes, Register::Slaveconf, uart_address, match registers.slaveconf {
        Some(image) => Some(image.bits),
        None => None,
    });
    push_write(
        &mut writes,
        Register::FactoryConf,
        FACTORY_CONF_UART_ADDRESS,
        match registers.factory_conf {
            Some(image) => Some(image.bits),
            None => None,
        },
    );
    push_write(&mut writes, Register::Coolconf, uart_address, match registers.coolconf {
        Some(image) => Some(image.bits),
        None => None,
    });
    push_write(&mut writes, Register::Pwmconf, uart_address, match registers.pwmconf {
        Some(image) => Some(image.bits),
        None => None,
    });
    push_write(&mut writes, Register::Tpowerdown, uart_address, match registers.tpowerdown {
        Some(image) => Some(image.bits),
        None => None,
    });
    push_write(&mut writes, Register::Tpwmthrs, uart_address, match registers.tpwmthrs {
        Some(image) => Some(image.bits),
        None => None,
    });
    push_write(&mut writes, Register::Sgthrs, uart_address, match registers.sgthrs {
        Some(image) => Some(image.bits),
        None => None,
    });
    push_write(&mut writes, Register::Tcoolthrs, uart_address, match registers.tcoolthrs {
        Some(image) => Some(image.bits),
        None => None,
    });
    writes
}

/// The reads of a debug read: every readable configuration register.
pub open spec fn debug_reads(uart_address: u8) -> Seq<BusOp> {
    seq![
        BusOp::Read { register: Register::Gconf, uart_address },
        BusOp::Read { register: Register::Chopconf, uart_address },
        BusOp::Read { register: Register::FactoryConf, uart_address: FACTORY_CONF_UART_ADDRESS },
        BusOp::Read { register: Register::Pwmconf, uart_address },
    ]
}

/// The reads whose words [`debug_read_config_from_driver`] takes, in the
/// order of its parameters.
pub fn debug_read_requests(uart_address: u8) -> (reads: Vec<BusOp>)
    ensures
        reads@ == debug_reads(uart_address),
{
    let mut reads: Vec<BusOp> = Vec::new();
    reads.push(BusOp::Read { register: Register::Gconf, uart_address });
    reads.push(BusOp::Read { register: Register::Chopconf, uart_address });
    reads.push(
        BusOp::Read { register: Register::FactoryConf, uart_address: FACTORY_CONF_UART_ADDRESS },
    );
    reads.push(BusOp::Read { register: Register::Pwmconf, uart_address });
    reads
}

/// The settings that four register words hold.
pub open spec fn debug_config_of(gconf: u32, chopconf: u32, factory_conf: u32, pwmconf: u32)
    -> TMC2209_DebugConfig {
    TMC2209_DebugConfig {
        microsteps: microsteps_of_code(get_field(chopconf, CHOPCONF_MRES_LSB, CHOPCONF_MRES_WIDTH)),
        interpolation: flag(chopconf, CHOPCONF_INTPOL),
        blank_time: get_field(chopconf, CHOPCONF_TBL_LSB, CHOPCONF_TBL_WIDTH),
        hysteresis_end: get_field(chopconf, CHOPCONF_HEND_LSB, CHOPCONF_HEND_WIDTH),
        hysteresis_start: get_field(chopconf, CHOPCONF_HSTRT_LSB, CHOPCONF_HSTRT_WIDTH),
        en_spreadcycle: flag(gconf, GCONF_EN_SPREAD_CYCLE),
        pdn_disable: flag(gconf, GCONF_PDN_DISABLE),
        pwm_ofs: get_field(pwmconf, PWMCONF_PWM_OFS_LSB, PWMCONF_PWM_OFS_WIDTH) as u8,
        pwm_grad: get_field(pwmconf, PWMCONF_PWM_GRAD_LSB, PWMCONF_PWM_GRAD_WIDTH) as u8,
        pwm_freq: get_field(pwmconf, PWMCONF_PWM_FREQ_LSB, PWMCONF_PWM_FREQ_WIDTH) as u8,
        pwm_autoscale: flag(pwmconf, PWMCONF_PWM_AUTOSCALE),
        pwm_autograd: flag(pwmconf, PWMCONF_PWM_AUTOGRAD),
        pwm_reg: get_field(pwmconf, PWMCONF_PWM_REG_LSB, PWMCONF_PWM_REG_WIDTH) as u8,
        pwm_lim: get_field(pwmconf, PWMCONF_PWM_LIM_LSB, PWMCONF_PWM_LIM_WIDTH) as u8,
        freewheel: get_field(pwmconf, PWMCONF_FREEWHEEL_LSB, PWMCONF_FREEWHEEL_WIDTH) as u8,
        internal_rsense: flag(gconf, GCONF_INTERNAL_RSENSE),
        i_scale_analog: flag(gconf, GCONF_I_SCALE_ANALOG),
        mstep_reg_select: flag(gconf, GCONF_MSTEP_REG_SELECT),
        multistep_filt: flag(gconf, GCONF_MULTISTEP_FILT),
        index_otpw: flag(gconf, GCONF_INDEX_OTPW),
        index_step: flag(gconf, GCONF_INDEX_STEP),
        toff: get_field(chopconf, CHOPCONF_TOFF_LSB, CHOPCONF_TOFF_WIDTH),
        vsense: flag(chopconf, CHOPCONF_VSENSE),
        dedge: flag(chopconf, CHOPCONF_DEDGE),
        diss2g: flag(chopconf, CHOPCONF_DISS2G),
        diss2vs: flag(chopconf, CHOPCONF_DISS2VS),
        fclktrim: get_field(
            factory_conf,
            FACTORY_CONF_FCLKTRIM_LSB,
            FACTORY_CONF_FCLKTRIM_WIDTH,
        ) as u8,
        ottrim: get_field(factory_conf, FACTORY_CONF_OTTRIM_LSB, FACTORY_CONF_OTTRIM_WIDTH) as u8,
        shaft: flag(gconf, GCONF_SHAFT),
    }
}

/// The settings that the chip holds, from the words of its four readable
/// configuration registers as [`debug_read_requests`] asks for them.
pub fn debug_read_config_from_driver(
    gconf: &Gconf,
    chopconf: &Chopconf,
    factory_conf: &FactoryConf,
    pwmconf: &Pwmconf,
) -> (debug_config: TMC2209_DebugConfig)
    ensures
        debug_config == debug_config_of(gconf.bits, chopconf.bits, factory_conf.bits, pwmconf.bits),
{
    TMC2209_DebugConfig {
        microsteps: mres_to_microsteps(chopconf.mres()),
        interpolation: chopconf.intpol(),
        blank_time: chopconf.tbl(),
        hysteresis_end: chopconf.hend(),
        hysteresis_start: chopconf.hstrt(),
        en_spreadcycle: gconf.en_spread_cycle(),
        pdn_disable: gconf.pdn_disable(),
        pwm_ofs: pwmconf.pwm_ofs(),
        pwm_grad: pwmconf.pwm_grad(),
        pwm_freq: pwmconf.pwm_freq(),
        pwm_autoscale: pwmconf.pwm_autoscale(),
        pwm_autograd: pwmconf.pwm_autograd(),
        pwm_reg: pwmconf.pwm_reg(),
        pwm_lim: pwmconf.pwm_lim(),
        freewheel: pwmconf.freewheel(),
        internal_rsense: gconf.internal_rsense(),
        i_scale_analog: gconf.i_scale_analog(),
        mstep_reg_select: gconf.mstep_reg_select(),
        multistep_filt: gconf.multistep_filt(),
        index_otpw: gconf.index_otpw(),
        index_step: gconf.index_step(),
        toff: chopconf.toff(),
        vsense: chopconf.vsense(),
        dedge: chopconf.dedge(),
        diss2g: chopconf.diss2g(),
        diss2vs: chopconf.diss2vs(),
        fclktrim: factory_conf.fclktrim(),
        ottrim: factory_conf.ottrim(),
        shaft: gconf.shaft(),
    }
}

/// The StallGuard result in a word read from SG_RESULT: its low ten bits.
pub fn read_sg_result(word: u32) -> (result: u16)
    ensures
        result == get_field(word, 0, SG_RESULT_WIDTH),
{
    SgResult { bits: word }.get()
}

/// The read that tests the connection: DRV_STATUS can always be read.
pub fn test_connection(uart_address: u8) -> (read: BusOp)
    ensures
        read == (BusOp::Read { register: Register::DrvStatus, uart_address }),
{
    BusOp::Read { register: Register::DrvStatus, uart_address }
}

/// The write that makes the chip move the motor at velocity `v_actual` by
/// its own pulse generator: VACTUAL from reset, with the low 24 bits of
/// `v_actual`.
pub fn set_vactual(uart_address: u8, v_actual: i32) -> (write: BusOp)
    ensures
        write == (BusOp::Write {
            register: Register::Vactual,
            uart_address,
            value: with_field(
                reset_word(Register::Vactual.spec_address()),
                0,
                VACTUAL_WIDTH,
                v_actual as u32,
            ),
        }),
{
    let mut v_actual_reg = Vactual::reset();
    v_actual_reg.set(v_actual);
    BusOp::Write { register: Register::Vactual, uart_address, value: v_actual_reg.bits }
}

/// What the fields of the four readable registers hold in their reset
/// words.
proof fn lemma_reset_fields()
    by (bit_vector)
    ensures
        flag(0x0000_0041, 0),
        !flag(0x0000_0041, 1),
        !flag(0x0000_0041, 2),
        !flag(0x0000_0041, 3),
        !flag(0x0000_0041, 4),
        !flag(0x0000_0041, 5),
        flag(0x0000_0041, 6),
        !flag(0x0000_0041, 7),
        !flag(0x0000_0041, 8),
        get_field(0x1000_0053, 0, 4) == 3,
        get_field(0x1000_0053, 4, 3) == 5,
        get_field(0x1000_0053, 7, 4) == 0,
        get_field(0x1000_0053, 15, 2) == 0,
        !flag(0x1000_0053, 17),
        get_field(0x1000_0053, 24, 4) == 0,
        flag(0x1000_0053, 28),
        !flag(0x1000_0053, 29),
        !flag(0x1000_0053, 30),
        !flag(0x1000_0053, 31),
        get_field(0, 0, 5) == 0,
        get_field(0, 8, 2) == 0,
        get_field(0xC10D_0024, 0, 8) == 36,
        get_field(0xC10D_0024, 8, 8) == 0,
        get_field(0xC10D_0024, 16, 2) == 1,
        flag(0xC10D_0024, 18),
        flag(0xC10D_0024, 19),
        get_field(0xC10D_0024, 20, 2) == 0,
        get_field(0xC10D_0024, 24, 4) == 1,
        get_field(0xC10D_0024, 28, 4) == 12,
        get_field(0x0000_1F00, 0, 5) == 0,
        get_field(0x0000_1F00, 8, 5) == 31,
        get_field(0x0000_1F00, 16, 4) == 0,
{
}

/// A debug read of a chip fresh from reset gives the saved configuration
/// that a new driver starts with, and the settings that cannot be read
/// start as the reset words of their registers hold them.
pub proof fn lemma_reset_chip_reads_as_new_config()
    ensures
        TMC2209_SavedConfig::from_debug_config(
            debug_config_of(
                reset_word(Register::Gconf.spec_address()),
                reset_word(Register::Chopconf.spec_address()),
                reset_word(Register::FactoryConf.spec_address()),
                reset_word(Register::Pwmconf.spec_address()),
            ),
        ) == TMC2209_SavedConfig::reset(),
        TMC2209_SavedConfig::reset().rms_current == read_back_current(
            get_field(
                reset_word(Register::IholdIrun.spec_address()),
                IHOLD_IRUN_IRUN_LSB,
                IHOLD_IRUN_IRUN_WIDTH,
            ) as u8,
            false,
            110,
        ),
        TMC2209_SavedConfig::reset().ihold_delay == get_field(
            reset_word(Register::IholdIrun.spec_address()),
            IHOLD_IRUN_IHOLD_DELAY_LSB,
            IHOLD_IRUN_IHOLD_DELAY_WIDTH,
        ),
        TMC2209_SavedConfig::reset().tpowerdown == reset_word(
            Register::Tpowerdown.spec_address(),
        ),
        TMC2209_SavedConfig::reset().tpwmthrs == reset_word(Register::Tpwmthrs.spec_address()),
        TMC2209_SavedConfig::reset().sgthrs == reset_word(Register::Sgthrs.spec_address()),
        TMC2209_SavedConfig::reset().tcoolthrs == reset_word(Register::Tcoolthrs.spec_address()),
{
    lemma_reset_fields();
    assert(current_of_run_code(31, false, 110) == 1767) by (nonlinear_arith);
}

} // verus!
