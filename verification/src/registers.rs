//! Images of the chip's registers: one 32-bit word each, with named fields.
//!
//! Field positions follow the register map of the TMC2209 datasheet.
use vstd::prelude::*;
use crate::bits::{
    flag, get_field, lemma_field_fits, read_field, read_flag, with_field, with_flag, write_field,
    write_flag,
};

verus! {

/// The registers this library reads or writes.
#[derive(Clone, Copy, Debug, PartialEq, Eq, Hash, Structural)]
pub enum Register {
    Gconf,
    Chopconf,
    IholdIrun,
    Slaveconf,
    FactoryConf,
    Coolconf,
    Pwmconf,
    Tpowerdown,
    Tpwmthrs,
    Sgthrs,
    Tcoolthrs,
    Vactual,
    SgResult,
    DrvStatus,
}

impl Register {
    /// The register's address on the chip.
    pub open spec fn spec_address(self) -> u8 {
        match self {
            Register::Gconf => 0x00,
            Register::Slaveconf => 0x03,
            Register::FactoryConf => 0x07,
            Register::IholdIrun => 0x10,
            Register::Tpowerdown => 0x11,
            Register::Tpwmthrs => 0x13,
            Register::Tcoolthrs => 0x14,
            Register::Vactual => 0x22,
            Register::Sgthrs => 0x40,
            Register::SgResult => 0x41,
            Register::Coolconf => 0x42,
            Register::Chopconf => 0x6C,
            Register::DrvStatus => 0x6F,
            Register::Pwmconf => 0x70,
        }
    }

    #[verifier::when_used_as_spec(spec_address)]
    pub fn address(self) -> (address: u8)
        ensures
            address == self.spec_address(),
            is_register_address(address),
    {
        match self {
            Register::Gconf => 0x00,
            Register::Slaveconf => 0x03,
            Register::FactoryConf => 0x07,
            Register::IholdIrun => 0x10,
            Register::Tpowerdown => 0x11,
            Register::Tpwmthrs => 0x13,
            Register::Tcoolthrs => 0x14,
            Register::Vactual => 0x22,
            Register::Sgthrs => 0x40,
            Register::SgResult => 0x41,
            Register::Coolconf => 0x42,
            Register::Chopconf => 0x6C,
            Register::DrvStatus => 0x6F,
            Register::Pwmconf => 0x70,
        }
    }
}

/// The addresses in the chip's register map.
pub open spec fn is_register_address(address: u8) -> bool {
    ||| address <= 0x07
    ||| 0x10 <= address <= 0x14
    ||| address == 0x22
    ||| 0x40 <= address <= 0x42
    ||| address == 0x6A
    ||| address == 0x6B
    ||| address == 0x6C
    ||| address == 0x6F
    ||| 0x70 <= address <= 0x72
}

/// The word a register holds after power-on reset.
pub open spec fn reset_word(address: u8) -> u32 {
    if address == 0x00 {
        0x0000_0041
    } else if address == 0x10 {
        0x0000_1F00
    } else if address == 0x11 {
        20
    } else if address == 0x6C {
        0x1000_0053
    } else if address == 0x70 {
        0xC10D_0024
    } else {
        0
    }
}

/// `tmc2209::reg::State::from_addr_default`, read back as a word: the reset
/// value that the tmc2209 crate records for the register at `address`. The
/// crate gives GCONF, IHOLD_IRUN, TPOWERDOWN, CHOPCONF and PWMCONF a value of
/// their own and every other register zero.
#[verifier::external_body]
fn reset_image(address: u8) -> (word: u32)
    requires
        is_register_address(address),
    ensures
        word == reset_word(address),
{
    match tmc2209::reg::Address::try_from(address) {
        Ok(known) => tmc2209::reg::State::from_addr_default(known).into(),
        Err(_) => 0,
    }
}

/// Bit of `i_scale_analog` in GCONF.
pub const GCONF_I_SCALE_ANALOG: u32 = 0;

/// Bit of `internal_rsense` in GCONF.
pub const GCONF_INTERNAL_RSENSE: u32 = 1;

/// Bit of `en_spread_cycle` in GCONF.
pub const GCONF_EN_SPREAD_CYCLE: u32 = 2;

/// Bit of `shaft` in GCONF.
pub const GCONF_SHAFT: u32 = 3;

/// Bit of `index_otpw` in GCONF.
pub const GCONF_INDEX_OTPW: u32 = 4;

/// Bit of `index_step` in GCONF.
pub const GCONF_INDEX_STEP: u32 = 5;

/// Bit of `pdn_disable` in GCONF.
pub const GCONF_PDN_DISABLE: u32 = 6;

/// Bit of `mstep_reg_select` in GCONF.
pub const GCONF_MSTEP_REG_SELECT: u32 = 7;

/// Bit of `multistep_filt` in GCONF.
pub const GCONF_MULTISTEP_FILT: u32 = 8;

/// GCONF, the general configuration register.
#[derive(Clone, Copy, Debug, PartialEq, Eq)]
pub struct Gconf {
    pub bits: u32,
}

impl Gconf {
    /// The image after power-on reset.
    pub fn reset() -> (image: Self)
        ensures
            image.bits == reset_word(Register::Gconf.spec_address()),
    {
        Gconf { bits: reset_image(Register::Gconf.address()) }
    }

    pub fn i_scale_analog(&self) -> (value: bool)
        ensures
            value == flag(self.bits, GCONF_I_SCALE_ANALOG),
    {
        read_flag(self.bits, GCONF_I_SCALE_ANALOG)
    }

    pub fn set_i_scale_analog(&mut self, value: bool)
        ensures
            final(self).bits == with_flag(old(self).bits, GCONF_I_SCALE_ANALOG, value),
    {
        self.bits = write_flag(self.bits, GCONF_I_SCALE_ANALOG, value);
    }

    pub fn internal_rsense(&self) -> (value: bool)
        ensures
            value == flag(self.bits, GCONF_INTERNAL_RSENSE),
    {
        read_flag(self.bits, GCONF_INTERNAL_RSENSE)
    }

    pub fn set_internal_rsense(&mut self, value: bool)
        ensures
            final(self).bits == with_flag(old(self).bits, GCONF_INTERNAL_RSENSE, value),
    {
        self.bits = write_flag(self.bits, GCONF_INTERNAL_RSENSE, value);
    }

    pub fn en_spread_cycle(&self) -> (value: bool)
        ensures
            value == flag(self.bits, GCONF_EN_SPREAD_CYCLE),
    {
        read_flag(self.bits, GCONF_EN_SPREAD_CYCLE)
    }

    pub fn set_en_spread_cycle(&mut self, value: bool)
        ensures
            final(self).bits == with_flag(old(self).bits, GCONF_EN_SPREAD_CYCLE, value),
    {
        self.bits = write_flag(self.bits, GCONF_EN_SPREAD_CYCLE, value);
    }

    pub fn shaft(&self) -> (value: bool)
        ensures
            value == flag(self.bits, GCONF_SHAFT),
    {
        read_flag(self.bits, GCONF_SHAFT)
    }

    pub fn set_shaft(&mut self, value: bool)
        ensures
            final(self).bits == with_flag(old(self).bits, GCONF_SHAFT, value),
    {
        self.bits = write_flag(self.bits, GCONF_SHAFT, value);
    }

    pub fn index_otpw(&self) -> (value: bool)
        ensures
            value == flag(self.bits, GCONF_INDEX_OTPW),
    {
        read_flag(self.bits, GCONF_INDEX_OTPW)
    }

    pub fn set_index_otpw(&mut self, value: bool)
        ensures
            final(self).bits == with_flag(old(self).bits, GCONF_INDEX_OTPW, value),
    {
        self.bits = write_flag(self.bits, GCONF_INDEX_OTPW, value);
    }

    pub fn index_step(&self) -> (value: bool)
        ensures
            value == flag(self.bits, GCONF_INDEX_STEP),
    {
        read_flag(self.bits, GCONF_INDEX_STEP)
    }

    pub fn set_index_step(&mut self, value: bool)
        ensures
            final(self).bits == with_flag(old(self).bits, GCONF_INDEX_STEP, value),
    {
        self.bits = write_flag(self.bits, GCONF_INDEX_STEP, value);
    }

    pub fn pdn_disable(&self) -> (value: bool)
        ensures
            value == flag(self.bits, GCONF_PDN_DISABLE),
    {
        read_flag(self.bits, GCONF_PDN_DISABLE)
    }

    pub fn set_pdn_disable(&mut self, value: bool)
        ensures
            final(self).bits == with_flag(old(self).bits, GCONF_PDN_DISABLE, value),
    {
        self.bits = write_flag(self.bits, GCONF_PDN_DISABLE, value);
    }

    pub fn mstep_reg_select(&self) -> (value: bool)
        ensures
            value == flag(self.bits, GCONF_MSTEP_REG_SELECT),
    {
        read_flag(self.bits, GCONF_MSTEP_REG_SELECT)
    }

    pub fn set_mstep_reg_select(&mut self, value: bool)
        ensures
            final(self).bits == with_flag(old(self).bits, GCONF_MSTEP_REG_SELECT, value),
    {
        self.bits = write_flag(self.bits, GCONF_MSTEP_REG_SELECT, value);
    }

    pub fn multistep_filt(&self) -> (value: bool)
        ensures
            value == flag(self.bits, GCONF_MULTISTEP_FILT),
    {
        read_flag(self.bits, GCONF_MULTISTEP_FILT)
    }

    pub fn set_multistep_filt(&mut self, value: bool)
        ensures
            final(self).bits == with_flag(old(self).bits, GCONF_MULTISTEP_FILT, value),
    {
        self.bits = write_flag(self.bits, GCONF_MULTISTEP_FILT, value);
    }
}

/// Lowest bit and width of `toff` in CHOPCONF.
pub const CHOPCONF_TOFF_LSB: u32 = 0;
pub const CHOPCONF_TOFF_WIDTH: u32 = 4;

/// Lowest bit and width of `hstrt` in CHOPCONF.
pub const CHOPCONF_HSTRT_LSB: u32 = 4;
pub const CHOPCONF_HSTRT_WIDTH: u32 = 3;

/// Lowest bit and width of `hend` in CHOPCONF.
pub const CHOPCONF_HEND_LSB: u32 = 7;
pub const CHOPCONF_HEND_WIDTH: u32 = 4;

/// Lowest bit and width of `tbl` in CHOPCONF.
pub const CHOPCONF_TBL_LSB: u32 = 15;
pub const CHOPCONF_TBL_WIDTH: u32 = 2;

/// Bit of `vsense` in CHOPCONF.
pub const CHOPCONF_VSENSE: u32 = 17;

/// Lowest bit and width of `mres` in CHOPCONF.
pub const CHOPCONF_MRES_LSB: u32 = 24;
pub const CHOPCONF_MRES_WIDTH: u32 = 4;

/// Bit of `intpol` in CHOPCONF.
pub const CHOPCONF_INTPOL: u32 = 28;

/// Bit of `dedge` in CHOPCONF.
pub const CHOPCONF_DEDGE: u32 = 29;

/// Bit of `diss2g` in CHOPCONF.
pub const CHOPCONF_DISS2G: u32 = 30;

/// Bit of `diss2vs` in CHOPCONF.
pub const CHOPCONF_DISS2VS: u32 = 31;

/// CHOPCONF, the chopper configuration register.
#[derive(Clone, Copy, Debug, PartialEq, Eq)]
pub struct Chopconf {
    pub bits: u32,
}

impl Chopconf {
    /// The image after power-on reset.
    pub fn reset() -> (image: Self)
        ensures
            image.bits == reset_word(Register::Chopconf.spec_address()),
    {
        Chopconf { bits: reset_image(Register::Chopconf.address()) }
    }

    pub fn toff(&self) -> (value: u32)
        ensures
            value == get_field(self.bits, CHOPCONF_TOFF_LSB, CHOPCONF_TOFF_WIDTH),
    {
        read_field(self.bits, CHOPCONF_TOFF_LSB, CHOPCONF_TOFF_WIDTH)
    }

    /// Only the low 4 bits of `value` are kept.
    pub fn set_toff(&mut self, value: u32)
        ensures
            final(self).bits
                == with_field(old(self).bits, CHOPCONF_TOFF_LSB, CHOPCONF_TOFF_WIDTH, value),
    {
        self.bits = write_field(self.bits, CHOPCONF_TOFF_LSB, CHOPCONF_TOFF_WIDTH, value);
    }

    pub fn hstrt(&self) -> (value: u32)
        ensures
            value == get_field(self.bits, CHOPCONF_HSTRT_LSB, CHOPCONF_HSTRT_WIDTH),
    {
        read_field(self.bits, CHOPCONF_HSTRT_LSB, CHOPCONF_HSTRT_WIDTH)
    }

    /// Only the low 3 bits of `value` are kept.
    pub fn set_hstrt(&mut self, value: u32)
        ensures
            final(self).bits
                == with_field(old(self).bits, CHOPCONF_HSTRT_LSB, CHOPCONF_HSTRT_WIDTH, value),
    {
        self.bits = write_field(self.bits, CHOPCONF_HSTRT_LSB, CHOPCONF_HSTRT_WIDTH, value);
    }

    pub fn hend(&self) -> (value: u32)
        ensures
            value == get_field(self.bits, CHOPCONF_HEND_LSB, CHOPCONF_HEND_WIDTH),
    {
        read_field(self.bits, CHOPCONF_HEND_LSB, CHOPCONF_HEND_WIDTH)
    }

    /// Only the low 4 bits of `value` are kept.
    pub fn set_hend(&mut self, value: u32)
        ensures
            final(self).bits
                == with_field(old(self).bits, CHOPCONF_HEND_LSB, CHOPCONF_HEND_WIDTH, value),
    {
        self.bits = write_field(self.bits, CHOPCONF_HEND_LSB, CHOPCONF_HEND_WIDTH, value);
    }

    pub fn tbl(&self) -> (value: u32)
        ensures
            value == get_field(self.bits, CHOPCONF_TBL_LSB, CHOPCONF_TBL_WIDTH),
    {
        read_field(self.bits, CHOPCONF_TBL_LSB, CHOPCONF_TBL_WIDTH)
    }

    /// Only the low 2 bits of `value` are kept.
    pub fn set_tbl(&mut self, value: u32)
        ensures
            final(self).bits
                == with_field(old(self).bits, CHOPCONF_TBL_LSB, CHOPCONF_TBL_WIDTH, value),
    {
        self.bits = write_field(self.bits, CHOPCONF_TBL_LSB, CHOPCONF_TBL_WIDTH, value);
    }

    pub fn vsense(&self) -> (value: bool)
        ensures
            value == flag(self.bits, CHOPCONF_VSENSE),
    {
        read_flag(self.bits, CHOPCONF_VSENSE)
    }

    pub fn set_vsense(&mut self, value: bool)
        ensures
            final(self).bits == with_flag(old(self).bits, CHOPCONF_VSENSE, value),
    {
        self.bits = write_flag(self.bits, CHOPCONF_VSENSE, value);
    }

    pub fn mres(&self) -> (value: u32)
        ensures
            value == get_field(self.bits, CHOPCONF_MRES_LSB, CHOPCONF_MRES_WIDTH),
    {
        read_field(self.bits, CHOPCONF_MRES_LSB, CHOPCONF_MRES_WIDTH)
    }

    /// Only the low 4 bits of `value` are kept.
    pub fn set_mres(&mut self, value: u32)
        ensures
            final(self).bits
                == with_field(old(self).bits, CHOPCONF_MRES_LSB, CHOPCONF_MRES_WIDTH, value),
    {
        self.bits = write_field(self.bits, CHOPCONF_MRES_LSB, CHOPCONF_MRES_WIDTH, value);
    }

    pub fn intpol(&self) -> (value: bool)
        ensures
            value == flag(self.bits, CHOPCONF_INTPOL),
    {
        read_flag(self.bits, CHOPCONF_INTPOL)
    }

    pub fn set_intpol(&mut self, value: bool)
        ensures
            final(self).bits == with_flag(old(self).bits, CHOPCONF_INTPOL, value),
    {
        self.bits = write_flag(self.bits, CHOPCONF_INTPOL, value);
    }

    pub fn dedge(&self) -> (value: bool)
        ensures
            value == flag(self.bits, CHOPCONF_DEDGE),
    {
        read_flag(self.bits, CHOPCONF_DEDGE)
    }

    pub fn set_dedge(&mut self, value: bool)
        ensures
            final(self).bits == with_flag(old(self).bits, CHOPCONF_DEDGE, value),
    {
        self.bits = write_flag(self.bits, CHOPCONF_DEDGE, value);
    }

    pub fn diss2g(&self) -> (value: bool)
        ensures
            value == flag(self.bits, CHOPCONF_DISS2G),
    {
        read_flag(self.bits, CHOPCONF_DISS2G)
    }

    pub fn set_diss2g(&mut self, value: bool)
        ensures
            final(self).bits == with_flag(old(self).bits, CHOPCONF_DISS2G, value),
    {
        self.bits = write_flag(self.bits, CHOPCONF_DISS2G, value);
    }

    pub fn diss2vs(&self) -> (value: bool)
        ensures
            value == flag(self.bits, CHOPCONF_DISS2VS),
    {
        read_flag(self.bits, CHOPCONF_DISS2VS)
    }

    pub fn set_diss2vs(&mut self, value: bool)
        ensures
            final(self).bits == with_flag(old(self).bits, CHOPCONF_DISS2VS, value),
    {
        self.bits = write_flag(self.bits, CHOPCONF_DISS2VS, value);
    }
}

/// Lowest bit and width of `ihold` in IHOLD_IRUN.
pub const IHOLD_IRUN_IHOLD_LSB: u32 = 0;
pub const IHOLD_IRUN_IHOLD_WIDTH: u32 = 5;

/// Lowest bit and width of `irun` in IHOLD_IRUN.
pub const IHOLD_IRUN_IRUN_LSB: u32 = 8;
pub const IHOLD_IRUN_IRUN_WIDTH: u32 = 5;

/// Lowest bit and width of `ihold_delay` in IHOLD_IRUN.
pub const IHOLD_IRUN_IHOLD_DELAY_LSB: u32 = 16;
pub const IHOLD_IRUN_IHOLD_DELAY_WIDTH: u32 = 4;

/// IHOLD_IRUN, the hold and run current register (write only).
#[derive(Clone, Copy, Debug, PartialEq, Eq)]
pub struct IholdIrun {
    pub bits: u32,
}

impl IholdIrun {
    /// The image after power-on reset.
    pub fn reset() -> (image: Self)
        ensures
            image.bits == reset_word(Register::IholdIrun.spec_address()),
    {
        IholdIrun { bits: reset_image(Register::IholdIrun.address()) }
    }

    pub fn ihold(&self) -> (value: u8)
        ensures
            value == get_field(self.bits, IHOLD_IRUN_IHOLD_LSB, IHOLD_IRUN_IHOLD_WIDTH),
    {
        let field = read_field(self.bits, IHOLD_IRUN_IHOLD_LSB, IHOLD_IRUN_IHOLD_WIDTH);
        proof {
            lemma_field_fits(self.bits, IHOLD_IRUN_IHOLD_LSB, IHOLD_IRUN_IHOLD_WIDTH);
        }
        field as u8
    }

    /// Only the low 5 bits of `value` are kept.
    pub fn set_ihold(&mut self, value: u8)
        ensures
            final(self).bits
                == with_field(
                    old(self).bits,
                    IHOLD_IRUN_IHOLD_LSB,
                    IHOLD_IRUN_IHOLD_WIDTH,
                    value as u32,
                ),
    {
        self.bits = write_field(
            self.bits,
            IHOLD_IRUN_IHOLD_LSB,
            IHOLD_IRUN_IHOLD_WIDTH,
            value as u32,
        );
    }

    pub fn irun(&self) -> (value: u8)
        ensures
            value == get_field(self.bits, IHOLD_IRUN_IRUN_LSB, IHOLD_IRUN_IRUN_WIDTH),
    {
        let field = read_field(self.bits, IHOLD_IRUN_IRUN_LSB, IHOLD_IRUN_IRUN_WIDTH);
        proof {
            lemma_field_fits(self.bits, IHOLD_IRUN_IRUN_LSB, IHOLD_IRUN_IRUN_WIDTH);
        }
        field as u8
    }

    /// Only the low 5 bits of `value` are kept.
    pub fn set_irun(&mut self, value: u8)
        ensures
            final(self).bits
                == with_field(
                    old(self).bits,
                    IHOLD_IRUN_IRUN_LSB,
                    IHOLD_IRUN_IRUN_WIDTH,
                    value as u32,
                ),
    {
        self.bits = write_field(
            self.bits,
            IHOLD_IRUN_IRUN_LSB,
            IHOLD_IRUN_IRUN_WIDTH,
            value as u32,
        );
    }

    pub fn ihold_delay(&self) -> (value: u8)
        ensures
            value == get_field(self.bits, IHOLD_IRUN_IHOLD_DELAY_LSB, IHOLD_IRUN_IHOLD_DELAY_WIDTH),
    {
        let field = read_field(self.bits, IHOLD_IRUN_IHOLD_DELAY_LSB, IHOLD_IRUN_IHOLD_DELAY_WIDTH);
        proof {
            lemma_field_fits(self.bits, IHOLD_IRUN_IHOLD_DELAY_LSB, IHOLD_IRUN_IHOLD_DELAY_WIDTH);
        }
        field as u8
    }

    /// Only the low 4 bits of `value` are kept.
    pub fn set_ihold_delay(&mut self, value: u8)
        ensures
            final(self).bits
                == with_field(
                    old(self).bits,
                    IHOLD_IRUN_IHOLD_DELAY_LSB,
                    IHOLD_IRUN_IHOLD_DELAY_WIDTH,
                    value as u32,
                ),
    {
        self.bits = write_field(
            self.bits,
            IHOLD_IRUN_IHOLD_DELAY_LSB,
            IHOLD_IRUN_IHOLD_DELAY_WIDTH,
            value as u32,
        );
    }
}

/// Lowest bit and width of `senddelay` in SLAVECONF.
pub const SLAVECONF_SENDDELAY_LSB: u32 = 8;
pub const SLAVECONF_SENDDELAY_WIDTH: u32 = 4;

/// SLAVECONF, the reply delay register (write only).
#[derive(Clone, Copy, Debug, PartialEq, Eq)]
pub struct Slaveconf {
    pub bits: u32,
}

impl Slaveconf {
    /// The image after power-on reset.
    pub fn reset() -> (image: Self)
        ensures
            image.bits == reset_word(Register::Slaveconf.spec_address()),
    {
        Slaveconf { bits: reset_image(Register::Slaveconf.address()) }
    }

    pub fn get(&self) -> (value: u8)
        ensures
            value == get_field(self.bits, SLAVECONF_SENDDELAY_LSB, SLAVECONF_SENDDELAY_WIDTH),
    {
        let field = read_field(self.bits, SLAVECONF_SENDDELAY_LSB, SLAVECONF_SENDDELAY_WIDTH);
        proof {
            lemma_field_fits(self.bits, SLAVECONF_SENDDELAY_LSB, SLAVECONF_SENDDELAY_WIDTH);
        }
        field as u8
    }

    /// Only the low 4 bits of `value` are kept.
    pub fn set(&mut self, value: u8)
        ensures
            final(self).bits
                == with_field(
                    old(self).bits,
                    SLAVECONF_SENDDELAY_LSB,
                    SLAVECONF_SENDDELAY_WIDTH,
                    value as u32,
                ),
    {
        self.bits = write_field(
            self.bits,
            SLAVECONF_SENDDELAY_LSB,
            SLAVECONF_SENDDELAY_WIDTH,
            value as u32,
        );
    }
}

/// Lowest bit and width of `fclktrim` in FACTORY_CONF.
pub const FACTORY_CONF_FCLKTRIM_LSB: u32 = 0;
pub const FACTORY_CONF_FCLKTRIM_WIDTH: u32 = 5;

/// Lowest bit and width of `ottrim` in FACTORY_CONF.
pub const FACTORY_CONF_OTTRIM_LSB: u32 = 8;
pub const FACTORY_CONF_OTTRIM_WIDTH: u32 = 2;

/// FACTORY_CONF, the factory trim register.
#[derive(Clone, Copy, Debug, PartialEq, Eq)]
pub struct FactoryConf {
    pub bits: u32,
}

impl FactoryConf {
    /// The image after power-on reset.
    pub fn reset() -> (image: Self)
        ensures
            image.bits == reset_word(Register::FactoryConf.spec_address()),
    {
        FactoryConf { bits: reset_image(Register::FactoryConf.address()) }
    }

    pub fn fclktrim(&self) -> (value: u8)
        ensures
            value == get_field(self.bits, FACTORY_CONF_FCLKTRIM_LSB, FACTORY_CONF_FCLKTRIM_WIDTH),
    {
        let field = read_field(self.bits, FACTORY_CONF_FCLKTRIM_LSB, FACTORY_CONF_FCLKTRIM_WIDTH);
        proof {
            lemma_field_fits(self.bits, FACTORY_CONF_FCLKTRIM_LSB, FACTORY_CONF_FCLKTRIM_WIDTH);
        }
        field as u8
    }

    /// Only the low 5 bits of `value` are kept.
    pub fn set_fclktrim(&mut self, value: u8)
        ensures
            final(self).bits
                == with_field(
                    old(self).bits,
                    FACTORY_CONF_FCLKTRIM_LSB,
                    FACTORY_CONF_FCLKTRIM_WIDTH,
                    value as u32,
                ),
    {
        self.bits = write_field(
            self.bits,
            FACTORY_CONF_FCLKTRIM_LSB,
            FACTORY_CONF_FCLKTRIM_WIDTH,
            value as u32,
        );
    }

    pub fn ottrim(&self) -> (value: u8)
        ensures
            value == get_field(self.bits, FACTORY_CONF_OTTRIM_LSB, FACTORY_CONF_OTTRIM_WIDTH),
    {
        let field = read_field(self.bits, FACTORY_CONF_OTTRIM_LSB, FACTORY_CONF_OTTRIM_WIDTH);
        proof {
            lemma_field_fits(self.bits, FACTORY_CONF_OTTRIM_LSB, FACTORY_CONF_OTTRIM_WIDTH);
        }
        field as u8
    }

    /// Only the low 2 bits of `value` are kept.
    pub fn set_ottrim(&mut self, value: u8)
        ensures
            final(self).bits
                == with_field(
                    old(self).bits,
                    FACTORY_CONF_OTTRIM_LSB,
                    FACTORY_CONF_OTTRIM_WIDTH,
                    value as u32,
                ),
    {
        self.bits = write_field(
            self.bits,
            FACTORY_CONF_OTTRIM_LSB,
            FACTORY_CONF_OTTRIM_WIDTH,
            value as u32,
        );
    }
}

/// Lowest bit and width of `semin` in COOLCONF.
pub const COOLCONF_SEMIN_LSB: u32 = 0;
pub const COOLCONF_SEMIN_WIDTH: u32 = 4;

/// Lowest bit and width of `seup` in COOLCONF.
pub const COOLCONF_SEUP_LSB: u32 = 5;
pub const COOLCONF_SEUP_WIDTH: u32 = 2;

/// Lowest bit and width of `semax` in COOLCONF.
pub const COOLCONF_SEMAX_LSB: u32 = 8;
pub const COOLCONF_SEMAX_WIDTH: u32 = 4;

/// Lowest bit and width of `sedn` in COOLCONF.
pub const COOLCONF_SEDN_LSB: u32 = 13;
pub const COOLCONF_SEDN_WIDTH: u32 = 2;

/// Bit of `seimin` in COOLCONF.
pub const COOLCONF_SEIMIN: u32 = 15;

/// COOLCONF, the CoolStep configuration register (write only).
#[derive(Clone, Copy, Debug, PartialEq, Eq)]
pub struct Coolconf {
    pub bits: u32,
}

impl Coolconf {
    /// The image after power-on reset.
    pub fn reset() -> (image: Self)
        ensures
            image.bits == reset_word(Register::Coolconf.spec_address()),
    {
        Coolconf { bits: reset_image(Register::Coolconf.address()) }
    }

    pub fn semin(&self) -> (value: u16)
        ensures
            value == get_field(self.bits, COOLCONF_SEMIN_LSB, COOLCONF_SEMIN_WIDTH),
    {
        let field = read_field(self.bits, COOLCONF_SEMIN_LSB, COOLCONF_SEMIN_WIDTH);
        proof {
            lemma_field_fits(self.bits, COOLCONF_SEMIN_LSB, COOLCONF_SEMIN_WIDTH);
        }
        field as u16
    }

    /// Only the low 4 bits of `value` are kept.
    pub fn set_semin(&mut self, value: u16)
        ensures
            final(self).bits
                == with_field(
                    old(self).bits,
                    COOLCONF_SEMIN_LSB,
                    COOLCONF_SEMIN_WIDTH,
                    value as u32,
                ),
    {
        self.bits = write_field(self.bits, COOLCONF_SEMIN_LSB, COOLCONF_SEMIN_WIDTH, value as u32);
    }

    pub fn seup(&self) -> (value: u16)
        ensures
            value == get_field(self.bits, COOLCONF_SEUP_LSB, COOLCONF_SEUP_WIDTH),
    {
        let field = read_field(self.bits, COOLCONF_SEUP_LSB, COOLCONF_SEUP_WIDTH);
        proof {
            lemma_field_fits(self.bits, COOLCONF_SEUP_LSB, COOLCONF_SEUP_WIDTH);
        }
        field as u16
    }

    /// Only the low 2 bits of `value` are kept.
    pub fn set_seup(&mut self, value: u16)
        ensures
            final(self).bits
                == with_field(old(self).bits, COOLCONF_SEUP_LSB, COOLCONF_SEUP_WIDTH, value as u32),
    {
        self.bits = write_field(self.bits, COOLCONF_SEUP_LSB, COOLCONF_SEUP_WIDTH, value as u32);
    }

    pub fn semax(&self) -> (value: u16)
        ensures
            value == get_field(self.bits, COOLCONF_SEMAX_LSB, COOLCONF_SEMAX_WIDTH),
    {
        let field = read_field(self.bits, COOLCONF_SEMAX_LSB, COOLCONF_SEMAX_WIDTH);
        proof {
            lemma_field_fits(self.bits, COOLCONF_SEMAX_LSB, COOLCONF_SEMAX_WIDTH);
        }
        field as u16
    }

    /// Only the low 4 bits of `value` are kept.
    pub fn set_semax(&mut self, value: u16)
        ensures
            final(self).bits
                == with_field(
                    old(self).bits,
                    COOLCONF_SEMAX_LSB,
                    COOLCONF_SEMAX_WIDTH,
                    value as u32,
                ),
    {
        self.bits = write_field(self.bits, COOLCONF_SEMAX_LSB, COOLCONF_SEMAX_WIDTH, value as u32);
    }

    pub fn sedn(&self) -> (value: u16)
        ensures
            value == get_field(self.bits, COOLCONF_SEDN_LSB, COOLCONF_SEDN_WIDTH),
    {
        let field = read_field(self.bits, COOLCONF_SEDN_LSB, COOLCONF_SEDN_WIDTH);
        proof {
            lemma_field_fits(self.bits, COOLCONF_SEDN_LSB, COOLCONF_SEDN_WIDTH);
        }
        field as u16
    }

    /// Only the low 2 bits of `value` are kept.
    pub fn set_sedn(&mut self, value: u16)
        ensures
            final(self).bits
                == with_field(old(self).bits, COOLCONF_SEDN_LSB, COOLCONF_SEDN_WIDTH, value as u32),
    {
        self.bits = write_field(self.bits, COOLCONF_SEDN_LSB, COOLCONF_SEDN_WIDTH, value as u32);
    }

    pub fn seimin(&self) -> (value: bool)
        ensures
            value == flag(self.bits, COOLCONF_SEIMIN),
    {
        read_flag(self.bits, COOLCONF_SEIMIN)
    }

    pub fn set_seimin(&mut self, value: bool)
        ensures
            final(self).bits == with_flag(old(self).bits, COOLCONF_SEIMIN, value),
    {
        self.bits = write_flag(self.bits, COOLCONF_SEIMIN, value);
    }
}

/// Lowest bit and width of `pwm_ofs` in PWMCONF.
pub const PWMCONF_PWM_OFS_LSB: u32 = 0;
pub const PWMCONF_PWM_OFS_WIDTH: u32 = 8;

/// Lowest bit and width of `pwm_grad` in PWMCONF.
pub const PWMCONF_PWM_GRAD_LSB: u32 = 8;
pub const PWMCONF_PWM_GRAD_WIDTH: u32 = 8;

/// Lowest bit and width of `pwm_freq` in PWMCONF.
pub const PWMCONF_PWM_FREQ_LSB: u32 = 16;
pub const PWMCONF_PWM_FREQ_WIDTH: u32 = 2;

/// Bit of `pwm_autoscale` in PWMCONF.
pub const PWMCONF_PWM_AUTOSCALE: u32 = 18;

/// Bit of `pwm_autograd` in PWMCONF.
pub const PWMCONF_PWM_AUTOGRAD: u32 = 19;

/// Lowest bit and width of `freewheel` in PWMCONF.
pub const PWMCONF_FREEWHEEL_LSB: u32 = 20;
pub const PWMCONF_FREEWHEEL_WIDTH: u32 = 2;

/// Lowest bit and width of `pwm_reg` in PWMCONF.
pub const PWMCONF_PWM_REG_LSB: u32 = 24;
pub const PWMCONF_PWM_REG_WIDTH: u32 = 4;

/// Lowest bit and width of `pwm_lim` in PWMCONF.
pub const PWMCONF_PWM_LIM_LSB: u32 = 28;
pub const PWMCONF_PWM_LIM_WIDTH: u32 = 4;

/// PWMCONF, the StealthChop PWM configuration register.
#[derive(Clone, Copy, Debug, PartialEq, Eq)]
pub struct Pwmconf {
    pub bits: u32,
}

impl Pwmconf {
    /// The image after power-on reset.
    pub fn reset() -> (image: Self)
        ensures
            image.bits == reset_word(Register::Pwmconf.spec_address()),
    {
        Pwmconf { bits: reset_image(Register::Pwmconf.address()) }
    }

    pub fn pwm_ofs(&self) -> (value: u8)
        ensures
            value == get_field(self.bits, PWMCONF_PWM_OFS_LSB, PWMCONF_PWM_OFS_WIDTH),
    {
        let field = read_field(self.bits, PWMCONF_PWM_OFS_LSB, PWMCONF_PWM_OFS_WIDTH);
        proof {
            lemma_field_fits(self.bits, PWMCONF_PWM_OFS_LSB, PWMCONF_PWM_OFS_WIDTH);
        }
        field as u8
    }

    /// Only the low 8 bits of `value` are kept.
    pub fn set_pwm_ofs(&mut self, value: u8)
        ensures
            final(self).bits
                == with_field(
                    old(self).bits,
                    PWMCONF_PWM_OFS_LSB,
                    PWMCONF_PWM_OFS_WIDTH,
                    value as u32,
                ),
    {
        self.bits = write_field(
            self.bits,
            PWMCONF_PWM_OFS_LSB,
            PWMCONF_PWM_OFS_WIDTH,
            value as u32,
        );
    }

    pub fn pwm_grad(&self) -> (value: u8)
        ensures
            value == get_field(self.bits, PWMCONF_PWM_GRAD_LSB, PWMCONF_PWM_GRAD_WIDTH),
    {
        let field = read_field(self.bits, PWMCONF_PWM_GRAD_LSB, PWMCONF_PWM_GRAD_WIDTH);
        proof {
            lemma_field_fits(self.bits, PWMCONF_PWM_GRAD_LSB, PWMCONF_PWM_GRAD_WIDTH);
        }
        field as u8
    }

    /// Only the low 8 bits of `value` are kept.
    pub fn set_pwm_grad(&mut self, value: u8)
        ensures
            final(self).bits
                == with_field(
                    old(self).bits,
                    PWMCONF_PWM_GRAD_LSB,
                    PWMCONF_PWM_GRAD_WIDTH,
                    value as u32,
                ),
    {
        self.bits = write_field(
            self.bits,
            PWMCONF_PWM_GRAD_LSB,
            PWMCONF_PWM_GRAD_WIDTH,
            value as u32,
        );
    }

    pub fn pwm_freq(&self) -> (value: u8)
        ensures
            value == get_field(self.bits, PWMCONF_PWM_FREQ_LSB, PWMCONF_PWM_FREQ_WIDTH),
    {
        let field = read_field(self.bits, PWMCONF_PWM_FREQ_LSB, PWMCONF_PWM_FREQ_WIDTH);
        proof {
            lemma_field_fits(self.bits, PWMCONF_PWM_FREQ_LSB, PWMCONF_PWM_FREQ_WIDTH);
        }
        field as u8
    }

    /// Only the low 2 bits of `value` are kept.
    pub fn set_pwm_freq(&mut self, value: u8)
        ensures
            final(self).bits
                == with_field(
                    old(self).bits,
                    PWMCONF_PWM_FREQ_LSB,
                    PWMCONF_PWM_FREQ_WIDTH,
                    value as u32,
                ),
    {
        self.bits = write_field(
            self.bits,
            PWMCONF_PWM_FREQ_LSB,
            PWMCONF_PWM_FREQ_WIDTH,
            value as u32,
        );
    }

    pub fn pwm_autoscale(&self) -> (value: bool)
        ensures
            value == flag(self.bits, PWMCONF_PWM_AUTOSCALE),
    {
        read_flag(self.bits, PWMCONF_PWM_AUTOSCALE)
    }

    pub fn set_pwm_autoscale(&mut self, value: bool)
        ensures
            final(self).bits == with_flag(old(self).bits, PWMCONF_PWM_AUTOSCALE, value),
    {
        self.bits = write_flag(self.bits, PWMCONF_PWM_AUTOSCALE, value);
    }

    pub fn pwm_autograd(&self) -> (value: bool)
        ensures
            value == flag(self.bits, PWMCONF_PWM_AUTOGRAD),
    {
        read_flag(self.bits, PWMCONF_PWM_AUTOGRAD)
    }

    pub fn set_pwm_autograd(&mut self, value: bool)
        ensures
            final(self).bits == with_flag(old(self).bits, PWMCONF_PWM_AUTOGRAD, value),
    {
        self.bits = write_flag(self.bits, PWMCONF_PWM_AUTOGRAD, value);
    }

    pub fn freewheel(&self) -> (value: u8)
        ensures
            value == get_field(self.bits, PWMCONF_FREEWHEEL_LSB, PWMCONF_FREEWHEEL_WIDTH),
    {
        let field = read_field(self.bits, PWMCONF_FREEWHEEL_LSB, PWMCONF_FREEWHEEL_WIDTH);
        proof {
            lemma_field_fits(self.bits, PWMCONF_FREEWHEEL_LSB, PWMCONF_FREEWHEEL_WIDTH);
        }
        field as u8
    }

    /// Only the low 2 bits of `value` are kept.
    pub fn set_freewheel(&mut self, value: u8)
        ensures
            final(self).bits
                == with_field(
                    old(self).bits,
                    PWMCONF_FREEWHEEL_LSB,
                    PWMCONF_FREEWHEEL_WIDTH,
                    value as u32,
                ),
    {
        self.bits = write_field(
            self.bits,
            PWMCONF_FREEWHEEL_LSB,
            PWMCONF_FREEWHEEL_WIDTH,
            value as u32,
        );
    }

    pub fn pwm_reg(&self) -> (value: u8)
        ensures
            value == get_field(self.bits, PWMCONF_PWM_REG_LSB, PWMCONF_PWM_REG_WIDTH),
    {
        let field = read_field(self.bits, PWMCONF_PWM_REG_LSB, PWMCONF_PWM_REG_WIDTH);
        proof {
            lemma_field_fits(self.bits, PWMCONF_PWM_REG_LSB, PWMCONF_PWM_REG_WIDTH);
        }
        field as u8
    }

    /// Only the low 4 bits of `value` are kept.
    pub fn set_pwm_reg(&mut self, value: u8)
        ensures
            final(self).bits
                == with_field(
                    old(self).bits,
                    PWMCONF_PWM_REG_LSB,
                    PWMCONF_PWM_REG_WIDTH,
                    value as u32,
                ),
    {
        self.bits = write_field(
            self.bits,
            PWMCONF_PWM_REG_LSB,
            PWMCONF_PWM_REG_WIDTH,
            value as u32,
        );
    }

    pub fn pwm_lim(&self) -> (value: u8)
        ensures
            value == get_field(self.bits, PWMCONF_PWM_LIM_LSB, PWMCONF_PWM_LIM_WIDTH),
    {
        let field = read_field(self.bits, PWMCONF_PWM_LIM_LSB, PWMCONF_PWM_LIM_WIDTH);
        proof {
            lemma_field_fits(self.bits, PWMCONF_PWM_LIM_LSB, PWMCONF_PWM_LIM_WIDTH);
        }
        field as u8
    }

    /// Only the low 4 bits of `value` are kept.
    pub fn set_pwm_lim(&mut self, value: u8)
        ensures
            final(self).bits
                == with_field(
                    old(self).bits,
                    PWMCONF_PWM_LIM_LSB,
                    PWMCONF_PWM_LIM_WIDTH,
                    value as u32,
                ),
    {
        self.bits = write_field(
            self.bits,
            PWMCONF_PWM_LIM_LSB,
            PWMCONF_PWM_LIM_WIDTH,
            value as u32,
        );
    }
}

/// TPOWERDOWN, the delay from standstill to power down (write only).
#[derive(Clone, Copy, Debug, PartialEq, Eq)]
pub struct Tpowerdown {
    pub bits: u32,
}

impl Tpowerdown {
    /// The image after power-on reset.
    pub fn reset() -> (image: Self)
        ensures
            image.bits == reset_word(Register::Tpowerdown.spec_address()),
    {
        Tpowerdown { bits: reset_image(Register::Tpowerdown.address()) }
    }

    pub fn get(&self) -> (value: u32)
        ensures
            value == self.bits,
    {
        self.bits
    }

    pub fn set(&mut self, value: u32)
        ensures
            final(self).bits == value,
    {
        self.bits = value;
    }
}

/// Lowest bit and width of `value` in TPWMTHRS.
pub const TPWMTHRS_VALUE_LSB: u32 = 0;
pub const TPWMTHRS_VALUE_WIDTH: u32 = 20;

/// TPWMTHRS, the upper velocity for StealthChop (write only).
#[derive(Clone, Copy, Debug, PartialEq, Eq)]
pub struct Tpwmthrs {
    pub bits: u32,
}

impl Tpwmthrs {
    /// The image after power-on reset.
    pub fn reset() -> (image: Self)
        ensures
            image.bits == reset_word(Register::Tpwmthrs.spec_address()),
    {
        Tpwmthrs { bits: reset_image(Register::Tpwmthrs.address()) }
    }

    pub fn get(&self) -> (value: u32)
        ensures
            value == get_field(self.bits, TPWMTHRS_VALUE_LSB, TPWMTHRS_VALUE_WIDTH),
    {
        read_field(self.bits, TPWMTHRS_VALUE_LSB, TPWMTHRS_VALUE_WIDTH)
    }

    /// Only the low 20 bits of `value` are kept.
    pub fn set(&mut self, value: u32)
        ensures
            final(self).bits
                == with_field(old(self).bits, TPWMTHRS_VALUE_LSB, TPWMTHRS_VALUE_WIDTH, value),
    {
        self.bits = write_field(self.bits, TPWMTHRS_VALUE_LSB, TPWMTHRS_VALUE_WIDTH, value);
    }
}

/// SGTHRS, the StallGuard threshold (write only).
#[derive(Clone, Copy, Debug, PartialEq, Eq)]
pub struct Sgthrs {
    pub bits: u32,
}

impl Sgthrs {
    /// The image after power-on reset.
    pub fn reset() -> (image: Self)
        ensures
            image.bits == reset_word(Register::Sgthrs.spec_address()),
    {
        Sgthrs { bits: reset_image(Register::Sgthrs.address()) }
    }

    pub fn get(&self) -> (value: u32)
        ensures
            value == self.bits,
    {
        self.bits
    }

    pub fn set(&mut self, value: u32)
        ensures
            final(self).bits == value,
    {
        self.bits = value;
    }
}

/// Lowest bit and width of `value` in TCOOLTHRS.
pub const TCOOLTHRS_VALUE_LSB: u32 = 0;
pub const TCOOLTHRS_VALUE_WIDTH: u32 = 20;

/// TCOOLTHRS, the lower velocity for CoolStep and StallGuard (write only).
#[derive(Clone, Copy, Debug, PartialEq, Eq)]
pub struct Tcoolthrs {
    pub bits: u32,
}

impl Tcoolthrs {
    /// The image after power-on reset.
    pub fn reset() -> (image: Self)
        ensures
            image.bits == reset_word(Register::Tcoolthrs.spec_address()),
    {
        Tcoolthrs { bits: reset_image(Register::Tcoolthrs.address()) }
    }

    pub fn get(&self) -> (value: u32)
        ensures
            value == get_field(self.bits, TCOOLTHRS_VALUE_LSB, TCOOLTHRS_VALUE_WIDTH),
    {
        read_field(self.bits, TCOOLTHRS_VALUE_LSB, TCOOLTHRS_VALUE_WIDTH)
    }

    /// Only the low 20 bits of `value` are kept.
    pub fn set(&mut self, value: u32)
        ensures
            final(self).bits
                == with_field(old(self).bits, TCOOLTHRS_VALUE_LSB, TCOOLTHRS_VALUE_WIDTH, value),
    {
        self.bits = write_field(self.bits, TCOOLTHRS_VALUE_LSB, TCOOLTHRS_VALUE_WIDTH, value);
    }
}

/// Width of the velocity field of VACTUAL.
pub const VACTUAL_WIDTH: u32 = 24;

/// VACTUAL, the velocity for motion by the chip's own pulse generator (write only).
#[derive(Clone, Copy, Debug, PartialEq, Eq)]
pub struct Vactual {
    pub bits: u32,
}

impl Vactual {
    /// The image after power-on reset.
    pub fn reset() -> (image: Self)
        ensures
            image.bits == reset_word(Register::Vactual.spec_address()),
    {
        Vactual { bits: reset_image(Register::Vactual.address()) }
    }

    /// Stores `value` as a 24-bit two's complement number.
    pub fn set(&mut self, value: i32)
        ensures
            final(self).bits == with_field(old(self).bits, 0, VACTUAL_WIDTH, value as u32),
    {
        self.bits = write_field(self.bits, 0, VACTUAL_WIDTH, value as u32);
    }
}

/// Width of the result field of SG_RESULT.
pub const SG_RESULT_WIDTH: u32 = 10;

/// SG_RESULT, the StallGuard measurement (read only).
#[derive(Clone, Copy, Debug, PartialEq, Eq)]
pub struct SgResult {
    pub bits: u32,
}

impl SgResult {
    pub fn get(&self) -> (value: u16)
        ensures
            value == get_field(self.bits, 0, SG_RESULT_WIDTH),
    {
        let field = read_field(self.bits, 0, SG_RESULT_WIDTH);
        proof {
            lemma_field_fits(self.bits, 0, SG_RESULT_WIDTH);
        }
        field as u16
    }
}
} // verus!
