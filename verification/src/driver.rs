//! The driver: its saved configuration, and the steps by which a change
//! reaches the chip.
//!
//! The driver owns no UART. A synchronization is a conversation: the
//! driver names the next thing to do on the bus, the caller does it and
//! reports what came of it.
use vstd::prelude::*;
use crate::config::{TMC2209_BaseConfig, TMC2209_Config, TMC2209_DebugConfig, TMC2209_SavedConfig};
use crate::config_read_write_methods::{
    debug_read_requests, debug_reads, get_registers_changed_in_config, lemma_reads_count,
    reads_before, reads_count, registers_fetched, registers_to_read, set_vactual,
    test_connection, write_registers_changed_in_config, writes_of,
};
use crate::bits::with_field;
use crate::reg_processor::{
    base_config_merged, config_saved, process_reg_config, registers_merged,
};
use crate::registers::{reset_word, Register, VACTUAL_WIDTH};
use crate::registers_collection::touched_groups;
use crate::tmc_read_write::{BusOp, TransportError};

verus! {

/// Where a synchronization stands.
#[derive(Clone, Copy, Debug, PartialEq, Eq, Structural)]
pub enum SyncStage {
    /// None is under way.
    Idle,
    /// Waiting for the UART, to read.
    AwaitingFetch,
    /// The UART is held: waiting for the word of a read or, with all words
    /// in, for the UART to be let go.
    Fetching,
    /// The change is merged; waiting for the UART, to write.
    AwaitingWrite,
    /// Waiting for a write to be taken.
    Writing,
}

/// What the caller is to do next.
#[derive(Clone, Copy, Debug, PartialEq, Eq)]
pub enum SyncAction {
    /// Nothing: no synchronization is under way.
    Idle,
    /// Take the shared UART and keep it, in one critical section, for the
    /// transfers that follow.
    Acquire,
    /// Make this transfer and report its result.
    Transfer(BusOp),
    /// Let the UART go and leave the critical section: the merge is done
    /// outside.
    Release,
    /// The synchronization is over, with this result.
    Done(Result<(), TransportError>),
}

/// What came of the last action.
#[derive(Clone, Copy, Debug, PartialEq, Eq)]
pub enum SyncEvent {
    /// The UART is held.
    Acquired,
    /// The read brought this word.
    Value(u32),
    /// The UART took the write.
    Written,
    /// The UART is let go.
    Released,
    /// The action failed.
    Failed(TransportError),
}

/// The driver as the contracts see it.
pub struct DriverState {
    pub base_config: TMC2209_BaseConfig,
    /// The saved configuration.
    pub saved_config: TMC2209_SavedConfig,
    pub stage: SyncStage,
    /// The change under way.
    pub config: TMC2209_Config,
    /// The reads of the change under way.
    pub reads: Seq<BusOp>,
    /// The words read so far.
    pub words: Seq<u32>,
    /// The writes of the change under way, once it is merged.
    pub writes: Seq<BusOp>,
    /// How many of them the UART has taken.
    pub written: nat,
    /// What the saved configuration will be if every write goes through.
    pub config_for_save: TMC2209_SavedConfig,
}

impl DriverState {
    /// A driver with no synchronization under way.
    pub open spec fn idle(base_config: TMC2209_BaseConfig, saved_config: TMC2209_SavedConfig)
        -> DriverState {
        DriverState {
            base_config,
            saved_config,
            stage: SyncStage::Idle,
            config: TMC2209_Config::empty(),
            reads: Seq::<BusOp>::empty(),
            words: Seq::<u32>::empty(),
            writes: Seq::<BusOp>::empty(),
            written: 0,
            config_for_save: saved_config,
        }
    }

    /// What holds of every driver.
    pub open spec fn wf(self) -> bool {
        &&& self.reads.len() == reads_count(touched_groups(self.config))
        &&& match self.stage {
            SyncStage::Idle => self == Self::idle(self.base_config, self.saved_config),
            SyncStage::AwaitingFetch => self.words.len() == 0,
            SyncStage::Fetching => self.words.len() <= self.reads.len(),
            SyncStage::AwaitingWrite => self.written == 0,
            SyncStage::Writing => self.written < self.writes.len(),
        }
    }

    /// The driver once a synchronization of `config` has begun. One that was
    /// under way is given up: its writes so far stay on the chip, the saved
    /// configuration is as it was before it.
    pub open spec fn begun(self, config: TMC2209_Config) -> DriverState {
        DriverState {
            stage: SyncStage::AwaitingFetch,
            config,
            reads: reads_before(touched_groups(config), self.base_config.uart_address),
            ..Self::idle(self.base_config, self.saved_config)
        }
    }

    /// The driver once all reads are in and the UART is let go: the change
    /// goes into the base configuration, into the images and into a copy of
    /// the saved configuration, and the images become the writes to make, at
    /// the address that the change may just have set.
    #[verifier::opaque]
    pub open spec fn merged(self) -> DriverState {
        let base_config = base_config_merged(self.base_config, self.config);
        let fetched = registers_fetched(touched_groups(self.config), self.words);
        DriverState {
            base_config,
            stage: SyncStage::AwaitingWrite,
            writes: writes_of(
                base_config.uart_address,
                registers_merged(fetched, base_config, self.config),
            ),
            written: 0,
            config_for_save: config_saved(fetched, self.saved_config, base_config, self.config),
            ..self
        }
    }

    /// The driver once every write is made: the copy becomes the saved
    /// configuration.
    pub open spec fn committed(self) -> DriverState {
        Self::idle(self.base_config, self.config_for_save)
    }

    /// The driver once its synchronization has failed: the saved
    /// configuration is what it was when the synchronization began.
    pub open spec fn aborted(self) -> DriverState {
        Self::idle(self.base_config, self.saved_config)
    }

    /// The driver after an event. An event that the driver does not wait for
    /// changes nothing.
    pub open spec fn after(self, event: SyncEvent) -> DriverState {
        match (self.stage, event) {
            (SyncStage::Idle, _) => self,
            (_, SyncEvent::Failed(_)) => self.aborted(),
            (SyncStage::AwaitingFetch, SyncEvent::Acquired) => DriverState {
                stage: SyncStage::Fetching,
                ..self
            },
            (SyncStage::Fetching, SyncEvent::Value(word)) => {
                if self.words.len() < self.reads.len() {
                    DriverState { words: self.words.push(word), ..self }
                } else {
                    self
                }
            },
            (SyncStage::Fetching, SyncEvent::Released) => {
                if self.words.len() == self.reads.len() {
                    self.merged()
                } else {
                    self
                }
            },
            (SyncStage::AwaitingWrite, SyncEvent::Acquired) => {
                if self.writes.len() == 0 {
                    self.committed()
                } else {
                    DriverState { stage: SyncStage::Writing, ..self }
                }
            },
            (SyncStage::Writing, SyncEvent::Written) => {
                if self.written + 1 == self.writes.len() {
                    self.committed()
                } else {
                    DriverState { written: self.written + 1, ..self }
                }
            },
            _ => self,
        }
    }

    /// What the driver waits for.
    pub open spec fn action(self) -> SyncAction {
        match self.stage {
            SyncStage::Idle => SyncAction::Idle,
            SyncStage::AwaitingFetch => SyncAction::Acquire,
            SyncStage::Fetching => {
                if self.words.len() < self.reads.len() {
                    SyncAction::Transfer(self.reads[self.words.len() as int])
                } else {
                    SyncAction::Release
                }
            },
            SyncStage::AwaitingWrite => SyncAction::Acquire,
            SyncStage::Writing => SyncAction::Transfer(self.writes[self.written as int]),
        }
    }

    /// What the driver answers to an event: the end of the synchronization
    /// if the event ends it, else what it waits for next.
    pub open spec fn response(self, event: SyncEvent) -> SyncAction {
        if self.stage == SyncStage::Idle {
            SyncAction::Idle
        } else if self.after(event).stage == SyncStage::Idle {
            match event {
                SyncEvent::Failed(error) => SyncAction::Done(Err(error)),
                _ => SyncAction::Done(Ok(())),
            }
        } else {
            self.after(event).action()
        }
    }
}

/// What merging leaves alone and where it leaves the driver: waiting for
/// the UART, with none of its writes made.
pub proof fn lemma_merged_shape(driver: DriverState)
    ensures
        driver.merged().stage == SyncStage::AwaitingWrite,
        driver.merged().written == 0,
        driver.merged().saved_config == driver.saved_config,
        driver.merged().config == driver.config,
        driver.merged().reads == driver.reads,
        driver.merged().words == driver.words,
        driver.merged().base_config == base_config_merged(driver.base_config, driver.config),
{
    reveal(DriverState::merged);
}

/// `words` with one more word at its end.
fn with_word(words: &Vec<u32>, word: u32) -> (longer: Vec<u32>)
    ensures
        longer@ == words@.push(word),
{
    let mut longer: Vec<u32> = Vec::new();
    let mut i: usize = 0;
    while i < words.len()
        invariant
            i <= words.len(),
            longer@ == words@.take(i as int),
        decreases words.len() - i,
    {
        longer.push(words[i]);
        i = i + 1;
    }
    longer.push(word);
    longer
}

/// A TMC2209 behind a shared UART.
pub struct TMC2209UART {
    base_config: TMC2209_BaseConfig,
    saved_config: TMC2209_SavedConfig,
    stage: SyncStage,
    config: TMC2209_Config,
    reads: Vec<BusOp>,
    words: Vec<u32>,
    writes: Vec<BusOp>,
    written: usize,
    config_for_save: TMC2209_SavedConfig,
}

impl View for TMC2209UART {
    type V = DriverState;

    closed spec fn view(&self) -> DriverState {
        DriverState {
            base_config: self.base_config,
            saved_config: self.saved_config,
            stage: self.stage,
            config: self.config,
            reads: self.reads@,
            words: self.words@,
            writes: self.writes@,
            written: self.written as nat,
            config_for_save: self.config_for_save,
        }
    }
}

impl TMC2209UART {
    #[verifier::type_invariant]
    closed spec fn type_invariant(&self) -> bool {
        self@.wf()
    }

    /// A driver for a chip fresh from reset.
    pub fn new(base_config: TMC2209_BaseConfig) -> (driver: Self)
        ensures
            driver@ == DriverState::idle(base_config, TMC2209_SavedConfig::reset()),
            driver@.wf(),
    {
        let saved_config = TMC2209_SavedConfig::new();
        TMC2209UART {
            base_config,
            saved_config,
            stage: SyncStage::Idle,
            config: TMC2209_Config::default(),
            reads: Vec::new(),
            words: Vec::new(),
            writes: Vec::new(),
            written: 0,
            config_for_save: saved_config,
        }
    }

    pub fn get_saved_config(&self) -> (saved_config: &TMC2209_SavedConfig)
        ensures
            *saved_config == self@.saved_config,
    {
        &self.saved_config
    }

    pub fn base_config(&self) -> (base_config: &TMC2209_BaseConfig)
        ensures
            *base_config == self@.base_config,
    {
        &self.base_config
    }

    /// What the caller is to do next.
    pub fn action(&self) -> (action: SyncAction)
        ensures
            action == self@.action(),
    {
        proof {
            use_type_invariant(self);
        }
        match self.stage {
            SyncStage::Idle => SyncAction::Idle,
            SyncStage::AwaitingFetch => SyncAction::Acquire,
            SyncStage::Fetching => {
                if self.words.len() < self.reads.len() {
                    SyncAction::Transfer(self.reads[self.words.len()])
                } else {
                    SyncAction::Release
                }
            },
            SyncStage::AwaitingWrite => SyncAction::Acquire,
            SyncStage::Writing => SyncAction::Transfer(self.writes[self.written]),
        }
    }

    /// Gives up whatever is under way.
    fn reset_to_idle(&mut self)
        ensures
            final(self)@ == DriverState::idle(old(self)@.base_config, old(self)@.saved_config),
    {
        *self = TMC2209UART {
            base_config: self.base_config,
            saved_config: self.saved_config,
            stage: SyncStage::Idle,
            config: TMC2209_Config::default(),
            reads: Vec::new(),
            words: Vec::new(),
            writes: Vec::new(),
            written: 0,
            config_for_save: self.saved_config,
        };
    }

    /// Begins to send `config` to the chip. Only the registers that the
    /// change touches will be read and written. The caller goes on with
    /// [`Self::advance`] until that answers `Done`.
    pub fn apply_config(&mut self, config: &TMC2209_Config) -> (action: SyncAction)
        ensures
            final(self)@ == old(self)@.begun(*config),
            final(self)@.wf(),
            action == SyncAction::Acquire,
    {
        let reads = registers_to_read(config, self.base_config.uart_address);
        proof {
            lemma_reads_count(touched_groups(*config), self.base_config.uart_address);
        }
        *self = TMC2209UART {
            base_config: self.base_config,
            saved_config: self.saved_config,
            stage: SyncStage::AwaitingFetch,
            config: *config,
            reads,
            words: Vec::new(),
            writes: Vec::new(),
            written: 0,
            config_for_save: self.saved_config,
        };
        SyncAction::Acquire
    }

    /// Merges the change under way, now that all its reads are in.
    fn merge(&mut self)
        requires
            old(self)@.stage == SyncStage::Fetching,
            old(self)@.words.len() == old(self)@.reads.len(),
        ensures
            final(self)@ == old(self)@.merged(),
    {
        proof {
            use_type_invariant(&*self);
            reveal(DriverState::merged);
        }
        let mut config_for_save = self.saved_config;
        let mut base_config = self.base_config;
        match get_registers_changed_in_config(&self.config, &self.words) {
            Some(mut ready_registers) => {
                process_reg_config(
                    &mut ready_registers,
                    &self.config,
                    &mut base_config,
                    &mut config_for_save,
                );
                let writes = write_registers_changed_in_config(
                    base_config.uart_address,
                    &ready_registers,
                );
                self.written = 0;
                self.stage = SyncStage::AwaitingWrite;
                self.base_config = base_config;
                self.writes = writes;
                self.config_for_save = config_for_save;
            },
            None => {
                assert(false);
            },
        }
    }

    /// The change has reached the chip: it is saved.
    fn commit(&mut self)
        ensures
            final(self)@ == old(self)@.committed(),
    {
        *self = TMC2209UART {
            base_config: self.base_config,
            saved_config: self.config_for_save,
            stage: SyncStage::Idle,
            config: TMC2209_Config::default(),
            reads: Vec::new(),
            words: Vec::new(),
            writes: Vec::new(),
            written: 0,
            config_for_save: self.config_for_save,
        };
    }

    /// Takes what came of the last action and answers with the next one.
    ///
    /// The reads are made while the UART is held for the first time, the
    /// merge while it is let go, the writes while it is held for the second
    /// time; the change is saved with the last write.
    ///
    /// Any failure ends the synchronization at once: nothing is tried again,
    /// and the saved configuration stays what it was before
    /// [`Self::apply_config`], though some registers may already be written.
    #[verifier::rlimit(30)]
    pub fn advance(&mut self, event: SyncEvent) -> (action: SyncAction)
        ensures
            old(self)@.wf(),
            final(self)@ == old(self)@.after(event),
            final(self)@.wf(),
            action == old(self)@.response(event),
    {
        proof {
            use_type_invariant(&*self);
        }
        let ghost before = self@;
        if let SyncStage::Idle = self.stage {
            return SyncAction::Idle;
        }
        if let SyncEvent::Failed(error) = event {
            self.reset_to_idle();
            return SyncAction::Done(Err(error));
        }
        match (self.stage, event) {
            (SyncStage::AwaitingFetch, SyncEvent::Acquired) => {
                self.stage = SyncStage::Fetching;
                self.action()
            },
            (SyncStage::Fetching, SyncEvent::Value(word)) => {
                if self.words.len() < self.reads.len() {
                    self.words = with_word(&self.words, word);
                }
                self.action()
            },
            (SyncStage::Fetching, SyncEvent::Released) => {
                if self.words.len() == self.reads.len() {
                    proof {
                        lemma_merged_shape(before);
                    }
                    self.merge();
                }
                self.action()
            },
            (SyncStage::AwaitingWrite, SyncEvent::Acquired) => {
                if self.writes.len() == 0 {
                    self.commit();
                    SyncAction::Done(Ok(()))
                } else {
                    self.stage = SyncStage::Writing;
                    self.action()
                }
            },
            (SyncStage::Writing, SyncEvent::Written) => {
                let count = self.writes.len();
                if self.written + 1 == count {
                    self.commit();
                    SyncAction::Done(Ok(()))
                } else {
                    self.written = self.written + 1;
                    self.action()
                }
            },
            _ => self.action(),
        }
    }

    /// Begins to set the motor's direction.
    pub fn set_shaft(&mut self, shaft: bool) -> (action: SyncAction)
        ensures
            final(self)@ == old(self)@.begun(
                TMC2209_Config { shaft: Some(shaft), ..TMC2209_Config::empty() },
            ),
            action == SyncAction::Acquire,
    {
        let config = TMC2209_Config { shaft: Some(shaft), ..TMC2209_Config::default() };
        self.apply_config(&config)
    }

    /// Begins to reverse the motor's direction, from the direction that the
    /// saved configuration holds.
    pub fn shaft(&mut self) -> (action: SyncAction)
        ensures
            final(self)@ == old(self)@.begun(
                TMC2209_Config {
                    shaft: Some(!old(self)@.saved_config.shaft),
                    ..TMC2209_Config::empty()
                },
            ),
            action == SyncAction::Acquire,
    {
        let config = TMC2209_Config {
            shaft: Some(!self.saved_config.shaft),
            ..TMC2209_Config::default()
        };
        self.apply_config(&config)
    }

    /// Takes the settings read from the chip as the saved configuration, and
    /// gives up a synchronization that is under way. A driver that is to
    /// know the chip's true settings calls this first.
    pub fn init_saved_config(&mut self, debug_config: &TMC2209_DebugConfig)
        ensures
            final(self)@ == DriverState::idle(
                old(self)@.base_config,
                TMC2209_SavedConfig::from_debug_config(*debug_config),
            ),
    {
        let saved_config = TMC2209_SavedConfig::new_from_debug_config(debug_config);
        *self = TMC2209UART {
            base_config: self.base_config,
            saved_config,
            stage: SyncStage::Idle,
            config: TMC2209_Config::default(),
            reads: Vec::new(),
            words: Vec::new(),
            writes: Vec::new(),
            written: 0,
            config_for_save: saved_config,
        };
    }

    /// The reads of a debug read, at this driver's address.
    pub fn debug_read_config_from_driver(&self) -> (reads: Vec<BusOp>)
        ensures
            reads@ == debug_reads(self@.base_config.uart_address),
    {
        debug_read_requests(self.base_config.uart_address)
    }

    /// The write that moves the motor at velocity `v_actual`.
    pub fn vactual(&self, v_actual: i32) -> (write: BusOp)
        ensures
            write == (BusOp::Write {
                register: Register::Vactual,
                uart_address: self@.base_config.uart_address,
                value: with_field(
                    reset_word(Register::Vactual.spec_address()),
                    0,
                    VACTUAL_WIDTH,
                    v_actual as u32,
                ),
            }),
    {
        set_vactual(self.base_config.uart_address, v_actual)
    }

    /// The read that brings the StallGuard result.
    pub fn read_sg_result(&self) -> (read: BusOp)
        ensures
            read == (BusOp::Read {
                register: Register::SgResult,
                uart_address: self@.base_config.uart_address,
            }),
    {
        BusOp::Read { register: Register::SgResult, uart_address: self.base_config.uart_address }
    }

    /// The read that tests the connection to the chip.
    pub fn test_connection(&self) -> (read: BusOp)
        ensures
            read == (BusOp::Read {
                register: Register::DrvStatus,
                uart_address: self@.base_config.uart_address,
            }),
    {
        test_connection(self.base_config.uart_address)
    }
}

} // verus!
