//! What holds of whole synchronizations.
use vstd::prelude::*;
use crate::bits::with_flag;
use crate::config::{TMC2209_BaseConfig, TMC2209_Config, TMC2209_SavedConfig};
use crate::config_read_write_methods::{
    chopconf_index, factory_conf_index, lemma_reads_count, pwmconf_index, reads_before,
    reads_count, registers_fetched, writes_of,
};
use crate::driver::{lemma_merged_shape, DriverState, SyncAction, SyncEvent, SyncStage};
use crate::merge_laws::{
    lemma_chopconf_merge_twice, lemma_chopconf_sensed_merge_twice, lemma_factory_conf_merge_twice,
    lemma_gconf_merge_twice, lemma_pwmconf_merge_twice,
};
use crate::reg_processor::{base_config_merged, config_saved, registers_merged};
use crate::registers::{Register, GCONF_SHAFT};
use crate::registers_collection::{
    touched_groups, TMC2209_ConfigRegisters, TMC2209_ConfigRegistersChangesDetected,
};
use crate::tmc_read_write::{BusOp, TransportError};

verus! {

/// The images that a synchronization of `config` sends, when its reads
/// bring `words` and the driver's base configuration is `base`.
pub open spec fn images_sent(config: TMC2209_Config, base: TMC2209_BaseConfig, words: Seq<u32>)
    -> TMC2209_ConfigRegisters {
    registers_merged(
        registers_fetched(touched_groups(config), words),
        base_config_merged(base, config),
        config,
    )
}

/// The words that the reads of a change bring from a chip that holds
/// `registers`.
pub open spec fn words_read_back(
    changes: TMC2209_ConfigRegistersChangesDetected,
    registers: TMC2209_ConfigRegisters,
) -> Seq<u32> {
    let gconf = match registers.gconf {
        Some(image) => seq![image.bits],
        None => Seq::<u32>::empty(),
    };
    let chopconf = match registers.chopconf {
        Some(image) => seq![image.bits],
        None => Seq::<u32>::empty(),
    };
    let factory_conf = match registers.factory_conf {
        Some(image) => seq![image.bits],
        None => Seq::<u32>::empty(),
    };
    let pwmconf = match registers.pwmconf {
        Some(image) => seq![image.bits],
        None => Seq::<u32>::empty(),
    };
    gconf + chopconf + factory_conf + pwmconf
}

/// The images that a second synchronization of `config` sends, after a
/// first one whose reads brought `words`.
pub open spec fn images_sent_again(
    config: TMC2209_Config,
    base: TMC2209_BaseConfig,
    words: Seq<u32>,
) -> TMC2209_ConfigRegisters {
    images_sent(
        config,
        base_config_merged(base, config),
        words_read_back(touched_groups(config), images_sent(config, base, words)),
    )
}

proof fn lemma_gconf_sent_again(config: TMC2209_Config, base: TMC2209_BaseConfig, words: Seq<u32>)
    requires
        words.len() == reads_count(touched_groups(config)),
    ensures
        images_sent_again(config, base, words).gconf == images_sent(config, base, words).gconf,
{
    let changes = touched_groups(config);
    if changes.gconf {
        let first = images_sent(config, base, words);
        assert(words_read_back(changes, first)[0] == first.gconf->0.bits);
        lemma_gconf_merge_twice(words[0], config);
    }
}

proof fn lemma_chopconf_sent_again(
    config: TMC2209_Config,
    base: TMC2209_BaseConfig,
    words: Seq<u32>,
)
    requires
        words.len() == reads_count(touched_groups(config)),
    ensures
        images_sent_again(config, base, words).chopconf == images_sent(
            config,
            base,
            words,
        ).chopconf,
{
    let changes = touched_groups(config);
    let base_after = base_config_merged(base, config);
    assert(base_config_merged(base_after, config) == base_after);
    if changes.chopconf {
        let first = images_sent(config, base, words);
        let index = chopconf_index(changes);
        assert(words_read_back(changes, first)[index] == first.chopconf->0.bits);
        lemma_chopconf_merge_twice(words[index], config);
        lemma_chopconf_sensed_merge_twice(words[index], base_after, config);
    }
}

proof fn lemma_factory_conf_sent_again(
    config: TMC2209_Config,
    base: TMC2209_BaseConfig,
    words: Seq<u32>,
)
    requires
        words.len() == reads_count(touched_groups(config)),
    ensures
        images_sent_again(config, base, words).factory_conf == images_sent(
            config,
            base,
            words,
        ).factory_conf,
{
    let changes = touched_groups(config);
    if changes.factory_conf {
        let first = images_sent(config, base, words);
        let index = factory_conf_index(changes);
        assert(words_read_back(changes, first)[index] == first.factory_conf->0.bits);
        lemma_factory_conf_merge_twice(words[index], config);
    }
}

proof fn lemma_pwmconf_sent_again(
    config: TMC2209_Config,
    base: TMC2209_BaseConfig,
    words: Seq<u32>,
)
    requires
        words.len() == reads_count(touched_groups(config)),
    ensures
        images_sent_again(config, base, words).pwmconf == images_sent(config, base, words).pwmconf,
{
    let changes = touched_groups(config);
    if changes.pwmconf {
        let first = images_sent(config, base, words);
        let index = pwmconf_index(changes);
        assert(words_read_back(changes, first)[index] == first.pwmconf->0.bits);
        lemma_pwmconf_merge_twice(words[index], config);
    }
}

/// The groups that are written whole start from their reset value each
/// time, so the same change makes the same image of them each time.
proof fn lemma_whole_groups_sent_again(
    config: TMC2209_Config,
    base: TMC2209_BaseConfig,
    words: Seq<u32>,
)
    ensures
        images_sent_again(config, base, words).ihold_irun == images_sent(
            config,
            base,
            words,
        ).ihold_irun,
        images_sent_again(config, base, words).slaveconf == images_sent(
            config,
            base,
            words,
        ).slaveconf,
        images_sent_again(config, base, words).coolconf == images_sent(
            config,
            base,
            words,
        ).coolconf,
        images_sent_again(config, base, words).tpowerdown == images_sent(
            config,
            base,
            words,
        ).tpowerdown,
        images_sent_again(config, base, words).tpwmthrs == images_sent(
            config,
            base,
            words,
        ).tpwmthrs,
        images_sent_again(config, base, words).sgthrs == images_sent(config, base, words).sgthrs,
        images_sent_again(config, base, words).tcoolthrs == images_sent(
            config,
            base,
            words,
        ).tcoolthrs,
{
    let base_after = base_config_merged(base, config);
    assert(base_config_merged(base_after, config) == base_after);
}

/// Sending the same change twice sends the same images twice: the second
/// synchronization reads back what the first has written, merges the change
/// again and arrives at the images of the first. This holds of every
/// change, also of one that sets a current.
pub proof fn lemma_apply_twice_sends_same_images(
    config: TMC2209_Config,
    base: TMC2209_BaseConfig,
    words: Seq<u32>,
)
    requires
        words.len() == reads_count(touched_groups(config)),
    ensures
        images_sent_again(config, base, words) == images_sent(config, base, words),
{
    lemma_gconf_sent_again(config, base, words);
    lemma_chopconf_sent_again(config, base, words);
    lemma_factory_conf_sent_again(config, base, words);
    lemma_pwmconf_sent_again(config, base, words);
    lemma_whole_groups_sent_again(config, base, words);
}

/// The change that reverses the direction held in `saved`.
pub open spec fn shaft_reversed(saved: TMC2209_SavedConfig) -> TMC2209_Config {
    TMC2209_Config { shaft: Some(!saved.shaft), ..TMC2209_Config::empty() }
}

/// Reversing the direction takes one read and one write, both of GCONF, and
/// flips the saved direction: the driver reads GCONF, writes it back with
/// the direction bit reversed and nothing else changed, and saves just that.
pub proof fn lemma_shaft_reversal(driver: DriverState, word: u32)
    ensures
        ({
            let address = driver.base_config.uart_address;
            let reversed = !driver.saved_config.shaft;
            let begun = driver.begun(shaft_reversed(driver.saved_config));
            let reading = begun.after(SyncEvent::Acquired);
            let read = reading.after(SyncEvent::Value(word));
            let merged = read.after(SyncEvent::Released);
            let writing = merged.after(SyncEvent::Acquired);
            let done = writing.after(SyncEvent::Written);
            &&& begun.action() == SyncAction::Acquire
            &&& begun.response(SyncEvent::Acquired) == SyncAction::Transfer(
                BusOp::Read { register: Register::Gconf, uart_address: address },
            )
            &&& reading.response(SyncEvent::Value(word)) == SyncAction::Release
            &&& read.response(SyncEvent::Released) == SyncAction::Acquire
            &&& merged.response(SyncEvent::Acquired) == SyncAction::Transfer(
                BusOp::Write {
                    register: Register::Gconf,
                    uart_address: address,
                    value: with_flag(word, GCONF_SHAFT, reversed),
                },
            )
            &&& writing.response(SyncEvent::Written) == SyncAction::Done(Ok(()))
            &&& done == DriverState::idle(
                driver.base_config,
                TMC2209_SavedConfig { shaft: reversed, ..driver.saved_config },
            )
        }),
{
    reveal(DriverState::merged);
    let config = shaft_reversed(driver.saved_config);
    let changes = touched_groups(config);
    let begun = driver.begun(config);
    assert(begun.reads.len() == 1);
    let reading = begun.after(SyncEvent::Acquired);
    assert(reading.stage == SyncStage::Fetching);
    let read = reading.after(SyncEvent::Value(word));
    assert(reading.words.push(word).len() == 1);
    assert(read.words.len() == read.reads.len());
    let merged = read.after(SyncEvent::Released);
    assert(merged.stage == SyncStage::AwaitingWrite);
    assert(base_config_merged(driver.base_config, config) == driver.base_config);
    let fetched = registers_fetched(changes, reading.words.push(word));
    assert(fetched.gconf == Some(crate::registers::Gconf { bits: word }));
    assert(merged.writes.len() == 1);
}

/// The driver after a run of events.
pub open spec fn after_all(driver: DriverState, events: Seq<SyncEvent>) -> DriverState
    decreases events.len(),
{
    if events.len() == 0 {
        driver
    } else {
        after_all(driver, events.drop_last()).after(events.last())
    }
}

/// One event changes the saved configuration only when it ends the
/// synchronization with success.
pub proof fn lemma_saved_config_changes_on_success_only(driver: DriverState, event: SyncEvent)
    ensures
        driver.response(event) != SyncAction::Done(Ok(())) ==> driver.after(event).saved_config
            == driver.saved_config,
        driver.after(event).stage != SyncStage::Idle ==> driver.after(event).saved_config
            == driver.saved_config,
{
    lemma_merged_shape(driver);
}

/// As long as a synchronization is under way, the saved configuration is
/// what it was when the synchronization began, however many reads and
/// writes have gone through.
pub proof fn lemma_saved_config_kept_under_way(driver: DriverState, events: Seq<SyncEvent>)
    ensures
        after_all(driver, events).stage != SyncStage::Idle ==> after_all(
            driver,
            events,
        ).saved_config == driver.saved_config,
    decreases events.len(),
{
    if events.len() > 0 {
        let before = after_all(driver, events.drop_last());
        lemma_saved_config_kept_under_way(driver, events.drop_last());
        lemma_saved_config_changes_on_success_only(before, events.last());
    }
}

/// A failure at any point of a synchronization, also after writes that went
/// through, ends it with that error and leaves the saved configuration as
/// it was before the synchronization began.
pub proof fn lemma_failure_keeps_saved_config(
    driver: DriverState,
    config: TMC2209_Config,
    events: Seq<SyncEvent>,
    error: TransportError,
)
    requires
        after_all(driver.begun(config), events).stage != SyncStage::Idle,
    ensures
        ({
            let under_way = after_all(driver.begun(config), events);
            &&& under_way.response(SyncEvent::Failed(error)) == SyncAction::Done(Err(error))
            &&& under_way.after(SyncEvent::Failed(error)).saved_config == driver.saved_config
            &&& under_way.after(SyncEvent::Failed(error)).stage == SyncStage::Idle
        }),
{
    lemma_saved_config_kept_under_way(driver.begun(config), events);
}

/// The events of a fetch in which the UART is had and the first `words`
/// come in.
pub open spec fn fetch_events(words: Seq<u32>) -> Seq<SyncEvent> {
    seq![SyncEvent::Acquired] + Seq::new(words.len(), |i: int| SyncEvent::Value(words[i]))
}

/// The events of a synchronization in which every read brings its word,
/// the UART is let go and had a second time, and the first `written` writes
/// are taken.
pub open spec fn write_events(words: Seq<u32>, written: nat) -> Seq<SyncEvent> {
    fetch_events(words) + seq![SyncEvent::Released, SyncEvent::Acquired] + Seq::new(
        written,
        |i: int| SyncEvent::Written,
    )
}

/// The driver when all reads of `config` have brought `words` and the
/// change is merged.
pub open spec fn merged_with(driver: DriverState, config: TMC2209_Config, words: Seq<u32>)
    -> DriverState {
    (DriverState { stage: SyncStage::Fetching, words, ..driver.begun(config) }).merged()
}

/// While words are missing, the driver asks for the reads of the change
/// one after another, in their order; with the last word in, it asks for
/// the UART to be let go.
pub proof fn lemma_reads_in_order(
    driver: DriverState,
    config: TMC2209_Config,
    words: Seq<u32>,
    count: nat,
)
    requires
        words.len() == reads_count(touched_groups(config)),
        count <= words.len(),
    ensures
        ({
            let reads = reads_before(touched_groups(config), driver.base_config.uart_address);
            let now = after_all(driver.begun(config), fetch_events(words.take(count as int)));
            &&& now == (DriverState {
                stage: SyncStage::Fetching,
                words: words.take(count as int),
                ..driver.begun(config)
            })
            &&& count < words.len() ==> now.action() == SyncAction::Transfer(reads[count as int])
            &&& count == words.len() ==> now.action() == SyncAction::Release
        }),
    decreases count,
{
    let begun = driver.begun(config);
    lemma_reads_count(touched_groups(config), driver.base_config.uart_address);
    let events = fetch_events(words.take(count as int));
    if count == 0 {
        assert(events.drop_last() =~= Seq::<SyncEvent>::empty());
        assert(events.last() == SyncEvent::Acquired);
        assert(after_all(begun, events.drop_last()) == begun);
        assert(words.take(0) =~= Seq::<u32>::empty());
        assert(begun.words =~= words.take(0));
        if words.len() == 0 {
            assert(words =~= Seq::<u32>::empty());
        }
    } else {
        let fewer = (count - 1) as nat;
        lemma_reads_in_order(driver, config, words, fewer);
        assert(events.drop_last() =~= fetch_events(words.take(fewer as int)));
        assert(events.last() == SyncEvent::Value(words[fewer as int]));
        assert(words.take(fewer as int).push(words[fewer as int]) =~= words.take(count as int));
        if count == words.len() {
            assert(words.take(count as int) =~= words);
        }
    }
}

/// Once the change is merged, the driver asks for the writes of its images
/// one after another, in their order; with the last of them taken, the
/// synchronization is over and the change is saved.
pub proof fn lemma_writes_in_order(
    driver: DriverState,
    config: TMC2209_Config,
    words: Seq<u32>,
    count: nat,
)
    requires
        words.len() == reads_count(touched_groups(config)),
        count <= merged_with(driver, config, words).writes.len(),
    ensures
        ({
            let merged = merged_with(driver, config, words);
            let now = after_all(driver.begun(config), write_events(words, count));
            &&& count < merged.writes.len() ==> now == (DriverState {
                stage: SyncStage::Writing,
                written: count,
                ..merged
            })
            &&& count < merged.writes.len() ==> now.action() == SyncAction::Transfer(
                merged.writes[count as int],
            )
            &&& count == merged.writes.len() ==> now == DriverState::idle(
                merged.base_config,
                merged.config_for_save,
            )
        }),
    decreases count,
{
    let begun = driver.begun(config);
    let merged = merged_with(driver, config, words);
    let read = DriverState { stage: SyncStage::Fetching, words, ..begun };
    lemma_merged_shape(read);
    let events = write_events(words, count);
    if count == 0 {
        lemma_reads_in_order(driver, config, words, words.len());
        assert(words.take(words.len() as int) =~= words);
        let released = fetch_events(words).push(SyncEvent::Released);
        assert(released.drop_last() =~= fetch_events(words));
        assert(after_all(begun, released) == merged);
        assert(events.drop_last() =~= released);
        assert(events.last() == SyncEvent::Acquired);
    } else {
        let fewer = (count - 1) as nat;
        lemma_writes_in_order(driver, config, words, fewer);
        assert(events.drop_last() =~= write_events(words, fewer));
        assert(events.last() == SyncEvent::Written);
    }
}

/// A synchronization in which every transfer goes through ends with the
/// change in the base configuration and in the saved configuration, after
/// the reads of the change and the writes of its merged images and no other
/// transfer.
pub proof fn lemma_synchronization_that_goes_through(
    driver: DriverState,
    config: TMC2209_Config,
    words: Seq<u32>,
)
    requires
        words.len() == reads_count(touched_groups(config)),
    ensures
        ({
            let base = base_config_merged(driver.base_config, config);
            let fetched = registers_fetched(touched_groups(config), words);
            let writes = writes_of(base.uart_address, registers_merged(fetched, base, config));
            after_all(driver.begun(config), write_events(words, writes.len()))
                == DriverState::idle(
                base,
                config_saved(fetched, driver.saved_config, base, config),
            )
        }),
{
    reveal(DriverState::merged);
    lemma_writes_in_order(
        driver,
        config,
        words,
        merged_with(driver, config, words).writes.len(),
    );
}

} // verus!
