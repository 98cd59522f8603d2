use vstd::prelude::*;

verus! {

/// TEST_RESULTS.DIG_TEST when all 8 digital startup tests passed.
pub const TRNG_DIGITAL_TESTS_PASSED: u8 = 0xFF;

/// STAT.FSM_STATE of the front end in its ERROR state (after a runtime health test failure).
pub const TRNG_FSM_ERROR: u8 = 0xA;

/// The commands that bring the TRNG up, in the order they are issued.
#[derive(Debug, Clone, Copy, PartialEq, Eq, Structural)]
pub enum TrngCommand {
    /// CTL.CMD = NORM_FUNC, right after power-on.
    NormFunc,
    /// CTL.CMD = PWRUP_DIG: run the digital startup self-tests.
    PwrupDig,
    /// CTL.CMD = PWRUP_ANA: run the analog startup self-test.
    PwrupAna,
    /// CTL.CMD = NORM_FUNC with DECIM_RATE = 7 (decimate by 8).
    NormFuncDecimated,
}

/// Why the TRNG cannot be used.
#[derive(Debug, Clone, Copy, PartialEq, Eq, Structural)]
pub enum TrngFault {
    /// The state machine rejected a command.
    CommandRejected,
    /// Not all digital startup tests passed.
    DigitalTestFail,
    /// The analog entropy source is not functional.
    AnalogTestFail,
    /// The front end is in its error state after a runtime health test failure.
    HealthFail,
}

impl TrngFault {
    /// The panic message of each fault.
    pub fn message(&self) -> (m: &'static str)
        ensures
            m@ == match self {
                TrngFault::CommandRejected => "TRNG Command Rejected"@,
                TrngFault::DigitalTestFail => "TRNG Digital Test Fail"@,
                TrngFault::AnalogTestFail => "TRNG Analog Test Fail"@,
                TrngFault::HealthFail => "TRNG Health Fail"@,
            },
    {
        match self {
            TrngFault::CommandRejected => "TRNG Command Rejected",
            TrngFault::DigitalTestFail => "TRNG Digital Test Fail",
            TrngFault::AnalogTestFail => "TRNG Analog Test Fail",
            TrngFault::HealthFail => "TRNG Health Fail",
        }
    }
}

/// Where the TRNG startup sequence stands.
#[derive(Debug, Clone, Copy, PartialEq, Eq, Structural)]
pub enum TrngStage {
    /// The command is to be issued.
    Issue(TrngCommand),
    /// The command was issued; its completion is awaited.
    Wait(TrngCommand),
    /// The digital self-test results are to be checked.
    CheckDigital,
    /// The analog self-test result is to be checked.
    CheckAnalog,
    /// The TRNG produces random words.
    Ready,
    /// The TRNG cannot be used.
    Failed(TrngFault),
}

/// The command flags of the TRNG's RIS register.
#[derive(Debug, Clone, Copy)]
pub struct TrngRis {
    /// IRQ_CMD_DONE: the issued command has completed.
    pub cmd_done: bool,
    /// IRQ_CMD_FAIL: the issued command was rejected.
    pub cmd_fail: bool,
}

/// The interrupt flag to clear (ICLR) after a status poll.
#[derive(Debug, Clone, Copy, PartialEq, Eq, Structural)]
pub enum TrngAck {
    Nothing,
    ClearCmdDone,
    ClearCmdFail,
}

/// The decisions of the TRNG's startup sequence: power-on command, digital and analog
/// self-tests, and the decimated normal mode.
pub struct TrngStartup {
    stage: TrngStage,
    digital_passed: bool,
    analog_passed: bool,
}

/// The stage that follows the completion of a command.
pub open spec fn spec_after_done(cmd: TrngCommand) -> TrngStage {
    match cmd {
        TrngCommand::NormFunc => TrngStage::Issue(TrngCommand::PwrupDig),
        TrngCommand::PwrupDig => TrngStage::CheckDigital,
        TrngCommand::PwrupAna => TrngStage::CheckAnalog,
        TrngCommand::NormFuncDecimated => TrngStage::Ready,
    }
}

impl TrngStartup {
    /// The current stage.
    pub closed spec fn spec_stage(&self) -> TrngStage {
        self.stage
    }

    /// Whether the digital self-tests were found passed.
    pub closed spec fn spec_digital_passed(&self) -> bool {
        self.digital_passed
    }

    /// Whether the analog self-test was found passed.
    pub closed spec fn spec_analog_passed(&self) -> bool {
        self.analog_passed
    }

    /// The stages past the digital self-tests are reached only once they passed, and those past
    /// the analog self-test only once it passed too.
    pub open spec fn wf(&self) -> bool {
        match self.spec_stage() {
            TrngStage::Issue(TrngCommand::PwrupAna) | TrngStage::Wait(TrngCommand::PwrupAna)
            | TrngStage::CheckAnalog => self.spec_digital_passed(),
            TrngStage::Issue(TrngCommand::NormFuncDecimated) | TrngStage::Wait(
                TrngCommand::NormFuncDecimated,
            ) | TrngStage::Ready => self.spec_digital_passed() && self.spec_analog_passed(),
            _ => true,
        }
    }

    /// The sequence after power-on: the NORM_FUNC command is to be issued.
    pub fn start() -> (s: Self)
        ensures
            s.wf(),
            s.spec_stage() == TrngStage::Issue(TrngCommand::NormFunc),
            !s.spec_digital_passed(),
            !s.spec_analog_passed(),
    {
        TrngStartup { stage: TrngStage::Issue(TrngCommand::NormFunc), digital_passed: false, analog_passed: false }
    }

    /// The current stage.
    pub fn stage(&self) -> (st: TrngStage)
        ensures
            st == self.spec_stage(),
    {
        self.stage
    }

    /// The command of the current stage was written.
    pub fn issued(&mut self)
        requires
            old(self).wf(),
            old(self).spec_stage() is Issue,
        ensures
            final(self).wf(),
            final(self).spec_stage() == TrngStage::Wait(old(self).spec_stage()->Issue_0),
            final(self).spec_digital_passed() == old(self).spec_digital_passed(),
            final(self).spec_analog_passed() == old(self).spec_analog_passed(),
    {
        match self.stage {
            TrngStage::Issue(cmd) => {
                self.stage = TrngStage::Wait(cmd);
            },
            _ => {},
        }
    }

    /// A poll of RIS while a command is awaited: a completed command moves the sequence on (and
    /// its done flag is cleared); a rejected one fails it (and its fail flag is cleared); otherwise
    /// nothing changes. Completion is looked at before rejection.
    pub fn on_status(&mut self, ris: TrngRis) -> (ack: TrngAck)
        requires
            old(self).wf(),
            old(self).spec_stage() is Wait,
        ensures
            final(self).wf(),
            final(self).spec_digital_passed() == old(self).spec_digital_passed(),
            final(self).spec_analog_passed() == old(self).spec_analog_passed(),
            ris.cmd_done ==> ack == TrngAck::ClearCmdDone && final(self).spec_stage()
                == spec_after_done(old(self).spec_stage()->Wait_0),
            !ris.cmd_done && ris.cmd_fail ==> ack == TrngAck::ClearCmdFail && final(self).spec_stage()
                == TrngStage::Failed(TrngFault::CommandRejected),
            !ris.cmd_done && !ris.cmd_fail ==> ack == TrngAck::Nothing && final(self).spec_stage()
                == old(self).spec_stage(),
    {
        let cmd = match self.stage {
            TrngStage::Wait(cmd) => cmd,
            _ => TrngCommand::NormFunc,
        };
        if ris.cmd_done {
            self.stage = match cmd {
                TrngCommand::NormFunc => TrngStage::Issue(TrngCommand::PwrupDig),
                TrngCommand::PwrupDig => TrngStage::CheckDigital,
                TrngCommand::PwrupAna => TrngStage::CheckAnalog,
                TrngCommand::NormFuncDecimated => TrngStage::Ready,
            };
            TrngAck::ClearCmdDone
        } else if ris.cmd_fail {
            self.stage = TrngStage::Failed(TrngFault::CommandRejected);
            TrngAck::ClearCmdFail
        } else {
            TrngAck::Nothing
        }
    }

    /// The digital self-test results (TEST_RESULTS.DIG_TEST): all 8 tests must have passed.
    pub fn on_digital_result(&mut self, dig_test: u8)
        requires
            old(self).wf(),
            old(self).spec_stage() == TrngStage::CheckDigital,
        ensures
            final(self).wf(),
            final(self).spec_analog_passed() == old(self).spec_analog_passed(),
            dig_test == TRNG_DIGITAL_TESTS_PASSED ==> final(self).spec_digital_passed()
                && final(self).spec_stage() == TrngStage::Issue(TrngCommand::PwrupAna),
            dig_test != TRNG_DIGITAL_TESTS_PASSED ==> final(self).spec_stage() == TrngStage::Failed(
                TrngFault::DigitalTestFail,
            ) && final(self).spec_digital_passed() == old(self).spec_digital_passed(),
    {
        if dig_test == TRNG_DIGITAL_TESTS_PASSED {
            self.digital_passed = true;
            self.stage = TrngStage::Issue(TrngCommand::PwrupAna);
        } else {
            self.stage = TrngStage::Failed(TrngFault::DigitalTestFail);
        }
    }

    /// The analog self-test result (TEST_RESULTS.ANA_TEST): the entropy source must work.
    pub fn on_analog_result(&mut self, ana_test: bool)
        requires
            old(self).wf(),
            old(self).spec_stage() == TrngStage::CheckAnalog,
        ensures
            final(self).wf(),
            final(self).spec_digital_passed() == old(self).spec_digital_passed(),
            ana_test ==> final(self).spec_analog_passed() && final(self).spec_stage()
                == TrngStage::Issue(TrngCommand::NormFuncDecimated),
            !ana_test ==> final(self).spec_stage() == TrngStage::Failed(TrngFault::AnalogTestFail)
                && final(self).spec_analog_passed() == old(self).spec_analog_passed(),
    {
        if ana_test {
            self.analog_passed = true;
            self.stage = TrngStage::Issue(TrngCommand::NormFuncDecimated);
        } else {
            self.stage = TrngStage::Failed(TrngFault::AnalogTestFail);
        }
    }
}

/// The TRNG is ready only after both its digital and its analog startup self-tests passed.
pub proof fn lemma_ready_only_after_self_tests(s: TrngStartup)
    requires
        s.wf(),
        s.spec_stage() == TrngStage::Ready,
    ensures
        s.spec_digital_passed(),
        s.spec_analog_passed(),
{
}

/// The startup commands are issued in the order NORM_FUNC, PWRUP_DIG, PWRUP_ANA, decimated
/// NORM_FUNC: the digital results are checked after PWRUP_DIG, the analog result after PWRUP_ANA,
/// and the TRNG is ready after the decimated NORM_FUNC.
pub proof fn lemma_startup_order()
    ensures
        spec_after_done(TrngCommand::NormFunc) == TrngStage::Issue(TrngCommand::PwrupDig),
        spec_after_done(TrngCommand::PwrupDig) == TrngStage::CheckDigital,
        spec_after_done(TrngCommand::PwrupAna) == TrngStage::CheckAnalog,
        spec_after_done(TrngCommand::NormFuncDecimated) == TrngStage::Ready,
{
}

/// Checks the front end's state (STAT.FSM_STATE) before a random word is taken.
pub fn health_check(fsm_state: u8) -> (r: Result<(), TrngFault>)
    ensures
        fsm_state == TRNG_FSM_ERROR ==> r == Err::<(), TrngFault>(TrngFault::HealthFail),
        fsm_state != TRNG_FSM_ERROR ==> r is Ok,
{
    if fsm_state == TRNG_FSM_ERROR {
        Err(TrngFault::HealthFail)
    } else {
        Ok(())
    }
}

} // verus!
