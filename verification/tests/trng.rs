use mspm0l222x_hal::trng::{
    health_check, TrngAck, TrngCommand, TrngFault, TrngRis, TrngStage, TrngStartup,
};

const DONE: TrngRis = TrngRis { cmd_done: true, cmd_fail: false };
const FAIL: TrngRis = TrngRis { cmd_done: false, cmd_fail: true };
const IDLE: TrngRis = TrngRis { cmd_done: false, cmd_fail: false };

fn run_command(s: &mut TrngStartup, cmd: TrngCommand) {
    assert_eq!(s.stage(), TrngStage::Issue(cmd));
    s.issued();
    assert_eq!(s.stage(), TrngStage::Wait(cmd));
    assert_eq!(s.on_status(IDLE), TrngAck::Nothing);
    assert_eq!(s.stage(), TrngStage::Wait(cmd));
    assert_eq!(s.on_status(DONE), TrngAck::ClearCmdDone);
}

#[test]
fn startup_reaches_ready_when_tests_pass() {
    let mut s = TrngStartup::start();
    run_command(&mut s, TrngCommand::NormFunc);
    run_command(&mut s, TrngCommand::PwrupDig);
    assert_eq!(s.stage(), TrngStage::CheckDigital);
    s.on_digital_result(0xFF);
    run_command(&mut s, TrngCommand::PwrupAna);
    assert_eq!(s.stage(), TrngStage::CheckAnalog);
    s.on_analog_result(true);
    run_command(&mut s, TrngCommand::NormFuncDecimated);
    assert_eq!(s.stage(), TrngStage::Ready);
}

#[test]
fn digital_test_failure() {
    let mut s = TrngStartup::start();
    run_command(&mut s, TrngCommand::NormFunc);
    run_command(&mut s, TrngCommand::PwrupDig);
    s.on_digital_result(0xFE);
    assert_eq!(s.stage(), TrngStage::Failed(TrngFault::DigitalTestFail));
}

#[test]
fn analog_test_failure() {
    let mut s = TrngStartup::start();
    run_command(&mut s, TrngCommand::NormFunc);
    run_command(&mut s, TrngCommand::PwrupDig);
    s.on_digital_result(0xFF);
    run_command(&mut s, TrngCommand::PwrupAna);
    s.on_analog_result(false);
    assert_eq!(s.stage(), TrngStage::Failed(TrngFault::AnalogTestFail));
}

#[test]
fn rejected_command() {
    let mut s = TrngStartup::start();
    s.issued();
    assert_eq!(s.on_status(FAIL), TrngAck::ClearCmdFail);
    assert_eq!(s.stage(), TrngStage::Failed(TrngFault::CommandRejected));
    assert_eq!(TrngFault::CommandRejected.message(), "TRNG Command Rejected");
}

#[test]
fn done_is_seen_before_fail() {
    let mut s = TrngStartup::start();
    s.issued();
    assert_eq!(s.on_status(TrngRis { cmd_done: true, cmd_fail: true }), TrngAck::ClearCmdDone);
    assert_eq!(s.stage(), TrngStage::Issue(TrngCommand::PwrupDig));
}

#[test]
fn health() {
    assert_eq!(health_check(0x3), Ok(()));
    assert_eq!(health_check(0xA), Err(TrngFault::HealthFail));
    assert_eq!(TrngFault::HealthFail.message(), "TRNG Health Fail");
}
