use voxel_world::persistence::{
    after_read, after_write, LoadStep, ReadOutcome, SaveStep, MAX_ATTEMPTS,
};

#[test]
fn reads_fall_back_to_generation() {
    assert_eq!(MAX_ATTEMPTS, 3);
    for attempts in [1, 2, 3, 4, u32::MAX] {
        assert_eq!(after_read(ReadOutcome::Found, attempts), LoadStep::UseStored);
        assert_eq!(after_read(ReadOutcome::Missing, attempts), LoadStep::Generate);
        assert_eq!(after_read(ReadOutcome::Corrupt, attempts), LoadStep::Generate);
    }
    assert_eq!(after_read(ReadOutcome::Failed, 1), LoadStep::Retry);
    assert_eq!(after_read(ReadOutcome::Failed, 2), LoadStep::Retry);
    assert_eq!(after_read(ReadOutcome::Failed, 3), LoadStep::Generate);
    assert_eq!(after_read(ReadOutcome::Failed, 4), LoadStep::Generate);
}

#[test]
fn failed_writes_are_put_off() {
    assert_eq!(after_write(true, 1), SaveStep::Done);
    assert_eq!(after_write(true, 9), SaveStep::Done);
    assert_eq!(after_write(false, 1), SaveStep::Retry);
    assert_eq!(after_write(false, 2), SaveStep::Retry);
    assert_eq!(after_write(false, 3), SaveStep::Postpone);
    assert_eq!(after_write(false, u32::MAX), SaveStep::Postpone);
}
