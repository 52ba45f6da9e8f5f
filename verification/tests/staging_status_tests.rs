use unarch::staging::dir_is_empty;
use unarch::staging::staging_decision;
use unarch::staging::CreateOutcome;
use unarch::staging::StagingDecision;
use unarch::format::UNRECOGNIZED_FORMAT_EXIT;
use unarch::staging::TARGET_NOT_EMPTY_EXIT;
use unarch::status::exit_code_for;
use unarch::status::rebase_archive_path;

#[test]
fn fresh_target_directory_proceeds() {
    assert_eq!(staging_decision(CreateOutcome::Created), StagingDecision::Proceed);
}

#[test]
fn pre_existing_empty_target_directory_proceeds() {
    assert_eq!(staging_decision(CreateOutcome::AlreadyExists(0)), StagingDecision::Proceed);
}

#[test]
fn pre_existing_non_empty_target_directory_is_rejected() {
    assert_eq!(staging_decision(CreateOutcome::AlreadyExists(1)), StagingDecision::Reject);
    assert_eq!(staging_decision(CreateOutcome::AlreadyExists(3)), StagingDecision::Reject);
}

#[test]
fn other_creation_failures_are_rejected() {
    assert_eq!(staging_decision(CreateOutcome::OtherError), StagingDecision::Reject);
}

#[test]
fn emptiness_means_no_entries() {
    assert!(dir_is_empty(0));
    assert!(!dir_is_empty(1));
}

#[test]
fn the_two_fatal_exit_codes_are_distinct_and_non_zero() {
    assert_ne!(UNRECOGNIZED_FORMAT_EXIT, 0);
    assert_ne!(TARGET_NOT_EMPTY_EXIT, 0);
    assert_ne!(UNRECOGNIZED_FORMAT_EXIT, TARGET_NOT_EMPTY_EXIT);
}

#[test]
fn relative_archive_paths_move_up_one_level() {
    assert_eq!(rebase_archive_path("foo.zip"), "../foo.zip");
    assert_eq!(rebase_archive_path("dir/foo.zip"), "../dir/foo.zip");
}

#[test]
fn absolute_archive_paths_stay_as_they_are() {
    assert_eq!(rebase_archive_path("/data/foo.zip"), "/data/foo.zip");
}

#[test]
fn subprocess_exit_code_is_propagated() {
    assert_eq!(exit_code_for(false, Some(2), None), Some(2));
}

#[test]
fn signal_termination_becomes_128_plus_signal() {
    assert_eq!(exit_code_for(false, None, Some(9)), Some(137));
}

#[test]
fn successful_subprocess_propagates_nothing() {
    assert_eq!(exit_code_for(true, Some(0), None), None);
}
