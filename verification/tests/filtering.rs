use prettylogger::Logger;
use prettylogger::config::{LogType, Verbosity};

// Check if logs are properly filtered by the Logger struct
#[test]
fn log_filtering() {
    // Loop over all the possible Verbosity values
    let mut i = 0;
    loop {
        let mut l = Logger::default();
        let verbosity = Verbosity::try_from(i).expect("Failed to get `Verbosity`!");
        l.set_verbosity(verbosity);

        match verbosity {
            Verbosity::ErrorsOnly => {
                if !l.filter_log(LogType::Debug) {
                    panic!("Log should get filtered!");
                }
                if !l.filter_log(LogType::Info) {
                    panic!("Log should get filtered!");
                }
                if !l.filter_log(LogType::Warning) {
                    panic!("Log should get filtered!");
                }
            },
            Verbosity::Quiet => {
                if !l.filter_log(LogType::Debug) {
                    panic!("Log should get filtered!");
                }
                if !l.filter_log(LogType::Info) {
                    panic!("Log should get filtered!");
                }
                if l.filter_log(LogType::Warning) {
                    panic!("Log not should get filtered!");
                }
            },
            Verbosity::Standard => {
                if !l.filter_log(LogType::Debug) {
                    panic!("Log should get filtered!");
                }
                if l.filter_log(LogType::Info) {
                    panic!("Log should not get filtered!");
                }
                if l.filter_log(LogType::Warning) {
                    panic!("Log should not get filtered!");
                }
            },
            Verbosity::All => {
                if l.filter_log(LogType::Debug) {
                    panic!("Log should not get filtered!");
                }
                if l.filter_log(LogType::Info) {
                    panic!("Log should not get filtered!");
                }
                if l.filter_log(LogType::Warning) {
                    panic!("Log should not get filtered!");
                }
            },
        }

        // Error logs cannot be silenced
        if l.filter_log(LogType::Error) {
            panic!("Log should not get filtered!");
        }
        if l.filter_log(LogType::FatalError) {
            panic!("Log should not get filtered!");
        }

        // With log filtering disabled
        l.disable_log_filtering();
        if l.filter_log(LogType::Debug) {
            panic!("Log should not get filtered when filtering is disabled!");
        }
        if l.filter_log(LogType::Info) {
            panic!("Log should not get filtered when filtering is disabled!");
        }
        if l.filter_log(LogType::Warning) {
            panic!("Log should not get filtered when filtering is disabled!");
        }
        if l.filter_log(LogType::Error) {
            panic!("Log should not get filtered!");
        }
        if l.filter_log(LogType::FatalError) {
            panic!("Log should not get filtered!");
        }

        i += 1;
        if i > 3 {
            break;
        }
    }
}

// Suppression is monotonic: under a fixed threshold, everything ranked below
// a suppressed severity is suppressed too
#[test]
fn filter_monotonic_by_rank() {
    let mut l = Logger::default();
    l.enable_log_filtering();
    l.set_verbosity(Verbosity::Quiet);

    // Warning passes, so Info and Debug (ranked below) say nothing about it;
    // Info is suppressed, so Debug must be as well
    assert!(!l.filter_log(LogType::Warning));
    assert!(l.filter_log(LogType::Info));
    assert!(l.filter_log(LogType::Debug));
}

// A severity exactly at the threshold rank is let through
#[test]
fn filter_equal_rank_passes() {
    let mut l = Logger::default();
    l.set_verbosity(Verbosity::Standard);
    // Info and Standard share a rank: not filtered
    assert!(!l.filter_log(LogType::Info));
}

// Out-of-range rank values are rejected by the conversions
#[test]
fn rank_conversions() {
    assert_eq!(Verbosity::try_from(2).unwrap(), Verbosity::Quiet);
    assert_eq!(LogType::try_from(4).unwrap(), LogType::FatalError);
    assert!(Verbosity::try_from(4).is_err());
    assert!(Verbosity::try_from(-1).is_err());
    assert!(LogType::try_from(5).is_err());
    assert!(LogType::try_from(-1).is_err());
    assert_eq!(
        Verbosity::try_from(9).unwrap_err().message,
        "Invalid value. Please provide a value in range from 0 to 3."
    );
    assert_eq!(
        LogType::try_from(9).unwrap_err().message,
        "Invalid value. Please provide a value in range from 0 to 4."
    );
}
