use prettylogger::colors::{Color, color_text};
use prettylogger::config::{LogStruct, LogType};
use prettylogger::datetime::Timestamp;
use prettylogger::format::LogFormatter;

const RESET: &str = "\x1b[0m";

const COLOR_TABLE: [(Color, &str); 8] = [
    (Color::Black, "\x1b[30m"),
    (Color::Red, "\x1b[31m"),
    (Color::Green, "\x1b[32m"),
    (Color::Yellow, "\x1b[33m"),
    (Color::Blue, "\x1b[34m"),
    (Color::Magenta, "\x1b[35m"),
    (Color::Cyan, "\x1b[36m"),
    (Color::White, "\x1b[37m"),
];

// Test if setting different log header formats works
#[test]
fn log_headers() {
    let header = "askljdfhqwerpoiuzxcvmnbaskljdfhq";
    let mut f = LogFormatter::default();

    f.set_debug_header(header);
    f.set_info_header(header);
    f.set_warning_header(header);
    f.set_error_header(header);
    f.set_fatal_header(header);

    if f.get_log_type_header(LogType::Debug)
        != f.colorify(header, f.log_header_color(LogType::Debug))
    {
        panic!("Debug headers do not match!");
    }
    if f.get_log_type_header(LogType::Info)
        != f.colorify(header, f.log_header_color(LogType::Info))
    {
        panic!("Info headers do not match!");
    }
    if f.get_log_type_header(LogType::Warning)
        != f.colorify(header, f.log_header_color(LogType::Warning))
    {
        panic!("Warning headers do not match!");
    }
    if f.get_log_type_header(LogType::Error)
        != f.colorify(header, f.log_header_color(LogType::Error))
    {
        panic!("Error headers do not match!");
    }
    if f.get_log_type_header(LogType::FatalError)
        != f.colorify(header, f.log_header_color(LogType::FatalError))
    {
        panic!("Fatal error headers do not match!");
    }
}

// Test if logs are formatted as expected
#[test]
fn formats() {
    let mut f = LogFormatter::default();

    f.set_datetime_format("aaa");
    f.set_debug_header("d");
    f.set_info_header("i");
    f.set_warning_header("W");
    f.set_error_header("E");
    f.set_fatal_header("!");
    f.set_log_format("<l> <h>%h</h> <d>%d</d> <m>%m</m> </l>")
        .expect("Failed to set log format!");

    let mut logstruct = LogStruct::debug("aaa");

    let tests = [
        (LogType::Debug, "d"),
        (LogType::Info, "i"),
        (LogType::Warning, "W"),
        (LogType::Error, "E"),
        (LogType::FatalError, "!"),
    ];

    for (log_type, header) in tests.iter() {
        logstruct.log_type = *log_type;
        let comp = format!(
            "<l> <h>{}</h> <d>aaa</d> <m>aaa</m> </l>\n",
            f.colorify(header, f.log_header_color(*log_type))
        );

        if f.format_log(&logstruct) != comp {
            panic!(
                "Bad log formatting, expected \n'{}', got \n'{}'",
                comp,
                f.format_log(&logstruct)
            );
        }
    }
}

// Test text coloring with standard colors
#[test]
fn test_color_text() {
    for element in COLOR_TABLE.iter() {
        let text = "lorem ipsum dolor sit amet 12345";
        let color_test = color_text(text, element.0.clone());
        let color_manual = element.1.to_string() + text + RESET;
        assert_eq!(color_test, color_manual);
    }
}

// Test text coloring with non-standard colors
#[test]
fn color_text_custom() {
    let names = [
        "Black", "Red", "Green", "Yellow", "Blue", "Magenta", "Cyan", "White",
    ];
    for name in names.iter() {
        let text = "lorem ipsum dolor sit amet 12345";
        let color = name.to_string();
        let color_test = color_text(text, Color::Custom(color.clone()));
        let color_manual = color + text + RESET;
        assert_eq!(color_test, color_manual);
    }
}

// Test if formatter is throwing errors when it should
#[test]
fn formatter_errs() {
    let mut f: LogFormatter;

    // Without a message placeholder
    f = LogFormatter::default();
    assert!(f.set_log_format("%h %d").is_err());
    assert!(f.set_log_format("").is_err());

    // With a message placeholder
    f = LogFormatter::default();
    assert!(f.set_log_format("%m").is_ok());
    f = LogFormatter::default();
    assert!(f.set_log_format("%m %h %d").is_ok());
}

// A color of Plain must leave the text untouched, with no trailing reset code
#[test]
fn color_plain_is_identity() {
    assert_eq!(color_text("some text", Color::Plain), "some text");
    assert_eq!(color_text("", Color::Plain), "");
}

// A rejected template must leave the previously active template in place
#[test]
fn rejected_template_keeps_previous() {
    let mut f = LogFormatter::default();
    f.set_log_format("** %m **").expect("Failed to set log format!");
    let err = f.set_log_format("%h only");
    assert!(err.is_err());
    assert_eq!(
        err.unwrap_err().message,
        "Expected a message placeholder!"
    );

    f.toggle_log_header_color(false);
    let log = LogStruct::info("kept");
    assert_eq!(f.format_log(&log), "** kept **\n");
}

// Unknown placeholders degrade to the literal character; a trailing percent
// sign is dropped
#[test]
fn placeholder_edge_cases() {
    let mut f = LogFormatter::default();
    f.toggle_log_header_color(false);
    f.set_error_header("E");

    f.set_log_format("%x %q %m %%m %").expect("Failed to set log format!");
    let log = LogStruct::error("msg");
    assert_eq!(f.format_log(&log), "x q msg %m \n");

    f.set_log_format("%m%m").expect("Failed to set log format!");
    assert_eq!(f.format_log(&log), "msgmsg\n");

    f.set_log_format("%h: %m").expect("Failed to set log format!");
    assert_eq!(f.format_log(&log), "E: msg\n");
}

// The %d placeholder renders the event timestamp under the datetime
// sub-format; without %d in the template the datetime text is empty
#[test]
fn datetime_placeholder_renders_timestamp() {
    let mut f = LogFormatter::default();
    f.toggle_log_header_color(false);
    f.set_datetime_format("%Y-%m-%d");
    f.set_log_format("%d %m").expect("Failed to set log format!");

    let log = LogStruct {
        message: "epoch".to_string(),
        log_type: LogType::Info,
        datetime: Timestamp { secs: 0, nanos: 0, offset_secs: 0 },
    };
    assert_eq!(f.format_log(&log), "1970-01-01 epoch\n");

    let later = LogStruct {
        message: "later".to_string(),
        log_type: LogType::Info,
        // 2001-09-09 01:46:40 UTC
        datetime: Timestamp { secs: 1_000_000_000, nanos: 0, offset_secs: 0 },
    };
    assert_eq!(f.format_log(&later), "2001-09-09 later\n");

    // A positive offset moves the rendered local date
    let offset = LogStruct {
        message: "shifted".to_string(),
        log_type: LogType::Info,
        datetime: Timestamp { secs: 0, nanos: 0, offset_secs: 3600 },
    };
    f.set_datetime_format("%H:%M");
    assert_eq!(f.format_log(&offset), "01:00 shifted\n");
}

// Default formatter configuration
#[test]
fn default_formatter_values() {
    let f = LogFormatter::default();
    let log = LogStruct::error("oops");
    assert_eq!(f.format_log(&log), "[\x1b[31mERR\x1b[0m] oops\n");

    let mut plain = LogFormatter::default();
    plain.toggle_log_header_color(false);
    assert_eq!(plain.format_log(&log), "[ERR] oops\n");
}

// A custom header color wraps the header in the carried escape sequence
#[test]
fn custom_header_color() {
    let mut f = LogFormatter::default();
    f.set_debug_color(Color::Custom("\x1b[97m".to_string()));
    f.set_debug_header("D");
    let log = LogStruct {
        message: "x".to_string(),
        log_type: LogType::Debug,
        datetime: Timestamp { secs: 0, nanos: 0, offset_secs: 0 },
    };
    assert_eq!(f.format_log(&log), "[\x1b[97mD\x1b[0m] x\n");
}

// The color table conversions accept exactly the indices 0 through 10
#[test]
fn color_conversions() {
    assert_eq!(Color::try_from(0).unwrap(), Color::Plain);
    assert_eq!(Color::try_from(7).unwrap(), Color::Red);
    assert_eq!(Color::try_from(10).unwrap(), Color::Custom(String::new()));
    assert!(Color::try_from(11).is_err());
    assert!(Color::try_from(-1).is_err());
}
