use dqcsim::cli::{parse_filterlevel, ParseLevelError, SlogLevel};

#[test]
fn parse_level_names() {
    assert_eq!(parse_filterlevel("trace"), Ok(SlogLevel::Trace));
    assert_eq!(parse_filterlevel("Warning"), Ok(SlogLevel::Warning));
    assert_eq!(parse_filterlevel("CRIT"), Ok(SlogLevel::Critical));
    assert_eq!(parse_filterlevel("debg"), Ok(SlogLevel::Debug));
}

#[test]
fn parse_level_numbers() {
    assert_eq!(parse_filterlevel("1"), Ok(SlogLevel::Critical));
    assert_eq!(parse_filterlevel("4"), Ok(SlogLevel::Info));
    assert_eq!(parse_filterlevel("6"), Ok(SlogLevel::Trace));
    assert_eq!(parse_filterlevel("0"), Err(ParseLevelError));
    assert_eq!(parse_filterlevel("+5"), Ok(SlogLevel::Debug));
    assert_eq!(parse_filterlevel("-1"), Err(ParseLevelError));
    assert_eq!(parse_filterlevel("7"), Err(ParseLevelError));
    assert_eq!(parse_filterlevel("006"), Ok(SlogLevel::Trace));
    assert_eq!(parse_filterlevel("+"), Err(ParseLevelError));
    assert_eq!(parse_filterlevel("6x"), Err(ParseLevelError));
    assert_eq!(parse_filterlevel("99999999999999999999999999"), Err(ParseLevelError));
    assert_eq!(parse_filterlevel("٣"), Err(ParseLevelError));
}

#[test]
fn parse_level_off_and_rejects() {
    assert_eq!(parse_filterlevel("Off"), Ok(SlogLevel::Off));
    assert_eq!(parse_filterlevel("OFF"), Ok(SlogLevel::Off));
    assert_eq!(parse_filterlevel(""), Err(ParseLevelError));
    assert_eq!(parse_filterlevel("loud"), Err(ParseLevelError));
    assert_eq!(parse_filterlevel("of"), Ok(SlogLevel::Off));
    assert_eq!(parse_filterlevel("criticalx"), Err(ParseLevelError));
    assert_eq!(parse_filterlevel("e"), Ok(SlogLevel::Error));
    assert_eq!(parse_filterlevel("TrCe"), Ok(SlogLevel::Trace));
    assert_eq!(
        ParseLevelError.to_string(),
        "invalid log level. [Off, Critical, Error, Warning, Info, Debug, Trace]"
    );
    assert_eq!(ParseLevelError.description(), ParseLevelError.to_string());
}

#[test]
fn level_names_read_back() {
    let levels = [
        SlogLevel::Off,
        SlogLevel::Critical,
        SlogLevel::Error,
        SlogLevel::Warning,
        SlogLevel::Info,
        SlogLevel::Debug,
        SlogLevel::Trace,
    ];
    let full = ["OFF", "CRITICAL", "ERROR", "WARNING", "INFO", "DEBUG", "TRACE"];
    let short = ["OFF", "CRIT", "ERRO", "WARN", "INFO", "DEBG", "TRCE"];
    for i in 0..7 {
        assert_eq!(parse_filterlevel(full[i]), Ok(levels[i]));
        assert_eq!(parse_filterlevel(short[i]), Ok(levels[i]));
    }
    for (name, level) in ["Off", "Critical", "Error", "Warning", "Info", "Debug", "Trace"]
        .iter()
        .zip(levels.iter())
    {
        assert_eq!(parse_filterlevel(name), Ok(*level));
    }
}
