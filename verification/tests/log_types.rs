use lib::parse::log_types::{
    AppLogErrorKind, AppLogJournalKind, AppLogKind, AppLogTraceKind, CreateUser, DeleteUser,
    LogKind, LogLine, RegisterAsset, SystemLogErrorKind, SystemLogKind, SystemLogTraceKind,
    UnregisterAsset,
};
use lib::parse::stdp::NonZeroU32;
use lib::parse::types::{AUTHDATA_SIZE, Announcements, Backet, UserBacket, UserCash};
use lib::parse::{Parsable, Parser};

fn nz(n: u32) -> NonZeroU32 {
    NonZeroU32::new(n).unwrap()
}

fn line(input: &str) -> Result<(&str, LogLine), ()> {
    LogLine::parser().parse(input)
}

#[test]
fn system_error_line() {
    assert_eq!(
        line("System::Error NetworkError \"timeout\" requestid=7"),
        Ok((
            "",
            LogLine {
                kind: LogKind::System(SystemLogKind::Error(SystemLogErrorKind::NetworkError(
                    "timeout".to_string()
                ))),
                request_id: nz(7),
            }
        ))
    );
    assert_eq!(
        line("  System::Error AccessDenied \"no\" requestid=0x10 "),
        Ok((
            "",
            LogLine {
                kind: LogKind::System(SystemLogKind::Error(SystemLogErrorKind::AccessDenied(
                    "no".to_string()
                ))),
                request_id: nz(16),
            }
        ))
    );
}

#[test]
fn system_trace_line() {
    assert_eq!(
        SystemLogKind::parser().parse("System::Trace GetResponse \"200\""),
        Ok(("", SystemLogKind::Trace(SystemLogTraceKind::GetResponse("200".to_string()))))
    );
    assert_eq!(
        SystemLogTraceKind::parser().parse("Trace SendRequest \"GET /\""),
        Ok(("", SystemLogTraceKind::SendRequest("GET /".to_string())))
    );
}

#[test]
fn app_error_line() {
    assert_eq!(
        line("App::Error LackOf \"cash\" requestid=3"),
        Ok((
            "",
            LogLine {
                kind: LogKind::App(AppLogKind::Error(AppLogErrorKind::LackOf("cash".to_string()))),
                request_id: nz(3),
            }
        ))
    );
    assert_eq!(
        AppLogErrorKind::parser().parse("Error SystemError \"disk\""),
        Ok(("", AppLogErrorKind::SystemError("disk".to_string())))
    );
}

#[test]
fn app_trace_lines() {
    assert_eq!(
        AppLogKind::parser().parse("App::Trace SendRequest \"x\""),
        Ok(("", AppLogKind::Trace(AppLogTraceKind::SendRequest("x".to_string()))))
    );
    assert_eq!(
        AppLogTraceKind::parser().parse("Trace GetResponse \"y\""),
        Ok(("", AppLogTraceKind::GetResponse("y".to_string())))
    );
    assert_eq!(
        AppLogTraceKind::parser().parse("Trace Check []"),
        Ok(("", AppLogTraceKind::Check(Announcements(Vec::new()))))
    );
    let hex = "ab".repeat(AUTHDATA_SIZE);
    let input = format!("Trace Connect {} rest", hex);
    match AppLogTraceKind::parser().parse(&input) {
        Ok(("rest", AppLogTraceKind::Connect(auth))) => assert!(auth.0.iter().all(|b| *b == 0xab)),
        _ => panic!("expected Connect"),
    }
}

#[test]
fn journal_lines() {
    let cases: Vec<(&str, AppLogJournalKind)> = vec![
        (
            "Journal CreateUser{\"user_id\":\"u\",\"authorized_capital\":10,}",
            AppLogJournalKind::CreateUser(CreateUser {
                user_id: "u".to_string(),
                authorized_capital: nz(10),
            }),
        ),
        (
            "Journal DeleteUser{\"user_id\":\"u\",}",
            AppLogJournalKind::DeleteUser(DeleteUser { user_id: "u".to_string() }),
        ),
        (
            "Journal RegisterAsset{\"liquidity\":5,\"user_id\":\"u\",\"asset_id\":\"a\",}",
            AppLogJournalKind::RegisterAsset(RegisterAsset {
                asset_id: "a".to_string(),
                user_id: "u".to_string(),
                liquidity: nz(5),
            }),
        ),
        (
            "Journal UnregisterAsset{\"user_id\":\"u\",\"asset_id\":\"a\",}",
            AppLogJournalKind::UnregisterAsset(UnregisterAsset {
                asset_id: "a".to_string(),
                user_id: "u".to_string(),
            }),
        ),
        (
            "Journal DepositCash UserCash{\"user_id\":\"u\",\"count\":1,}",
            AppLogJournalKind::DepositCash(UserCash { user_id: "u".to_string(), count: nz(1) }),
        ),
        (
            "Journal WithdrawCash UserCash{\"user_id\":\"u\",\"count\":2,}",
            AppLogJournalKind::WithdrawCash(UserCash { user_id: "u".to_string(), count: nz(2) }),
        ),
        (
            "Journal BuyAsset UserBacket{\"user_id\":\"u\",\"backet\":Backet{\"asset_id\":\"a\",\"count\":3,},}",
            AppLogJournalKind::BuyAsset(UserBacket {
                user_id: "u".to_string(),
                backet: Backet { asset_id: "a".to_string(), count: nz(3) },
            }),
        ),
        (
            "Journal SellAsset UserBacket{\"user_id\":\"u\",\"backet\":Backet{\"asset_id\":\"a\",\"count\":4,},}",
            AppLogJournalKind::SellAsset(UserBacket {
                user_id: "u".to_string(),
                backet: Backet { asset_id: "a".to_string(), count: nz(4) },
            }),
        ),
    ];
    for (input, expected) in cases {
        assert_eq!(AppLogJournalKind::parser().parse(input), Ok(("", expected)), "{}", input);
    }
}

#[test]
fn journal_in_log_line() {
    assert_eq!(
        line("App::Journal DeleteUser{\"user_id\":\"u\",} requestid=1"),
        Ok((
            "",
            LogLine {
                kind: LogKind::App(AppLogKind::Journal(AppLogJournalKind::DeleteUser(DeleteUser {
                    user_id: "u".to_string(),
                }))),
                request_id: nz(1),
            }
        ))
    );
}

#[test]
fn bad_lines_refused() {
    assert!(line("System::Error NetworkError \"x\"").is_err());
    assert!(line("System::Error NetworkError \"x\" requestid=0").is_err());
    assert!(line("Other::Error LackOf \"x\" requestid=1").is_err());
    assert!(line("App::Journal DeleteUser{\"user_id\":\"u\"} requestid=1").is_err());
}
