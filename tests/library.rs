use cic::args::{get_port, get_years, port_from_arg, years_from_arg, DEFAULT_PORT};
use cic::cli::{select_mode, Mode};
use cic::error::Failure;
use cic::schedule::{check_years, year_periods};
use cic::server::default_years;

fn port_command() -> clap::Command {
    clap::Command::new("cic")
        .arg(clap::Arg::new("port").short('p').long("port"))
        .arg(clap::Arg::new("years").short('y').long("years"))
}

#[test]
fn port_is_read_from_its_argument() {
    assert_eq!(port_from_arg(Some("9000")), 9000);
    assert_eq!(port_from_arg(Some("+80")), 80);
    assert_eq!(port_from_arg(Some("00443")), 443);
    assert_eq!(port_from_arg(Some("65535")), 65535);
}

#[test]
fn port_falls_back_to_default() {
    assert_eq!(DEFAULT_PORT, 8080);
    assert_eq!(port_from_arg(None), 8080);
    assert_eq!(port_from_arg(Some("")), 8080);
    assert_eq!(port_from_arg(Some("abc")), 8080);
    assert_eq!(port_from_arg(Some("65536")), 8080);
    assert_eq!(port_from_arg(Some("-1")), 8080);
    assert_eq!(port_from_arg(Some(" 80")), 8080);
    assert_eq!(port_from_arg(Some("+")), 8080);
}

#[test]
fn years_are_read_from_their_argument() {
    assert_eq!(years_from_arg(Some("3")), 3);
    assert_eq!(years_from_arg(Some("-4")), -4);
    assert_eq!(years_from_arg(Some("+12")), 12);
    assert_eq!(years_from_arg(None), 0);
    assert_eq!(years_from_arg(Some("3.5")), 0);
    assert_eq!(years_from_arg(Some("2147483648")), 0);
}

#[test]
fn port_and_years_come_from_matches() {
    let m = port_command().get_matches_from(vec!["cic", "--port", "9001", "-y", "7"]);
    assert_eq!(get_port(&m), 9001);
    assert_eq!(get_years(&m), 7);
    let m = port_command().get_matches_from(vec!["cic"]);
    assert_eq!(get_port(&m), 8080);
    assert_eq!(get_years(&m), 0);
    let m = port_command().get_matches_from(vec!["cic", "-p", "http"]);
    assert_eq!(get_port(&m), 8080);
}

#[test]
fn undefined_argument_reads_as_missing() {
    let m = clap::Command::new("cic").get_matches_from(vec!["cic"]);
    assert_eq!(get_port(&m), 8080);
    assert_eq!(get_years(&m), 0);
}

#[test]
fn mode_follows_arguments() {
    assert_eq!(select_mode(1, false, false), Mode::Usage);
    assert_eq!(select_mode(0, true, true), Mode::Usage);
    assert_eq!(select_mode(2, true, true), Mode::Server);
    assert_eq!(select_mode(3, false, true), Mode::Json);
    assert_eq!(select_mode(3, false, false), Mode::Chart);
}

#[test]
fn failures_map_to_statuses() {
    assert_eq!(Failure::InvalidInput.http_status(), 400);
    assert_eq!(Failure::RenderingFailure.http_status(), 500);
    assert_eq!(Failure::SerializationFailure.http_status(), 500);
    assert_eq!(Failure::InvalidInput.message(), "Negative values are not allowed");
    assert_eq!(Failure::RenderingFailure.message(), "Failed to plot summary");
    assert_eq!(Failure::SerializationFailure.message(), "Failed to serialize to JSON");
}

#[test]
fn request_years_default_to_five() {
    assert_eq!(default_years(), 5);
    assert_eq!(year_periods(default_years()).unwrap().len(), 5);
}

#[test]
fn periods_count_years_from_one() {
    assert_eq!(year_periods(3), Ok(vec![1, 2, 3]));
    assert_eq!(year_periods(1), Ok(vec![1]));
}

#[test]
fn no_years_give_no_periods() {
    assert_eq!(year_periods(0), Ok(vec![]));
}

#[test]
fn negative_years_are_invalid() {
    assert_eq!(year_periods(-1), Err(Failure::InvalidInput));
    assert_eq!(year_periods(i32::MIN), Err(Failure::InvalidInput));
}

#[test]
fn years_check_refuses_only_negative() {
    assert_eq!(check_years(0), Ok(()));
    assert_eq!(check_years(i32::MAX), Ok(()));
    assert_eq!(check_years(-1), Err(Failure::InvalidInput));
    assert_eq!(check_years(i32::MIN), Err(Failure::InvalidInput));
}
