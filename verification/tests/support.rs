//! Tests of the request model, error taxonomy and template helpers.

use gridlesslib::cli::{Args, CliError};
use gridlesslib::template::{GridCircle, GridLine, TemplateManager};
use gridlesslib::ProcessingConfig;

fn sample_args(nside: u32) -> Args {
    Args {
        nside,
        show_sources: true,
        file: "data.json".to_string(),
        show_stats: false,
        show_colorbar: true,
        output: None,
    }
}

#[test]
fn test_validate_rejects_zero_nside() {
    let args = sample_args(0);
    assert_eq!(args.validate(), Err(CliError::InvalidNside(0)));
}

#[test]
fn test_validate_accepts_positive_nside() {
    let args = sample_args(16);
    assert_eq!(args.validate(), Ok(()));
}

#[test]
fn test_exit_codes() {
    assert_eq!(CliError::InvalidNside(0).exit_code(), 2);
    assert_eq!(CliError::FileNotFound("x.json".to_string()).exit_code(), 2);
    assert_eq!(CliError::FileRead("denied".to_string()).exit_code(), 1);
    assert_eq!(CliError::InvalidJson("bad".to_string()).exit_code(), 1);
    assert_eq!(CliError::Processing("fail".to_string()).exit_code(), 1);
    assert_eq!(CliError::OutputWrite("disk".to_string()).exit_code(), 1);
}

#[test]
fn test_processing_config_from_args() {
    let args = sample_args(32);
    let config = ProcessingConfig::from(&args);
    assert_eq!(config.nside, 32);
    assert!(config.show_sources);
    assert!(!config.show_stats);
    assert!(config.show_colorbar);
}

#[test]
fn test_grid_circle_new() {
    let c = GridCircle::new(10, -20, 30);
    assert_eq!(c.cx, 10);
    assert_eq!(c.cy, -20);
    assert_eq!(c.radius, 30);
}

#[test]
fn test_grid_line_new() {
    let l = GridLine::new(1, 2, 3, 4);
    assert_eq!(l.x1, 1);
    assert_eq!(l.y1, 2);
    assert_eq!(l.x2, 3);
    assert_eq!(l.y2, 4);
}

#[test]
fn test_template_path() {
    let manager = TemplateManager::new("templates".to_string());
    assert_eq!(manager.template_path("hemisphere"), "templates/hemisphere.stpl");
}
