use ls_crates::cli::{help_requested, is_help_flag, parse_command, CliOptions, Command};

#[test]
fn parse_args() {
    assert_eq!(
        ls_crates::cli::parse_args(&["vdp"]),
        ls_crates::cli::CliOptions {
            print_versions: true,
            print_descs: true,
            print_paths: true
        }
    );
    assert_eq!(
        ls_crates::cli::parse_args(&["vd"]),
        ls_crates::cli::CliOptions {
            print_versions: true,
            print_descs: true,
            print_paths: false
        }
    );
    assert_eq!(
        ls_crates::cli::parse_args(&["dp"]),
        ls_crates::cli::CliOptions {
            print_versions: false,
            print_descs: true,
            print_paths: true
        }
    );
    assert_eq!(
        ls_crates::cli::parse_args(&["vp"]),
        ls_crates::cli::CliOptions {
            print_versions: true,
            print_descs: false,
            print_paths: true
        }
    );
    assert_eq!(
        ls_crates::cli::parse_args(&[""]),
        ls_crates::cli::CliOptions {
            print_versions: false,
            print_descs: false,
            print_paths: false
        }
    );
    assert_eq!(
        ls_crates::cli::parse_args(&["asfv"]),
        ls_crates::cli::CliOptions {
            print_versions: true,
            print_descs: false,
            print_paths: false
        }
    );
}

#[test]
fn no_arguments_select_nothing() {
    let none: [&str; 0] = [];
    assert_eq!(
        ls_crates::cli::parse_args(&none),
        CliOptions { print_versions: false, print_descs: false, print_paths: false }
    );
}

#[test]
fn last_argument_decides() {
    assert_eq!(
        ls_crates::cli::parse_args(&["-v", "-d"]),
        CliOptions { print_versions: false, print_descs: true, print_paths: false }
    );
    assert_eq!(
        ls_crates::cli::parse_args(&["-d", "-v"]),
        CliOptions { print_versions: true, print_descs: false, print_paths: false }
    );
}

#[test]
fn arguments_that_are_no_flags_select_nothing() {
    assert_eq!(
        ls_crates::cli::parse_args(&["--quux", "-x"]),
        CliOptions { print_versions: false, print_descs: false, print_paths: false }
    );
}

#[test]
fn an_argument_that_is_no_flag_undoes_nothing() {
    assert_eq!(
        ls_crates::cli::parse_args(&["-v", "-x"]),
        CliOptions { print_versions: true, print_descs: false, print_paths: false }
    );
    assert_eq!(
        ls_crates::cli::parse_args(&["-x", "-vd", "-x", ""]),
        CliOptions { print_versions: true, print_descs: true, print_paths: false }
    );
    assert_eq!(
        ls_crates::cli::parse_args(&["-d", "-x", "-v", "--quux"]),
        CliOptions { print_versions: true, print_descs: false, print_paths: false }
    );
    assert_eq!(
        parse_command(&["-v", "-x"]),
        Command::Run(CliOptions { print_versions: true, print_descs: false, print_paths: false })
    );
}

#[test]
fn the_program_name_in_front_is_an_argument_like_others() {
    assert_eq!(
        ls_crates::cli::parse_args(&["prog", "-v", "-x"]),
        CliOptions { print_versions: true, print_descs: false, print_paths: false }
    );
    assert_eq!(
        ls_crates::cli::parse_args(&["prog", "-x"]),
        CliOptions { print_versions: false, print_descs: false, print_paths: true }
    );
}

#[test]
fn unpack_gives_versions_descriptions_paths() {
    let options = CliOptions { print_versions: true, print_descs: false, print_paths: true };
    assert_eq!(options.unpack(), (true, false, true));
    let options = CliOptions { print_versions: false, print_descs: true, print_paths: false };
    assert_eq!(options.unpack(), (false, true, false));
}

#[test]
fn help_flags_are_recognised() {
    assert!(is_help_flag("-h"));
    assert!(is_help_flag("--help"));
    assert!(!is_help_flag("-help"));
    assert!(!is_help_flag("--h"));
    assert!(!is_help_flag("h"));
    assert!(!is_help_flag(""));
    assert!(!is_help_flag("--help "));
}

#[test]
fn help_anywhere_asks_for_help() {
    assert!(help_requested(&["-v", "--help"]));
    assert!(help_requested(&["-h", "-v"]));
    assert!(!help_requested(&["-v", "-d"]));
    let none: [&str; 0] = [];
    assert!(!help_requested(&none));
}

#[test]
fn command_is_help_or_run() {
    assert_eq!(parse_command(&["-d", "-h", "-v"]), Command::Help);
    assert_eq!(parse_command(&["--help"]), Command::Help);
    assert_eq!(
        parse_command(&["-vd"]),
        Command::Run(CliOptions { print_versions: true, print_descs: true, print_paths: false })
    );
    let none: [&str; 0] = [];
    assert_eq!(
        parse_command(&none),
        Command::Run(CliOptions { print_versions: false, print_descs: false, print_paths: false })
    );
}
