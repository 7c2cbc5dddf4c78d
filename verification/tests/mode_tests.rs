use clipcat::errors::EngineError;
use clipcat::errors::EnvVarError;
use clipcat::errors::ErrorStatus;
use clipcat::errors::ExitStatus;
use clipcat::errors::exit_code;
use clipcat::modes::Flags;
use clipcat::modes::InputSpec;
use clipcat::modes::Mode;
use clipcat::modes::default_path;
use clipcat::modes::join_path;
use clipcat::modes::may_write_output;
use clipcat::modes::resolve_mode;
use clipcat::modes::resolved_input;

fn flags() -> Flags {
    Flags {
        explicit_input: None,
        named_input: None,
        print_rec_path: false,
        list: false,
        list_sessions: false,
        output: None,
        keep_second_track: false,
        force: false,
    }
}

#[test]
fn rec_path_wins_over_every_other_flag() {
    let f = Flags {
        explicit_input: Some("/clips".to_owned()),
        print_rec_path: true,
        list: true,
        output: Some("/out.webm".to_owned()),
        keep_second_track: true,
        force: true,
        ..flags()
    };
    assert_eq!(resolve_mode(f), Mode::PrintDefaultPath);
    let f = Flags { print_rec_path: true, list_sessions: true, ..flags() };
    assert_eq!(resolve_mode(f), Mode::PrintDefaultPath);
}

#[test]
fn list_sessions_wins_over_input_and_output() {
    let f = Flags {
        named_input: Some("match-3".to_owned()),
        list_sessions: true,
        output: Some("/out.webm".to_owned()),
        ..flags()
    };
    assert_eq!(resolve_mode(f), Mode::ListSessions);
}

#[test]
fn missing_output_degrades_to_clip_listing() {
    let f = Flags {
        explicit_input: Some("/clips".to_owned()),
        keep_second_track: true,
        force: true,
        ..flags()
    };
    assert_eq!(
        resolve_mode(f),
        Mode::ListClips { input: InputSpec::Explicit("/clips".to_owned()) }
    );
}

#[test]
fn output_selects_concatenation() {
    let f = Flags {
        named_input: Some("match-3".to_owned()),
        output: Some("/out.webm".to_owned()),
        keep_second_track: true,
        ..flags()
    };
    assert_eq!(
        resolve_mode(f),
        Mode::Concatenate {
            input: InputSpec::Named("match-3".to_owned()),
            output: "/out.webm".to_owned(),
            keep_second_track: true,
            force: false,
        }
    );
}

#[test]
fn default_path_for_each_platform_family() {
    assert_eq!(
        default_path("/home/user", false),
        "/home/user/.local/share/Steam/steamapps/compatdata/2881650/pfx/drive_c/users/steamuser/Temp/rec/"
    );
    assert_eq!(default_path("C:/Users/u/AppData/Local", true), "C:/Users/u/AppData/Local/Temp/rec/");
}

#[test]
fn join_path_inserts_one_separator() {
    assert_eq!(join_path("/base", "x"), "/base/x");
    assert_eq!(join_path("/base/", "x"), "/base/x");
    assert_eq!(join_path("", "x"), "x");
}

#[test]
fn named_input_resolves_under_the_default_path() {
    let named = InputSpec::Named("match-3".to_owned());
    assert_eq!(resolved_input(&named, "/rec"), "/rec/match-3");
    let explicit = InputSpec::Explicit("/elsewhere".to_owned());
    assert_eq!(resolved_input(&explicit, "/rec"), "/elsewhere");
}

#[test]
fn existing_output_without_force_is_refused() {
    assert!(!may_write_output(true, false));
    assert!(may_write_output(true, true));
    assert!(may_write_output(false, false));
    assert!(may_write_output(false, true));
}

#[test]
fn refusal_exits_with_code_two() {
    assert_eq!(exit_code(&Ok(ExitStatus::OK)), 0);
    assert_eq!(exit_code(&Ok(ExitStatus::WontForce("/out.webm".to_owned()))), 2);
}

#[test]
fn every_error_kind_has_its_own_exit_code() {
    let cases = [
        (EngineError::Io, 1),
        (EngineError::Demux, 3),
        (EngineError::SetColor, 4),
        (EngineError::SetPrivateData, 5),
        (EngineError::AddFrame, 6),
        (EngineError::Finalize, 7),
        (EngineError::NoFiles, 8),
        (EngineError::ChannelChanges, 9),
        (EngineError::SampleRateChanges, 10),
        (EngineError::VideoResolutionChanges, 11),
        (EngineError::UnknownKeyframe, 12),
        (EngineError::MissingDuration, 13),
    ];
    for (kind, code) in cases {
        assert_eq!(ErrorStatus::CWCat(kind).to_code(), code);
        assert_eq!(exit_code(&Err(ErrorStatus::CWCat(kind))), code);
    }
    assert_eq!(ErrorStatus::VarError(EnvVarError::NotPresent).to_code(), 32);
    assert_eq!(ErrorStatus::VarError(EnvVarError::NotUnicode).to_code(), 33);
}
