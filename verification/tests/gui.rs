use rbxlx_to_rojo::gui::{
    is_supported_extension, is_supported_input_file, path_label, roblox_extensions, ConverterApp,
    DrainStep, RevealOutcome, WorkerMessage, WorkerPoll,
};

#[test]
fn accepts_supported_roblox_file_extensions() {
    assert!(is_supported_input_file("place.rbxlx"));
    assert!(is_supported_input_file("place.rbxl"));
    assert!(is_supported_input_file("model.rbxmx"));
    assert!(is_supported_input_file("model.rbxm"));
}

#[test]
fn rejects_unsupported_input_file_extensions() {
    assert!(!is_supported_input_file("notes.txt"));
    assert!(!is_supported_input_file("rbxlx"));
}

#[test]
fn unsupported_input_clears_previous_selection_and_result() {
    let mut app = ConverterApp::default();
    app.input_path = Some("place.rbxlx".to_string());
    app.result_path = Some("out/place".to_string());

    app.set_input_path("notes.txt".to_string());

    assert!(app.input_path.is_none());
    assert!(app.result_path.is_none());
    assert_eq!(app.status, "Unsupported file type");
}

#[test]
fn extension_case_is_ignored() {
    assert!(is_supported_input_file("PLACE.RBXLX"));
    assert!(is_supported_input_file("dir/Model.RbXm"));
    assert!(!is_supported_input_file("place.rbxlxx"));
    assert!(!is_supported_input_file(".rbxl"));
    assert!(is_supported_extension("RBXMX"));
    assert!(!is_supported_extension("rbx"));
}

#[test]
fn dialog_extensions_are_the_four_roblox_ones() {
    assert_eq!(roblox_extensions(), vec!["rbxlx", "rbxl", "rbxmx", "rbxm"]);
}

#[test]
fn unsupported_input_is_logged() {
    let mut app = ConverterApp::default();
    app.set_input_path("notes.txt".to_string());
    assert_eq!(app.logs, vec!["Unsupported file type: notes.txt".to_string()]);
}

#[test]
fn supported_input_is_selected() {
    let mut app = ConverterApp::default();
    app.status = "Unsupported file type".to_string();
    app.result_path = Some("out/place".to_string());
    app.set_input_path("place.rbxl".to_string());
    assert_eq!(app.input_path, Some("place.rbxl".to_string()));
    assert_eq!(app.status, "Ready");
    assert!(app.result_path.is_none());
    assert!(app.logs.is_empty());
}

#[test]
fn default_window_is_ready_and_empty() {
    let app = ConverterApp::default();
    assert!(app.input_path.is_none());
    assert!(app.output_root.is_none());
    assert!(app.result_path.is_none());
    assert!(app.logs.is_empty());
    assert_eq!(app.status, "Ready");
    assert!(!app.converting);
    assert!(!app.can_convert());
}

#[test]
fn cancelled_dialogs_change_nothing() {
    let mut app = ConverterApp::default();
    app.choose_input_file(None);
    app.choose_output_folder(None);
    assert!(app.input_path.is_none());
    assert!(app.output_root.is_none());
    assert_eq!(app.status, "Ready");
}

#[test]
fn chosen_output_folder_clears_result() {
    let mut app = ConverterApp::default();
    app.result_path = Some("out/place".to_string());
    app.status = "Done".to_string();
    app.choose_output_folder(Some("out".to_string()));
    assert_eq!(app.output_root, Some("out".to_string()));
    assert!(app.result_path.is_none());
    assert_eq!(app.status, "Ready");
}

#[test]
fn convert_needs_both_paths() {
    let mut app = ConverterApp::default();
    app.choose_input_file(Some("place.rbxlx".to_string()));
    assert!(!app.can_convert());
    assert!(app.convert().is_none());
    assert!(!app.converting);
    app.choose_output_folder(Some("out".to_string()));
    assert!(app.can_convert());
}

#[test]
fn conversion_runs_to_done() {
    let mut app = ConverterApp::default();
    app.choose_input_file(Some("place.rbxlx".to_string()));
    app.choose_output_folder(Some("out".to_string()));
    app.logs.push("old line".to_string());

    let job = app.convert().expect("both paths are chosen");
    assert_eq!(job.input_path, "place.rbxlx");
    assert_eq!(job.output_root, "out");
    assert!(app.converting);
    assert!(app.logs.is_empty());
    assert_eq!(app.status, "Converting...");
    assert!(!app.can_convert());

    let step = app.handle_worker_poll(WorkerPoll::Received(WorkerMessage::Log(
        "Opening place file".to_string(),
    )));
    assert_eq!(step, DrainStep::Continue);
    assert_eq!(app.handle_worker_poll(WorkerPoll::Empty), DrainStep::Wait);
    assert!(app.converting);

    let step = app.handle_worker_poll(WorkerPoll::Received(WorkerMessage::Finished(Ok(
        "out/place".to_string(),
    ))));
    assert_eq!(step, DrainStep::Done);
    assert_eq!(app.status, "Done");
    assert_eq!(app.result_path, Some("out/place".to_string()));
    assert!(!app.converting);
    assert_eq!(app.logs, vec!["Opening place file".to_string()]);
}

#[test]
fn failed_conversion_logs_reason() {
    let mut app = ConverterApp::default();
    app.choose_input_file(Some("place.rbxlx".to_string()));
    app.choose_output_folder(Some("out".to_string()));
    app.convert();
    let step = app.handle_worker_poll(WorkerPoll::Received(WorkerMessage::Finished(Err(
        "broken".to_string(),
    ))));
    assert_eq!(step, DrainStep::Done);
    assert_eq!(app.status, "Failed");
    assert_eq!(app.logs, vec!["broken".to_string()]);
    assert!(app.result_path.is_none());
    assert!(!app.converting);
}

#[test]
fn lost_worker_fails_conversion() {
    let mut app = ConverterApp::default();
    app.choose_input_file(Some("place.rbxlx".to_string()));
    app.choose_output_folder(Some("out".to_string()));
    app.convert();
    assert_eq!(app.handle_worker_poll(WorkerPoll::Disconnected), DrainStep::Done);
    assert_eq!(app.status, "Failed");
    assert_eq!(
        app.logs,
        vec!["Conversion worker stopped unexpectedly".to_string()]
    );
    assert!(!app.converting);
}

#[test]
fn dropped_files_take_first_with_path() {
    let mut app = ConverterApp::default();
    app.handle_dropped_files(vec![
        None,
        Some("model.rbxm".to_string()),
        Some("place.rbxlx".to_string()),
    ]);
    assert_eq!(app.input_path, Some("model.rbxm".to_string()));

    let mut app = ConverterApp::default();
    app.handle_dropped_files(vec![Some("notes.txt".to_string()), Some("place.rbxlx".to_string())]);
    assert!(app.input_path.is_none());
    assert_eq!(app.status, "Unsupported file type");
}

#[test]
fn dropped_files_ignored_while_converting() {
    let mut app = ConverterApp::default();
    app.choose_input_file(Some("place.rbxlx".to_string()));
    app.choose_output_folder(Some("out".to_string()));
    app.convert();
    app.handle_dropped_files(vec![Some("model.rbxm".to_string())]);
    assert_eq!(app.input_path, Some("place.rbxlx".to_string()));
}

#[test]
fn reveal_failures_are_logged() {
    let mut app = ConverterApp::default();
    app.reveal_result(RevealOutcome::CouldNotRun("no open".to_string()));
    assert!(app.logs.is_empty());

    app.result_path = Some("out/place".to_string());
    app.reveal_result(RevealOutcome::Revealed);
    assert!(app.logs.is_empty());
    app.reveal_result(RevealOutcome::FailedWithStatus("exit status: 1".to_string()));
    app.reveal_result(RevealOutcome::CouldNotRun("no open".to_string()));
    assert_eq!(
        app.logs,
        vec![
            "Reveal in Finder failed with status: exit status: 1".to_string(),
            "Reveal in Finder failed: no open".to_string(),
        ]
    );
}

#[test]
fn labels_for_the_window() {
    assert_eq!(path_label(&None), "Not selected");
    assert_eq!(path_label(&Some("out/place".to_string())), "out/place");
    let mut app = ConverterApp::default();
    assert_eq!(app.status_line(), "Status: Ready");
    assert_eq!(app.log_lines(), vec!["No messages yet.".to_string()]);
    app.logs.push("a".to_string());
    app.logs.push("b".to_string());
    assert_eq!(app.log_lines(), vec!["a".to_string(), "b".to_string()]);
}
