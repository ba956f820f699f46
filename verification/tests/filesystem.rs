use rbxlx_to_rojo::filesystem::{
    DiskStep, FileSystem, Instruction, OutputAction, OutputFailure, SourceFolder, TreePartition,
};

fn partition(class_name: &str, path: Option<&str>) -> TreePartition {
    TreePartition {
        class_name: class_name.to_string(),
        children: Vec::new(),
        ignore_unknown_instances: true,
        path: path.map(|p| p.to_string()),
    }
}

fn io_error(text: &str) -> std::io::Error {
    std::io::Error::new(std::io::ErrorKind::Other, text.to_string())
}

#[test]
fn source_folder_is_src_under_root() {
    assert_eq!(FileSystem::source_folder("out/place"), "out/place/src");
}

#[test]
fn existing_source_folder_is_fine() {
    let filesystem = FileSystem::from_root("out/place".to_string(), SourceFolder::Failed {
        error: io_error("exists"),
        already_exists: true,
        is_directory: true,
    });
    assert_eq!(filesystem.root(), "out/place");
    assert!(filesystem.project().tree().is_empty());
    assert_eq!(filesystem.project().name(), "project");
    assert!(filesystem.into_error().is_none());
}

#[test]
fn failed_source_folder_is_the_first_error() {
    let mut filesystem =
        FileSystem::from_root("out/place".to_string(), SourceFolder::Failed {
            error: io_error("first"),
            already_exists: false,
            is_directory: false,
        });
    filesystem.record_error("write an output file", io_error("second"));
    let (doing_what, error) = filesystem.into_error().unwrap();
    assert_eq!(doing_what, "create the source folder");
    assert_eq!(error.to_string(), "first");
}

#[test]
fn tree_entries_move_into_source() {
    let mut filesystem = FileSystem::from_root("out".to_string(), SourceFolder::Created);
    let mut workspace = partition("Workspace", Some("Workspace"));
    workspace
        .children
        .push(("Baseplate".to_string(), partition("Part", Some("Workspace/Baseplate"))));
    workspace.children.push(("Camera".to_string(), partition("Camera", None)));
    let action = filesystem.read_instruction(Instruction::AddToTree {
        name: "Workspace".to_string(),
        partition: workspace,
    });
    assert!(action.is_none());
    let action = filesystem.read_instruction(Instruction::AddToTree {
        name: "Lighting".to_string(),
        partition: partition("Lighting", None),
    });
    assert!(action.is_none());

    assert!(filesystem.has_tree_entry("Workspace"));
    assert!(filesystem.has_tree_entry("Lighting"));
    assert!(!filesystem.has_tree_entry("ServerStorage"));

    let tree = filesystem.project().tree();
    assert_eq!(tree.len(), 2);
    assert_eq!(tree[0].0, "Workspace");
    assert_eq!(tree[0].1.path, Some("src/Workspace".to_string()));
    assert_eq!(tree[0].1.class_name, "Workspace");
    assert_eq!(tree[0].1.children[0].0, "Baseplate");
    assert_eq!(
        tree[0].1.children[0].1.path,
        Some("src/Workspace/Baseplate".to_string())
    );
    assert_eq!(tree[0].1.children[1].1.path, None);
    assert_eq!(tree[1].0, "Lighting");
    assert_eq!(tree[1].1.path, None);
}

#[test]
fn files_and_folders_go_under_source() {
    let mut filesystem = FileSystem::from_root("out".to_string(), SourceFolder::Created);
    match filesystem.read_instruction(Instruction::CreateFolder {
        folder: "Workspace".to_string(),
    }) {
        Some(OutputAction::CreateFolder { path }) => assert_eq!(path, "out/src/Workspace"),
        other => panic!("unexpected {:?}", other),
    }
    match filesystem.read_instruction(Instruction::CreateFile {
        filename: "Workspace/Script.server.lua".to_string(),
        contents: b"print(1)".to_vec(),
    }) {
        Some(OutputAction::WriteFile { path, contents }) => {
            assert_eq!(path, "out/src/Workspace/Script.server.lua");
            assert_eq!(contents, b"print(1)".to_vec());
        }
        other => panic!("unexpected {:?}", other),
    }
    assert_eq!(
        filesystem.finish_instructions(),
        Some("out/default.project.json".to_string())
    );
}

#[test]
fn nothing_more_after_a_failure() {
    let mut filesystem = FileSystem::from_root("out".to_string(), SourceFolder::Created);
    filesystem.record_failure(OutputFailure::WriteFile, io_error("disk full"));
    filesystem.record_failure(OutputFailure::CreateFolder, io_error("later"));
    assert!(filesystem
        .read_instruction(Instruction::CreateFolder {
            folder: "Workspace".to_string()
        })
        .is_none());
    assert!(filesystem
        .read_instruction(Instruction::AddToTree {
            name: "Workspace".to_string(),
            partition: partition("Workspace", None),
        })
        .is_none());
    assert!(filesystem.project().tree().is_empty());
    assert!(filesystem.finish_instructions().is_none());
    let (doing_what, error) = filesystem.into_error().unwrap();
    assert_eq!(doing_what, "write an output file");
    assert_eq!(error.to_string(), "disk full");
}

#[test]
fn failure_kinds_say_what_was_being_done() {
    assert_eq!(OutputFailure::CreateFile.doing_what(), "create an output file");
    assert_eq!(OutputFailure::WriteFile.doing_what(), "write an output file");
    assert_eq!(OutputFailure::CreateFolder.doing_what(), "create an output folder");
    assert_eq!(
        OutputFailure::SerializeProject.doing_what(),
        "serialize the project file"
    );
    assert_eq!(
        OutputFailure::CreateProjectFile.doing_what(),
        "create the project file"
    );
    assert_eq!(
        OutputFailure::WriteProjectFile.doing_what(),
        "write the project file"
    );
}

#[test]
fn something_else_in_the_source_folders_place_is_a_failure() {
    let filesystem = FileSystem::from_root(
        "out".to_string(),
        SourceFolder::Failed {
            error: io_error("exists"),
            already_exists: true,
            is_directory: false,
        },
    );
    let (doing_what, _) = filesystem.into_error().unwrap();
    assert_eq!(doing_what, "create the source folder");
}

#[test]
fn children_names_must_differ_at_every_level() {
    let mut workspace = partition("Workspace", None);
    workspace.children.push(("Part".to_string(), partition("Part", None)));
    workspace.children.push(("Model".to_string(), partition("Model", None)));
    assert!(workspace.has_distinct_children());

    workspace.children[1]
        .1
        .children
        .push(("Inner".to_string(), partition("Part", None)));
    workspace.children[1]
        .1
        .children
        .push(("Inner".to_string(), partition("Part", None)));
    assert!(!workspace.has_distinct_children());

    let mut flat = partition("Workspace", None);
    flat.children.push(("Part".to_string(), partition("Part", None)));
    flat.children.push(("Part".to_string(), partition("Part", None)));
    assert!(!flat.has_distinct_children());
}

#[test]
fn disk_steps_name_the_failure() {
    let mut filesystem = FileSystem::from_root("out".to_string(), SourceFolder::Created);
    let action = OutputAction::WriteFile {
        path: "out/src/a.lua".to_string(),
        contents: Vec::new(),
    };
    filesystem.output_failed(&action, DiskStep::Write, io_error("full"));
    assert_eq!(filesystem.into_error().unwrap().0, "write an output file");

    let mut filesystem = FileSystem::from_root("out".to_string(), SourceFolder::Created);
    filesystem.output_failed(&action, DiskStep::Create, io_error("denied"));
    assert_eq!(filesystem.into_error().unwrap().0, "create an output file");

    let mut filesystem = FileSystem::from_root("out".to_string(), SourceFolder::Created);
    let folder = OutputAction::CreateFolder {
        path: "out/src/Workspace".to_string(),
    };
    filesystem.output_failed(&folder, DiskStep::Create, io_error("denied"));
    assert_eq!(filesystem.into_error().unwrap().0, "create an output folder");

    let mut filesystem = FileSystem::from_root("out".to_string(), SourceFolder::Created);
    filesystem.project_file_failed(DiskStep::Create, io_error("denied"));
    filesystem.project_file_failed(DiskStep::Write, io_error("later"));
    assert_eq!(filesystem.into_error().unwrap().0, "create the project file");

    let mut filesystem = FileSystem::from_root("out".to_string(), SourceFolder::Created);
    filesystem.project_file_failed(DiskStep::Write, io_error("full"));
    assert_eq!(filesystem.into_error().unwrap().0, "write the project file");
}
