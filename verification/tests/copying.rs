use makepad_packaging::error::Error;
use makepad_packaging::resources::collect_resource_entries;
use makepad_packaging::resources::files_for_job;
use makepad_packaging::resources::parse_marker_filename;
use makepad_packaging::resources::plan_resource_copies;
use makepad_packaging::resources::resource_dir_name;
use makepad_packaging::resources::CopyJob;
use makepad_packaging::resources::MarkerFile;
use makepad_packaging::resources::ResourceEntry;
use makepad_packaging::resources::SourceFile;
use makepad_packaging::text::join_path;
use makepad_packaging::text::trim_marker_content;

fn marker(name: &str, content: &str) -> MarkerFile {
    MarkerFile { name: String::from(name), content: String::from(content) }
}

#[test]
fn marker_names_are_recognised() {
    assert_eq!(parse_marker_filename("makepad-widgets.path"), Some(String::from("widgets")));
    assert_eq!(parse_marker_filename("makepad-fancy-ui.path"), Some(String::from("fancy-ui")));
    assert_eq!(parse_marker_filename("makepad-.path"), Some(String::from("")));
}

#[test]
fn other_names_are_not_markers() {
    assert_eq!(parse_marker_filename("widgets.path"), None);
    assert_eq!(parse_marker_filename("makepad-widgets.txt"), None);
    assert_eq!(parse_marker_filename("makepad.path"), None);
    assert_eq!(parse_marker_filename(""), None);
}

#[test]
fn dir_names_replace_separators() {
    assert_eq!(resource_dir_name("widgets"), "makepad_widgets");
    assert_eq!(resource_dir_name("fancy-ui"), "makepad_fancy_ui");
}

#[test]
fn marker_content_is_trimmed() {
    assert_eq!(trim_marker_content("/opt/mp/widgets\n"), "/opt/mp/widgets");
    assert_eq!(trim_marker_content("  /a/b \t\r\n"), "/a/b");
    assert_eq!(trim_marker_content(""), "");
    assert_eq!(trim_marker_content(" \n "), "");
}

#[test]
fn listing_yields_one_entry_per_marker() {
    let files = vec![
        marker("makepad-widgets.path", "/opt/mp/widgets\n"),
        marker("robrix.d", "ignored"),
        marker("makepad-fancy-ui.path", " /opt/mp/fancy "),
    ];
    let entries = collect_resource_entries(&files);
    assert_eq!(entries.len(), 2);
    assert_eq!(entries[0].dir_name, "makepad_widgets");
    assert_eq!(entries[0].source_root, "/opt/mp/widgets");
    assert_eq!(entries[1].dir_name, "makepad_fancy_ui");
    assert_eq!(entries[1].source_root, "/opt/mp/fancy");
}

#[test]
fn planned_paths_follow_the_convention() {
    let files = vec![marker("makepad-widgets.path", "/opt/mp/widgets\n")];
    let entries = collect_resource_entries(&files);
    let jobs = plan_resource_copies("dist", &entries).unwrap();
    assert_eq!(jobs.len(), 1);
    assert_eq!(jobs[0].source, "/opt/mp/widgets/resources");
    assert_eq!(jobs[0].dest, "dist/makepad_widgets/resources");
}

#[test]
fn empty_discovery_fails_with_not_found() {
    let entries: Vec<ResourceEntry> = Vec::new();
    let planned = plan_resource_copies("dist", &entries);
    assert!(matches!(planned, Err(Error::NotFound)));
}

#[test]
fn copied_file_keeps_path_and_content() {
    let job = CopyJob {
        source: String::from("/opt/mp/widgets/resources"),
        dest: String::from("dist/makepad_widgets/resources"),
    };
    let listing = Some(vec![SourceFile {
        rel_path: String::from("foo.txt"),
        content: b"icon bytes".to_vec(),
    }]);
    let planned = files_for_job(&job, &listing);
    assert_eq!(planned.len(), 1);
    assert_eq!(planned[0].dest_path, "dist/makepad_widgets/resources/foo.txt");
    assert_eq!(planned[0].content, b"icon bytes".to_vec());
}

#[test]
fn missing_resources_dir_is_skipped_without_error() {
    let job = CopyJob {
        source: String::from("/opt/mp/noresources/resources"),
        dest: String::from("dist/makepad_noresources/resources"),
    };
    let planned = files_for_job(&job, &None);
    assert_eq!(planned.len(), 0);
}

#[test]
fn nested_structure_is_preserved() {
    let job = CopyJob {
        source: String::from("/src/resources"),
        dest: String::from("dist/makepad_widgets/resources"),
    };
    let listing = Some(vec![
        SourceFile { rel_path: String::from("a/b/c.txt"), content: b"deep".to_vec() },
        SourceFile { rel_path: String::from("c.txt"), content: b"shallow".to_vec() },
    ]);
    let planned = files_for_job(&job, &listing);
    assert_eq!(planned.len(), 2);
    assert_eq!(planned[0].dest_path, "dist/makepad_widgets/resources/a/b/c.txt");
    assert_eq!(planned[1].dest_path, "dist/makepad_widgets/resources/c.txt");
}

#[test]
fn join_path_handles_bases() {
    assert_eq!(join_path("", "resources"), "resources");
    assert_eq!(join_path("a", "b"), "a/b");
    assert_eq!(join_path("a/", "b"), "a/b");
}
