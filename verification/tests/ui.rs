use aleph_tui::app::{App, AppError, Config, Profile};
use aleph_tui::models::{
    Batch, Collection, Links, Metadata, MetadataApp, Queue, Status, StatusResult, Task,
};
use aleph_tui::throttle::Timestamp;
use aleph_tui::ui::{centered_rect, render, Centering};

fn ui_task(name: &str, todo: u32, min_ts: Option<&str>) -> Task {
    Task {
        todo,
        doing: 1_000,
        succeeded: 1_234_567,
        failed: 0,
        aborted: 999,
        aborting: 12,
        cancelled: 4_294_967_295,
        min_ts: min_ts.map(|s| s.to_string()),
        max_ts: None,
        name: name.to_string(),
        remaining_time: None,
        took: None,
        total: 0,
        active: 0,
        finished: 0,
    }
}

fn ui_queue(tasks: Vec<Task>) -> Queue {
    Queue {
        todo: 0,
        doing: 0,
        succeeded: 0,
        failed: 0,
        aborted: 0,
        aborting: 0,
        cancelled: 0,
        min_ts: None,
        max_ts: None,
        name: "queue".to_string(),
        tasks,
        remaining_time: None,
        took: None,
        total: 0,
        active: 0,
        finished: 0,
    }
}

fn ui_batch(name: &str, queues: Vec<Queue>) -> Batch {
    Batch {
        todo: 0,
        doing: 0,
        succeeded: 0,
        failed: 0,
        aborted: 0,
        aborting: 0,
        cancelled: 0,
        min_ts: None,
        max_ts: None,
        name: name.to_string(),
        queues,
        remaining_time: None,
        took: None,
        total: 0,
        active: 0,
        finished: 0,
    }
}

fn ui_collection() -> Collection {
    Collection {
        created_at: "2023-01-01".to_string(),
        updated_at: "2023-01-02".to_string(),
        category: "leak".to_string(),
        frequency: "never".to_string(),
        countries: Some(vec!["de".to_string()]),
        name: "panama".to_string(),
        collection_id: "17".to_string(),
        foreign_id: "panama_papers".to_string(),
        label: "Panama Papers".to_string(),
        casefile: false,
        secret: false,
        id: "17".to_string(),
        writeable: true,
        links: Links {
            self_: "https://aleph.example.org/api/2/collections/17".to_string(),
            xref_export: String::new(),
            reconcile: String::new(),
            ui: "https://aleph.example.org/datasets/17".to_string(),
        },
        shallow: false,
    }
}

fn ui_result(name: &str, collection: Option<Collection>, batches: Vec<Batch>) -> StatusResult {
    StatusResult {
        todo: 1_500,
        doing: 2,
        succeeded: 3_000_000,
        failed: 4,
        aborted: 5,
        aborting: 6,
        cancelled: 7,
        min_ts: Some("2024-05-01T10:00:00".to_string()),
        max_ts: None,
        name: name.to_string(),
        batches,
        collection,
        remaining_time: Some("0:10:00".to_string()),
        took: None,
        total: 3_001_524,
        active: 1_502,
        finished: 3_000_022,
    }
}

fn ui_app(title: Option<&str>, version: Option<&str>, ftm: Option<&str>) -> App {
    let profiles = vec![
        Profile { name: "prod".to_string(), index: 0, url: String::new(), api_key: String::new() },
        Profile { name: "staging".to_string(), index: 1, url: String::new(), api_key: String::new() },
    ];
    let mut app = App::new(Config { profiles, fetch_interval: 30 }, 0, "0.5.0".to_string()).unwrap();
    let metadata = Metadata {
        status: "ok".to_string(),
        maintenance: false,
        app: MetadataApp {
            title: title.map(|s| s.to_string()),
            version: version.map(|s| s.to_string()),
            ftm_version: ftm.map(|s| s.to_string()),
        },
    };
    app.finish_fetch(Ok(Status { results: vec![], total: 0 }), Ok(metadata), ui_at(0));
    app
}

fn ui_at(millis: i64) -> Timestamp {
    Timestamp::from_millis(millis).unwrap()
}

fn ui_load(app: &mut App, results: Vec<StatusResult>, total: u32) {
    let metadata = app.metadata.clone();
    app.finish_fetch(Ok(Status { results, total }), Ok(metadata), ui_at(0));
}

#[test]
fn title_names_application_profile_and_jobs() {
    let mut app = ui_app(Some("OCCRP Aleph"), Some("3.15.5"), Some("3.5.8"));
    ui_load(&mut app, vec![], 1234);
    let screen = render(&app, ui_at(0));
    assert_eq!(
        screen.title,
        vec!["OCCRP Aleph (prod): 1234 jobs running", "version: 3.15.5, followthemoney: 3.5.8"]
    );
}

#[test]
fn title_without_application_title() {
    let app = ui_app(None, None, Some("3.5.8"));
    let screen = render(&app, ui_at(0));
    assert_eq!(screen.title, vec!["(prod): 0 jobs running", "followthemoney: 3.5.8"]);
}

#[test]
fn versions_line_with_one_or_no_version() {
    let screen = render(&ui_app(None, Some("3.15.5"), None), ui_at(0));
    assert_eq!(screen.title[1], "version: 3.15.5");
    let screen = render(&ui_app(None, None, None), ui_at(0));
    assert_eq!(screen.title[1], "");
}

#[test]
fn header_names_the_columns() {
    let screen = render(&ui_app(None, None, None), ui_at(0));
    assert_eq!(
        screen.header,
        vec![
            "Collection ID",
            "Foreign ID",
            "Label/Task Name",
            "Start Time",
            "Todo",
            "Doing",
            "Success",
            "Failed",
            "Aborted",
            "Aborting",
            "Cancel",
        ]
    );
}

#[test]
fn result_without_collection_falls_back_to_its_name() {
    let mut app = ui_app(None, None, None);
    ui_load(&mut app, vec![ui_result("export-job", None, vec![])], 1);
    let screen = render(&app, ui_at(0));
    assert_eq!(screen.rows.len(), 1);
    assert!(screen.rows[0].bold);
    assert_eq!(
        screen.rows[0].cells,
        vec![
            "-",
            "-",
            "export-job",
            "2024-05-01T10:00:00",
            "1,500",
            "2",
            "3,000,000",
            "4",
            "5",
            "6",
            "7",
        ]
    );
    assert_eq!(screen.selected, Some(0));
    let detail = screen.detail.unwrap();
    assert_eq!(detail.result_index, 0);
    assert_eq!(detail.label, "export-job");
    assert_eq!(detail.collection_id, "-");
    assert_eq!(detail.foreign_id, "-");
    assert_eq!(detail.title, "Details");
    assert_eq!(detail.heading, "ID: - | Foreign ID: - | Label: export-job");
    assert_eq!(
        detail.body,
        "Total: 3001524 | Active: 1502 | Finished: 3000022\nRemaining time: 0:10:00\nTook: N/A\nURL: N/A"
    );
}

#[test]
fn result_with_collection_and_two_tasks() {
    let mut app = ui_app(None, None, None);
    let queue = ui_queue(vec![
        ui_task("index", 1, Some("2024-05-01T10:00:01")),
        ui_task("analyze", 0, None),
    ]);
    let mut result = ui_result("17", Some(ui_collection()), vec![ui_batch("batch-1", vec![queue])]);
    result.took = Some("0:00:07".to_string());
    result.remaining_time = None;
    result.min_ts = None;
    ui_load(&mut app, vec![result], 1);
    let screen = render(&app, ui_at(0));
    assert_eq!(screen.rows.len(), 3);
    assert_eq!(
        screen.rows[0].cells,
        vec![
            "17",
            "panama_papers",
            "Panama Papers",
            "-",
            "1,500",
            "2",
            "3,000,000",
            "4",
            "5",
            "6",
            "7",
        ]
    );
    assert!(screen.rows[0].bold);
    assert_eq!(
        screen.rows[1].cells,
        vec![
            "",
            "batch-1",
            "  index",
            "2024-05-01T10:00:01",
            "1",
            "1,000",
            "1,234,567",
            "0",
            "999",
            "12",
            "4,294,967,295",
        ]
    );
    assert!(!screen.rows[1].bold);
    assert_eq!(screen.rows[2].cells[2], "  analyze");
    assert_eq!(screen.rows[2].cells[3], "-");
    assert_eq!(screen.rows[2].cells[4], "0");

    for selected in 0..3 {
        let screen = render(&app, ui_at(0));
        assert_eq!(screen.selected, Some(selected));
        let detail = screen.detail.unwrap();
        assert_eq!(detail.result_index, 0);
        assert_eq!(detail.collection_id, "17");
        assert_eq!(detail.foreign_id, "panama_papers");
        assert_eq!(detail.label, "Panama Papers");
        assert_eq!(detail.title, "Collection 17 <Panama Papers>");
        assert_eq!(detail.heading, "ID: 17 | Foreign ID: panama_papers | Label: Panama Papers");
        assert_eq!(
            detail.body,
            "Total: 3001524 | Active: 1502 | Finished: 3000022\nRemaining time: N/A\nTook: 0:00:07\nURL: https://aleph.example.org/datasets/17"
        );
        app.collection_down();
    }
}

#[test]
fn detail_follows_the_selected_row_to_its_result() {
    let mut app = ui_app(None, None, None);
    let first = ui_result(
        "first",
        None,
        vec![ui_batch("b", vec![ui_queue(vec![ui_task("t", 1, None)])])],
    );
    let second = ui_result("second", Some(ui_collection()), vec![]);
    ui_load(&mut app, vec![first, second], 2);
    assert_eq!(render(&app, ui_at(0)).detail.unwrap().label, "first");
    app.collection_down();
    assert_eq!(render(&app, ui_at(0)).detail.unwrap().label, "first");
    app.collection_down();
    let detail = render(&app, ui_at(0)).detail.unwrap();
    assert_eq!(detail.result_index, 1);
    assert_eq!(detail.label, "Panama Papers");
}

#[test]
fn empty_table_has_no_detail() {
    let screen = render(&ui_app(None, None, None), ui_at(0));
    assert_eq!(screen.rows.len(), 0);
    assert_eq!(screen.selected, None);
    assert!(screen.detail.is_none());
}

#[test]
fn error_message_is_shown_and_cleared() {
    let mut app = ui_app(None, None, None);
    app.finish_fetch(
        Err(AppError::FetchError("connection refused".to_string())),
        Ok(Metadata::default()),
        ui_at(0),
    );
    assert_eq!(render(&app, ui_at(0)).error_message, "connection refused");
    app.finish_fetch(Ok(Status::default()), Ok(Metadata::default()), ui_at(1));
    assert_eq!(render(&app, ui_at(1)).error_message, "");
}

#[test]
fn status_lines() {
    let mut app = ui_app(None, None, None);
    let screen = render(&app, ui_at(65_000));
    assert_eq!(screen.version_line, "aleph-tui version 0.5.0");
    assert_eq!(screen.fetch_line, " fetching every 30s - last fetch 1m 5s ago");
    assert_eq!(screen.shortcuts, "Shortcuts: `q`, `^C`, `Esc` - quit, `p` - select profile");
    app.begin_fetch();
    let screen = render(&app, ui_at(2_000));
    assert_eq!(screen.fetch_line, "\u{1F504} fetching every 30s - last fetch 2s ago");
}

#[test]
fn fetch_line_before_the_first_fetch() {
    let profiles = vec![Profile {
        name: "prod".to_string(),
        index: 0,
        url: String::new(),
        api_key: String::new(),
    }];
    let app = App::new(Config { profiles, fetch_interval: -3 }, 0, "1".to_string()).unwrap();
    assert_eq!(render(&app, ui_at(0)).fetch_line, " fetching every -3s");
}

#[test]
fn profile_list_is_shown_with_its_cursor() {
    let mut app = ui_app(None, None, None);
    assert!(render(&app, ui_at(0)).profiles.is_none());
    app.toggle_profile_selector();
    app.profile_down();
    let list = render(&app, ui_at(0)).profiles.unwrap();
    assert_eq!(list.names, vec!["prod", "staging"]);
    assert_eq!(list.cursor, 1);
    assert_eq!(list.area, centered_rect(40, 25));
}

#[test]
fn centered_rect_cuts_both_sides() {
    let rect = centered_rect(40, 25);
    assert_eq!(rect.horizontal, Centering { before: 30, size: 40, after: 30 });
    assert_eq!(rect.vertical, Centering { before: 37, size: 25, after: 37 });
    let whole = centered_rect(100, 0);
    assert_eq!(whole.horizontal, Centering { before: 0, size: 100, after: 0 });
    assert_eq!(whole.vertical, Centering { before: 50, size: 0, after: 50 });
}
