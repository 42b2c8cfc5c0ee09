//! What the dashboard shows: the state of the application turned into the
//! texts of one screen. Painting them on a terminal is left to the caller.

use crate::app::{App, Profile, ProfileSwitcher};
use crate::models::{Metadata, MetadataApp, Status, StatusResult};
use crate::rows::{rows_of, rows_view, Counters, DisplayRow, RowView};
use crate::text::{
    decimal, group_digits, grouped, i64_to_string, or_text, signed_decimal, text_or, texts,
    u32_to_string,
};
use crate::throttle::{elapsed_millis, elapsed_text, humanized, Timestamp};
use vstd::prelude::*;

verus! {

/// The first line of the title: the title of the backend's application, where
/// it is known, the name of the profile, and the number of running jobs.
pub open spec fn title_line(metadata: Metadata, profile_name: Seq<char>, total: u32) -> Seq<char> {
    match metadata.app.title {
        Some(title) => title@ + " ("@ + profile_name + "): "@ + decimal(total as nat)
            + " jobs running"@,
        None => "("@ + profile_name + "): "@ + decimal(total as nat) + " jobs running"@,
    }
}

/// The second line of the title: the versions that the backend reports.
pub open spec fn versions_line(app: MetadataApp) -> Seq<char> {
    match (app.version, app.ftm_version) {
        (Some(version), Some(ftm)) => "version: "@ + version@ + ", followthemoney: "@ + ftm@,
        (None, Some(ftm)) => "followthemoney: "@ + ftm@,
        (Some(version), None) => "version: "@ + version@,
        (None, None) => Seq::empty(),
    }
}

/// The seven counters of a result.
pub open spec fn result_counters(result: StatusResult) -> Counters {
    Counters {
        todo: result.todo,
        doing: result.doing,
        succeeded: result.succeeded,
        failed: result.failed,
        aborted: result.aborted,
        aborting: result.aborting,
        cancelled: result.cancelled,
    }
}

/// The seven counters as the table shows them, digits in groups of three.
pub open spec fn counter_cells(counters: Counters) -> Seq<Seq<char>> {
    seq![
        grouped(counters.todo as nat),
        grouped(counters.doing as nat),
        grouped(counters.succeeded as nat),
        grouped(counters.failed as nat),
        grouped(counters.aborted as nat),
        grouped(counters.aborting as nat),
        grouped(counters.cancelled as nat),
    ]
}

/// The id of a result's collection; a dash where it has none.
pub open spec fn collection_id_text(result: StatusResult) -> Seq<char> {
    match result.collection {
        Some(collection) => collection.collection_id@,
        None => "-"@,
    }
}

/// The foreign id of a result's collection; a dash where it has none.
pub open spec fn foreign_id_text(result: StatusResult) -> Seq<char> {
    match result.collection {
        Some(collection) => collection.foreign_id@,
        None => "-"@,
    }
}

/// The label of a result's collection; the result's own name where it has
/// none.
pub open spec fn label_text(result: StatusResult) -> Seq<char> {
    match result.collection {
        Some(collection) => collection.label@,
        None => result.name@,
    }
}

/// The cells of a result's row: ids, label, start time, and the counters.
pub open spec fn collection_cells(result: StatusResult) -> Seq<Seq<char>> {
    seq![
        collection_id_text(result),
        foreign_id_text(result),
        label_text(result),
        text_or(result.min_ts, "-"@),
    ] + counter_cells(result_counters(result))
}

/// The cells of a row of the table. A task's row leaves the id empty, names
/// its batch, and shows the task's name behind the indent.
pub open spec fn row_cells(status: Status, row: RowView) -> Seq<Seq<char>> {
    match row {
        RowView::Collection { result_index } => collection_cells(status.results@[result_index]),
        RowView::Task { batch_name, task_name, start, task_counters, indent_marker, .. } => seq![
            Seq::empty(),
            batch_name,
            indent_marker + task_name,
            match start {
                Some(s) => s,
                None => "-"@,
            },
        ] + counter_cells(task_counters),
    }
}

/// One row of the table as it is shown.
#[derive(Clone, Debug)]
pub struct TableRow {
    pub cells: Vec<String>,
    /// Whether the row is set in bold: the row of a result is, that of a
    /// task is not.
    pub bold: bool,
}

/// Whether a shown row is that of the given row of the table.
pub open spec fn shows_row(shown: TableRow, status: Status, row: RowView) -> bool {
    &&& texts(shown.cells@) == row_cells(status, row)
    &&& shown.bold == (row is Collection)
}

/// Whether the shown rows are those of the table of `status`, in its order.
pub open spec fn shows_table(shown: Seq<TableRow>, status: Status) -> bool {
    &&& shown.len() == rows_of(status).len()
    &&& forall|i: int|
        0 <= i < shown.len() ==> shows_row(#[trigger] shown[i], status, rows_of(status)[i])
}

/// The title of the detail pane.
pub open spec fn detail_title(result: StatusResult) -> Seq<char> {
    match result.collection {
        Some(collection) => "Collection "@ + collection.collection_id@ + " <"@ + collection.label@
            + ">"@,
        None => "Details"@,
    }
}

/// The link to a result's collection; `N/A` where it has none.
pub open spec fn detail_url(result: StatusResult) -> Seq<char> {
    match result.collection {
        Some(collection) => collection.links.ui@,
        None => "N/A"@,
    }
}

/// The text of the detail pane: the aggregates of the result, its times as
/// reported, and the link.
pub open spec fn detail_body(result: StatusResult) -> Seq<char> {
    "Total: "@ + decimal(result.total as nat) + " | Active: "@ + decimal(result.active as nat)
        + " | Finished: "@ + decimal(result.finished as nat) + "\nRemaining time: "@ + text_or(
        result.remaining_time,
        "N/A"@,
    ) + "\nTook: "@ + text_or(result.took, "N/A"@) + "\nURL: "@ + detail_url(result)
}

/// The first line of the detail pane: the ids and the label of the result's
/// collection, with a dash for an id and the result's own name for the
/// label where it has no collection.
pub open spec fn detail_heading(result: StatusResult) -> Seq<char> {
    "ID: "@ + collection_id_text(result) + " | Foreign ID: "@ + foreign_id_text(result)
        + " | Label: "@ + label_text(result)
}

/// The detail pane: what is shown of the result that the selected row
/// belongs to.
#[derive(Clone, Debug)]
pub struct Detail {
    pub result_index: usize,
    pub collection_id: String,
    pub foreign_id: String,
    pub label: String,
    pub title: String,
    /// The line above the body, with the ids and the label.
    pub heading: String,
    pub body: String,
}

/// Whether a detail pane is that of the result at `owner`.
pub open spec fn describes(detail: Detail, status: Status, owner: int) -> bool {
    let result = status.results@[owner];
    &&& detail.result_index == owner
    &&& detail.collection_id@ == collection_id_text(result)
    &&& detail.foreign_id@ == foreign_id_text(result)
    &&& detail.label@ == label_text(result)
    &&& detail.title@ == detail_title(result)
    &&& detail.heading@ == detail_heading(result)
    &&& detail.body@ == detail_body(result)
}

fn collection_id_of(result: &StatusResult) -> (text: String)
    ensures
        text@ == collection_id_text(*result),
{
    match &result.collection {
        Some(collection) => collection.collection_id.clone(),
        None => String::from_str("-"),
    }
}

fn foreign_id_of(result: &StatusResult) -> (text: String)
    ensures
        text@ == foreign_id_text(*result),
{
    match &result.collection {
        Some(collection) => collection.foreign_id.clone(),
        None => String::from_str("-"),
    }
}

fn label_of(result: &StatusResult) -> (text: String)
    ensures
        text@ == label_text(*result),
{
    match &result.collection {
        Some(collection) => collection.label.clone(),
        None => result.name.clone(),
    }
}

fn push_counters(cells: &mut Vec<String>, counters: &Counters)
    ensures
        texts(final(cells)@) == texts(old(cells)@) + counter_cells(*counters),
{
    cells.push(group_digits(counters.todo));
    cells.push(group_digits(counters.doing));
    cells.push(group_digits(counters.succeeded));
    cells.push(group_digits(counters.failed));
    cells.push(group_digits(counters.aborted));
    cells.push(group_digits(counters.aborting));
    cells.push(group_digits(counters.cancelled));
    assert(texts(cells@) =~= texts(old(cells)@) + counter_cells(*counters));
}

fn cells_of(status: &Status, row: &DisplayRow) -> (shown: TableRow)
    requires
        0 <= row@.result_index() < status.results@.len(),
    ensures
        shows_row(shown, *status, row@),
{
    let mut cells: Vec<String> = Vec::new();
    match row {
        DisplayRow::CollectionRow { result_index } => {
            let result = &status.results[*result_index];
            cells.push(collection_id_of(result));
            cells.push(foreign_id_of(result));
            cells.push(label_of(result));
            cells.push(or_text(&result.min_ts, "-"));
            let counters = Counters {
                todo: result.todo,
                doing: result.doing,
                succeeded: result.succeeded,
                failed: result.failed,
                aborted: result.aborted,
                aborting: result.aborting,
                cancelled: result.cancelled,
            };
            let ghost head = texts(cells@);
            push_counters(&mut cells, &counters);
            assert(head =~= seq![
                collection_id_text(*result),
                foreign_id_text(*result),
                label_text(*result),
                text_or(result.min_ts, "-"@),
            ]);
            TableRow { cells, bold: true }
        },
        DisplayRow::TaskRow { batch_name, task_name, start, task_counters, indent_marker, .. } => {
            cells.push(String::new());
            cells.push(batch_name.clone());
            let mut name = indent_marker.clone();
            name.append(task_name.as_str());
            cells.push(name);
            cells.push(or_text(start, "-"));
            let ghost head = texts(cells@);
            push_counters(&mut cells, task_counters);
            assert(head =~= seq![
                Seq::empty(),
                batch_name@,
                indent_marker@ + task_name@,
                text_or(*start, "-"@),
            ]);
            assert(text_or(*start, "-"@) == match crate::rows::opt_view(*start) {
                Some(s) => s,
                None => "-"@,
            });
            assert(texts(cells@) == row_cells(*status, row@));
            TableRow { cells, bold: false }
        },
    }
}

fn detail_of(status: &Status, owner: usize) -> (detail: Detail)
    requires
        owner < status.results@.len(),
    ensures
        describes(detail, *status, owner as int),
{
    let result = &status.results[owner];
    let title = match &result.collection {
        Some(collection) => {
            let mut title = String::from_str("Collection ");
            title.append(collection.collection_id.as_str());
            title.append(" <");
            title.append(collection.label.as_str());
            title.append(">");
            title
        },
        None => String::from_str("Details"),
    };
    let url = match &result.collection {
        Some(collection) => collection.links.ui.clone(),
        None => String::from_str("N/A"),
    };
    let mut body = String::from_str("Total: ");
    body.append(u32_to_string(result.total).as_str());
    body.append(" | Active: ");
    body.append(u32_to_string(result.active).as_str());
    body.append(" | Finished: ");
    body.append(u32_to_string(result.finished).as_str());
    body.append("\nRemaining time: ");
    body.append(or_text(&result.remaining_time, "N/A").as_str());
    body.append("\nTook: ");
    body.append(or_text(&result.took, "N/A").as_str());
    body.append("\nURL: ");
    body.append(url.as_str());
    let collection_id = collection_id_of(result);
    let foreign_id = foreign_id_of(result);
    let label = label_of(result);
    let mut heading = String::from_str("ID: ");
    heading.append(collection_id.as_str());
    heading.append(" | Foreign ID: ");
    heading.append(foreign_id.as_str());
    heading.append(" | Label: ");
    heading.append(label.as_str());
    Detail { result_index: owner, collection_id, foreign_id, label, title, heading, body }
}

fn title_line_of(metadata: &Metadata, profile_name: &String, total: u32) -> (line: String)
    ensures
        line@ == title_line(*metadata, profile_name@, total),
{
    let mut line = match &metadata.app.title {
        Some(title) => {
            let mut line = title.clone();
            line.append(" (");
            line
        },
        None => String::from_str("("),
    };
    line.append(profile_name.as_str());
    line.append("): ");
    line.append(u32_to_string(total).as_str());
    line.append(" jobs running");
    line
}

fn versions_line_of(app: &MetadataApp) -> (line: String)
    ensures
        line@ == versions_line(*app),
{
    match (&app.version, &app.ftm_version) {
        (Some(version), Some(ftm)) => {
            let mut line = String::from_str("version: ");
            line.append(version.as_str());
            line.append(", followthemoney: ");
            line.append(ftm.as_str());
            line
        },
        (None, Some(ftm)) => {
            let mut line = String::from_str("followthemoney: ");
            line.append(ftm.as_str());
            line
        },
        (Some(version), None) => {
            let mut line = String::from_str("version: ");
            line.append(version.as_str());
            line
        },
        (None, None) => String::new(),
    }
}

/// The shares, in percent, into which one side of an area is cut so that
/// the middle share is centred.
#[derive(Clone, Copy, Debug, PartialEq, Eq, Structural)]
pub struct Centering {
    pub before: u16,
    pub size: u16,
    pub after: u16,
}

/// A rectangle centred in an area: how the area's width and its height are
/// cut, the rectangle being the middle share of both.
#[derive(Clone, Copy, Debug, PartialEq, Eq, Structural)]
pub struct CenteredRect {
    pub horizontal: Centering,
    pub vertical: Centering,
}

/// The cut that leaves `percent` of a side in the middle, and half of the
/// rest, rounded down, on either side of it.
pub open spec fn centering_of(percent: u16) -> Centering {
    Centering {
        before: ((100 - percent) / 2) as u16,
        size: percent,
        after: ((100 - percent) / 2) as u16,
    }
}

fn centering(percent: u16) -> (cut: Centering)
    requires
        percent <= 100,
    ensures
        cut == centering_of(percent),
{
    Centering { before: (100 - percent) / 2, size: percent, after: (100 - percent) / 2 }
}

/// The rectangle that takes `percent_x` of an area's width and `percent_y`
/// of its height, centred in it.
pub fn centered_rect(percent_x: u16, percent_y: u16) -> (rect: CenteredRect)
    requires
        percent_x <= 100,
        percent_y <= 100,
    ensures
        rect.horizontal == centering_of(percent_x),
        rect.vertical == centering_of(percent_y),
{
    CenteredRect { horizontal: centering(percent_x), vertical: centering(percent_y) }
}

/// The list of profiles as it is shown while another profile is picked.
#[derive(Clone, Debug)]
pub struct ProfileList {
    pub names: Vec<String>,
    /// The position of the highlighted profile.
    pub cursor: usize,
    /// Where on the screen the list stands.
    pub area: CenteredRect,
}

/// One screen of the dashboard.
#[derive(Clone, Debug)]
pub struct Screen {
    /// The two lines of the title.
    pub title: Vec<String>,
    /// The titles of the table's columns.
    pub header: Vec<String>,
    pub rows: Vec<TableRow>,
    /// The highlighted row of the table.
    pub selected: Option<usize>,
    pub detail: Option<Detail>,
    /// The error to show; empty where there is none.
    pub error_message: String,
    pub version_line: String,
    pub fetch_line: String,
    pub shortcuts: String,
    /// The list of profiles, while it is shown.
    pub profiles: Option<ProfileList>,
}

/// The titles of the table's columns.
pub open spec fn column_titles() -> Seq<Seq<char>> {
    seq![
        "Collection ID"@,
        "Foreign ID"@,
        "Label/Task Name"@,
        "Start Time"@,
        "Todo"@,
        "Doing"@,
        "Success"@,
        "Failed"@,
        "Aborted"@,
        "Aborting"@,
        "Cancel"@,
    ]
}

/// The line that names the keys.
pub open spec fn shortcuts_text() -> Seq<char> {
    "Shortcuts: `q`, `^C`, `Esc` - quit, `p` - select profile"@
}

/// The line that names the program and its version.
pub open spec fn version_line(version: Seq<char>) -> Seq<char> {
    "aleph-tui version "@ + version
}

/// What marks a fetch that is under way.
pub open spec fn fetch_icon(is_fetching: bool) -> Seq<char> {
    if is_fetching {
        "\u{1F504}"@
    } else {
        Seq::empty()
    }
}

/// The line that tells how often the backend is asked and, where a fetch is
/// recorded, how many milliseconds ago the last one was, in words.
pub open spec fn fetch_line(is_fetching: bool, interval: i64, elapsed: Option<i64>) -> Seq<char> {
    match elapsed {
        Some(millis) => fetch_icon(is_fetching) + " fetching every "@ + signed_decimal(
            interval as int,
        ) + "s - last fetch "@ + humanized(millis) + " ago"@,
        None => fetch_icon(is_fetching) + " fetching every "@ + signed_decimal(interval as int)
            + "s"@,
    }
}

/// The milliseconds from the last recorded fetch to `now`.
pub open spec fn since_last_fetch(app: App, now: Timestamp) -> Option<i64> {
    match app.last_fetch {
        Some(last) => Some((now.value() - last.value()) as i64),
        None => None,
    }
}

/// The names of the profiles, in their order.
pub open spec fn profile_names(profiles: Seq<Profile>) -> Seq<Seq<char>> {
    Seq::new(profiles.len(), |i: int| profiles[i].name@)
}

/// The share of the screen that the list of profiles takes: two fifths of
/// the width and a quarter of the height, centred.
pub open spec fn popup_area() -> CenteredRect {
    CenteredRect { horizontal: centering_of(40), vertical: centering_of(25) }
}

/// Whether the screen is that of the application at `now`: the title, the
/// table with its cursor, the detail of the result that the selected row
/// belongs to, the error, the status lines, and the list of profiles while
/// it is shown.
pub open spec fn shows(screen: Screen, app: App, now: Timestamp) -> bool {
    &&& texts(screen.title@) == seq![
        title_line(
            app.metadata,
            app.config.profiles@[app.current_profile as int].name@,
            app.status.total,
        ),
        versions_line(app.metadata.app),
    ]
    &&& texts(screen.header@) == column_titles()
    &&& shows_table(screen.rows@, app.status)
    &&& screen.selected == app.selection.index
    &&& match app.selection.index {
        Some(index) => screen.detail is Some && describes(
            screen.detail.unwrap(),
            app.status,
            rows_of(app.status)[index as int].result_index(),
        ),
        None => screen.detail is None,
    }
    &&& screen.error_message@ == app.error_message@
    &&& screen.version_line@ == version_line(app.version@)
    &&& screen.fetch_line@ == fetch_line(
        app.is_fetching,
        app.config.fetch_interval,
        since_last_fetch(app, now),
    )
    &&& screen.shortcuts@ == shortcuts_text()
    &&& match app.switcher {
        ProfileSwitcher::Hidden => screen.profiles is None,
        ProfileSwitcher::Visible { cursor } => {
            &&& screen.profiles is Some
            &&& texts(screen.profiles.unwrap().names@) == profile_names(app.config.profiles@)
            &&& screen.profiles.unwrap().cursor == cursor
            &&& screen.profiles.unwrap().area == popup_area()
        },
    }
}

fn header_of() -> (header: Vec<String>)
    ensures
        texts(header@) == column_titles(),
{
    let mut header: Vec<String> = Vec::new();
    header.push(String::from_str("Collection ID"));
    header.push(String::from_str("Foreign ID"));
    header.push(String::from_str("Label/Task Name"));
    header.push(String::from_str("Start Time"));
    header.push(String::from_str("Todo"));
    header.push(String::from_str("Doing"));
    header.push(String::from_str("Success"));
    header.push(String::from_str("Failed"));
    header.push(String::from_str("Aborted"));
    header.push(String::from_str("Aborting"));
    header.push(String::from_str("Cancel"));
    assert(texts(header@) =~= column_titles());
    header
}

fn fetch_line_of(app: &App, now: Timestamp) -> (line: String)
    ensures
        line@ == fetch_line(app.is_fetching, app.config.fetch_interval, since_last_fetch(*app, now)),
{
    let mut line = if app.is_fetching {
        String::from_str("\u{1F504}")
    } else {
        String::new()
    };
    line.append(" fetching every ");
    line.append(i64_to_string(app.config.fetch_interval).as_str());
    match app.last_fetch {
        Some(last) => {
            line.append("s - last fetch ");
            line.append(elapsed_text(now, last).as_str());
            line.append(" ago");
        },
        None => {
            line.append("s");
        },
    }
    line
}

fn table_of(app: &App) -> (shown: Vec<TableRow>)
    requires
        app.wf(),
    ensures
        shows_table(shown@, app.status),
{
    let mut shown: Vec<TableRow> = Vec::new();
    let mut i: usize = 0;
    while i < app.rows.len()
        invariant
            app.wf(),
            i <= app.rows@.len(),
            shown@.len() == i,
            forall|k: int|
                0 <= k < i ==> shows_row(#[trigger] shown@[k], app.status, rows_of(app.status)[k]),
        decreases app.rows@.len() - i,
    {
        proof {
            crate::rows::lemma_row_names_result(app.status, i as int);
            assert(rows_view(app.rows@)[i as int] == app.rows@[i as int]@);
        }
        let row = cells_of(&app.status, &app.rows[i]);
        shown.push(row);
        i += 1;
    }
    shown
}

fn profile_list_of(app: &App, cursor: usize) -> (list: ProfileList)
    ensures
        texts(list.names@) == profile_names(app.config.profiles@),
        list.cursor == cursor,
        list.area == popup_area(),
{
    let mut names: Vec<String> = Vec::new();
    let mut i: usize = 0;
    while i < app.config.profiles.len()
        invariant
            i <= app.config.profiles@.len(),
            names@.len() == i,
            forall|k: int| 0 <= k < i ==> (#[trigger] names@[k])@ == app.config.profiles@[k].name@,
        decreases app.config.profiles@.len() - i,
    {
        names.push(app.config.profiles[i].name.clone());
        i += 1;
    }
    assert(texts(names@) =~= profile_names(app.config.profiles@));
    ProfileList { names, cursor, area: centered_rect(40, 25) }
}

/// The screen of the application at `now`.
pub fn render(app: &App, now: Timestamp) -> (screen: Screen)
    requires
        app.wf(),
    ensures
        shows(screen, *app, now),
{
    let mut title: Vec<String> = Vec::new();
    title.push(title_line_of(&app.metadata, &app.current_profile().name, app.status.total));
    title.push(versions_line_of(&app.metadata.app));
    assert(texts(title@) =~= seq![
        title_line(
            app.metadata,
            app.config.profiles@[app.current_profile as int].name@,
            app.status.total,
        ),
        versions_line(app.metadata.app),
    ]);
    let detail = match app.selection.selected() {
        Some(index) => match app.resolve_detail(index) {
            Some(owner) => Some(detail_of(&app.status, owner)),
            None => None,
        },
        None => None,
    };
    let mut version_line = String::from_str("aleph-tui version ");
    version_line.append(app.version.as_str());
    let profiles = match app.switcher {
        ProfileSwitcher::Hidden => None,
        ProfileSwitcher::Visible { cursor } => Some(profile_list_of(app, cursor)),
    };
    Screen {
        title,
        header: header_of(),
        rows: table_of(app),
        selected: app.selection.selected(),
        detail,
        error_message: app.error_message.clone(),
        version_line,
        fetch_line: fetch_line_of(app, now),
        shortcuts: String::from_str("Shortcuts: `q`, `^C`, `Esc` - quit, `p` - select profile"),
        profiles,
    }
}

} // verus!
