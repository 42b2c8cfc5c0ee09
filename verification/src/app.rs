//! The state of the dashboard, owned by one control loop: the configured
//! profiles, the latest snapshot with its table and cursor, the profile
//! switcher with a cursor of its own, and the time of the last fetch.

use crate::models::{Metadata, Status};
use crate::rows::{flatten, rows_of, rows_view, same_rows, DisplayRow};
use crate::selection::{clamped, moved_down, moved_up, valid_for, Selection};
use crate::throttle::{due, is_due, Timestamp};
use vstd::prelude::*;

verus! {

/// A backend that the dashboard can watch.
#[derive(Clone, Debug)]
pub struct Profile {
    pub name: String,
    /// The position of the profile in the configured list.
    pub index: usize,
    pub url: String,
    pub api_key: String,
}

/// What the dashboard is configured with.
#[derive(Clone, Debug)]
pub struct Config {
    pub profiles: Vec<Profile>,
    /// The seconds that must have passed before the next fetch.
    pub fetch_interval: i64,
}

/// The list from which another profile is picked: hidden, or visible with
/// its cursor on one of the profiles.
#[derive(Clone, Copy, Debug)]
pub enum ProfileSwitcher {
    Hidden,
    Visible { cursor: usize },
}

/// What can go wrong.
#[derive(Clone, Debug)]
pub enum AppError {
    /// A payload that does not have the shape of a snapshot.
    MalformedSnapshot(String),
    /// The backend could not be reached, or refused.
    FetchError(String),
    /// The configuration names no profile that could be the current one.
    NoCurrentProfile,
}

/// The state of the dashboard.
#[derive(Clone, Debug)]
pub struct App {
    pub config: Config,
    pub current_profile: usize,
    pub status: Status,
    pub metadata: Metadata,
    /// The table of `status`.
    pub rows: Vec<DisplayRow>,
    /// The cursor of the table.
    pub selection: Selection,
    pub switcher: ProfileSwitcher,
    /// The error to show; empty where there is none.
    pub error_message: String,
    /// When the last fetch ended; `None` where the next one is due at once.
    pub last_fetch: Option<Timestamp>,
    pub is_fetching: bool,
    pub should_quit: bool,
    pub version: String,
}

/// The text of the error that names no current profile.
pub open spec fn no_profile_text() -> Seq<char> {
    "no current profile"@
}

impl AppError {
    /// The text of the error, as a sequence of characters.
    pub open spec fn text(self) -> Seq<char> {
        match self {
            AppError::MalformedSnapshot(message) => message@,
            AppError::FetchError(message) => message@,
            AppError::NoCurrentProfile => no_profile_text(),
        }
    }

    /// The text to show for the error.
    pub fn message(&self) -> (message: String)
        ensures
            message@ == self.text(),
    {
        match self {
            AppError::MalformedSnapshot(message) => message.clone(),
            AppError::FetchError(message) => message.clone(),
            AppError::NoCurrentProfile => String::from_str("no current profile"),
        }
    }
}

impl Config {
    /// There is a profile, and each profile's index is its position.
    pub open spec fn valid(&self) -> bool {
        &&& self.profiles@.len() > 0
        &&& forall|i: int|
            0 <= i < self.profiles@.len() ==> (#[trigger] self.profiles@[i]).index == i
    }

    /// Whether there is a profile and each profile's index is its position.
    pub fn is_valid(&self) -> (yes: bool)
        ensures
            yes == self.valid(),
    {
        if self.profiles.len() == 0 {
            return false;
        }
        let mut i: usize = 0;
        while i < self.profiles.len()
            invariant
                i <= self.profiles@.len(),
                forall|k: int| 0 <= k < i ==> (#[trigger] self.profiles@[k]).index == k,
            decreases self.profiles@.len() - i,
        {
            if self.profiles[i].index != i {
                return false;
            }
            i += 1;
        }
        true
    }
}

/// What is shown of a tick's two fetches: the last error met, that of the
/// metadata where it failed, else that of the status; nothing where both
/// succeeded.
pub open spec fn fetch_message(
    status: Result<Status, AppError>,
    metadata: Result<Metadata, AppError>,
) -> Seq<char> {
    match metadata {
        Err(e) => e.text(),
        Ok(_) => match status {
            Err(e) => e.text(),
            Ok(_) => Seq::empty(),
        },
    }
}

/// Whether `post` is `pre` with nothing changed but the table's cursor.
pub open spec fn same_but_selection(pre: App, post: App) -> bool {
    post == (App { selection: post.selection, ..pre })
}

/// Whether `post` is `pre` with nothing changed but the profile switcher.
pub open spec fn same_but_switcher(pre: App, post: App) -> bool {
    post == (App { switcher: post.switcher, ..pre })
}

/// Whether `post` is `pre` asked to end.
pub open spec fn quit_asked(pre: App, post: App) -> bool {
    post == (App { should_quit: true, ..pre })
}

/// Whether `post` is `pre` with the switcher toggled: shown with its cursor
/// on the current profile where it was hidden, hidden where it was shown.
pub open spec fn toggled(pre: App, post: App) -> bool {
    &&& same_but_switcher(pre, post)
    &&& post.switcher == match pre.switcher {
        ProfileSwitcher::Hidden => ProfileSwitcher::Visible { cursor: pre.current_profile },
        ProfileSwitcher::Visible { .. } => ProfileSwitcher::Hidden,
    }
}

/// Whether `post` is `pre` with the switcher's cursor one profile up, where
/// the switcher is shown and the cursor not on the first profile; else
/// unchanged.
pub open spec fn profile_stepped_up(pre: App, post: App) -> bool {
    &&& same_but_switcher(pre, post)
    &&& post.switcher == match pre.switcher {
        ProfileSwitcher::Hidden => ProfileSwitcher::Hidden,
        ProfileSwitcher::Visible { cursor } => ProfileSwitcher::Visible {
            cursor: moved_up(Some(cursor)).unwrap(),
        },
    }
}

/// Whether `post` is `pre` with the switcher's cursor one profile down,
/// where the switcher is shown and the cursor not on the last profile; else
/// unchanged.
pub open spec fn profile_stepped_down(pre: App, post: App) -> bool {
    &&& same_but_switcher(pre, post)
    &&& post.switcher == match pre.switcher {
        ProfileSwitcher::Hidden => ProfileSwitcher::Hidden,
        ProfileSwitcher::Visible { cursor } => ProfileSwitcher::Visible {
            cursor: moved_down(Some(cursor), pre.config.profiles@.len()).unwrap(),
        },
    }
}

/// Whether `post` is `pre` with the table's cursor one row up, where it is
/// not on the first row; else unchanged.
pub open spec fn stepped_up(pre: App, post: App) -> bool {
    &&& same_but_selection(pre, post)
    &&& post.selection.index == moved_up(pre.selection.index)
}

/// Whether `post` is `pre` with the table's cursor one row down, where it is
/// not on the last row; else unchanged.
pub open spec fn stepped_down(pre: App, post: App) -> bool {
    &&& same_but_selection(pre, post)
    &&& post.selection.index == moved_down(pre.selection.index, pre.rows@.len())
}

/// Whether `post` holds the configuration, the version and the flags of
/// `pre`: all that neither a fetch nor a change of profile touches.
pub open spec fn same_session(pre: App, post: App) -> bool {
    &&& post.config == pre.config
    &&& post.version == pre.version
    &&& post.should_quit == pre.should_quit
}

/// Whether `post` is what a confirmed pick leaves of `pre`: the profile
/// under the cursor is the current one, the snapshot is gone and with it the
/// table and its cursor, the next fetch is due at once, and the switcher is
/// hidden. Where the switcher was hidden, nothing has changed.
pub open spec fn confirmed(pre: App, post: App) -> bool {
    match pre.switcher {
        ProfileSwitcher::Hidden => post == pre,
        ProfileSwitcher::Visible { cursor } => {
            &&& same_session(pre, post)
            &&& post.current_profile == cursor
            &&& post.status.results@.len() == 0
            &&& post.status.total == 0
            &&& post.metadata.status@.len() == 0
            &&& !post.metadata.maintenance
            &&& post.metadata.app.title is None
            &&& post.metadata.app.version is None
            &&& post.metadata.app.ftm_version is None
            &&& post.rows@.len() == 0
            &&& post.selection.index is None
            &&& post.switcher is Hidden
            &&& post.last_fetch is None
            &&& post.error_message == pre.error_message
            &&& post.is_fetching == pre.is_fetching
        },
    }
}

/// Whether `post` is `pre` after a tick's two fetches ended at `now` with
/// the given outcomes: each snapshot replaced where its fetch succeeded and
/// kept where it failed, the table made anew, the cursor brought into it,
/// the message set, and the time recorded whatever the outcomes.
pub open spec fn fetched(
    pre: App,
    post: App,
    status: Result<Status, AppError>,
    metadata: Result<Metadata, AppError>,
    now: Timestamp,
) -> bool {
    &&& same_session(pre, post)
    &&& post.current_profile == pre.current_profile
    &&& post.switcher == pre.switcher
    &&& post.status == match status {
        Ok(s) => s,
        Err(_) => pre.status,
    }
    &&& post.metadata == match metadata {
        Ok(m) => m,
        Err(_) => pre.metadata,
    }
    &&& rows_view(post.rows@) == rows_of(post.status)
    &&& post.selection.index == clamped(pre.selection.index, rows_of(post.status).len())
    &&& post.error_message@ == fetch_message(status, metadata)
    &&& post.last_fetch == Some(now)
    &&& !post.is_fetching
}

impl App {
    /// The state is sound: the current profile and the switcher's cursor are
    /// profiles of the configuration, the table is that of the snapshot, and
    /// the table's cursor is on one of its rows, or on none where it has none.
    pub open spec fn wf(&self) -> bool {
        &&& self.config.valid()
        &&& self.current_profile < self.config.profiles@.len()
        &&& rows_view(self.rows@) == rows_of(self.status)
        &&& valid_for(self.selection.index, self.rows@.len())
        &&& match self.switcher {
            ProfileSwitcher::Hidden => true,
            ProfileSwitcher::Visible { cursor } => cursor < self.config.profiles@.len(),
        }
    }

    /// Whether the state is sound. A state that `new` made and that only the
    /// functions of this library changed always is.
    pub fn is_valid(&self) -> (yes: bool)
        ensures
            yes == self.wf(),
    {
        let profile_count = self.config.profiles.len();
        if !self.config.is_valid() || self.current_profile >= profile_count {
            return false;
        }
        let table = flatten(&self.status);
        if !same_rows(&self.rows, &table) {
            return false;
        }
        let row_count = self.rows.len();
        let selection_fits = match self.selection.index {
            None => row_count == 0,
            Some(i) => i < row_count,
        };
        let cursor_fits = match self.switcher {
            ProfileSwitcher::Hidden => true,
            ProfileSwitcher::Visible { cursor } => cursor < profile_count,
        };
        selection_fits && cursor_fits
    }

    /// Whether a fetch is due at `now`: at once where none is recorded, else
    /// when more than the interval has passed since the last.
    pub open spec fn due_at(&self, now: Timestamp) -> bool {
        match self.last_fetch {
            None => true,
            Some(last) => due(now.value(), last.value(), self.config.fetch_interval as int),
        }
    }

    /// The dashboard before its first fetch, on the profile at
    /// `current_profile`. Fails where the configuration has no profile, where
    /// a profile's index is not its position, or where `current_profile` is
    /// none of the profiles.
    pub fn new(config: Config, current_profile: usize, version: String) -> (made: Result<
        App,
        AppError,
    >)
        ensures
            made is Ok <==> config.valid() && current_profile < config.profiles@.len(),
            made is Err ==> made->Err_0 is NoCurrentProfile,
            made is Ok ==> {
                let app = made->Ok_0;
                &&& app.wf()
                &&& app.config == config
                &&& app.current_profile == current_profile
                &&& app.version == version
                &&& app.status.results@.len() == 0
                &&& app.status.total == 0
                &&& app.metadata.status@.len() == 0
                &&& !app.metadata.maintenance
                &&& app.metadata.app.title is None
                &&& app.rows@.len() == 0
                &&& app.selection.index is None
                &&& app.switcher is Hidden
                &&& app.error_message@.len() == 0
                &&& app.last_fetch is None
                &&& !app.is_fetching
                &&& !app.should_quit
            },
    {
        if !config.is_valid() || current_profile >= config.profiles.len() {
            return Err(AppError::NoCurrentProfile);
        }
        let app = App {
            config,
            current_profile,
            status: Status::default(),
            metadata: Metadata::default(),
            rows: Vec::new(),
            selection: Selection::new(),
            switcher: ProfileSwitcher::Hidden,
            error_message: String::new(),
            last_fetch: None,
            is_fetching: false,
            should_quit: false,
            version,
        };
        assert(rows_view(app.rows@) =~= rows_of(app.status));
        Ok(app)
    }

    /// The profile that is watched.
    pub fn current_profile(&self) -> (profile: &Profile)
        requires
            self.wf(),
        ensures
            *profile == self.config.profiles@[self.current_profile as int],
            profile.index == self.current_profile,
    {
        &self.config.profiles[self.current_profile]
    }

    /// The number of rows of the table.
    pub fn row_count(&self) -> (count: usize)
        ensures
            count == self.rows@.len(),
            self.wf() ==> count == rows_of(self.status).len(),
    {
        self.rows.len()
    }

    /// Asks the control loop to end.
    pub fn quit(&mut self)
        ensures
            quit_asked(*old(self), *final(self)),
    {
        self.should_quit = true;
    }

    /// Whether the list of profiles is shown.
    pub fn show_profile_selector(&self) -> (shown: bool)
        ensures
            shown == (self.switcher is Visible),
    {
        match self.switcher {
            ProfileSwitcher::Hidden => false,
            ProfileSwitcher::Visible { .. } => true,
        }
    }

    /// Shows the list of profiles, with its cursor on the current profile, or
    /// hides it again. Hiding it this way picks no profile.
    pub fn toggle_profile_selector(&mut self)
        requires
            old(self).wf(),
        ensures
            final(self).wf(),
            toggled(*old(self), *final(self)),
    {
        match self.switcher {
            ProfileSwitcher::Hidden => {
                self.switcher = ProfileSwitcher::Visible { cursor: self.current_profile };
            },
            ProfileSwitcher::Visible { .. } => {
                self.switcher = ProfileSwitcher::Hidden;
            },
        }
    }

    /// Moves the switcher's cursor one profile up; it stops at the first.
    /// Nothing changes where the switcher is hidden.
    pub fn profile_up(&mut self)
        requires
            old(self).wf(),
        ensures
            final(self).wf(),
            profile_stepped_up(*old(self), *final(self)),
    {
        match self.switcher {
            ProfileSwitcher::Hidden => {},
            ProfileSwitcher::Visible { cursor } => {
                if cursor > 0 {
                    self.switcher = ProfileSwitcher::Visible { cursor: cursor - 1 };
                }
            },
        }
    }

    /// Moves the switcher's cursor one profile down; it stops at the last.
    /// Nothing changes where the switcher is hidden.
    pub fn profile_down(&mut self)
        requires
            old(self).wf(),
        ensures
            final(self).wf(),
            profile_stepped_down(*old(self), *final(self)),
    {
        match self.switcher {
            ProfileSwitcher::Hidden => {},
            ProfileSwitcher::Visible { cursor } => {
                let count = self.config.profiles.len();
                if cursor + 1 < count {
                    self.switcher = ProfileSwitcher::Visible { cursor: cursor + 1 };
                }
            },
        }
    }

    /// Moves the table's cursor one row up; it stops at the first row.
    pub fn collection_up(&mut self)
        requires
            old(self).wf(),
        ensures
            final(self).wf(),
            stepped_up(*old(self), *final(self)),
    {
        self.selection.move_up();
    }

    /// Moves the table's cursor one row down; it stops at the last row.
    pub fn collection_down(&mut self)
        requires
            old(self).wf(),
        ensures
            final(self).wf(),
            stepped_down(*old(self), *final(self)),
    {
        let row_count = self.rows.len();
        self.selection.move_down(row_count);
    }

    /// Makes the profile under the switcher's cursor the current one: the
    /// snapshot of the old profile is thrown away, the table's cursor is
    /// reset, the next fetch is due at once, and the switcher is hidden.
    /// Nothing changes where the switcher is hidden.
    pub fn confirm_profile(&mut self)
        requires
            old(self).wf(),
        ensures
            final(self).wf(),
            confirmed(*old(self), *final(self)),
    {
        match self.switcher {
            ProfileSwitcher::Hidden => {},
            ProfileSwitcher::Visible { cursor } => {
                self.current_profile = cursor;
                self.status = Status::default();
                self.metadata = Metadata::default();
                self.rows = Vec::new();
                self.selection.reset();
                self.switcher = ProfileSwitcher::Hidden;
                self.last_fetch = None;
                assert(rows_view(self.rows@) =~= rows_of(self.status));
            },
        }
    }

    /// The result that a row of the table belongs to: for a collection row
    /// its own result, for a task row the result that holds the task. `None`
    /// where the table has no such row.
    pub fn resolve_detail(&self, index: usize) -> (owner: Option<usize>)
        requires
            self.wf(),
        ensures
            owner is Some <==> index < rows_of(self.status).len(),
            owner is Some ==> owner.unwrap() == rows_of(self.status)[index as int].result_index(),
            owner is Some ==> owner.unwrap() < self.status.results@.len(),
    {
        if index < self.rows.len() {
            proof {
                crate::rows::lemma_row_names_result(self.status, index as int);
                assert(rows_view(self.rows@)[index as int] == self.rows@[index as int]@);
            }
            Some(self.rows[index].result_index())
        } else {
            None
        }
    }

    /// Whether a fetch is due at `now`.
    pub fn fetch_due(&self, now: Timestamp) -> (yes: bool)
        ensures
            yes == self.due_at(now),
    {
        match self.last_fetch {
            None => true,
            Some(last) => is_due(now, last, self.config.fetch_interval),
        }
    }

    /// Notes that a fetch has begun.
    pub fn begin_fetch(&mut self)
        ensures
            *final(self) == (App { is_fetching: true, ..*old(self) }),
    {
        self.is_fetching = true;
    }

    /// Takes in what a tick's two fetches gave, which ended at `now`. A
    /// snapshot that came replaces the old one as a whole; where a fetch
    /// failed the old snapshot stays. The time is recorded either way, so
    /// that a failing backend is asked no more often than a healthy one.
    pub fn finish_fetch(
        &mut self,
        status: Result<Status, AppError>,
        metadata: Result<Metadata, AppError>,
        now: Timestamp,
    )
        requires
            old(self).wf(),
        ensures
            final(self).wf(),
            fetched(*old(self), *final(self), status, metadata, now),
    {
        let mut message = String::new();
        match status {
            Ok(snapshot) => {
                self.rows = flatten(&snapshot);
                self.status = snapshot;
            },
            Err(e) => {
                message = e.message();
            },
        }
        match metadata {
            Ok(snapshot) => {
                self.metadata = snapshot;
            },
            Err(e) => {
                message = e.message();
            },
        }
        let row_count = self.rows.len();
        self.selection.clamp_to(row_count);
        self.error_message = message;
        self.last_fetch = Some(now);
        self.is_fetching = false;
    }
}

/// After a confirmed pick the old snapshot is gone, nothing is selected,
/// and a fetch is due whatever the time.
pub proof fn lemma_switch_forces_fetch(pre: App, post: App, now: Timestamp)
    requires
        pre.switcher is Visible,
        confirmed(pre, post),
    ensures
        post.due_at(now),
        post.status.results@.len() == 0,
        post.rows@.len() == 0,
        post.selection.index is None,
{
}

/// After a tick's fetches, whatever their outcomes, the next fetch is due
/// only when more than the interval has passed since they ended.
pub proof fn lemma_fetch_waits_for_interval(
    pre: App,
    post: App,
    status: Result<Status, AppError>,
    metadata: Result<Metadata, AppError>,
    ended: Timestamp,
    now: Timestamp,
)
    requires
        fetched(pre, post, status, metadata, ended),
    ensures
        post.due_at(now) <==> due(now.value(), ended.value(), pre.config.fetch_interval as int),
        pre.config.fetch_interval >= 0 ==> !post.due_at(ended),
{
}

/// After a tick's fetches the table's cursor fits the new table: it is none
/// exactly where the table has no rows, and else on one of its rows. A
/// cursor that still fits has not moved; the switcher and the current
/// profile are never touched.
pub proof fn lemma_fetch_keeps_cursor_inside(
    pre: App,
    post: App,
    status: Result<Status, AppError>,
    metadata: Result<Metadata, AppError>,
    ended: Timestamp,
)
    requires
        fetched(pre, post, status, metadata, ended),
    ensures
        valid_for(post.selection.index, rows_of(post.status).len()),
        post.selection.index is None <==> rows_of(post.status).len() == 0,
        valid_for(pre.selection.index, rows_of(post.status).len()) ==> post.selection.index
            == pre.selection.index,
        post.switcher == pre.switcher,
        post.current_profile == pre.current_profile,
{
    crate::selection::lemma_clamped_fits(pre.selection.index, rows_of(post.status).len());
}

} // verus!
